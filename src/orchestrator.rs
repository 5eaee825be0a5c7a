//! The trial state machine of an experiment run. Each event comes in as a
//! method call and answers with the action the caller performs next; every
//! action that comes back later as an event carries the run it belongs to,
//! so results addressed to an aborted run are dropped.
use vstd::prelude::*;

use crate::experiment::{create_experiment_instance, spec_validate, validate_run};
use crate::structs::{ExperimentInstance, ExperimentStage, Parameters, Shapes};

verus! {

/// The fixed pause between stages, against double dispatch.
pub const SETTLE_DELAY_MS: u64 = 50;

/// What the caller does after an event.
pub enum StageAction {
    /// Nothing.
    Idle,
    /// Wait the settle delay, then send `next_stage` for this run.
    Settle(u64),
    /// Draw the shape at this velocity and acceleration (thousandths), then
    /// send `drawing_result` for this run.
    Draw(u64, Shapes, i64, i64),
    /// Stand in for drawing with a pause, then send `drawing_result` for this run.
    Simulate(u64),
    /// The run was aborted by this hardware failure.
    Aborted(String),
    /// The run is complete: aggregate this plan.
    Finished(ExperimentInstance),
}

pub struct Orchestrator {
    pub stage: ExperimentStage,
    pub instance: Option<ExperimentInstance>,
    pub is_busy: bool,
    pub is_time_counting: bool,
    /// When the current trial's drawing finished, in milliseconds.
    pub time_start: u128,
    /// When the last answer came, in milliseconds.
    pub time_end: u128,
    /// Arm velocity of the run, in thousandths.
    pub speed: i64,
    /// Arm acceleration of the run, in thousandths.
    pub acceleration: i64,
    /// Identifies the current run; changes whenever a run begins or ends by abort.
    pub run_id: u64,
    pub is_simulate_mode: bool,
    /// The message shown beside the start button.
    pub error_info: Option<String>,
}

/// The wrapping successor of a run identifier.
pub open spec fn next_run(id: u64) -> u64 {
    if id == u64::MAX {
        0
    } else {
        (id + 1) as u64
    }
}

impl Orchestrator {
    /// A run is active exactly when a plan is held; an active plan is well
    /// formed, answered up to its cursor, and not longer than a `u32` count.
    pub open spec fn wf(&self) -> bool {
        &&& (self.stage == ExperimentStage::NotInExperiment) == (self.instance is None)
        &&& self.is_busy == (self.instance is Some)
        &&& self.instance matches Some(p) ==> {
            &&& p.wf()
            &&& p.shapes_selection@.no_duplicates()
            &&& p.list_of_guesses@.len() == p.experiment_index
            &&& p.list_of_shapes@.len() <= u32::MAX
        }
    }

    /// The true shape of the current trial.
    pub open spec fn current_shape(&self) -> Shapes {
        let p = self.instance.unwrap();
        p.list_of_shapes@[p.experiment_index as int]
    }

    /// State after an abort: no run, nothing timed.
    pub open spec fn is_reset_of(&self, old: &Orchestrator) -> bool {
        &&& self.stage == ExperimentStage::NotInExperiment
        &&& self.instance is None
        &&& !self.is_busy
        &&& !self.is_time_counting
        &&& self.time_start == 0
        &&& self.time_end == 0
        &&& self.speed == 0
        &&& self.acceleration == 0
        &&& self.run_id == next_run(old.run_id)
        &&& self.is_simulate_mode == old.is_simulate_mode
        &&& self.error_info == old.error_info
    }

    pub fn new(is_simulate_mode: bool) -> (r: Self)
        ensures
            r.wf(),
            r.stage == ExperimentStage::NotInExperiment,
            r.is_simulate_mode == is_simulate_mode,
    {
        Orchestrator {
            stage: ExperimentStage::NotInExperiment,
            instance: None,
            is_busy: false,
            is_time_counting: false,
            time_start: 0,
            time_end: 0,
            speed: 0,
            acceleration: 0,
            run_id: 0,
            is_simulate_mode,
            error_info: None,
        }
    }

    fn reset(&mut self)
        ensures
            final(self).is_reset_of(old(self)),
    {
        self.stage = ExperimentStage::NotInExperiment;
        self.instance = None;
        self.is_busy = false;
        self.speed = 0;
        self.acceleration = 0;
        self.time_start = 0;
        self.time_end = 0;
        self.is_time_counting = false;
        self.run_id = if self.run_id == u64::MAX {
            0
        } else {
            self.run_id + 1
        };
    }

    /// Begins a run when none is active and the parameters and shape
    /// selection pass the checks; otherwise reports the first failed check
    /// and changes only the message shown.
    pub fn begin(&mut self, params: &Parameters, shapes_to_use: &Vec<(Shapes, bool)>) -> (r: Result<
        StageAction,
        String,
    >)
        requires
            old(self).wf(),
        ensures
            final(self).wf(),
            spec_begin(*old(self), *final(self), r, *params, shapes_to_use@),
    {
        if self.stage != ExperimentStage::NotInExperiment {
            return Ok(StageAction::Idle);
        }
        match validate_run(params, shapes_to_use) {
            Err(m) => {
                self.error_info = Some(m.clone());
                Err(m)
            },
            Ok(settings) => {
                let plan = create_experiment_instance(settings.selection, settings.test_count);
                self.instance = Some(plan);
                self.error_info = Some(String::new());
                self.is_busy = true;
                self.speed = settings.speed;
                self.acceleration = settings.acceleration;
                self.run_id = if self.run_id == u64::MAX {
                    0
                } else {
                    self.run_id + 1
                };
                self.stage = ExperimentStage::BeginTiming;
                Ok(StageAction::Settle(self.run_id))
            },
        }
    }

    /// The settle delay of run `run` has passed: from `BeginTiming` the timing
    /// flag is cleared and the trial goes to `Preparation`; in `Preparation`
    /// the current shape is drawn. Any other event is dropped.
    pub fn next_stage(&mut self, run: u64) -> (a: StageAction)
        requires
            old(self).wf(),
        ensures
            final(self).wf(),
            spec_next_stage(*old(self), *final(self), a, run),
    {
        if run != self.run_id {
            return StageAction::Idle;
        }
        match self.stage {
            ExperimentStage::BeginTiming => {
                self.is_time_counting = false;
                self.stage = ExperimentStage::Preparation;
                StageAction::Settle(run)
            },
            ExperimentStage::Preparation => {
                if self.is_simulate_mode {
                    StageAction::Simulate(run)
                } else {
                    match &self.instance {
                        Some(p) => StageAction::Draw(
                            run,
                            p.list_of_shapes[p.experiment_index],
                            self.speed,
                            self.acceleration,
                        ),
                        None => StageAction::Idle,
                    }
                }
            },
            _ => StageAction::Idle,
        }
    }

    /// The drawing of run `run` ended at `now` (milliseconds), with `None` on
    /// success or the failure's description. On success the trial's clock
    /// starts, unless it already runs, and answers are taken; a failure
    /// aborts the run. Results for another run or stage are dropped.
    pub fn drawing_result(&mut self, run: u64, outcome: Option<String>, now: u128) -> (a:
        StageAction)
        requires
            old(self).wf(),
        ensures
            final(self).wf(),
            spec_drawing_result(*old(self), *final(self), a, run, outcome, now),
    {
        if run != self.run_id || self.stage != ExperimentStage::Preparation {
            return StageAction::Idle;
        }
        match outcome {
            Some(e) => {
                self.reset();
                StageAction::Aborted(e)
            },
            None => {
                if !self.is_time_counting {
                    self.time_start = now;
                    self.is_time_counting = true;
                }
                self.stage = ExperimentStage::Answering;
                StageAction::Idle
            },
        }
    }

    /// The subject answered `shape` at `now` (milliseconds): the answer and
    /// the time since drawing finished are recorded. After the last trial the
    /// run ends and its plan is handed out; otherwise the next trial begins.
    pub fn shape_selected(&mut self, shape: Shapes, now: u128) -> (a: StageAction)
        requires
            old(self).wf(),
        ensures
            final(self).wf(),
            spec_shape_selected(*old(self), *final(self), a, shape, now),
    {
        if self.stage != ExperimentStage::Answering {
            return StageAction::Idle;
        }
        self.time_end = now;
        let elapsed: u128 = if now >= self.time_start {
            now - self.time_start
        } else {
            0
        };
        let mut p = match self.instance.take() {
            Some(p) => p,
            None => {
                return StageAction::Idle;
            },
        };
        p.list_of_guesses.push(shape);
        p.list_of_time.push(elapsed);
        if p.experiment_index + 1 == p.list_of_shapes.len() {
            self.is_busy = false;
            self.stage = ExperimentStage::NotInExperiment;
            StageAction::Finished(p)
        } else {
            p.experiment_index = p.experiment_index + 1;
            self.instance = Some(p);
            self.stage = ExperimentStage::BeginTiming;
            StageAction::Settle(self.run_id)
        }
    }

    /// The subject asked to see the current shape again: its retry count
    /// goes up by one (staying at `u32::MAX` once there) and it is redrawn.
    pub fn retry(&mut self) -> (a: StageAction)
        requires
            old(self).wf(),
        ensures
            final(self).wf(),
            spec_retry(*old(self), *final(self), a),
    {
        if self.stage != ExperimentStage::Answering {
            return StageAction::Idle;
        }
        let mut p = match self.instance.take() {
            Some(p) => p,
            None => {
                return StageAction::Idle;
            },
        };
        let i = p.experiment_index;
        let c = p.list_of_retries[i];
        let c2 = if c < u32::MAX {
            c + 1
        } else {
            c
        };
        p.list_of_retries.set(i, c2);
        self.instance = Some(p);
        self.stage = ExperimentStage::Preparation;
        StageAction::Settle(self.run_id)
    }

    /// Abandons the active run, whatever its stage; without one, nothing
    /// changes.
    pub fn abort(&mut self) -> (a: StageAction)
        requires
            old(self).wf(),
        ensures
            final(self).wf(),
            a matches StageAction::Idle,
            old(self).stage != ExperimentStage::NotInExperiment ==> final(self).is_reset_of(
                old(self),
            ),
            old(self).stage == ExperimentStage::NotInExperiment ==> *final(self) == *old(self),
    {
        if self.stage != ExperimentStage::NotInExperiment {
            self.reset();
        }
        StageAction::Idle
    }
}

/// `next_stage(run)`: from `BeginTiming` of the current run, clear the
/// timing flag and go to `Preparation`; in `Preparation`, draw (or simulate)
/// the current shape; otherwise drop the event.
pub open spec fn spec_next_stage(o: Orchestrator, f: Orchestrator, a: StageAction, run: u64) -> bool {
    if run == o.run_id && o.stage == ExperimentStage::BeginTiming {
        &&& (a matches StageAction::Settle(id) && id == run)
        &&& f == (Orchestrator { stage: ExperimentStage::Preparation, is_time_counting: false, ..o })
    } else if run == o.run_id && o.stage == ExperimentStage::Preparation {
        &&& f == o
        &&& o.is_simulate_mode ==> (a matches StageAction::Simulate(id) && id == run)
        &&& !o.is_simulate_mode ==> (a matches StageAction::Draw(id, s, v, c) && id == run
            && s == o.current_shape() && v == o.speed && c == o.acceleration)
    } else {
        (a matches StageAction::Idle) && f == o
    }
}

/// `drawing_result(run, outcome, now)`: a failure aborts the run; success
/// starts the trial's clock unless it already runs, and answers are taken.
/// Results for another run or stage are dropped.
pub open spec fn spec_drawing_result(o: Orchestrator, f: Orchestrator, a: StageAction, run: u64, outcome: Option<String>, now: u128) -> bool {
    if !(run == o.run_id && o.stage == ExperimentStage::Preparation) {
        (a matches StageAction::Idle) && f == o
    } else if outcome is Some {
        (a matches StageAction::Aborted(e) && Some(e) == outcome) && f.is_reset_of(&o)
    } else {
        &&& (a matches StageAction::Idle)
        &&& f == (Orchestrator {
            stage: ExperimentStage::Answering,
            is_time_counting: true,
            time_start: if o.is_time_counting { o.time_start } else { now },
            ..o
        })
    }
}

/// Time from the trial's start to `now`; zero if the clock went backwards.
pub open spec fn spec_elapsed(start: u128, now: u128) -> u128 {
    if now >= start {
        (now - start) as u128
    } else {
        0u128
    }
}

/// The plan `p` with answer `shape`, given after `elapsed`, recorded.
pub open spec fn records_answer(q: ExperimentInstance, p: ExperimentInstance, shape: Shapes, elapsed: u128) -> bool {
    &&& q.list_of_guesses@ == p.list_of_guesses@.push(shape)
    &&& q.list_of_time@ == p.list_of_time@.push(elapsed)
    &&& q.list_of_shapes@ == p.list_of_shapes@
    &&& q.list_of_retries@ == p.list_of_retries@
    &&& q.shapes_selection@ == p.shapes_selection@
}

/// `shape_selected(shape, now)` in `Answering`: the answer and its time are
/// recorded; after the last trial the run ends and hands out its plan,
/// otherwise the cursor moves on and the next trial begins. In other
/// stages the event is dropped.
pub open spec fn spec_shape_selected(o: Orchestrator, f: Orchestrator, a: StageAction, shape: Shapes, now: u128) -> bool {
    if o.stage != ExperimentStage::Answering {
        (a matches StageAction::Idle) && f == o
    } else {
        let p = o.instance.unwrap();
        let elapsed = spec_elapsed(o.time_start, now);
        &&& f.time_end == now
        &&& f.run_id == o.run_id
        &&& if p.experiment_index + 1 == p.list_of_shapes@.len() {
            &&& (a matches StageAction::Finished(q) && records_answer(q, p, shape, elapsed))
            &&& f.stage == ExperimentStage::NotInExperiment
            &&& !f.is_busy
        } else {
            &&& (a matches StageAction::Settle(id) && id == o.run_id)
            &&& f.stage == ExperimentStage::BeginTiming
            &&& (f.instance matches Some(q) && records_answer(q, p, shape, elapsed)
                && q.experiment_index == p.experiment_index + 1)
        }
    }
}

/// A retry count one higher, staying at `u32::MAX` once there.
pub open spec fn spec_bumped(c: u32) -> u32 {
    if c < u32::MAX {
        (c + 1) as u32
    } else {
        u32::MAX
    }
}

/// `retry()` in `Answering`: the current trial's retry count goes up and the
/// same shape is drawn again; nothing else in the plan changes. In other
/// stages the event is dropped.
pub open spec fn spec_retry(o: Orchestrator, f: Orchestrator, a: StageAction) -> bool {
    if o.stage != ExperimentStage::Answering {
        (a matches StageAction::Idle) && f == o
    } else {
        let p = o.instance.unwrap();
        let i = p.experiment_index as int;
        &&& (a matches StageAction::Settle(id) && id == o.run_id)
        &&& f.stage == ExperimentStage::Preparation
        &&& f.run_id == o.run_id
        &&& f.instance matches Some(q)
        &&& q.list_of_retries@ == p.list_of_retries@.update(i, spec_bumped(p.list_of_retries@[i]))
        &&& q.list_of_guesses@ == p.list_of_guesses@
        &&& q.list_of_time@ == p.list_of_time@
        &&& q.list_of_shapes@ == p.list_of_shapes@
        &&& q.shapes_selection@ == p.shapes_selection@
        &&& q.experiment_index == p.experiment_index
    }
}

/// `begin(params, flags)`: with a run active, nothing happens. Otherwise a
/// failed check is reported and shown, changing nothing else; a passed one
/// starts a fresh plan under a new run identifier, in `BeginTiming`.
pub open spec fn spec_begin(o: Orchestrator, f: Orchestrator, r: Result<StageAction, String>, params: Parameters, flags: Seq<(Shapes, bool)>) -> bool {
    if o.stage != ExperimentStage::NotInExperiment {
        (r matches Ok(StageAction::Idle)) && f == o
    } else {
        match spec_validate(params, flags) {
            Err(e) => {
                &&& (r matches Err(m) && m@ == e)
                &&& (f.error_info matches Some(i) && i@ == e)
                &&& f == (Orchestrator { error_info: f.error_info, ..o })
            },
            Ok((n, v, a, sel)) => {
                &&& (r matches Ok(StageAction::Settle(id)) && id == f.run_id)
                &&& f.run_id == next_run(o.run_id)
                &&& f.stage == ExperimentStage::BeginTiming
                &&& f.is_busy
                &&& f.speed == v
                &&& f.acceleration == a
                &&& f.is_simulate_mode == o.is_simulate_mode
                &&& f.instance matches Some(p)
                &&& p.shapes_selection@ == sel
                &&& p.list_of_shapes@.len() == n
                &&& forall|i: int| 0 <= i < n ==> sel.contains(#[trigger] p.list_of_shapes@[i])
                &&& p.list_of_guesses@.len() == 0
                &&& p.list_of_time@.len() == 0
                &&& p.list_of_retries@ == Seq::new(n as nat, |i: int| 0u32)
                &&& p.experiment_index == 0
            },
        }
    }
}

} // verus!
