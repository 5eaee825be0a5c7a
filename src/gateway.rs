//! Decisions of the device gateway: when a dispatch may start, in which
//! order the steps of a motion run, and where a run stops on failure. The
//! caller performs each step on the hardware and reports how it went.
use vstd::prelude::*;
use vstd::string::*;

use crate::structs::{outline_matches, shape_outline, DobotPath, Position, Shapes};

verus! {

pub open spec fn spec_path_not_set() -> Seq<char> {
    "Dobot path not set."@
}

/// The configuration error for an arm path that is empty, if it is.
pub fn check_dobot_path(path: &DobotPath) -> (r: Option<String>)
    ensures
        r.is_some() == (path.dobotpath@.len() == 0),
        r matches Some(m) ==> m@ == spec_path_not_set(),
{
    if path.dobotpath.as_str().is_empty() {
        Some(String::from_str("Dobot path not set."))
    } else {
        None
    }
}

/// Which waypoint of a dispatched list is not complete, if one is: such a
/// list must not reach the arm.
pub fn first_incomplete(seq: &Vec<Position>) -> (r: Option<usize>)
    ensures
        r matches Some(i) ==> i < seq@.len() && !seq@[i as int].is_complete() && forall|j: int|
            0 <= j < i ==> (#[trigger] seq@[j]).is_complete(),
        r is None ==> forall|j: int| 0 <= j < seq@.len() ==> (#[trigger] seq@[j]).is_complete(),
{
    let mut i: usize = 0;
    while i < seq.len()
        invariant
            i <= seq@.len(),
            forall|j: int| 0 <= j < i ==> (#[trigger] seq@[j]).is_complete(),
        decreases seq@.len() - i,
    {
        if seq[i].has_empty_axis() {
            return Some(i);
        }
        i = i + 1;
    }
    None
}

/// What a caller does next while running a list of steps.
#[derive(Clone, Copy, Debug, PartialEq, Eq, Structural)]
pub enum RunAction {
    /// Perform step `i` and report how it went.
    Perform(usize),
    /// Stop: every step succeeded.
    Done,
    /// Stop: a step failed; the rest is not attempted.
    Failed,
}

/// A fail-fast run over `len` steps in order: each step is attempted only
/// after every earlier one succeeded, and the first failure ends the run.
/// Motion already made is not undone.
pub struct FailFastRun {
    pub len: usize,
    /// Steps handed out so far.
    pub attempted: usize,
    pub finished: bool,
    /// The description of the failure that ended the run.
    pub failure: Option<String>,
}

impl FailFastRun {
    pub fn new(len: usize) -> (r: Self)
        ensures
            r.len == len,
            r.attempted == 0,
            !r.finished,
            r.failure is None,
    {
        FailFastRun { len, attempted: 0, finished: false, failure: None }
    }

    /// The first action of the run.
    pub fn start(&mut self) -> (a: RunAction)
        requires
            old(self).attempted == 0,
            !old(self).finished,
            old(self).failure is None,
        ensures
            final(self).len == old(self).len,
            final(self).failure is None,
            old(self).len == 0 ==> a == RunAction::Done && final(self).finished
                && final(self).attempted == 0,
            old(self).len > 0 ==> a == RunAction::Perform(0) && !final(self).finished
                && final(self).attempted == 1,
    {
        if self.len == 0 {
            self.finished = true;
            RunAction::Done
        } else {
            self.attempted = 1;
            RunAction::Perform(0)
        }
    }

    /// Takes the outcome of the step in flight (`None` for success, or the
    /// failure's description) and says what to do next.
    pub fn report(&mut self, outcome: Option<String>) -> (a: RunAction)
        requires
            !old(self).finished,
            old(self).failure is None,
            1 <= old(self).attempted <= old(self).len,
        ensures
            final(self).len == old(self).len,
            outcome is Some ==> a == RunAction::Failed && final(self).finished
                && final(self).attempted == old(self).attempted && final(self).failure == outcome,
            outcome is None && old(self).attempted < old(self).len ==> a == RunAction::Perform(
                old(self).attempted,
            ) && !final(self).finished && final(self).attempted == old(self).attempted + 1
                && final(self).failure is None,
            outcome is None && old(self).attempted == old(self).len ==> a == RunAction::Done
                && final(self).finished && final(self).attempted == old(self).attempted
                && final(self).failure is None,
    {
        match outcome {
            Some(e) => {
                self.finished = true;
                self.failure = Some(e);
                RunAction::Failed
            },
            None => {
                if self.attempted < self.len {
                    let i = self.attempted;
                    self.attempted = i + 1;
                    RunAction::Perform(i)
                } else {
                    self.finished = true;
                    RunAction::Done
                }
            },
        }
    }
}

/// One step of drawing a shape.
pub enum DrawStep {
    /// Pause for this many milliseconds.
    Wait(u64),
    /// Move the arm to one pose.
    MoveTo(Position),
    /// Engage (`true`) or release the pen relay.
    Relay(bool),
    /// Move the arm through the waypoints in order.
    Traverse(Vec<Position>),
}

/// Pause before the arm starts to move.
pub const SETTLE_MS: u64 = 2000;

/// Pause around each relay switch.
pub const RELAY_PAUSE_MS: u64 = 500;

/// The pose the arm retracts to after drawing, in thousandths.
pub open spec fn is_retract_pose(p: Position) -> bool {
    p.is_pose(200000, 0, 0, 0, 200000, 200000)
}

/// The steps that draw `shape`: settle, reach the shape's last stroke
/// point, pause, engage the pen, trace every stroke point, pause, release
/// the pen, pause, retract.
pub open spec fn is_draw_plan(r: Seq<DrawStep>, shape: Shapes, v: int, a: int) -> bool {
    let o = shape_outline(shape);
    &&& r.len() == 9
    &&& r[0] == DrawStep::Wait(SETTLE_MS)
    &&& (r[1] matches DrawStep::MoveTo(p) && p.is_pose(o.last().0, o.last().1, o.last().2, 0, v, a))
    &&& r[2] == DrawStep::Wait(RELAY_PAUSE_MS)
    &&& r[3] == DrawStep::Relay(true)
    &&& (r[4] matches DrawStep::Traverse(t) && outline_matches(t@, o, v, a))
    &&& r[5] == DrawStep::Wait(RELAY_PAUSE_MS)
    &&& r[6] == DrawStep::Relay(false)
    &&& r[7] == DrawStep::Wait(RELAY_PAUSE_MS)
    &&& (r[8] matches DrawStep::MoveTo(p) && is_retract_pose(p))
}

/// The steps that draw `shape` at the given velocity and acceleration.
pub fn draw_plan(shape: Shapes, velocity: i64, acceleration: i64) -> (r: Vec<DrawStep>)
    ensures
        is_draw_plan(r@, shape, velocity as int, acceleration as int),
{
    let strokes = shape.motion_data(velocity, acceleration);
    let last = strokes[strokes.len() - 1].clone();
    let r = vec![
        DrawStep::Wait(SETTLE_MS),
        DrawStep::MoveTo(last),
        DrawStep::Wait(RELAY_PAUSE_MS),
        DrawStep::Relay(true),
        DrawStep::Traverse(strokes),
        DrawStep::Wait(RELAY_PAUSE_MS),
        DrawStep::Relay(false),
        DrawStep::Wait(RELAY_PAUSE_MS),
        DrawStep::MoveTo(Position::position(200000, 0, 0, 0, 200000, 200000)),
    ];
    r
}

/// The bytes that set the relay: `1` or `0`, then a newline.
pub fn relay_signal(signal: bool) -> (r: Vec<u8>)
    ensures
        r@ == (if signal {
            seq![49u8, 10u8]
        } else {
            seq![48u8, 10u8]
        }),
{
    let r = if signal {
        vec![49u8, 10u8]
    } else {
        vec![48u8, 10u8]
    };
    assert(r@ =~= (if signal {
        seq![49u8, 10u8]
    } else {
        seq![48u8, 10u8]
    }));
    r
}

pub open spec fn spec_relay_short_write() -> Seq<char> {
    "Relay accepted fewer bytes than were sent."@
}

/// The outcome of a relay write that reported `written` bytes: success
/// only when the whole signal went out.
pub fn relay_write_outcome(signal: bool, written: usize) -> (r: Option<String>)
    ensures
        r is None <==> written == 2,
        r matches Some(m) ==> m@ == spec_relay_short_write(),
{
    if written == 2 {
        None
    } else {
        Some(String::from_str("Relay accepted fewer bytes than were sent."))
    }
}

} // verus!
