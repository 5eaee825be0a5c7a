//! Starting a run: checking its parameters and drawing its trial plan.
use vstd::prelude::*;
use vstd::string::*;

use crate::numeric::{parse_milli, parse_u32, spec_parse_milli, spec_parse_u32};
use crate::structs::{ExperimentInstance, ParameterType, Parameters, Shapes};

verus! {

/// The enabled shapes of a selection list, each once, in order of first
/// appearance.
pub open spec fn enabled_shapes(flags: Seq<(Shapes, bool)>) -> Seq<Shapes>
    decreases flags.len(),
{
    if flags.len() == 0 {
        Seq::empty()
    } else {
        let prev = enabled_shapes(flags.drop_last());
        if flags.last().1 && !prev.contains(flags.last().0) {
            prev.push(flags.last().0)
        } else {
            prev
        }
    }
}

proof fn lemma_enabled_shapes(flags: Seq<(Shapes, bool)>)
    ensures
        enabled_shapes(flags).no_duplicates(),
        forall|s: Shapes|
            enabled_shapes(flags).contains(s) <==> exists|i: int|
                0 <= i < flags.len() && #[trigger] flags[i] == (s, true),
    decreases flags.len(),
{
    if flags.len() > 0 {
        let p = flags.drop_last();
        lemma_enabled_shapes(p);
        let prev = enabled_shapes(p);
        assert forall|s: Shapes|
            enabled_shapes(flags).contains(s) <==> exists|i: int|
                0 <= i < flags.len() && #[trigger] flags[i] == (s, true) by {
            if enabled_shapes(flags).contains(s) {
                if prev.contains(s) {
                    let i = choose|i: int| 0 <= i < p.len() && #[trigger] p[i] == (s, true);
                    assert(flags[i] == (s, true));
                } else {
                    assert(flags[flags.len() - 1] == (s, true));
                }
            }
            if exists|i: int| 0 <= i < flags.len() && #[trigger] flags[i] == (s, true) {
                let i = choose|i: int| 0 <= i < flags.len() && #[trigger] flags[i] == (s, true);
                if i < flags.len() - 1 {
                    assert(p[i] == (s, true));
                    assert(prev.contains(s));
                    assert(enabled_shapes(flags).contains(s)) by {
                        let k = choose|k: int| 0 <= k < prev.len() && prev[k] == s;
                        if flags.last().1 && !prev.contains(flags.last().0) {
                            assert(enabled_shapes(flags)[k] == s);
                        }
                    }
                } else {
                    if !prev.contains(s) {
                        assert(enabled_shapes(flags)[prev.len() as int] == s);
                    }
                }
            }
        }
    }
}

/// What a run needs from its parameters and shape selection.
pub struct RunSettings {
    pub test_count: usize,
    /// Arm velocity, in thousandths.
    pub speed: i64,
    /// Arm acceleration, in thousandths.
    pub acceleration: i64,
    pub selection: Vec<Shapes>,
}

pub open spec fn spec_empty_message(t: ParameterType) -> Seq<char> {
    t.spec_title(false) + " is empty"@
}

pub open spec fn spec_not_number_message(t: ParameterType) -> Seq<char> {
    t.spec_title(false) + " is not a number"@
}

pub open spec fn spec_zero_count_message() -> Seq<char> {
    ParameterType::TestCount.spec_title(false) + " must be at least 1"@
}

pub open spec fn spec_no_shape_message() -> Seq<char> {
    "Please select some shapes!"@
}

/// The checks made before a run begins, in order: no parameter empty (the
/// first empty one is named); some shape enabled; the test count a whole
/// number of at least one; speed and acceleration numbers.
pub open spec fn spec_validate(params: Parameters, flags: Seq<(Shapes, bool)>) -> Result<(usize, i64, i64, Seq<Shapes>), Seq<char>> {
    if params.spec_first_empty() is Some {
        Err(spec_empty_message(params.spec_first_empty().unwrap()))
    } else if enabled_shapes(flags).len() == 0 {
        Err(spec_no_shape_message())
    } else if spec_parse_u32(params.test_count.value@) is None {
        Err(spec_not_number_message(ParameterType::TestCount))
    } else if spec_parse_u32(params.test_count.value@).unwrap() == 0 {
        Err(spec_zero_count_message())
    } else if spec_parse_milli(params.speed.value@) is None {
        Err(spec_not_number_message(ParameterType::Speed))
    } else if spec_parse_milli(params.acceleration.value@) is None {
        Err(spec_not_number_message(ParameterType::Acceleration))
    } else {
        Ok(
            (
                spec_parse_u32(params.test_count.value@).unwrap() as usize,
                spec_parse_milli(params.speed.value@).unwrap(),
                spec_parse_milli(params.acceleration.value@).unwrap(),
                enabled_shapes(flags),
            ),
        )
    }
}

/// Checks a run's parameters and shape selection, and reads what the run needs.
pub fn validate_run(params: &Parameters, shapes_to_use: &Vec<(Shapes, bool)>) -> (r: Result<
    RunSettings,
    String,
>)
    ensures
        match (r, spec_validate(*params, shapes_to_use@)) {
            (Ok(s), Ok((n, v, a, sel))) => s.test_count == n && s.speed == v && s.acceleration
                == a && s.selection@ == sel,
            (Err(m), Err(e)) => m@ == e,
            _ => false,
        },
        r matches Ok(s) ==> s.selection@.no_duplicates() && s.test_count <= u32::MAX,
{
    if let Some(t) = params.first_empty() {
        return Err(t.show_title(false).concat(" is empty"));
    }
    let selection = enabled_selection(shapes_to_use);
    if selection.len() == 0 {
        return Err(String::from_str("Please select some shapes!"));
    }
    let n = match parse_u32(params.test_count.value.as_str()) {
        None => {
            return Err(ParameterType::TestCount.show_title(false).concat(" is not a number"));
        },
        Some(n) => n,
    };
    if n == 0 {
        return Err(ParameterType::TestCount.show_title(false).concat(" must be at least 1"));
    }
    let speed = match parse_milli(params.speed.value.as_str()) {
        None => {
            return Err(ParameterType::Speed.show_title(false).concat(" is not a number"));
        },
        Some(v) => v,
    };
    let acceleration = match parse_milli(params.acceleration.value.as_str()) {
        None => {
            return Err(ParameterType::Acceleration.show_title(false).concat(" is not a number"));
        },
        Some(a) => a,
    };
    Ok(RunSettings { test_count: n as usize, speed, acceleration, selection })
}

/// The enabled shapes of a selection list, each once.
pub fn enabled_selection(shapes_to_use: &Vec<(Shapes, bool)>) -> (r: Vec<Shapes>)
    ensures
        r@ == enabled_shapes(shapes_to_use@),
        r@.no_duplicates(),
{
    let mut r: Vec<Shapes> = Vec::new();
    let mut i: usize = 0;
    while i < shapes_to_use.len()
        invariant
            i <= shapes_to_use@.len(),
            r@ == enabled_shapes(shapes_to_use@.take(i as int)),
        decreases shapes_to_use@.len() - i,
    {
        let (s, used) = shapes_to_use[i];
        assert(shapes_to_use@.take(i + 1).drop_last() =~= shapes_to_use@.take(i as int));
        if used {
            let mut seen = false;
            let mut j: usize = 0;
            while j < r.len()
                invariant
                    j <= r@.len(),
                    seen == exists|k: int| 0 <= k < j && r@[k] == s,
                decreases r@.len() - j,
            {
                if r[j] == s {
                    seen = true;
                }
                j = j + 1;
            }
            if !seen {
                r.push(s);
            }
        }
        i = i + 1;
    }
    assert(shapes_to_use@.take(shapes_to_use@.len() as int) =~= shapes_to_use@);
    proof {
        lemma_enabled_shapes(shapes_to_use@);
    }
    r
}

/// A fresh plan whose true shapes are `selection` at the indices `draws`.
pub open spec fn is_fresh_plan(p: ExperimentInstance, selection: Seq<Shapes>, draws: Seq<usize>) -> bool {
    &&& p.shapes_selection@ == selection
    &&& p.list_of_shapes@.len() == draws.len()
    &&& forall|i: int| 0 <= i < draws.len() ==> p.list_of_shapes@[i] == selection[#[trigger] draws[i] as int]
    &&& p.list_of_guesses@.len() == 0
    &&& p.list_of_time@.len() == 0
    &&& p.list_of_retries@ == Seq::new(draws.len(), |i: int| 0u32)
    &&& p.experiment_index == 0
}

/// Builds the trial plan whose trial `i` shows `selection[draws[i]]`.
pub fn plan_from_draws(selection: Vec<Shapes>, draws: &Vec<usize>) -> (r: ExperimentInstance)
    requires
        forall|i: int| 0 <= i < draws@.len() ==> #[trigger] draws@[i] < selection@.len(),
    ensures
        is_fresh_plan(r, selection@, draws@),
{
    let mut shapes: Vec<Shapes> = Vec::new();
    let mut retries: Vec<u32> = Vec::new();
    let mut i: usize = 0;
    while i < draws.len()
        invariant
            i <= draws@.len(),
            forall|k: int| 0 <= k < draws@.len() ==> #[trigger] draws@[k] < selection@.len(),
            shapes@.len() == i,
            forall|k: int| 0 <= k < i ==> shapes@[k] == selection@[#[trigger] draws@[k] as int],
            retries@ == Seq::new(i as nat, |k: int| 0u32),
        decreases draws@.len() - i,
    {
        shapes.push(selection[draws[i]]);
        retries.push(0);
        assert(retries@ =~= Seq::new((i + 1) as nat, |k: int| 0u32));
        i = i + 1;
    }
    ExperimentInstance {
        shapes_selection: selection,
        list_of_shapes: shapes,
        list_of_guesses: Vec::new(),
        list_of_retries: retries,
        list_of_time: Vec::new(),
        experiment_index: 0,
    }
}

/// Relies on rand 0.8's `Uniform::from(0..bound)` sampled with
/// `thread_rng()`: a value in `[0, bound)`; an empty range panics.
#[verifier::external_body]
fn random_index(bound: usize) -> (r: usize)
    requires
        bound > 0,
    ensures
        r < bound,
{
    rand::distributions::Distribution::sample(
        &rand::distributions::Uniform::from(0..bound),
        &mut rand::thread_rng(),
    )
}

/// Draws a plan of `n_tests` trials, each showing one of `selection`
/// picked at random.
pub fn create_experiment_instance(selection: Vec<Shapes>, n_tests: usize) -> (r: ExperimentInstance)
    requires
        selection@.len() > 0,
        n_tests > 0,
    ensures
        r.wf(),
        r.shapes_selection@ == selection@,
        r.list_of_shapes@.len() == n_tests,
        forall|i: int| 0 <= i < n_tests ==> selection@.contains(#[trigger] r.list_of_shapes@[i]),
        r.list_of_guesses@.len() == 0,
        r.list_of_time@.len() == 0,
        r.list_of_retries@ == Seq::new(n_tests as nat, |i: int| 0u32),
        r.experiment_index == 0,
{
    let mut draws: Vec<usize> = Vec::new();
    let mut i: usize = 0;
    while i < n_tests
        invariant
            i <= n_tests,
            selection@.len() > 0,
            draws@.len() == i,
            forall|k: int| 0 <= k < i ==> #[trigger] draws@[k] < selection@.len(),
        decreases n_tests - i,
    {
        let d = random_index(selection.len());
        draws.push(d);
        i = i + 1;
    }
    let ghost sel = selection@;
    let r = plan_from_draws(selection, &draws);
    assert forall|i: int| 0 <= i < n_tests implies sel.contains(#[trigger] r.list_of_shapes@[i]) by {
        assert(r.list_of_shapes@[i] == sel[draws@[i] as int]);
    }
    r
}

/// The selection list with the "in use" flag of `shape` flipped.
pub open spec fn spec_toggled(flags: Seq<(Shapes, bool)>, shape: Shapes) -> Seq<(Shapes, bool)> {
    flags.map_values(|p: (Shapes, bool)| if p.0 == shape { (p.0, !p.1) } else { p })
}

/// Flips whether `shape` is used in the next run.
pub fn toggle_shape(shapes_to_use: &mut Vec<(Shapes, bool)>, shape: Shapes)
    ensures
        final(shapes_to_use)@ == spec_toggled(old(shapes_to_use)@, shape),
{
    let ghost f = shapes_to_use@;
    let mut i: usize = 0;
    while i < shapes_to_use.len()
        invariant
            i <= f.len(),
            shapes_to_use@.len() == f.len(),
            forall|k: int| 0 <= k < i ==> #[trigger] shapes_to_use@[k] == spec_toggled(f, shape)[k],
            forall|k: int| i <= k < f.len() ==> #[trigger] shapes_to_use@[k] == f[k],
        decreases f.len() - i,
    {
        let (s, used) = shapes_to_use[i];
        if s == shape {
            shapes_to_use.set(i, (s, !used));
        }
        i = i + 1;
    }
    assert(shapes_to_use@ =~= spec_toggled(f, shape));
}

} // verus!
