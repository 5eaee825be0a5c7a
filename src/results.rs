//! Aggregating a finished run into its result record, and naming the file
//! the record is written to.
use vstd::prelude::*;
use vstd::string::*;

use crate::structs::{
    count_sum, zero_counts_except, ExperimentInstance, Parameters,
    ResultItem, ShapeAnalysis, Shapes,
};

verus! {

/// Trials among the first `n` whose true shape is `t` and answer is `g`.
pub open spec fn count_pairs(truth: Seq<Shapes>, guess: Seq<Shapes>, n: nat, t: Shapes, g: Shapes) -> nat
    decreases n,
{
    if n == 0 {
        0
    } else {
        count_pairs(truth, guess, (n - 1) as nat, t, g) + if truth[n - 1] == t && guess[n - 1] == g {
            1nat
        } else {
            0nat
        }
    }
}

/// Trials among the first `n` whose true shape is `t`.
pub open spec fn count_truth(truth: Seq<Shapes>, n: nat, t: Shapes) -> nat
    decreases n,
{
    if n == 0 {
        0
    } else {
        count_truth(truth, (n - 1) as nat, t) + if truth[n - 1] == t {
            1nat
        } else {
            0nat
        }
    }
}

/// Trials among the first `n` whose true shape is `t` and answer is one of `l`.
pub open spec fn count_in(truth: Seq<Shapes>, guess: Seq<Shapes>, n: nat, t: Shapes, l: Seq<Shapes>) -> nat
    decreases n,
{
    if n == 0 {
        0
    } else {
        count_in(truth, guess, (n - 1) as nat, t, l) + if truth[n - 1] == t && l.contains(guess[n - 1]) {
            1nat
        } else {
            0nat
        }
    }
}

/// Trials among the first `n` answered correctly.
pub open spec fn count_correct(truth: Seq<Shapes>, guess: Seq<Shapes>, n: nat) -> nat
    decreases n,
{
    if n == 0 {
        0
    } else {
        count_correct(truth, guess, (n - 1) as nat) + if truth[n - 1] == guess[n - 1] {
            1nat
        } else {
            0nat
        }
    }
}

/// Time spent on the first `n` trials whose true shape is `t`.
pub open spec fn time_for(truth: Seq<Shapes>, times: Seq<u128>, n: nat, t: Shapes) -> nat
    decreases n,
{
    if n == 0 {
        0
    } else {
        time_for(truth, times, (n - 1) as nat, t) + if truth[n - 1] == t {
            times[n - 1] as nat
        } else {
            0nat
        }
    }
}

/// Time spent on the first `n` trials.
pub open spec fn time_total(times: Seq<u128>, n: nat) -> nat
    decreases n,
{
    if n == 0 {
        0
    } else {
        time_total(times, (n - 1) as nat) + times[n - 1] as nat
    }
}

/// The miscounts of true shape `t`: one entry per other enabled shape, with
/// the number of the first `n` trials of `t` answered with it.
pub open spec fn miscounts(sel: Seq<Shapes>, t: Shapes, truth: Seq<Shapes>, guess: Seq<Shapes>, n: nat) -> Seq<(Shapes, u32)>
    decreases sel.len(),
{
    if sel.len() == 0 {
        Seq::empty()
    } else if sel.last() == t {
        miscounts(sel.drop_last(), t, truth, guess, n)
    } else {
        miscounts(sel.drop_last(), t, truth, guess, n).push(
            (sel.last(), count_pairs(truth, guess, n, t, sel.last()) as u32),
        )
    }
}

/// One more answer `g` on the miscount list.
pub open spec fn bump(ws: Seq<(Shapes, u32)>, g: Shapes) -> Seq<(Shapes, u32)> {
    ws.map_values(|p: (Shapes, u32)| if p.0 == g { (p.0, (p.1 + 1) as u32) } else { p })
}

/// The analysis of true shape `t` over the first `n` trials, before its
/// average is taken.
pub open spec fn is_partial_analysis(a: ShapeAnalysis, sel: Seq<Shapes>, t: Shapes, truth: Seq<Shapes>, guess: Seq<Shapes>, times: Seq<u128>, n: nat) -> bool {
    &&& a.main_shape == t
    &&& a.main_shape_count == count_pairs(truth, guess, n, t, t)
    &&& a.wrong_shapes@ == miscounts(sel, t, truth, guess, n)
    &&& a.time == time_for(truth, times, n, t)
}

/// The full analysis of true shape `t` over the first `n` trials.
pub open spec fn is_analysis(a: ShapeAnalysis, sel: Seq<Shapes>, t: Shapes, truth: Seq<Shapes>, guess: Seq<Shapes>, times: Seq<u128>, n: nat) -> bool {
    &&& is_partial_analysis(a, sel, t, truth, guess, times, n)
    &&& a.av_time == a.spec_avg()
}

pub open spec fn spec_result_item(p: ExperimentInstance, i: int) -> ResultItem {
    ResultItem {
        time: p.list_of_time@[i],
        true_shape: p.list_of_shapes@[i],
        guess_shape: p.list_of_guesses@[i],
        retries: p.list_of_retries@[i],
        is_correct: p.list_of_shapes@[i] == p.list_of_guesses@[i],
    }
}

/// A finished plan that can be aggregated: lists in step, enabled shapes
/// each once, and totals that fit their fields.
pub open spec fn aggregatable(p: ExperimentInstance) -> bool {
    &&& p.list_of_guesses@.len() == p.list_of_time@.len()
    &&& p.list_of_guesses@.len() <= p.list_of_shapes@.len()
    &&& p.list_of_retries@.len() == p.list_of_shapes@.len()
    &&& p.shapes_selection@.no_duplicates()
    &&& p.list_of_guesses@.len() <= u32::MAX
    &&& time_total(p.list_of_time@, p.list_of_guesses@.len()) <= u128::MAX
}

/// The record of a finished run.
pub struct ResultExports {
    pub parameters: Parameters,
    pub avg_time: u128,
    pub avg_correct_answers: u32,
    pub analyses: Vec<ShapeAnalysis>,
    pub results: Vec<ResultItem>,
}

proof fn lemma_counts_bounded(truth: Seq<Shapes>, guess: Seq<Shapes>, n: nat, t: Shapes, g: Shapes, l: Seq<Shapes>)
    ensures
        count_pairs(truth, guess, n, t, g) <= n,
        count_in(truth, guess, n, t, l) <= count_truth(truth, n, t) <= n,
        count_correct(truth, guess, n) <= n,
    decreases n,
{
    if n > 0 {
        lemma_counts_bounded(truth, guess, (n - 1) as nat, t, g, l);
    }
}

proof fn lemma_time_bounded(truth: Seq<Shapes>, times: Seq<u128>, n: nat, m: nat, t: Shapes)
    requires
        n <= m,
    ensures
        time_for(truth, times, n, t) <= time_total(times, n) <= time_total(times, m),
    decreases m,
{
    if n < m {
        lemma_time_bounded(truth, times, n, (m - 1) as nat, t);
    } else if n > 0 {
        lemma_time_bounded(truth, times, (n - 1) as nat, (n - 1) as nat, t);
    }
}

/// Adding a shape not yet in `l` to the answers counted adds its own count.
proof fn lemma_count_in_push(truth: Seq<Shapes>, guess: Seq<Shapes>, n: nat, t: Shapes, l: Seq<Shapes>, x: Shapes)
    requires
        !l.contains(x),
    ensures
        count_in(truth, guess, n, t, l.push(x)) == count_in(truth, guess, n, t, l) + count_pairs(
            truth,
            guess,
            n,
            t,
            x,
        ),
    decreases n,
{
    if n > 0 {
        lemma_count_in_push(truth, guess, (n - 1) as nat, t, l, x);
        let g = guess[n - 1];
        assert(l.push(x).contains(g) <==> (l.contains(g) || g == x)) by {
            if g == x {
                assert(l.push(x)[l.len() as int] == x);
            }
            if l.contains(g) {
                let k = choose|k: int| 0 <= k < l.len() && l[k] == g;
                assert(l.push(x)[k] == g);
            }
        }
    }
}

/// The miscounts and the correct count of `t` together count every trial of
/// `t` answered with an enabled shape.
proof fn lemma_miscounts_sum(sel: Seq<Shapes>, t: Shapes, truth: Seq<Shapes>, guess: Seq<Shapes>, n: nat)
    requires
        sel.no_duplicates(),
        n <= u32::MAX,
    ensures
        count_sum(miscounts(sel, t, truth, guess, n)) + (if sel.contains(t) {
            count_pairs(truth, guess, n, t, t) as int
        } else {
            0
        }) == count_in(truth, guess, n, t, sel),
    decreases sel.len(),
{
    if sel.len() == 0 {
        lemma_count_in_empty(truth, guess, n, t, sel);
    } else {
        let p = sel.drop_last();
        let x = sel.last();
        assert(p.no_duplicates());
        assert(!p.contains(x)) by {
            if p.contains(x) {
                let k = choose|k: int| 0 <= k < p.len() && p[k] == x;
                assert(sel[k] == sel[sel.len() - 1]);
            }
        }
        lemma_miscounts_sum(p, t, truth, guess, n);
        assert(p.push(x) =~= sel);
        lemma_count_in_push(truth, guess, n, t, p, x);
        lemma_counts_bounded(truth, guess, n, t, x, sel);
        assert(sel.contains(t) <==> (p.contains(t) || x == t)) by {
            if x == t {
                assert(sel[sel.len() - 1] == t);
            }
            if p.contains(t) {
                let k = choose|k: int| 0 <= k < p.len() && p[k] == t;
                assert(sel[k] == t);
            }
            if sel.contains(t) && x != t {
                let k = choose|k: int| 0 <= k < sel.len() && sel[k] == t;
                assert(p[k] == t);
            }
        }
        if x != t {
            let m = miscounts(p, t, truth, guess, n);
            let e = (x, count_pairs(truth, guess, n, t, x) as u32);
            assert(m.push(e).drop_last() =~= m);
        }
    }
}

proof fn lemma_count_in_empty(truth: Seq<Shapes>, guess: Seq<Shapes>, n: nat, t: Shapes, l: Seq<Shapes>)
    requires
        l.len() == 0,
    ensures
        count_in(truth, guess, n, t, l) == 0,
    decreases n,
{
    if n > 0 {
        lemma_count_in_empty(truth, guess, (n - 1) as nat, t, l);
    }
}

/// When every answer is an enabled shape, the trials of `t` counted by
/// shape are all the trials of `t`.
proof fn lemma_count_in_all(truth: Seq<Shapes>, guess: Seq<Shapes>, n: nat, t: Shapes, l: Seq<Shapes>)
    requires
        forall|i: int| 0 <= i < n ==> l.contains(#[trigger] guess[i]),
    ensures
        count_in(truth, guess, n, t, l) == count_truth(truth, n, t),
    decreases n,
{
    if n > 0 {
        lemma_count_in_all(truth, guess, (n - 1) as nat, t, l);
        assert(l.contains(guess[n - 1]));
    }
}

/// In an analysis of true shape `t`, the correct count and the miscounts
/// add up to the number of trials of `t`, when every answer is an enabled
/// shape and the enabled shapes are listed once each.
pub proof fn lemma_analysis_accounts_for_trials(a: ShapeAnalysis, sel: Seq<Shapes>, t: Shapes, truth: Seq<Shapes>, guess: Seq<Shapes>, times: Seq<u128>, n: nat)
    requires
        is_partial_analysis(a, sel, t, truth, guess, times, n),
        sel.no_duplicates(),
        sel.contains(t),
        n <= u32::MAX,
        forall|i: int| 0 <= i < n ==> sel.contains(#[trigger] guess[i]),
    ensures
        a.total() == count_truth(truth, n, t),
{
    lemma_miscounts_sum(sel, t, truth, guess, n);
    lemma_count_in_all(truth, guess, n, t, sel);
}

/// The miscount list after trial `n` is the list before it, with one more
/// for the answer when trial `n` was of `t` and answered wrongly.
proof fn lemma_miscounts_step(sel: Seq<Shapes>, t: Shapes, truth: Seq<Shapes>, guess: Seq<Shapes>, n: nat)
    requires
        n + 1 <= u32::MAX,
    ensures
        truth[n as int] == t && guess[n as int] != t ==> miscounts(sel, t, truth, guess, n + 1) == bump(
            miscounts(sel, t, truth, guess, n),
            guess[n as int],
        ),
        !(truth[n as int] == t && guess[n as int] != t) ==> miscounts(sel, t, truth, guess, n + 1)
            == miscounts(sel, t, truth, guess, n),
    decreases sel.len(),
{
    if sel.len() > 0 {
        lemma_miscounts_step(sel.drop_last(), t, truth, guess, n);
        let x = sel.last();
        lemma_counts_bounded(truth, guess, n + 1, t, x, sel);
        let m0 = miscounts(sel.drop_last(), t, truth, guess, n);
        let m1 = miscounts(sel.drop_last(), t, truth, guess, n + 1);
        if x != t {
            let e0 = (x, count_pairs(truth, guess, n, t, x) as u32);
            let e1 = (x, count_pairs(truth, guess, (n + 1) as nat, t, x) as u32);
            if truth[n as int] == t && guess[n as int] != t {
                assert(bump(m0.push(e0), guess[n as int]) =~= bump(m0, guess[n as int]).push(e1));
            } else {
                assert(e0 == e1);
            }
        }
    }
}

/// Counts one answer `guess`, given after `guesstime`, for a trial of the
/// analysed shape.
pub fn classify_answer(guess: Shapes, analysis: &mut ShapeAnalysis, guesstime: u128)
    requires
        guess == old(analysis).main_shape ==> old(analysis).main_shape_count < u32::MAX,
        forall|i: int|
            0 <= i < old(analysis).wrong_shapes@.len() && (#[trigger] old(analysis).wrong_shapes@[i]).0
                == guess ==> old(analysis).wrong_shapes@[i].1 < u32::MAX,
        old(analysis).time + guesstime <= u128::MAX,
    ensures
        final(analysis).main_shape == old(analysis).main_shape,
        final(analysis).av_time == old(analysis).av_time,
        final(analysis).time == old(analysis).time + guesstime,
        guess == old(analysis).main_shape ==> final(analysis).main_shape_count == old(
            analysis,
        ).main_shape_count + 1 && final(analysis).wrong_shapes@ == old(analysis).wrong_shapes@,
        guess != old(analysis).main_shape ==> final(analysis).main_shape_count == old(
            analysis,
        ).main_shape_count && final(analysis).wrong_shapes@ == bump(
            old(analysis).wrong_shapes@,
            guess,
        ),
{
    if guess == analysis.main_shape {
        analysis.main_shape_count = analysis.main_shape_count + 1;
    } else {
        let ghost ws = analysis.wrong_shapes@;
        let mut i: usize = 0;
        while i < analysis.wrong_shapes.len()
            invariant
                analysis.main_shape == old(analysis).main_shape,
                analysis.main_shape_count == old(analysis).main_shape_count,
                analysis.time == old(analysis).time,
                analysis.av_time == old(analysis).av_time,
                ws == old(analysis).wrong_shapes@,
                forall|k: int|
                    0 <= k < ws.len() && (#[trigger] ws[k]).0 == guess ==> ws[k].1 < u32::MAX,
                i <= ws.len(),
                analysis.wrong_shapes@.len() == ws.len(),
                forall|k: int| 0 <= k < i ==> #[trigger] analysis.wrong_shapes@[k] == bump(ws, guess)[k],
                forall|k: int| i <= k < ws.len() ==> #[trigger] analysis.wrong_shapes@[k] == ws[k],
            decreases ws.len() - i,
        {
            let (s, c) = analysis.wrong_shapes[i];
            if s == guess {
                analysis.wrong_shapes.set(i, (s, c + 1));
            }
            i = i + 1;
        }
        assert(analysis.wrong_shapes@ =~= bump(ws, guess));
    }
    analysis.time = analysis.time + guesstime;
}

/// The analysis of one true shape over a finished plan.
fn analyse_shape(p: &ExperimentInstance, t: Shapes) -> (a: ShapeAnalysis)
    requires
        aggregatable(*p),
        p.shapes_selection@.contains(t),
    ensures
        is_analysis(
            a,
            p.shapes_selection@,
            t,
            p.list_of_shapes@,
            p.list_of_guesses@,
            p.list_of_time@,
            p.list_of_guesses@.len(),
        ),
{
    let ghost sel = p.shapes_selection@;
    let ghost truth = p.list_of_shapes@;
    let ghost guess = p.list_of_guesses@;
    let ghost times = p.list_of_time@;
    let n = p.list_of_guesses.len();
    let mut a = ShapeAnalysis::new(t, p.shapes_selection.clone());
    proof {
        lemma_miscounts_zero(sel, t, truth, guess);
    }
    let mut i: usize = 0;
    while i < n
        invariant
            aggregatable(*p),
            n == guess.len(),
            sel == p.shapes_selection@,
            truth == p.list_of_shapes@,
            guess == p.list_of_guesses@,
            times == p.list_of_time@,
            i <= n,
            is_partial_analysis(a, sel, t, truth, guess, times, i as nat),
        decreases n - i,
    {
        proof {
            lemma_counts_bounded(truth, guess, i as nat, t, t, sel);
            lemma_time_bounded(truth, times, (i + 1) as nat, n as nat, t);
            lemma_miscounts_step(sel, t, truth, guess, i as nat);
            lemma_miscounts_below(sel, t, truth, guess, i as nat);
        }
        if p.list_of_shapes[i] == t {
            classify_answer(p.list_of_guesses[i], &mut a, p.list_of_time[i]);
        }
        i = i + 1;
    }
    proof {
        lemma_miscounts_sum(sel, t, truth, guess, n as nat);
        lemma_counts_bounded(truth, guess, n as nat, t, t, sel);
    }
    a.calc_avg_time();
    a
}

proof fn lemma_miscounts_zero(sel: Seq<Shapes>, t: Shapes, truth: Seq<Shapes>, guess: Seq<Shapes>)
    ensures
        miscounts(sel, t, truth, guess, 0) == zero_counts_except(sel, t),
    decreases sel.len(),
{
    if sel.len() > 0 {
        lemma_miscounts_zero(sel.drop_last(), t, truth, guess);
    }
}

/// Every miscount is at most the number of trials seen.
proof fn lemma_miscounts_below(sel: Seq<Shapes>, t: Shapes, truth: Seq<Shapes>, guess: Seq<Shapes>, n: nat)
    requires
        n < u32::MAX,
    ensures
        forall|k: int|
            0 <= k < miscounts(sel, t, truth, guess, n).len() ==> (#[trigger] miscounts(
                sel,
                t,
                truth,
                guess,
                n,
            )[k]).1 <= n,
    decreases sel.len(),
{
    if sel.len() > 0 {
        lemma_miscounts_below(sel.drop_last(), t, truth, guess, n);
        lemma_counts_bounded(truth, guess, n, t, sel.last(), sel);
        let m = miscounts(sel.drop_last(), t, truth, guess, n);
        if sel.last() != t {
            let e = (sel.last(), count_pairs(truth, guess, n, t, sel.last()) as u32);
            assert forall|k: int| 0 <= k < m.push(e).len() implies (#[trigger] m.push(e)[k]).1 <= n by {
                if k < m.len() {
                    assert(m.push(e)[k] == m[k]);
                }
            }
        }
    }
}

/// Aggregates a finished plan: one record per answered trial, one analysis
/// per enabled shape, the mean time over answered trials (zero when none
/// was answered) and the number of correct answers.
pub fn process_results(p: &ExperimentInstance, parameters: Parameters) -> (r: ResultExports)
    requires
        aggregatable(*p),
    ensures
        is_result_of(r, *p, parameters),
{
    let n = p.list_of_guesses.len();
    let ghost truth = p.list_of_shapes@;
    let ghost guess = p.list_of_guesses@;
    let ghost times = p.list_of_time@;
    let mut results: Vec<ResultItem> = Vec::new();
    let mut total_time: u128 = 0;
    let mut total_correct: u32 = 0;
    let mut i: usize = 0;
    while i < n
        invariant
            aggregatable(*p),
            n == guess.len(),
            truth == p.list_of_shapes@,
            guess == p.list_of_guesses@,
            times == p.list_of_time@,
            i <= n,
            results@.len() == i,
            forall|k: int| 0 <= k < i ==> #[trigger] results@[k] == spec_result_item(*p, k),
            total_time == time_total(times, i as nat),
            total_correct == count_correct(truth, guess, i as nat),
        decreases n - i,
    {
        proof {
            lemma_time_bounded(truth, times, (i + 1) as nat, n as nat, Shapes::Triangle);
            lemma_counts_bounded(truth, guess, i as nat, Shapes::Triangle, Shapes::Triangle, truth);
        }
        let truth_shape = p.list_of_shapes[i];
        let g = p.list_of_guesses[i];
        let is_correct = truth_shape == g;
        results.push(
            ResultItem {
                time: p.list_of_time[i],
                true_shape: truth_shape,
                guess_shape: g,
                retries: p.list_of_retries[i],
                is_correct,
            },
        );
        total_time = total_time + p.list_of_time[i];
        if is_correct {
            total_correct = total_correct + 1;
        }
        i = i + 1;
    }
    let mut analyses: Vec<ShapeAnalysis> = Vec::new();
    let mut k: usize = 0;
    while k < p.shapes_selection.len()
        invariant
            aggregatable(*p),
            k <= p.shapes_selection@.len(),
            analyses@.len() == k,
            forall|j: int|
                0 <= j < k ==> is_analysis(
                    #[trigger] analyses@[j],
                    p.shapes_selection@,
                    p.shapes_selection@[j],
                    p.list_of_shapes@,
                    p.list_of_guesses@,
                    p.list_of_time@,
                    p.list_of_guesses@.len(),
                ),
        decreases p.shapes_selection@.len() - k,
    {
        assert(p.shapes_selection@.contains(p.shapes_selection@[k as int]));
        let a = analyse_shape(p, p.shapes_selection[k]);
        analyses.push(a);
        k = k + 1;
    }
    let avg_time = if n == 0 {
        0
    } else {
        total_time / n as u128
    };
    ResultExports {
        parameters,
        avg_time,
        avg_correct_answers: total_correct,
        analyses,
        results,
    }
}

pub open spec fn digit_char(d: nat) -> char {
    if d == 0 { '0' } else if d == 1 { '1' } else if d == 2 { '2' } else if d == 3 { '3' }
    else if d == 4 { '4' } else if d == 5 { '5' } else if d == 6 { '6' } else if d == 7 { '7' }
    else if d == 8 { '8' } else { '9' }
}

/// The decimal digits of `n`, without leading zeros.
pub open spec fn spec_decimal(n: nat) -> Seq<char>
    decreases n,
{
    if n < 10 {
        seq![digit_char(n)]
    } else {
        spec_decimal(n / 10).push(digit_char(n % 10))
    }
}

fn digit_str(d: u32) -> (r: &'static str)
    requires
        d < 10,
    ensures
        r@ == seq![digit_char(d as nat)],
{
    proof {
        reveal_strlit("0");
        reveal_strlit("1");
        reveal_strlit("2");
        reveal_strlit("3");
        reveal_strlit("4");
        reveal_strlit("5");
        reveal_strlit("6");
        reveal_strlit("7");
        reveal_strlit("8");
        reveal_strlit("9");
    }
    if d == 0 { "0" } else if d == 1 { "1" } else if d == 2 { "2" } else if d == 3 { "3" }
    else if d == 4 { "4" } else if d == 5 { "5" } else if d == 6 { "6" } else if d == 7 { "7" }
    else if d == 8 { "8" } else { "9" }
}

/// The decimal text of `n`.
pub fn decimal_text(n: u32) -> (r: String)
    ensures
        r@ == spec_decimal(n as nat),
    decreases n,
{
    if n < 10 {
        String::from_str(digit_str(n))
    } else {
        let r = decimal_text(n / 10).concat(digit_str(n % 10));
        assert(r@ =~= spec_decimal(n as nat));
        r
    }
}

/// The file stem a run's results are saved under, built from its parameters.
pub open spec fn spec_result_stem(p: Parameters) -> Seq<char> {
    "N"@ + p.subject_name.value@ + "_T"@ + p.test_count.value@ + "_V"@ + p.voltage.value@ + "_A"@
        + p.acceleration.value@ + "_S"@ + p.speed.value@ + "_MT"@ + p.modulation_type.value@
        + "_MF"@ + p.modulation_frequency.value@ + "_CT"@ + p.carrier_type.value@ + "_CF"@
        + p.carrier_frequency.value@
}

/// The file stem a run's results are saved under.
pub fn result_file_stem(p: &Parameters) -> (r: String)
    ensures
        r@ == spec_result_stem(*p),
{
    let r = String::from_str("N").concat(p.subject_name.value.as_str()).concat("_T").concat(
        p.test_count.value.as_str(),
    ).concat("_V").concat(p.voltage.value.as_str()).concat("_A").concat(
        p.acceleration.value.as_str(),
    ).concat("_S").concat(p.speed.value.as_str()).concat("_MT").concat(
        p.modulation_type.value.as_str(),
    ).concat("_MF").concat(p.modulation_frequency.value.as_str()).concat("_CT").concat(
        p.carrier_type.value.as_str(),
    ).concat("_CF").concat(p.carrier_frequency.value.as_str());
    r
}

/// Candidate `k` for a file path: the base itself, then `_D1`, `_D2`, ...
/// appended, each with the `.json` extension.
pub open spec fn spec_candidate(base: Seq<char>, k: nat) -> Seq<char> {
    if k == 0 {
        base + ".json"@
    } else {
        base + "_D"@ + spec_decimal(k) + ".json"@
    }
}

/// Candidate `k` for a file path.
pub fn candidate_path(base: &str, k: u32) -> (r: String)
    ensures
        r@ == spec_candidate(base@, k as nat),
{
    if k == 0 {
        String::from_str(base).concat(".json")
    } else {
        let d = decimal_text(k);
        String::from_str(base).concat("_D").concat(d.as_str()).concat(".json")
    }
}

fn contains_text(taken: &Vec<String>, s: &String) -> (r: bool)
    ensures
        r == exists|i: int| 0 <= i < taken@.len() && (#[trigger] taken@[i])@ == s@,
{
    let mut i: usize = 0;
    while i < taken.len()
        invariant
            i <= taken@.len(),
            forall|j: int| 0 <= j < i ==> (#[trigger] taken@[j])@ != s@,
        decreases taken@.len() - i,
    {
        if taken[i] == *s {
            return true;
        }
        i = i + 1;
    }
    false
}

pub open spec fn is_taken(taken: Seq<String>, s: Seq<char>) -> bool {
    exists|i: int| 0 <= i < taken.len() && (#[trigger] taken[i])@ == s
}

/// The first candidate path, in order, that is not among `taken`; `None`
/// only when the first `taken.len() + 1` candidates are all taken.
pub fn pick_file_path(base: &str, taken: &Vec<String>) -> (r: Option<String>)
    requires
        taken@.len() < u32::MAX,
    ensures
        r matches Some(path) ==> !is_taken(taken@, path@) && exists|k: nat|
            #![trigger spec_candidate(base@, k)]
            path@ == spec_candidate(base@, k) && forall|j: nat|
                j < k ==> is_taken(taken@, #[trigger] spec_candidate(base@, j)),
        r is None ==> forall|j: nat|
            j <= taken@.len() ==> is_taken(taken@, #[trigger] spec_candidate(base@, j)),
{
    let mut k: u32 = 0;
    while k as usize <= taken.len()
        invariant
            taken@.len() < u32::MAX,
            k <= taken@.len() + 1,
            forall|j: nat| j < k ==> is_taken(taken@, #[trigger] spec_candidate(base@, j)),
        decreases taken@.len() + 1 - k,
    {
        let path = candidate_path(base, k);
        if !contains_text(taken, &path) {
            assert(path@ == spec_candidate(base@, k as nat));
            return Some(path);
        }
        k = k + 1;
    }
    None
}

/// The record of plan `p` run with `parameters`: one record per answered
/// trial, one analysis per enabled shape, the number of correct answers and
/// the mean time over answered trials (zero when none was answered).
pub open spec fn is_result_of(r: ResultExports, p: ExperimentInstance, parameters: Parameters) -> bool {
    let n = p.list_of_guesses@.len();
    &&& r.parameters == parameters
    &&& r.results@.len() == n
    &&& forall|i: int| 0 <= i < n ==> #[trigger] r.results@[i] == spec_result_item(p, i)
    &&& r.analyses@.len() == p.shapes_selection@.len()
    &&& forall|k: int|
        0 <= k < r.analyses@.len() ==> is_analysis(
            #[trigger] r.analyses@[k],
            p.shapes_selection@,
            p.shapes_selection@[k],
            p.list_of_shapes@,
            p.list_of_guesses@,
            p.list_of_time@,
            n,
        )
    &&& r.avg_correct_answers == count_correct(p.list_of_shapes@, p.list_of_guesses@, n)
    &&& r.avg_time == (if n == 0 {
        0
    } else {
        time_total(p.list_of_time@, n) as int / n as int
    })
}

/// Aggregates a finished plan when it can be: `None` when its lists are out
/// of step, an enabled shape is listed twice, or a total does not fit.
pub fn aggregate_checked(p: &ExperimentInstance, parameters: Parameters) -> (r: Option<ResultExports>)
    ensures
        r is Some <==> aggregatable(*p),
        r matches Some(x) ==> is_result_of(x, *p, parameters),
{
    let n = p.list_of_guesses.len();
    if n != p.list_of_time.len() || n > p.list_of_shapes.len() || p.list_of_retries.len()
        != p.list_of_shapes.len() || n > u32::MAX as usize {
        return None;
    }
    let sel = &p.shapes_selection;
    let mut i: usize = 0;
    while i < sel.len()
        invariant
            sel@ == p.shapes_selection@,
            i <= sel@.len(),
            forall|a: int, b: int| 0 <= a < b < sel@.len() && a < i ==> sel@[a] != sel@[b],
        decreases sel@.len() - i,
    {
        let mut j: usize = i + 1;
        while j < sel.len()
            invariant
                sel@ == p.shapes_selection@,
                i < j <= sel@.len(),
                forall|a: int, b: int| 0 <= a < b < sel@.len() && a < i ==> sel@[a] != sel@[b],
                forall|b: int| i < b < j ==> sel@[i as int] != sel@[b],
            decreases sel@.len() - j,
        {
            if sel[i] == sel[j] {
                assert(sel@[i as int] == sel@[j as int]);
                assert(!sel@.no_duplicates());
                return None;
            }
            j = j + 1;
        }
        i = i + 1;
    }
    assert(p.shapes_selection@.no_duplicates());
    let mut total: u128 = 0;
    let mut k: usize = 0;
    while k < n
        invariant
            n == p.list_of_guesses@.len() == p.list_of_time@.len(),
            n <= p.list_of_shapes@.len(),
            n <= u32::MAX,
            p.list_of_retries@.len() == p.list_of_shapes@.len(),
            p.shapes_selection@.no_duplicates(),
            k <= n,
            total == time_total(p.list_of_time@, k as nat),
        decreases n - k,
    {
        if total > u128::MAX - p.list_of_time[k] {
            proof {
                lemma_time_total_monotone(p.list_of_time@, (k + 1) as nat, n as nat);
            }
            return None;
        }
        total = total + p.list_of_time[k];
        k = k + 1;
    }
    Some(process_results(p, parameters))
}

proof fn lemma_time_total_monotone(times: Seq<u128>, k: nat, n: nat)
    requires
        k <= n,
    ensures
        time_total(times, k) <= time_total(times, n),
    decreases n,
{
    if k < n {
        lemma_time_total_monotone(times, k, (n - 1) as nat);
    }
}

} // verus!
