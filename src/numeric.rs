//! Decimal text as typed by a user: whole numbers for run parameters, and
//! fixed-point numbers with up to three fractional digits for arm axes.
use vstd::prelude::*;
use vstd::string::*;

verus! {

pub open spec fn is_digit(c: char) -> bool {
    '0' <= c && c <= '9'
}

pub open spec fn digit_value(c: char) -> int {
    c as int - '0' as int
}

pub open spec fn all_digits(s: Seq<char>) -> bool {
    forall|i: int| 0 <= i < s.len() ==> is_digit(#[trigger] s[i])
}

/// The number written by a string of decimal digits, most significant first.
pub open spec fn digits_value(s: Seq<char>) -> int
    decreases s.len(),
{
    if s.len() == 0 {
        0
    } else {
        digits_value(s.drop_last()) * 10 + digit_value(s.last())
    }
}

/// A non-empty run of digits whose value fits in a `u32`.
pub open spec fn spec_digits_u32(s: Seq<char>) -> Option<u32> {
    if s.len() > 0 && all_digits(s) && digits_value(s) <= u32::MAX {
        Some(digits_value(s) as u32)
    } else {
        None
    }
}

/// Whole-number text: an optional `+`, then digits; the value fits in a `u32`.
pub open spec fn spec_parse_u32(s: Seq<char>) -> Option<u32> {
    if s.len() > 0 && s[0] == '+' {
        spec_digits_u32(s.drop_first())
    } else {
        spec_digits_u32(s)
    }
}

/// Position of the first `.` in `s`, or `s.len()` when there is none.
pub open spec fn dot_index(s: Seq<char>) -> int
    decreases s.len(),
{
    if s.len() == 0 {
        0
    } else if s[0] == '.' {
        0
    } else {
        1 + dot_index(s.drop_first())
    }
}

pub open spec fn pow10(n: nat) -> int
    decreases n,
{
    if n == 0 {
        1
    } else {
        10 * pow10((n - 1) as nat)
    }
}

/// Thousandths written by the digits after the point (one to three of them).
pub open spec fn spec_fraction_milli(f: Seq<char>) -> Option<int> {
    if f.len() == 0 || f.len() > 3 || !all_digits(f) {
        None
    } else {
        Some(digits_value(f) * pow10((3 - f.len()) as nat))
    }
}

/// Thousandths written by unsigned fixed-point text: digits, then optionally
/// a point and one to three digits. The whole part fits in a `u32`.
pub open spec fn spec_unsigned_milli(b: Seq<char>) -> Option<int> {
    let k = dot_index(b);
    match spec_digits_u32(b.take(k)) {
        None => None,
        Some(w) => if k == b.len() {
            Some(w * 1000)
        } else {
            match spec_fraction_milli(b.skip(k + 1)) {
                None => None,
                Some(f) => Some(w * 1000 + f),
            }
        },
    }
}

/// Fixed-point text in thousandths: an optional sign, then unsigned
/// fixed-point text.
pub open spec fn spec_parse_milli(s: Seq<char>) -> Option<i64> {
    if s.len() > 0 && s[0] == '-' {
        match spec_unsigned_milli(s.drop_first()) {
            None => None,
            Some(m) => Some((-m) as i64),
        }
    } else if s.len() > 0 && s[0] == '+' {
        match spec_unsigned_milli(s.drop_first()) {
            None => None,
            Some(m) => Some(m as i64),
        }
    } else {
        match spec_unsigned_milli(s) {
            None => None,
            Some(m) => Some(m as i64),
        }
    }
}

proof fn lemma_digits_value_nonneg(s: Seq<char>)
    requires
        all_digits(s),
    ensures
        digits_value(s) >= 0,
    decreases s.len(),
{
    if s.len() > 0 {
        assert(all_digits(s.drop_last())) by {
            assert forall|i: int| 0 <= i < s.drop_last().len() implies is_digit(
                #[trigger] s.drop_last()[i],
            ) by {
                assert(s.drop_last()[i] == s[i]);
            }
        }
        lemma_digits_value_nonneg(s.drop_last());
        assert(is_digit(s[s.len() - 1]));
    }
}

/// Reads the digits of `s` between `lo` and `hi` as a `u32`.
fn digits_u32(s: &str, lo: usize, hi: usize) -> (r: Option<u32>)
    requires
        lo <= hi <= s@.len(),
    ensures
        r == spec_digits_u32(s@.subrange(lo as int, hi as int)),
{
    let ghost d = s@.subrange(lo as int, hi as int);
    if lo == hi {
        return None;
    }
    let mut acc: u64 = 0;
    let mut i: usize = lo;
    while i < hi
        invariant
            lo <= i <= hi <= s@.len(),
            d == s@.subrange(lo as int, hi as int),
            all_digits(d.take(i - lo)),
            acc as int == digits_value(d.take(i - lo)),
            acc <= u32::MAX,
        decreases hi - i,
    {
        let c = s.get_char(i);
        let ghost p = d.take(i - lo);
        let ghost q = d.take(i + 1 - lo);
        assert(q.drop_last() =~= p);
        assert(q.last() == c);
        if !('0' <= c && c <= '9') {
            assert(!all_digits(d)) by {
                assert(d[i - lo] == c);
            }
            return None;
        }
        assert(all_digits(q)) by {
            assert forall|j: int| 0 <= j < q.len() implies is_digit(#[trigger] q[j]) by {
                if j < p.len() {
                    assert(q[j] == p[j]);
                }
            }
        }
        let dv: u64 = (c as u32 - '0' as u32) as u64;
        let next: u64 = acc * 10 + dv;
        if next > u32::MAX as u64 {
            assert(digits_value(q) == acc * 10 + dv);
            assert(!(all_digits(d) && digits_value(d) <= u32::MAX)) by {
                lemma_prefix_value_bound(d, i + 1 - lo);
            }
            return None;
        }
        acc = next;
        i = i + 1;
    }
    assert(d.take(hi - lo) =~= d);
    Some(acc as u32)
}

/// A prefix of a digit string never writes more than the whole string.
proof fn lemma_prefix_value_bound(d: Seq<char>, n: int)
    requires
        0 <= n <= d.len(),
        all_digits(d.take(n)),
    ensures
        all_digits(d) ==> digits_value(d.take(n)) <= digits_value(d),
    decreases d.len() - n,
{
    if n < d.len() && all_digits(d) {
        let p = d.take(n);
        let q = d.take(n + 1);
        assert(q.drop_last() =~= p);
        assert(all_digits(q)) by {
            assert forall|j: int| 0 <= j < q.len() implies is_digit(#[trigger] q[j]) by {
                assert(q[j] == d[j]);
            }
        }
        lemma_digits_value_nonneg(p);
        assert(is_digit(q.last()));
        lemma_prefix_value_bound(d, n + 1);
    } else if n == d.len() {
        assert(d.take(n) =~= d);
    }
}

/// Parses whole-number text, as typed for a count or a frequency.
pub fn parse_u32(s: &str) -> (r: Option<u32>)
    ensures
        r == spec_parse_u32(s@),
{
    let n = s.unicode_len();
    if n > 0 && s.get_char(0) == '+' {
        assert(s@.subrange(1, n as int) =~= s@.drop_first());
        digits_u32(s, 1, n)
    } else {
        assert(s@.subrange(0, n as int) =~= s@);
        digits_u32(s, 0, n)
    }
}

proof fn lemma_dot_index(s: Seq<char>, k: int)
    requires
        0 <= k <= s.len(),
        forall|j: int| 0 <= j < k ==> s[j] != '.',
        k == s.len() || s[k] == '.',
    ensures
        dot_index(s) == k,
    decreases k,
{
    if k > 0 {
        assert(s[0] != '.');
        lemma_dot_index(s.drop_first(), k - 1);
    }
}

/// Finds the first `.` at or after `lo`.
fn find_dot(s: &str, lo: usize) -> (k: usize)
    requires
        lo <= s@.len(),
    ensures
        lo <= k <= s@.len(),
        k as int - lo == dot_index(s@.skip(lo as int)),
{
    let n = s.unicode_len();
    let mut k: usize = lo;
    while k < n && s.get_char(k) != '.'
        invariant
            lo <= k <= n == s@.len(),
            forall|j: int| lo <= j < k ==> s@[j] != '.',
        decreases n - k,
    {
        k = k + 1;
    }
    proof {
        let b = s@.skip(lo as int);
        assert forall|j: int| 0 <= j < k - lo implies b[j] != '.' by {
            assert(b[j] == s@[lo + j]);
        }
        if k < n {
            assert(b[k - lo] == s@[k as int]);
        }
        lemma_dot_index(b, k - lo);
    }
    k
}

/// Parses fixed-point text into thousandths, as typed for an arm axis:
/// `-12.5` gives `-12500`.
pub fn parse_milli(s: &str) -> (r: Option<i64>)
    ensures
        r == spec_parse_milli(s@),
{
    let n = s.unicode_len();
    let signed = n > 0 && (s.get_char(0) == '-' || s.get_char(0) == '+');
    let negative = n > 0 && s.get_char(0) == '-';
    let lo: usize = if signed { 1 } else { 0 };
    let ghost b = s@.skip(lo as int);
    proof {
        if signed {
            assert(b =~= s@.drop_first());
        } else {
            assert(b =~= s@);
        }
    }
    let k = find_dot(s, lo);
    let ghost kb = k - lo;
    assert(b.take(kb) =~= s@.subrange(lo as int, k as int));
    let whole = match digits_u32(s, lo, k) {
        None => {
            return None;
        },
        Some(w) => w,
    };
    let mut m: i64 = whole as i64 * 1000;
    if k < n {
        assert(b.skip(kb + 1) =~= s@.subrange(k + 1, n as int));
        let flen = n - (k + 1);
        assert(b.skip(kb + 1).len() == flen);
        if flen == 0 || flen > 3 {
            assert(spec_fraction_milli(b.skip(kb + 1)).is_none());
            assert(spec_unsigned_milli(b).is_none());
            return None;
        }
        let ghost fs = s@.subrange(k + 1, n as int);
        let frac = match digits_u32(s, k + 1, n) {
            None => {
                proof {
                    if all_digits(fs) {
                        lemma_short_digits_bound(fs);
                        assert(pow10(0) == 1);
                        assert(pow10(1) == 10);
                        assert(pow10(2) == 100);
                        assert(pow10(3) == 1000);
                    }
                }
                assert(spec_fraction_milli(b.skip(kb + 1)).is_none());
                return None;
            },
            Some(f) => f,
        };
        assert(all_digits(fs));
        proof {
            lemma_digits_value_nonneg(fs);
        }
        assert(digits_value(fs) == frac as int);
        assert(pow10(0) == 1);
        assert(pow10(1) == 10);
        assert(pow10(2) == 100);
        assert(frac < 1000) by {
            lemma_short_digits_bound(fs);
        }
        let scale: i64 = if flen == 1 {
            100
        } else if flen == 2 {
            10
        } else {
            1
        };
        assert(scale as int == pow10((3 - flen) as nat));
        assert(frac as int * scale as int <= 100000) by (nonlinear_arith)
            requires
                frac < 1000,
                scale <= 100,
        ;
        m = m + frac as i64 * scale;
        assert(spec_fraction_milli(fs) == Some(frac * scale));
        assert(spec_unsigned_milli(b) == Some(m as int));
    } else {
        assert(spec_unsigned_milli(b) == Some(m as int));
    }
    if negative {
        Some(-m)
    } else {
        Some(m)
    }
}

proof fn lemma_short_digits_bound(f: Seq<char>)
    requires
        all_digits(f),
        f.len() <= 3,
    ensures
        0 <= digits_value(f) < pow10(f.len()),
    decreases f.len(),
{
    if f.len() > 0 {
        let p = f.drop_last();
        assert(all_digits(p)) by {
            assert forall|j: int| 0 <= j < p.len() implies is_digit(#[trigger] p[j]) by {
                assert(p[j] == f[j]);
            }
        }
        lemma_short_digits_bound(p);
        assert(is_digit(f[f.len() - 1]));
    }
}

} // verus!
