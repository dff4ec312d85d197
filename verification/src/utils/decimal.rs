//! Reading decimal numbers from text.
//!
//! The accepted form is an optional sign, digits with an optional point among
//! them, and an optional exponent: `e` or `E`, an optional sign and digits.
//! At least one digit must stand before the exponent. The number is rounded
//! towards zero to the next millionth.
use vstd::arithmetic::div_mod::lemma_div_multiples_vanish_fancy;
use vstd::arithmetic::div_mod::lemma_basic_div;
use vstd::arithmetic::mul::lemma_mul_is_associative;
use vstd::arithmetic::mul::lemma_mul_is_commutative;
use vstd::prelude::*;
use vstd::slice::slice_subrange;
use crate::utils::fixed::Fixed;

verus! {

pub open spec fn is_digit(b: u8) -> bool {
    48 <= b <= 57
}

pub open spec fn all_digits(s: Seq<u8>) -> bool {
    forall|i: int| 0 <= i < s.len() ==> is_digit(#[trigger] s[i])
}

/// The number that a string of decimal digits denotes.
pub open spec fn digits_value(s: Seq<u8>) -> nat
    decreases s.len(),
{
    if s.len() == 0 {
        0
    } else {
        digits_value(s.drop_last()) * 10 + (s.last() - 48) as nat
    }
}

/// Ten to the power `n`.
pub open spec fn pow10(n: nat) -> nat
    decreases n,
{
    if n == 0 {
        1
    } else {
        10 * pow10((n - 1) as nat)
    }
}

/// Position of the first byte of `s` that is `a` or `b`, or `s.len()` if it
/// has none.
pub open spec fn first_of(s: Seq<u8>, a: u8, b: u8) -> int
    decreases s.len(),
{
    if s.len() == 0 || s[0] == a || s[0] == b {
        0
    } else {
        1 + first_of(s.drop_first(), a, b)
    }
}

/// `n` times ten to the power `shift`, rounded down.
pub open spec fn shifted(n: nat, shift: int) -> nat {
    if shift >= 0 {
        n * pow10(shift as nat)
    } else {
        n / pow10((-shift) as nat)
    }
}

/// The number that the text of an exponent denotes: an optional sign and at
/// least one digit.
pub open spec fn exponent(text: Seq<u8>) -> Option<int> {
    let signed = text.len() > 0 && (text[0] == 45 || text[0] == 43);
    let digits = if signed {
        text.drop_first()
    } else {
        text
    };
    if digits.len() > 0 && all_digits(digits) {
        if text[0] == 45 {
            Some(-(digits_value(digits) as int))
        } else {
            Some(digits_value(digits) as int)
        }
    } else {
        None
    }
}

/// The digits before the exponent and the exponent of an unsigned decimal,
/// where both are well formed: the digits before and after the point, and
/// the power of ten, which is 0 where there is no exponent.
pub open spec fn parts(body: Seq<u8>) -> Option<(Seq<u8>, Seq<u8>, int)> {
    let e = first_of(body, 101, 69);
    let mantissa = body.subrange(0, e);
    let power = if e < body.len() {
        exponent(body.subrange(e + 1, body.len() as int))
    } else {
        Some(0int)
    };
    let d = first_of(mantissa, 46, 46);
    let whole = mantissa.subrange(0, d);
    let fraction = if d < mantissa.len() {
        mantissa.subrange(d + 1, mantissa.len() as int)
    } else {
        Seq::<u8>::empty()
    };
    if all_digits(whole) && all_digits(fraction) && whole.len() + fraction.len() > 0
        && power is Some {
        Some((whole, fraction, power.unwrap()))
    } else {
        None
    }
}

/// Millionths denoted by an unsigned decimal, if it is well formed: its
/// digits, read as one whole number, times the power of ten that puts the
/// point in its place, rounded down.
pub open spec fn magnitude(body: Seq<u8>) -> Option<nat> {
    match parts(body) {
        Some((whole, fraction, power)) => Some(
            shifted(digits_value(whole + fraction), power - fraction.len() + 6),
        ),
        None => None,
    }
}

/// Millionths denoted by a signed decimal, if it is well formed.
pub open spec fn decimal(text: Seq<u8>) -> Option<int> {
    if text.len() > 0 && text[0] == 45 {
        match magnitude(text.drop_first()) {
            Some(m) => Some(-(m as int)),
            None => None,
        }
    } else if text.len() > 0 && text[0] == 43 {
        match magnitude(text.drop_first()) {
            Some(m) => Some(m as int),
            None => None,
        }
    } else {
        match magnitude(text) {
            Some(m) => Some(m as int),
            None => None,
        }
    }
}

/// What [`parse_decimal`] returns for the bytes `text`.
pub open spec fn parsed(text: Seq<u8>) -> Option<Fixed> {
    match decimal(text) {
        Some(v) => if i64::MIN <= v <= i64::MAX {
            Some(Fixed { raw: v as i64 })
        } else {
            None
        },
        None => None,
    }
}

/// The largest magnitude that a number can have.
pub const LIMIT: u64 = 0x8000_0000_0000_0000;

/// `n` where it is no larger than the largest magnitude.
pub open spec fn capped(n: int) -> Option<u64> {
    if 0 <= n <= LIMIT {
        Some(n as u64)
    } else {
        None
    }
}

proof fn lemma_first_of(s: Seq<u8>, a: u8, b: u8, i: int)
    requires
        0 <= i <= s.len(),
        forall|j: int| 0 <= j < i ==> s[j] != a && s[j] != b,
        i == s.len() || s[i] == a || s[i] == b,
    ensures
        first_of(s, a, b) == i,
    decreases i,
{
    if i > 0 {
        let t = s.drop_first();
        assert forall|j: int| 0 <= j < i - 1 implies t[j] != a && t[j] != b by {
            assert(t[j] == s[j + 1]);
        }
        lemma_first_of(t, a, b, i - 1);
    }
}

proof fn lemma_pow10_positive(n: nat)
    ensures
        pow10(n) >= 1,
    decreases n,
{
    if n > 0 {
        lemma_pow10_positive((n - 1) as nat);
    }
}

proof fn lemma_pow10_grows(a: nat, b: nat)
    requires
        a <= b,
    ensures
        pow10(a) <= pow10(b),
    decreases b,
{
    if a < b {
        lemma_pow10_grows(a, (b - 1) as nat);
        lemma_pow10_positive((b - 1) as nat);
    }
}

proof fn lemma_pow10_twenty()
    ensures
        pow10(20) == 100_000_000_000_000_000_000,
{
    reveal_with_fuel(pow10, 21);
}

proof fn lemma_digits_below(s: Seq<u8>)
    requires
        all_digits(s),
    ensures
        digits_value(s) < pow10(s.len()),
    decreases s.len(),
{
    if s.len() > 0 {
        let front = s.drop_last();
        assert(is_digit(s[s.len() - 1]));
        assert forall|i: int| 0 <= i < front.len() implies is_digit(#[trigger] front[i]) by {
            assert(front[i] == s[i]);
        }
        lemma_digits_below(front);
    }
}

/// The digits of `s` before position `k` count for as many powers of ten as
/// digits follow them.
proof fn lemma_digits_split(s: Seq<u8>, k: int)
    requires
        0 <= k <= s.len(),
    ensures
        digits_value(s) == digits_value(s.subrange(0, k)) * pow10((s.len() - k) as nat)
            + digits_value(s.subrange(k, s.len() as int)),
    decreases s.len() - k,
{
    if k == s.len() {
        assert(s.subrange(0, k) =~= s);
        assert(s.subrange(k, s.len() as int) =~= Seq::<u8>::empty());
        assert(pow10((s.len() - k) as nat) == 1);
        assert(digits_value(s) * 1 == digits_value(s));
    } else {
        let front = s.drop_last();
        let head = s.subrange(0, k);
        let tail = s.subrange(k, s.len() as int);
        lemma_digits_split(front, k);
        assert(front.subrange(0, k) =~= head);
        assert(front.subrange(k, front.len() as int) =~= tail.drop_last());
        assert(tail.last() == s.last());
        let p = pow10((front.len() - k) as nat);
        let h = digits_value(head);
        let t = digits_value(tail.drop_last());
        let last = (s.last() - 48) as nat;
        assert(pow10((s.len() - k) as nat) == 10 * p);
        assert(digits_value(front) == h * p + t);
        assert(digits_value(s) == digits_value(front) * 10 + last);
        assert(digits_value(tail) == t * 10 + last);
        assert((h * p + t) * 10 + last == h * (10 * p) + (t * 10 + last)) by (nonlinear_arith);
        assert(digits_value(s) == h * pow10((s.len() - k) as nat) + digits_value(tail));
    }
}

/// Dividing by a power of ten drops as many digits from the end.
proof fn lemma_shift_down(s: Seq<u8>, m: nat)
    requires
        all_digits(s),
    ensures
        m <= s.len() ==> digits_value(s) / pow10(m) == digits_value(
            s.subrange(0, s.len() - m),
        ),
        m > s.len() ==> digits_value(s) / pow10(m) == 0,
{
    lemma_pow10_positive(m);
    if m <= s.len() {
        let k = s.len() - m;
        let tail = s.subrange(k, s.len() as int);
        lemma_digits_split(s, k);
        assert forall|i: int| 0 <= i < tail.len() implies is_digit(#[trigger] tail[i]) by {
            assert(tail[i] == s[k + i]);
        }
        lemma_digits_below(tail);
        let head = digits_value(s.subrange(0, k)) as int;
        lemma_mul_is_commutative(head, pow10(m) as int);
        lemma_div_multiples_vanish_fancy(head, digits_value(tail) as int, pow10(m) as int);
    } else {
        lemma_digits_below(s);
        lemma_pow10_grows(s.len(), m);
        lemma_basic_div(digits_value(s) as int, pow10(m) as int);
    }
}

proof fn lemma_digits_bound(s: Seq<u8>, k: int)
    requires
        all_digits(s),
        0 <= k <= s.len(),
    ensures
        digits_value(s.subrange(0, k)) <= digits_value(s),
    decreases s.len() - k,
{
    if k < s.len() {
        let longer = s.subrange(0, k + 1);
        assert(longer.drop_last() =~= s.subrange(0, k));
        assert(is_digit(s[k]));
        lemma_digits_bound(s, k + 1);
    } else {
        assert(s.subrange(0, k) =~= s);
    }
}

fn find_either(s: &[u8], a: u8, b: u8) -> (i: usize)
    ensures
        i == first_of(s@, a, b),
        i <= s@.len(),
{
    let mut i: usize = 0;
    while i < s.len() && s[i] != a && s[i] != b
        invariant
            i <= s@.len(),
            forall|j: int| 0 <= j < i ==> s@[j] != a && s@[j] != b,
        decreases s@.len() - i,
    {
        i += 1;
    }
    proof {
        lemma_first_of(s@, a, b, i as int);
    }
    i
}

fn only_digits(s: &[u8]) -> (b: bool)
    ensures
        b == all_digits(s@),
{
    let mut i: usize = 0;
    while i < s.len()
        invariant
            i <= s@.len(),
            forall|j: int| 0 <= j < i ==> is_digit(#[trigger] s@[j]),
        decreases s@.len() - i,
    {
        if s[i] < 48 || s[i] > 57 {
            assert(!is_digit(s@[i as int]));
            return false;
        }
        i += 1;
    }
    true
}

/// The value of the first `keep` of the digits `a` followed by `b`.
fn leading_digits(a: &[u8], b: &[u8], keep: usize) -> (r: Option<u64>)
    requires
        all_digits(a@),
        all_digits(b@),
        keep <= a@.len() + b@.len(),
    ensures
        r == capped(digits_value((a@ + b@).subrange(0, keep as int)) as int),
{
    let ghost digits = a@ + b@;
    let mut acc: u64 = 0;
    let mut i: usize = 0;
    assert(digits.subrange(0, 0) =~= Seq::<u8>::empty());
    while i < keep
        invariant
            i <= keep <= digits.len(),
            digits == a@ + b@,
            all_digits(a@),
            all_digits(b@),
            acc == digits_value(digits.subrange(0, i as int)),
            acc <= LIMIT,
        decreases keep - i,
    {
        let byte: u8 = if i < a.len() {
            a[i]
        } else {
            b[i - a.len()]
        };
        proof {
            assert(digits[i as int] == byte);
            assert(is_digit(byte)) by {
                if i < a@.len() {
                    assert(is_digit(a@[i as int]));
                } else {
                    assert(is_digit(b@[i - a@.len()]));
                }
            }
            assert(digits.subrange(0, i + 1).drop_last() =~= digits.subrange(0, i as int));
            assert(digits.subrange(0, i + 1).last() == byte);
        }
        let next: u128 = acc as u128 * 10 + (byte - 48) as u128;
        i += 1;
        if next > 0x8000_0000_0000_0000 {
            proof {
                let kept = digits.subrange(0, keep as int);
                assert forall|j: int| 0 <= j < kept.len() implies is_digit(#[trigger] kept[j]) by {
                    assert(kept[j] == digits[j]);
                    if j < a@.len() {
                        assert(is_digit(a@[j]));
                    } else {
                        assert(is_digit(b@[j - a@.len()]));
                    }
                }
                lemma_digits_bound(kept, i as int);
                assert(kept.subrange(0, i as int) =~= digits.subrange(0, i as int));
            }
            return None;
        }
        acc = next as u64;
    }
    Some(acc)
}

/// `v` times ten to the power `count`.
fn times_power_of_ten(v: u64, count: u128) -> (r: Option<u64>)
    requires
        v <= LIMIT,
    ensures
        r == capped(v * pow10(count as nat)),
{
    let mut acc: u64 = v;
    let mut left: u128 = count;
    while left > 0
        invariant
            acc <= LIMIT,
            acc * pow10(left as nat) == v * pow10(count as nat),
        decreases left,
    {
        proof {
            lemma_pow10_positive((left - 1) as nat);
            lemma_mul_is_associative(acc as int, 10, pow10((left - 1) as nat) as int);
        }
        if acc == 0 {
            assert(acc * pow10(left as nat) == 0) by (nonlinear_arith)
                requires
                    acc == 0,
            ;
            return Some(0);
        }
        let next: u128 = acc as u128 * 10;
        if next > 0x8000_0000_0000_0000 {
            proof {
                let rest = pow10((left - 1) as nat);
                assert((acc * 10) * rest >= acc * 10) by (nonlinear_arith)
                    requires
                        rest >= 1,
                        acc >= 0,
                ;
            }
            return None;
        }
        acc = next as u64;
        left -= 1;
    }
    assert(acc * pow10(0) == acc) by (nonlinear_arith)
        requires
            pow10(0) == 1,
    ;
    Some(acc)
}

/// Largest power of ten that is told from larger ones: beyond it, a number
/// is either nothing or too large, or too small to be told from nothing.
pub const POWER_LIMIT: i128 = 0x40_0000_0000_0000_0000;

/// `e`, or the nearest power that is within the limit.
pub open spec fn clamped(e: int) -> int {
    if e > POWER_LIMIT {
        POWER_LIMIT as int
    } else if e < -POWER_LIMIT {
        -POWER_LIMIT
    } else {
        e
    }
}

fn exponent_value(text: &[u8]) -> (r: Option<i128>)
    ensures
        match exponent(text@) {
            None => r is None,
            Some(e) => r == Some(clamped(e) as i128),
        },
{
    let n: usize = text.len();
    let signed: bool = n > 0 && (text[0] == 45 || text[0] == 43);
    let digits = if signed {
        slice_subrange(text, 1, n)
    } else {
        slice_subrange(text, 0, n)
    };
    proof {
        if signed {
            assert(text@.subrange(1, n as int) =~= text@.drop_first());
        } else {
            assert(text@.subrange(0, n as int) =~= text@);
        }
    }
    if digits.len() == 0 || !only_digits(digits) {
        return None;
    }
    let mut acc: i128 = 0;
    let mut i: usize = 0;
    assert(digits@.subrange(0, 0) =~= Seq::<u8>::empty());
    while i < digits.len()
        invariant
            i <= digits@.len(),
            all_digits(digits@),
            0 <= acc <= POWER_LIMIT,
            acc == clamped(digits_value(digits@.subrange(0, i as int)) as int),
        decreases digits@.len() - i,
    {
        proof {
            assert(is_digit(digits@[i as int]));
            assert(digits@.subrange(0, i + 1).drop_last() =~= digits@.subrange(0, i as int));
        }
        acc = acc * 10 + (digits[i] - 48) as i128;
        if acc > POWER_LIMIT {
            acc = POWER_LIMIT;
        }
        i += 1;
    }
    assert(digits@.subrange(0, i as int) =~= digits@);
    if text[0] == 45 {
        Some(-acc)
    } else {
        Some(acc)
    }
}

fn unsigned(body: &[u8]) -> (r: Option<u64>)
    ensures
        r == match magnitude(body@) {
            Some(m) => capped(m as int),
            None => None,
        },
{
    let e: usize = find_either(body, 101, 69);
    let mantissa = slice_subrange(body, 0, e);
    let power: Option<i128> = if e < body.len() {
        exponent_value(slice_subrange(body, e + 1, body.len()))
    } else {
        Some(0)
    };
    let d: usize = find_either(mantissa, 46, 46);
    let whole = slice_subrange(mantissa, 0, d);
    let fraction = if d < mantissa.len() {
        slice_subrange(mantissa, d + 1, mantissa.len())
    } else {
        slice_subrange(mantissa, 0, 0)
    };
    assert(mantissa@.subrange(0, 0) =~= Seq::<u8>::empty());
    if !only_digits(whole) || !only_digits(fraction) || whole.len() + fraction.len() == 0 {
        return None;
    }
    let power: i128 = match power {
        None => {
            return None;
        },
        Some(p) => p,
    };
    let ghost digits = whole@ + fraction@;
    let ghost exact = parts(body@).unwrap().2;
    let ghost shift = exact - fraction@.len() + 6;
    let total: i128 = whole.len() as i128 + fraction.len() as i128;
    let keep: i128 = whole.len() as i128 + power + 6;
    proof {
        assert(parts(body@) == Some((whole@, fraction@, exact)));
        assert(power == clamped(exact));
        assert(magnitude(body@) == Some(shifted(digits_value(digits), shift)));
        assert(all_digits(digits)) by {
            assert forall|j: int| 0 <= j < digits.len() implies is_digit(#[trigger] digits[j]) by {
                if j < whole@.len() {
                    assert(is_digit(whole@[j]));
                } else {
                    assert(is_digit(fraction@[j - whole@.len()]));
                }
            }
        }
        assert(digits.len() == total);
    }
    if keep <= 0 {
        proof {
            // every digit falls behind the sixth place
            assert(-shift >= total);
            lemma_shift_down(digits, (-shift) as nat);
            lemma_shift_down(digits, total as nat);
            assert(digits.subrange(0, 0) =~= Seq::<u8>::empty());
        }
        Some(0)
    } else if keep >= total {
        let value: u64 = match leading_digits(whole, fraction, whole.len() + fraction.len()) {
            None => {
                proof {
                    assert(digits.subrange(0, total as int) =~= digits);
                    lemma_pow10_positive(shift as nat);
                    assert(digits_value(digits) * pow10(shift as nat) >= digits_value(digits))
                        by (nonlinear_arith)
                        requires
                            pow10(shift as nat) >= 1,
                    ;
                }
                return None;
            },
            Some(v) => v,
        };
        proof {
            assert(digits.subrange(0, total as int) =~= digits);
        }
        let r = times_power_of_ten(value, (keep - total) as u128);
        proof {
            if exact != power {
                // the power is beyond the limit: the number is nothing or too large
                lemma_pow10_twenty();
                lemma_pow10_grows(20, shift as nat);
                lemma_pow10_grows(20, (keep - total) as nat);
                let p = pow10(shift as nat);
                let q = pow10((keep - total) as nat);
                if value == 0 {
                    assert(value * p == 0 && value * q == 0) by (nonlinear_arith)
                        requires
                            value == 0,
                    ;
                } else {
                    assert(value * p > LIMIT && value * q > LIMIT) by (nonlinear_arith)
                        requires
                            value >= 1,
                            p >= 100_000_000_000_000_000_000,
                            q >= 100_000_000_000_000_000_000,
                            LIMIT == 0x8000_0000_0000_0000,
                    ;
                }
            }
        }
        r
    } else {
        proof {
            lemma_shift_down(digits, (-shift) as nat);
        }
        leading_digits(whole, fraction, keep as usize)
    }
}

/// Reads a decimal number from its text.
///
/// Returns `None` where the text is not a decimal of the accepted form or
/// its value cannot be held.
pub fn parse_decimal(text: &[u8]) -> (r: Option<Fixed>)
    ensures
        r == parsed(text@),
{
    let n: usize = text.len();
    let negative: bool = n > 0 && text[0] == 45;
    let signed: bool = n > 0 && (text[0] == 45 || text[0] == 43);
    let body = if signed {
        slice_subrange(text, 1, n)
    } else {
        slice_subrange(text, 0, n)
    };
    proof {
        if signed {
            assert(text@.subrange(1, n as int) =~= text@.drop_first());
        } else {
            assert(text@.subrange(0, n as int) =~= text@);
        }
    }
    match unsigned(body) {
        None => None,
        Some(m) => {
            if negative {
                if m == 0x8000_0000_0000_0000 {
                    Some(Fixed { raw: i64::MIN })
                } else {
                    Some(Fixed { raw: -(m as i64) })
                }
            } else if m > 0x7fff_ffff_ffff_ffff {
                None
            } else {
                Some(Fixed { raw: m as i64 })
            }
        },
    }
}

} // verus!
