//! How a measured value is written: as the nearest double, a whole number without a decimal
//! point, anything else with six decimals.
//!
//! All of it is integer arithmetic. A double stands for `mantissa * 2^exponent`, and every
//! rounding is to the nearest, ties to even.

use vstd::prelude::*;

use crate::text;

verus! {

/// One more than the largest mantissa of a double, two to the power 53. Up to here every whole
/// number is a double.
pub const MANTISSA_END: u128 = 0x20_0000_0000_0000;

/// A finite double that is not negative: `mantissa * 2^exponent`.
#[derive(Clone, Copy, PartialEq, Eq, Structural, Debug)]
pub struct Double {
    pub mantissa: u128,
    pub exponent: i32,
}

/// `num / den` rounded to the nearest whole number, ties to even.
pub open spec fn rounded(num: nat, den: nat) -> nat {
    let q = num / den;
    let r = num % den;
    if 2 * r > den || (2 * r == den && q % 2 == 1) {
        q + 1
    } else {
        q
    }
}

/// Two to the power `n`.
pub open spec fn two_to(n: nat) -> nat
    decreases n,
{
    if n == 0 {
        1
    } else {
        2 * two_to((n - 1) as nat)
    }
}

/// The double nearest to `num / den * 2^exponent`, for a quotient below `2^53`: the quotient is
/// doubled until it has 53 bits, then rounded.
pub open spec fn nearest_below(num: nat, den: nat, exponent: int) -> (nat, int)
    decreases den * 0x20_0000_0000_0000 - num,
{
    if 0 < num && num < den * 0x10_0000_0000_0000 {
        nearest_below(2 * num, den, exponent - 1)
    } else {
        (rounded(num, den), exponent)
    }
}

/// The double nearest to `num / den * 2^exponent`: the quotient is halved while it has more
/// than 53 bits.
pub open spec fn nearest(num: nat, den: nat, exponent: int) -> (nat, int)
    decreases num - den,
{
    if den > 0 && num >= den * 0x20_0000_0000_0000 {
        nearest(num, 2 * den, exponent + 1)
    } else {
        nearest_below(num, den, exponent)
    }
}

/// Whether a double is a whole number.
pub open spec fn is_whole(d: (nat, int)) -> bool {
    d.1 >= 0 || d.0 % two_to((-d.1) as nat) == 0
}

/// The whole part of a double.
pub open spec fn whole_part(d: (nat, int)) -> nat {
    if d.1 >= 0 {
        d.0 * two_to(d.1 as nat)
    } else {
        d.0 / two_to((-d.1) as nat)
    }
}

/// A double in millionths, rounded.
pub open spec fn millionths(d: (nat, int)) -> nat {
    if d.1 >= 0 {
        d.0 * two_to(d.1 as nat) * 1_000_000
    } else {
        rounded(d.0 * 1_000_000, two_to((-d.1) as nat))
    }
}

/// A double as text: a whole number without a decimal point, anything else with six decimals.
pub open spec fn double_text(d: (nat, int)) -> Seq<char> {
    if is_whole(d) {
        text::decimal(whole_part(d))
    } else {
        text::decimal(millionths(d) / 1_000_000).push('.') + text::padded(
            millionths(d) % 1_000_000,
            6,
        )
    }
}

/// A value that a sample reports.
#[derive(Clone, Copy, PartialEq, Eq, Structural, Debug)]
pub enum SampleValue {
    /// A count or a size.
    Whole(u64),
    /// A number that may be negative.
    Signed(i64),
    /// Milliseconds, reported in seconds.
    Millis(u64),
    /// Microseconds, reported in seconds.
    Micros(u64),
}

/// The double nearest to `n / den`, where `n` itself becomes a double first.
pub open spec fn quotient(n: nat, den: nat) -> (nat, int) {
    nearest(whole_part(nearest(n, 1, 0)), den, 0)
}

/// The text of a reported value.
pub open spec fn value_text(value: SampleValue) -> Seq<char> {
    match value {
        SampleValue::Whole(n) => double_text(quotient(n as nat, 1)),
        SampleValue::Signed(n) => if n < 0 {
            seq!['-'] + double_text(quotient((-n) as nat, 1))
        } else {
            double_text(quotient(n as nat, 1))
        },
        SampleValue::Millis(n) => double_text(quotient(n as nat, 1_000)),
        SampleValue::Micros(n) => double_text(quotient(n as nat, 1_000_000)),
    }
}

fn round(num: u128, den: u128) -> (r: u128)
    requires
        0 < den <= 0x10_0000_0000_0000_0000_0000_0000,
    ensures
        r == rounded(num as nat, den as nat),
        r <= num / den + 1,
{
    let q: u128 = num / den;
    let r: u128 = num % den;
    assert(q <= num) by (nonlinear_arith)
        requires
            den > 0,
            q == num / den,
    ;
    if 2 * r > den || (2 * r == den && q % 2 == 1) {
        assert(q < u128::MAX) by (nonlinear_arith)
            requires
                den > 0,
                r > 0,
                q == num / den,
                r == num % den,
        ;
        q + 1
    } else {
        q
    }
}

fn power_of_two(n: u32) -> (r: u128)
    requires
        n <= 100,
    ensures
        r == two_to(n as nat),
        0 < r <= 0x10_0000_0000_0000_0000_0000_0000,
    decreases n,
{
    proof {
        two_to_grows(n as nat, 100);
        two_to_hundred();
    }
    if n == 0 {
        1
    } else {
        2 * power_of_two(n - 1)
    }
}

proof fn two_to_hundred()
    ensures
        two_to(100) == 0x10_0000_0000_0000_0000_0000_0000,
        two_to(80) == 0x1_0000_0000_0000_0000_0000,
        two_to(53) == 0x20_0000_0000_0000,
{
    reveal_with_fuel(two_to, 21);
    assert(two_to(20) == 0x10_0000);
    assert(two_to(40) == 0x100_0000_0000);
    assert(two_to(53) == 0x20_0000_0000_0000);
    assert(two_to(60) == 0x1000_0000_0000_0000);
    assert(two_to(80) == 0x1_0000_0000_0000_0000_0000);
}

/// Powers of two grow.
pub proof fn two_to_grows(a: nat, b: nat)
    requires
        a <= b,
    ensures
        0 < two_to(a) <= two_to(b),
    decreases b,
{
    if a < b {
        two_to_grows(a, (b - 1) as nat);
    } else if a > 0 {
        two_to_grows((a - 1) as nat, (a - 1) as nat);
    }
}

fn find_nearest_below(num: u128, den: u128, exponent: i32) -> (d: Double)
    requires
        0 < den <= 0x10_0000,
        num < den * 0x20_0000_0000_0000,
        exponent <= 20,
        num > 0 && exponent < 0 ==> num >= two_to((-exponent) as nat),
        num == 0 ==> exponent == 0,
    ensures
        (d.mantissa as nat, d.exponent as int) == nearest_below(
            num as nat,
            den as nat,
            exponent as int,
        ),
        -80 <= d.exponent <= exponent,
        d.mantissa <= 0x20_0000_0000_0000,
    decreases den * 0x20_0000_0000_0000 - num,
{
    proof {
        two_to_hundred();
        if exponent < -80 {
            two_to_grows(80, (-exponent) as nat);
        }
    }
    if 0 < num && num < den * 0x10_0000_0000_0000 {
        proof {
            if exponent <= 0 {
                let k = (1 - exponent) as nat;
                assert(two_to(k) == 2 * two_to((k - 1) as nat));
                assert((k - 1) as nat == (-exponent) as nat);
            }
        }
        find_nearest_below(2 * num, den, exponent - 1)
    } else {
        assert(num / den < 0x20_0000_0000_0000) by (nonlinear_arith)
            requires
                0 < den,
                num < den * 0x20_0000_0000_0000,
        ;
        Double { mantissa: round(num, den), exponent }
    }
}

fn find_nearest(num: u128, den: u128, exponent: i32) -> (d: Double)
    requires
        0 < den <= 0x10_0000,
        num <= 0x4_0000_0000_0000_0000,
        0 <= exponent <= 16,
        exponent > 0 ==> num >= den * 0x10_0000_0000_0000,
        den >= two_to(exponent as nat),
    ensures
        (d.mantissa as nat, d.exponent as int) == nearest(num as nat, den as nat, exponent as int),
        -80 <= d.exponent <= 14,
        num <= 0x1_0000_0000_0000_0000 ==> d.exponent <= 12,
        d.mantissa <= 0x20_0000_0000_0000,
    decreases num - den,
{
    proof {
        reveal_with_fuel(two_to, 16);
        if exponent > 14 {
            two_to_grows(15, exponent as nat);
        } else if exponent > 12 {
            two_to_grows(13, exponent as nat);
        }
    }
    if num >= den * 0x20_0000_0000_0000 {
        find_nearest(num, 2 * den, exponent + 1)
    } else {
        if num == 0 {
            assert(exponent == 0);
        }
        find_nearest_below(num, den, exponent)
    }
}

fn find_whole_part(d: Double) -> (r: u128)
    requires
        -80 <= d.exponent <= 14,
        d.mantissa <= 0x20_0000_0000_0000,
    ensures
        r == whole_part((d.mantissa as nat, d.exponent as int)),
        r <= 0x20_0000_0000_0000 * 0x4000,
        d.exponent <= 12 ==> r <= 0x20_0000_0000_0000 * 0x1000,
{
    if d.exponent >= 0 {
        let p: u128 = power_of_two(d.exponent as u32);
        let m: u128 = d.mantissa;
        proof {
            reveal_with_fuel(two_to, 16);
            two_to_grows(d.exponent as nat, 14);
            if d.exponent <= 12 {
                two_to_grows(d.exponent as nat, 12);
            }
        }
        assert(m * p <= 0x20_0000_0000_0000 * 0x4000) by (nonlinear_arith)
            requires
                m <= 0x20_0000_0000_0000,
                p <= 0x4000,
        ;
        assert(p <= 0x1000 ==> m * p <= 0x20_0000_0000_0000 * 0x1000) by (nonlinear_arith)
            requires
                m <= 0x20_0000_0000_0000,
        ;
        m * p
    } else {
        let p: u128 = power_of_two((-d.exponent) as u32);
        let m: u128 = d.mantissa;
        assert(m / p <= m) by (nonlinear_arith)
            requires
                p > 0,
        ;
        m / p
    }
}

fn push_double(out: &mut String, d: Double)
    requires
        -80 <= d.exponent <= 14,
        d.mantissa <= 0x20_0000_0000_0000,
    ensures
        final(out)@ == old(out)@ + double_text((d.mantissa as nat, d.exponent as int)),
{
    let ghost v = (d.mantissa as nat, d.exponent as int);
    let whole: u128 = find_whole_part(d);
    let is_whole: bool = d.exponent >= 0 || d.mantissa % power_of_two((-d.exponent) as u32) == 0;
    if is_whole {
        text::push_decimal(out, whole);
    } else {
        let scaled: u128 = round(d.mantissa * 1_000_000, power_of_two((-d.exponent) as u32));
        text::push_decimal(out, scaled / 1_000_000);
        out.push('.');
        text::push_padded(out, scaled % 1_000_000, 6);
        assert(old(out)@ + double_text(v) =~= (old(out)@ + text::decimal(
            millionths(v) / 1_000_000,
        )).push('.') + text::padded(millionths(v) % 1_000_000, 6));
    }
}

fn push_quotient(out: &mut String, n: u64, den: u128)
    requires
        0 < den <= 0x10_0000,
    ensures
        final(out)@ == old(out)@ + double_text(quotient(n as nat, den as nat)),
{
    reveal_with_fuel(two_to, 1);
    let whole: u128 = find_whole_part(find_nearest(n as u128, 1, 0));
    push_double(out, find_nearest(whole, den, 0));
}

/// Append the text of a reported value.
pub fn push_value(out: &mut String, value: SampleValue)
    ensures
        final(out)@ == old(out)@ + value_text(value),
{
    match value {
        SampleValue::Whole(n) => push_quotient(out, n, 1),
        SampleValue::Signed(n) => {
            if n < 0 {
                out.push('-');
                let magnitude: u64 = (-(n as i128)) as u64;
                push_quotient(out, magnitude, 1);
                assert(old(out)@ + value_text(value) =~= old(out)@.push('-') + double_text(
                    quotient((-n) as nat, 1),
                ));
            } else {
                push_quotient(out, n as u64, 1);
            }
        },
        SampleValue::Millis(n) => push_quotient(out, n, 1_000),
        SampleValue::Micros(n) => push_quotient(out, n, 1_000_000),
    }
}

proof fn doubling_keeps_whole(n: nat, k: nat)
    requires
        n * two_to(k) < 0x20_0000_0000_0000,
    ensures
        ({
            let d = nearest_below(n * two_to(k), 1, -(k as int));
            is_whole(d) && whole_part(d) == n
        }),
    decreases 0x20_0000_0000_0000 - n * two_to(k),
{
    two_to_grows(k, k);
    let p = two_to(k);
    let num = n * p;
    if 0 < num && num < 0x10_0000_0000_0000 {
        assert(two_to(k + 1) == 2 * p);
        assert(n * (2 * p) == 2 * num) by (nonlinear_arith)
            requires
                num == n * p,
        ;
        doubling_keeps_whole(n, k + 1);
    } else {
        assert(rounded(num, 1) == num);
        assert((n * p) % p == 0 && (n * p) / p == n) by (nonlinear_arith)
            requires
                p > 0,
        ;
        if k == 0 {
            assert(n * two_to(0) == n) by {
                reveal_with_fuel(two_to, 1);
            }
        }
    }
}

proof fn large_is_whole(num: nat, den: nat, exponent: int)
    requires
        den > 0,
        num >= den * 0x10_0000_0000_0000,
        exponent >= 0,
    ensures
        nearest(num, den, exponent).1 >= 0,
    decreases num - den,
{
    if num >= den * 0x20_0000_0000_0000 {
        large_is_whole(num, 2 * den, exponent + 1);
    }
}

/// The double nearest to a whole number is whole, and is that number where it is below `2^53`.
proof fn whole_stays_whole(n: nat)
    ensures
        is_whole(nearest(n, 1, 0)),
        n < 0x20_0000_0000_0000 ==> whole_part(nearest(n, 1, 0)) == n,
{
    if n < 0x20_0000_0000_0000 {
        reveal_with_fuel(two_to, 1);
        assert(two_to(0) == 1);
        assert(n * two_to(0) == n);
        doubling_keeps_whole(n, 0);
    } else {
        large_is_whole(n, 1, 0);
    }
}

/// A whole number is written in decimal, without a decimal point: as it is below `2^53`, and as
/// the double nearest to it from there on.
pub proof fn whole_numbers_have_no_decimal_point(n: u64)
    ensures
        value_text(SampleValue::Whole(n)) == text::decimal(whole_part(quotient(n as nat, 1))),
        n < MANTISSA_END ==> value_text(SampleValue::Whole(n)) == text::decimal(n as nat),
{
    whole_stays_whole(n as nat);
    whole_stays_whole(whole_part(nearest(n as nat, 1, 0)));
}

/// Rounding goes to the nearest whole number, and of two that are as near to the even one.
pub proof fn rounding_goes_to_the_nearest(num: nat, den: nat)
    requires
        den > 0,
    ensures
        2 * (rounded(num, den) * den) <= 2 * num + den,
        2 * num <= 2 * (rounded(num, den) * den) + den,
        2 * num == 2 * (rounded(num, den) * den) + den || 2 * (rounded(num, den) * den) == 2 * num
            + den ==> rounded(num, den) % 2 == 0,
{
    vstd::arithmetic::div_mod::lemma_fundamental_div_mod(num as int, den as int);
    let q = num / den;
    assert(q * den == den * q) by (nonlinear_arith);
    assert((q + 1) * den == q * den + den) by (nonlinear_arith);
}

proof fn scaled_up(num: nat, den: nat, exponent: int) -> (j: nat)
    requires
        0 < num < den * 0x20_0000_0000_0000,
    ensures
        nearest_below(num, den, exponent) == (rounded(num * two_to(j), den), exponent - j),
        num * two_to(j) >= den * 0x10_0000_0000_0000,
    decreases den * 0x20_0000_0000_0000 - num,
{
    if num < den * 0x10_0000_0000_0000 {
        let j = scaled_up(2 * num, den, exponent - 1);
        let p = two_to(j);
        assert(two_to(j + 1) == 2 * p);
        assert((2 * num) * p == num * (2 * p)) by (nonlinear_arith);
        j + 1
    } else {
        assert(num * two_to(0) == num) by (nonlinear_arith)
            requires
                two_to(0) == 1,
        ;
        0
    }
}

proof fn a_quotient_reads_as_it_is(n: nat, den: nat)
    requires
        n < 4_000_000_000_000,
        den == 1_000 || den == 1_000_000,
    ensures
        n % den == 0 ==> double_text(quotient(n, den)) == text::decimal(n / den),
        n % den != 0 ==> double_text(quotient(n, den)) == text::decimal(n / den).push('.')
            + text::padded((n % den) * (1_000_000nat / den), 6),
{
    whole_stays_whole(n);
    assert(quotient(n, den) == nearest_below(n, den, 0));
    vstd::arithmetic::div_mod::lemma_fundamental_div_mod(n as int, den as int);
    if n == 0 {
        assert(rounded(0, den) == 0);
    } else {
        let j = scaled_up(n, den, 0);
        let p = two_to(j);
        let m = rounded(n * p, den);
        assert(p > 1_000_000) by (nonlinear_arith)
            requires
                n * p >= den * 0x10_0000_0000_0000,
                n < 4_000_000_000_000,
                den >= 1_000,
        ;
        assert(j > 0);
        rounding_goes_to_the_nearest(n * p, den);
        let k = n / den;
        if n % den == 0 {
            assert(n * p == (k * p) * den) by (nonlinear_arith)
                requires
                    n == den * k,
            ;
            vstd::arithmetic::div_mod::lemma_div_multiples_vanish((k * p) as int, den as int);
            vstd::arithmetic::div_mod::lemma_mod_multiples_basic((k * p) as int, den as int);
            assert((k * p) * den == den * (k * p)) by (nonlinear_arith);
            assert(m == k * p);
            vstd::arithmetic::div_mod::lemma_mod_multiples_basic(k as int, p as int);
            vstd::arithmetic::div_mod::lemma_div_multiples_vanish(k as int, p as int);
            assert(k * p == p * k) by (nonlinear_arith);
        } else {
            let whole = m / p;
            vstd::arithmetic::div_mod::lemma_fundamental_div_mod(m as int, p as int);
            if m % p == 0 {
                let gap = whole * den - n;
                assert(2 * (m * den) - 2 * (n * p) == 2 * (p * gap)) by (nonlinear_arith)
                    requires
                        m == p * whole,
                        gap == whole * den - n,
                ;
                if gap == 0 {
                    vstd::arithmetic::div_mod::lemma_mod_multiples_basic(whole as int, den as int);
                }
                assert(p * gap >= p || p * gap <= -p) by (nonlinear_arith)
                    requires
                        gap >= 1 || gap <= -1,
                        p > 0,
                ;
                assert(false);
            }
            let c: nat = 1_000_000nat / den;
            assert(c * den == 1_000_000);
            let t = n * c;
            let r = rounded(m * 1_000_000, p);
            rounding_goes_to_the_nearest(m * 1_000_000, p);
            assert(m * 1_000_000 == (m * den) * c) by (nonlinear_arith)
                requires
                    c * den == 1_000_000,
            ;
            assert(t * p == (n * p) * c) by (nonlinear_arith)
                requires
                    t == n * c,
            ;
            let off = 2 * (m * den) - 2 * (n * p);
            assert(-1_000_000 <= off * c <= 1_000_000) by (nonlinear_arith)
                requires
                    -den <= off <= den,
                    c * den == 1_000_000,
                    c >= 1,
            ;
            assert(off * c == 2 * ((m * den) * c) - 2 * ((n * p) * c)) by (nonlinear_arith)
                requires
                    off == 2 * (m * den) - 2 * (n * p),
            ;
            assert(r == t) by (nonlinear_arith)
                requires
                    2 * (r * p) <= 2 * (m * 1_000_000) + p,
                    2 * (m * 1_000_000) <= 2 * (r * p) + p,
                    2 * (m * 1_000_000) - 2 * (t * p) <= 1_000_000,
                    2 * (t * p) - 2 * (m * 1_000_000) <= 1_000_000,
                    p > 1_000_000,
            ;
            assert(t == k * 1_000_000 + (n % den) * c) by (nonlinear_arith)
                requires
                    t == n * c,
                    n == den * k + n % den,
                    c * den == 1_000_000,
            ;
            assert((n % den) * c < 1_000_000) by (nonlinear_arith)
                requires
                    n % den < den,
                    c * den == 1_000_000,
                    c >= 1,
            ;
        }
    }
}

/// Times are shown in seconds as they are, for more than a century in milliseconds and for six
/// weeks in microseconds: whole seconds without a decimal point, and others with six places behind
/// it.
pub proof fn times_are_shown_in_seconds(n: u64)
    requires
        n < 4_000_000_000_000,
    ensures
        n % 1_000 == 0 ==> value_text(SampleValue::Millis(n)) == text::decimal(
            n as nat / 1_000,
        ),
        n % 1_000 != 0 ==> value_text(SampleValue::Millis(n)) == text::decimal(
            n as nat / 1_000,
        ).push('.') + text::padded((n as nat % 1_000) * 1_000, 6),
        n % 1_000_000 == 0 ==> value_text(SampleValue::Micros(n)) == text::decimal(
            n as nat / 1_000_000,
        ),
        n % 1_000_000 != 0 ==> value_text(SampleValue::Micros(n)) == text::decimal(
            n as nat / 1_000_000,
        ).push('.') + text::padded(n as nat % 1_000_000, 6),
{
    a_quotient_reads_as_it_is(n as nat, 1_000);
    a_quotient_reads_as_it_is(n as nat, 1_000_000);
}

/// A negative number is shown with its sign before it, and a positive one as it is.
pub proof fn a_sign_comes_first(n: i64)
    requires
        -0x20_0000_0000_0000 < n < 0x20_0000_0000_0000,
    ensures
        n < 0 ==> value_text(SampleValue::Signed(n)) == seq!['-'] + text::decimal((-n) as nat),
        n >= 0 ==> value_text(SampleValue::Signed(n)) == text::decimal(n as nat),
{
    let m: nat = if n < 0 {
        (-n) as nat
    } else {
        n as nat
    };
    whole_numbers_have_no_decimal_point(m as u64);
}

} // verus!
