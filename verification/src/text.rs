//! Building text with exact contracts: decimal numbers, hexadecimal bytes, concatenation and
//! the order of texts.

use vstd::prelude::*;

verus! {

/// `String::push` appends exactly the given character and leaves what was there alone.
pub assume_specification[ String::push ](s: &mut String, c: char)
    ensures
        final(s)@ == old(s)@.push(c),
;

/// What the standard library's `Debug` writes for a text: the text in double quotes, with the
/// characters that would be misread escaped.
pub uninterp spec fn quoted(s: Seq<char>) -> Seq<char>;

/// `<str as Debug>::fmt`, through `format!`. Its result is a function of the text alone; which
/// characters it escapes, and how, is left unsaid.
#[verifier::external_body]
fn debug_text(s: &str) -> (r: String)
    ensures
        r@ == quoted(s@),
{
    format!("{s:?}")
}

/// Append a text as `Debug` writes it.
pub fn push_quoted(out: &mut String, s: &str)
    ensures
        final(out)@ == old(out)@ + quoted(s@),
{
    let q = debug_text(s);
    out.append(q.as_str());
}

/// The character of the digit `d`: `0` to `9`, then `a` to `f`.
pub open spec fn digit(d: nat) -> char {
    if d < 10 {
        (48 + d) as char
    } else {
        (87 + d) as char
    }
}

/// The decimal text of `n`, without leading zeros.
pub open spec fn decimal(n: nat) -> Seq<char>
    decreases n,
{
    if n < 10 {
        seq![digit(n)]
    } else {
        decimal(n / 10).push(digit(n % 10))
    }
}

/// The last `width` decimal digits of `n`, with leading zeros.
pub open spec fn padded(n: nat, width: nat) -> Seq<char>
    decreases width,
{
    if width == 0 {
        Seq::empty()
    } else {
        padded(n / 10, (width - 1) as nat).push(digit(n % 10))
    }
}

/// Two lowercase hexadecimal digits for each byte.
pub open spec fn hex(bytes: Seq<u8>) -> Seq<char>
    decreases bytes.len(),
{
    if bytes.len() == 0 {
        Seq::empty()
    } else {
        hex(bytes.drop_last()).push(digit(bytes.last() as nat / 16)).push(
            digit(bytes.last() as nat % 16),
        )
    }
}

/// Whether text `a` comes before text `b`: the first character that differs decides, and a
/// proper prefix comes first. This is the order of the texts' UTF-8 bytes too.
pub open spec fn precedes(a: Seq<char>, b: Seq<char>) -> bool
    decreases a.len(),
{
    if b.len() == 0 {
        false
    } else if a.len() == 0 {
        true
    } else if a[0] != b[0] {
        (a[0] as int) < (b[0] as int)
    } else {
        precedes(a.drop_first(), b.drop_first())
    }
}

fn digit_of(d: u8) -> (c: char)
    requires
        d < 16,
    ensures
        c == digit(d as nat),
{
    if d < 10 {
        (48 + d) as char
    } else {
        (87 + d) as char
    }
}

/// Append the digit `d`.
pub fn push_digit(out: &mut String, d: u8)
    requires
        d < 16,
    ensures
        final(out)@ == old(out)@.push(digit(d as nat)),
{
    out.push(digit_of(d));
}

/// Append the decimal text of `n`.
pub fn push_decimal(out: &mut String, n: u128)
    ensures
        final(out)@ == old(out)@ + decimal(n as nat),
    decreases n,
{
    if n >= 10 {
        push_decimal(out, n / 10);
    }
    out.push(digit_of((n % 10) as u8));
    proof {
        if n >= 10 {
            assert(old(out)@ + decimal(n as nat) =~= (old(out)@ + decimal(
                n as nat / 10,
            )).push(digit(n as nat % 10)));
        } else {
            assert(old(out)@ + decimal(n as nat) =~= old(out)@.push(digit(n as nat)));
        }
    }
}

/// Append the last `width` decimal digits of `n`.
pub fn push_padded(out: &mut String, n: u128, width: u8)
    ensures
        final(out)@ == old(out)@ + padded(n as nat, width as nat),
    decreases width,
{
    if width > 0 {
        push_padded(out, n / 10, width - 1);
        out.push(digit_of((n % 10) as u8));
        assert(old(out)@ + padded(n as nat, width as nat) =~= (old(out)@ + padded(
            n as nat / 10,
            (width - 1) as nat,
        )).push(digit(n as nat % 10)));
    } else {
        assert(old(out)@ + padded(n as nat, width as nat) =~= old(out)@);
    }
}

/// The decimal text of `n`.
pub fn decimal_text(n: u64) -> (r: String)
    ensures
        r@ == decimal(n as nat),
{
    let mut out = String::new();
    push_decimal(&mut out, n as u128);
    assert(out@ =~= decimal(n as nat));
    out
}

/// Append two lowercase hexadecimal digits for each byte.
pub fn push_hex(out: &mut String, bytes: &[u8])
    ensures
        final(out)@ == old(out)@ + hex(bytes@),
{
    let mut i: usize = 0;
    assert(old(out)@ + hex(bytes@.take(0)) =~= old(out)@);
    while i < bytes.len()
        invariant
            i <= bytes@.len(),
            out@ == old(out)@ + hex(bytes@.take(i as int)),
        decreases bytes@.len() - i,
    {
        let b: u8 = bytes[i];
        out.push(digit_of(b / 16));
        out.push(digit_of(b % 16));
        assert(bytes@.take(i + 1).drop_last() =~= bytes@.take(i as int));
        assert(old(out)@ + hex(bytes@.take(i + 1)) =~= (old(out)@ + hex(
            bytes@.take(i as int),
        )).push(digit(b as nat / 16)).push(digit(b as nat % 16)));
        i = i + 1;
    }
    assert(bytes@.take(bytes@.len() as int) =~= bytes@);
}

/// The lowercase hexadecimal text of `bytes`.
pub fn hex_text(bytes: &[u8]) -> (r: String)
    ensures
        r@ == hex(bytes@),
{
    let mut out = String::new();
    push_hex(&mut out, bytes);
    assert(out@ =~= hex(bytes@));
    out
}

/// The lowercase hexadecimal text of at most the first `most` bytes.
pub fn hex_of_first(bytes: &[u8], most: usize) -> (r: String)
    ensures
        r@ == hex(
            if bytes@.len() <= most {
                bytes@
            } else {
                bytes@.take(most as int)
            },
        ),
{
    let mut out = String::new();
    let mut i: usize = 0;
    while i < bytes.len() && i < most
        invariant
            i <= bytes@.len(),
            i <= most,
            out@ == hex(bytes@.take(i as int)),
        decreases bytes@.len() - i,
    {
        let b: u8 = bytes[i];
        out.push(digit_of(b / 16));
        out.push(digit_of(b % 16));
        assert(bytes@.take(i + 1).drop_last() =~= bytes@.take(i as int));
        i = i + 1;
    }
    assert(bytes@.take(bytes@.len() as int) =~= bytes@);
    out
}

/// Whether two texts are the same.
pub fn same_text(a: &str, b: &str) -> (r: bool)
    ensures
        r == (a@ == b@),
{
    a.to_owned() == b.to_owned()
}

/// Append `part`.
pub fn push_text(out: &mut String, part: &str)
    ensures
        final(out)@ == old(out)@ + part@,
{
    out.append(part);
}

/// One text after another.
pub fn two(a: &str, b: &str) -> (r: String)
    ensures
        r@ == a@ + b@,
{
    let mut out = a.to_owned();
    out.append(b);
    out
}

/// Hexadecimal text is twice as long as the bytes.
pub proof fn hex_is_twice_as_long(bytes: Seq<u8>)
    ensures
        hex(bytes).len() == 2 * bytes.len(),
    decreases bytes.len(),
{
    if bytes.len() > 0 {
        hex_is_twice_as_long(bytes.drop_last());
    }
}

/// Texts are ordered totally: of two different ones, exactly one precedes the other.
pub proof fn precedes_is_total(a: Seq<char>, b: Seq<char>)
    ensures
        a != b ==> precedes(a, b) || precedes(b, a),
        !(precedes(a, b) && precedes(b, a)),
        !precedes(a, a),
    decreases a.len(),
{
    if a.len() > 0 && b.len() > 0 && a[0] == b[0] {
        precedes_is_total(a.drop_first(), b.drop_first());
        assert(a =~= seq![a[0]] + a.drop_first());
        assert(b =~= seq![b[0]] + b.drop_first());
        assert(a != b ==> a.drop_first() != b.drop_first());
    }
    if a.len() == 0 && b.len() == 0 {
        assert(a =~= b);
    }
    if a.len() > 0 {
        precedes_is_total(a.drop_first(), a.drop_first());
    }
}

/// The order of texts is transitive.
pub proof fn precedes_is_transitive(a: Seq<char>, b: Seq<char>, c: Seq<char>)
    requires
        precedes(a, b),
        precedes(b, c),
    ensures
        precedes(a, c),
    decreases a.len(),
{
    if a.len() > 0 && b.len() > 0 && c.len() > 0 && a[0] == b[0] && b[0] == c[0] {
        precedes_is_transitive(a.drop_first(), b.drop_first(), c.drop_first());
    }
}

/// Whether `a` comes before `b`.
pub fn text_precedes(a: &str, b: &str) -> (r: bool)
    ensures
        r == precedes(a@, b@),
{
    let n: usize = a.unicode_len();
    let m: usize = b.unicode_len();
    let mut i: usize = 0;
    assert(a@.skip(0) =~= a@);
    assert(b@.skip(0) =~= b@);
    while i < n && i < m
        invariant
            n == a@.len(),
            m == b@.len(),
            i <= n,
            i <= m,
            precedes(a@, b@) == precedes(a@.skip(i as int), b@.skip(i as int)),
        decreases n - i,
    {
        let x: char = a.get_char(i);
        let y: char = b.get_char(i);
        if x != y {
            return (x as u32) < (y as u32);
        }
        assert(a@.skip(i as int).drop_first() =~= a@.skip(i + 1));
        assert(b@.skip(i as int).drop_first() =~= b@.skip(i + 1));
        i = i + 1;
    }
    i < m
}

/// What a digit is worth.
pub open spec fn digit_value(c: char) -> nat {
    if c as int <= 57 {
        (c as int - 48) as nat
    } else {
        (c as int - 87) as nat
    }
}

/// The number that digits write in a base.
pub open spec fn number_read(digits: Seq<char>, base: nat) -> nat
    decreases digits.len(),
{
    if digits.len() == 0 {
        0
    } else {
        number_read(digits.drop_last(), base) * base + digit_value(digits.last())
    }
}

proof fn digits_are_worth_themselves(d: nat)
    requires
        d < 16,
    ensures
        digit_value(digit(d)) == d,
        d < 10 ==> 48 <= digit(d) as int <= 57,
        d > 0 ==> digit(d) != '0',
{
}

/// A number in decimal reads back as the number. It has decimal digits alone, at least one, and no
/// more than it needs.
pub proof fn a_decimal_reads_back(n: nat)
    ensures
        number_read(decimal(n), 10) == n,
        decimal(n).len() > 0,
        forall|i: int| 0 <= i < decimal(n).len() ==> 48 <= #[trigger] decimal(n)[i] as int <= 57,
        decimal(n).len() > 1 ==> decimal(n)[0] != '0',
    decreases n,
{
    digits_are_worth_themselves(n % 10);
    if n < 10 {
        let s = seq![digit(n)];
        assert(s.drop_last() =~= Seq::empty());
        assert(number_read(Seq::<char>::empty(), 10) == 0);
        assert(number_read(s, 10) == digit_value(digit(n)));
    } else {
        a_decimal_reads_back(n / 10);
        let s = decimal(n / 10);
        assert(s.push(digit(n % 10)).drop_last() =~= s);
        assert(n == (n / 10) * 10 + n % 10);
        if s.len() == 1 {
            assert(n / 10 > 0);
            if n / 10 < 10 {
                digits_are_worth_themselves(n / 10);
            } else {
                a_decimal_reads_back(n / 100);
                assert(n / 10 / 10 == n / 100);
                assert(decimal(n / 10) == decimal(n / 10 / 10).push(digit(n / 10 % 10)));
            }
        }
    }
}

/// A number that is written with a fixed number of places reads back as its last places, and takes
/// up exactly as many.
pub proof fn padded_digits_read_back(n: nat, width: nat)
    ensures
        padded(n, width).len() == width,
        number_read(padded(n, width), 10) == n % (vstd::arithmetic::power::pow(
            10,
            width,
        ) as nat),
    decreases width,
{
    vstd::arithmetic::power::lemma_pow_positive(10, width);
    if width == 0 {
        vstd::arithmetic::power::lemma_pow0(10);
    } else {
        let w = (width - 1) as nat;
        padded_digits_read_back(n / 10, w);
        vstd::arithmetic::power::lemma_pow_positive(10, w);
        let p = vstd::arithmetic::power::pow(10, w);
        assert(vstd::arithmetic::power::pow(10, width) == 10 * p) by {
            reveal(vstd::arithmetic::power::pow);
        }
        let s = padded(n / 10, w);
        assert(s.push(digit(n % 10)).drop_last() =~= s);
        digits_are_worth_themselves(n % 10);
        vstd::arithmetic::div_mod::lemma_mod_breakdown(n as int, 10, p);
        assert(((n / 10) as int % p) * 10 + n % 10 == n as int % (10 * p)) by (nonlinear_arith)
            requires
                n as int % (10 * p) == 10 * ((n as int / 10) % p) + n as int % 10,
        ;
    }
}

/// Bytes in hexadecimal read back byte by byte: two digits each, the high one first.
pub proof fn hexadecimal_reads_back(bytes: Seq<u8>, i: int)
    requires
        0 <= i < bytes.len(),
    ensures
        hex(bytes).len() == 2 * bytes.len(),
        digit_value(hex(bytes)[2 * i]) * 16 + digit_value(hex(bytes)[2 * i + 1]) == bytes[i],
    decreases bytes.len(),
{
    let init = bytes.drop_last();
    hex_is_twice_as_long(bytes);
    hex_is_twice_as_long(init);
    let last = bytes.last() as nat;
    digits_are_worth_themselves(last / 16);
    digits_are_worth_themselves(last % 16);
    if i < bytes.len() - 1 {
        hexadecimal_reads_back(init, i);
        assert(init[i] == bytes[i]);
    }
}

/// Texts are in the order of a dictionary: of two, the one comes first that has the lesser character
/// where they first differ, or that ends there.
pub proof fn texts_stand_as_in_a_dictionary(a: Seq<char>, b: Seq<char>, n: int)
    requires
        0 <= n <= a.len(),
        n <= b.len(),
        forall|i: int| 0 <= i < n ==> #[trigger] a[i] == b[i],
        n < a.len() && n < b.len() ==> a[n] != b[n],
    ensures
        precedes(a, b) <==> n < b.len() && (n == a.len() || (a[n] as int) < (b[n] as int)),
    decreases n,
{
    if n > 0 {
        assert(a[0] == b[0]);
        let x = a.drop_first();
        let y = b.drop_first();
        assert forall|i: int| 0 <= i < n - 1 implies #[trigger] x[i] == y[i] by {
            assert(a[i + 1] == b[i + 1]);
        }
        texts_stand_as_in_a_dictionary(x, y, n - 1);
    }
}

} // verus!
