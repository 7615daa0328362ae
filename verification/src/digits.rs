//! Decimal digits: the text of integers, and powers of ten.

use vstd::prelude::*;
use vstd::string::StringExecFns;

verus! {

/// Ten to the power `e`.
pub open spec fn pow10(e: nat) -> nat
    decreases e,
{
    if e == 0 {
        1
    } else {
        10 * pow10((e - 1) as nat)
    }
}

/// The character of a single decimal digit.
pub open spec fn digit_char(d: int) -> char {
    if d == 0 {
        '0'
    } else if d == 1 {
        '1'
    } else if d == 2 {
        '2'
    } else if d == 3 {
        '3'
    } else if d == 4 {
        '4'
    } else if d == 5 {
        '5'
    } else if d == 6 {
        '6'
    } else if d == 7 {
        '7'
    } else if d == 8 {
        '8'
    } else {
        '9'
    }
}

/// The decimal digits of a natural number, most significant first, without leading zeros.
/// Zero is the single digit `0`.
pub open spec fn decimal_digits(n: nat) -> Seq<char>
    decreases n,
{
    if n < 10 {
        seq![digit_char(n as int)]
    } else {
        decimal_digits(n / 10).push(digit_char((n % 10) as int))
    }
}

/// The last `width` decimal digits of a natural number, most significant first, with leading
/// zeros where the number is short.
pub open spec fn fixed_digits(n: nat, width: nat) -> Seq<char>
    decreases width,
{
    if width == 0 {
        Seq::empty()
    } else {
        fixed_digits(n / 10, (width - 1) as nat).push(digit_char((n % 10) as int))
    }
}

/// The decimal text of an integer: its digits, after a minus sign where it is negative.
pub open spec fn integer_text(i: int) -> Seq<char> {
    if i < 0 {
        "-"@ + decimal_digits((-i) as nat)
    } else {
        decimal_digits(i as nat)
    }
}

/// Powers of ten are positive and grow with the exponent.
pub proof fn lemma_pow10_increases(a: nat, b: nat)
    requires
        a <= b,
    ensures
        0 < pow10(a) <= pow10(b),
    decreases b,
{
    if b == 0 {
    } else if a == b {
        lemma_pow10_increases((a - 1) as nat, (b - 1) as nat);
    } else {
        lemma_pow10_increases(a, (b - 1) as nat);
    }
}

/// Ten to a sum is the product of the powers.
pub proof fn lemma_pow10_adds(a: nat, b: nat)
    ensures
        pow10(a + b) == pow10(a) * pow10(b),
    decreases a,
{
    if a == 0 {
    } else {
        let a1 = (a - 1) as nat;
        lemma_pow10_adds(a1, b);
        assert((a + b - 1) as nat == a1 + b);
        assert(pow10(a + b) == 10 * pow10(a1 + b));
        assert(10 * (pow10(a1) * pow10(b)) == (10 * pow10(a1)) * pow10(b)) by (nonlinear_arith);
    }
}

/// The powers of ten that a 64-bit word holds.
pub proof fn lemma_pow10_values()
    ensures
        pow10(0) == 1,
        pow10(1) == 10,
        pow10(2) == 100,
        pow10(3) == 1_000,
        pow10(4) == 10_000,
        pow10(5) == 100_000,
        pow10(6) == 1_000_000,
        pow10(7) == 10_000_000,
        pow10(8) == 100_000_000,
        pow10(9) == 1_000_000_000,
        pow10(10) == 10_000_000_000,
        pow10(11) == 100_000_000_000,
        pow10(12) == 1_000_000_000_000,
        pow10(13) == 10_000_000_000_000,
        pow10(14) == 100_000_000_000_000,
        pow10(15) == 1_000_000_000_000_000,
        pow10(16) == 10_000_000_000_000_000,
        pow10(17) == 100_000_000_000_000_000,
        pow10(18) == 1_000_000_000_000_000_000,
        pow10(19) == 10_000_000_000_000_000_000,
{
    reveal_with_fuel(pow10, 20);
}

/// A number below ten to the `k` has at most `k` digits, and at least one.
pub proof fn lemma_decimal_digits_len(n: nat, k: nat)
    requires
        k >= 1,
        n < pow10(k),
    ensures
        1 <= decimal_digits(n).len() <= k,
    decreases n,
{
    if n < 10 {
    } else {
        if k == 1 {
            assert(pow10(1) == 10) by {
                reveal_with_fuel(pow10, 2);
            }
        } else {
            lemma_decimal_digits_len(n / 10, (k - 1) as nat);
        }
    }
}

/// A number of at least ten to the `k` has more than `k` digits.
pub proof fn lemma_decimal_digits_len_lower(n: nat, k: nat)
    requires
        n >= pow10(k),
    ensures
        decimal_digits(n).len() > k,
    decreases k,
{
    if k == 0 {
    } else {
        lemma_pow10_increases(1, k);
        assert(pow10(1) == 10) by {
            reveal_with_fuel(pow10, 2);
        }
        lemma_decimal_digits_len_lower(n / 10, (k - 1) as nat);
    }
}

/// `fixed_digits` yields exactly `width` characters.
pub proof fn lemma_fixed_digits_len(n: nat, width: nat)
    ensures
        fixed_digits(n, width).len() == width,
    decreases width,
{
    if width > 0 {
        lemma_fixed_digits_len(n / 10, (width - 1) as nat);
    }
}

/// Ten to the power `e`, for the exponents whose power a 64-bit word holds.
pub fn power_of_ten(e: u8) -> (p: u64)
    requires
        e <= 19,
    ensures
        p == pow10(e as nat),
{
    let mut p: u64 = 1;
    let mut i: u8 = 0;
    while i < e
        invariant
            i <= e <= 19,
            p == pow10(i as nat),
        decreases e - i,
    {
        proof {
            lemma_pow10_increases((i + 1) as nat, 19);
            lemma_pow10_values();
        }
        p = p * 10;
        i = i + 1;
    }
    p
}

/// The text of one decimal digit.
fn digit_str(d: u64) -> (s: &'static str)
    requires
        d < 10,
    ensures
        s@ == seq![digit_char(d as int)],
{
    proof {
        reveal_strlit("0");
        reveal_strlit("1");
        reveal_strlit("2");
        reveal_strlit("3");
        reveal_strlit("4");
        reveal_strlit("5");
        reveal_strlit("6");
        reveal_strlit("7");
        reveal_strlit("8");
        reveal_strlit("9");
    }
    let s: &'static str = if d == 0 {
        "0"
    } else if d == 1 {
        "1"
    } else if d == 2 {
        "2"
    } else if d == 3 {
        "3"
    } else if d == 4 {
        "4"
    } else if d == 5 {
        "5"
    } else if d == 6 {
        "6"
    } else if d == 7 {
        "7"
    } else if d == 8 {
        "8"
    } else {
        "9"
    };
    assert(s@ =~= seq![digit_char(d as int)]);
    s
}

/// Appends the decimal digits of `n`.
pub fn write_unsigned(writer: &mut String, n: u64)
    ensures
        final(writer)@ =~= old(writer)@ + decimal_digits(n as nat),
    decreases n,
{
    if n >= 10 {
        write_unsigned(writer, n / 10);
    }
    writer.append(digit_str(n % 10));
}

/// Appends the last `width` decimal digits of `n`, zero-padded on the left.
pub fn write_fixed(writer: &mut String, n: u64, width: u8)
    ensures
        final(writer)@ =~= old(writer)@ + fixed_digits(n as nat, width as nat),
    decreases width,
{
    if width > 0 {
        write_fixed(writer, n / 10, width - 1);
        writer.append(digit_str(n % 10));
    }
}

/// The magnitude of a signed integer.
pub fn magnitude(n: i64) -> (m: u64)
    ensures
        m == if n < 0 {
            -(n as int)
        } else {
            n as int
        },
{
    if n == i64::MIN {
        9_223_372_036_854_775_808u64
    } else if n < 0 {
        (-n) as u64
    } else {
        n as u64
    }
}

/// Appends the decimal text of `n`.
pub fn write_signed(writer: &mut String, n: i64)
    ensures
        final(writer)@ =~= old(writer)@ + integer_text(n as int),
{
    if n < 0 {
        writer.append("-");
    }
    write_unsigned(writer, magnitude(n));
}

/// Whether a character is a decimal digit.
pub open spec fn is_digit(c: char) -> bool {
    '0' <= c <= '9'
}

/// The number that a decimal digit stands for.
pub open spec fn digit_value(c: char) -> nat
    recommends
        is_digit(c),
{
    (c as nat - '0' as nat) as nat
}

/// Whether all characters of a text are decimal digits.
pub open spec fn all_digits(s: Seq<char>) -> bool {
    forall|i: int| 0 <= i < s.len() ==> is_digit(#[trigger] s[i])
}

/// The number that a text of decimal digits spells. The empty text spells zero.
pub open spec fn digits_value(s: Seq<char>) -> nat
    recommends
        all_digits(s),
    decreases s.len(),
{
    if s.len() == 0 {
        0
    } else {
        digits_value(s.drop_last()) * 10 + digit_value(s.last())
    }
}

/// Whether a text is the way to write a natural number: digits, at least one, and none that
/// is a leading zero.
pub open spec fn is_numeral(s: Seq<char>) -> bool {
    &&& s.len() >= 1
    &&& all_digits(s)
    &&& s.len() > 1 ==> s[0] != '0'
}

/// A digit and the number it stands for determine each other.
pub proof fn lemma_digit_char_value(d: nat)
    requires
        d < 10,
    ensures
        is_digit(digit_char(d as int)),
        digit_value(digit_char(d as int)) == d,
        d != 0 ==> digit_char(d as int) != '0',
{
}

/// A digit is the character of its value.
pub proof fn lemma_digit_value_char(c: char)
    requires
        is_digit(c),
    ensures
        digit_value(c) < 10,
        digit_char(digit_value(c) as int) == c,
        c != '0' ==> digit_value(c) != 0,
{
}

/// The digits of a number are a numeral, and the numeral spells the number.
pub proof fn lemma_decimal_digits_numeral(n: nat)
    ensures
        is_numeral(decimal_digits(n)),
        digits_value(decimal_digits(n)) == n,
        n != 0 ==> decimal_digits(n)[0] != '0',
    decreases n,
{
    if n < 10 {
        lemma_digit_char_value(n);
        let s = decimal_digits(n);
        assert(s.drop_last() =~= Seq::<char>::empty());
        assert(digits_value(s.drop_last()) == 0);
    } else {
        lemma_decimal_digits_numeral(n / 10);
        lemma_digit_char_value(n % 10);
        let t = decimal_digits(n / 10);
        let s = decimal_digits(n);
        assert(s.drop_last() =~= t);
        assert(s[0] == t[0]);
    }
}

/// A numeral is the digits of the number that it spells.
pub proof fn lemma_numeral_decimal_digits(s: Seq<char>)
    requires
        is_numeral(s),
    ensures
        decimal_digits(digits_value(s)) == s,
        s[0] != '0' ==> digits_value(s) != 0,
    decreases s.len(),
{
    let t = s.drop_last();
    let c = s.last();
    lemma_digit_value_char(c);
    if s.len() == 1 {
        assert(t =~= Seq::<char>::empty());
        assert(digits_value(t) == 0);
        assert(decimal_digits(digits_value(s)) =~= s);
    } else {
        assert(t[0] == s[0]);
        assert(is_numeral(t));
        lemma_numeral_decimal_digits(t);
        let v = digits_value(t);
        assert(v != 0);
        assert((v * 10 + digit_value(c)) / 10 == v);
        assert((v * 10 + digit_value(c)) % 10 == digit_value(c));
        assert(decimal_digits(digits_value(s)) =~= t.push(c));
        assert(t.push(c) =~= s);
    }
}

/// The fixed digits of a number are digits, as many as asked for, and they spell the number
/// where it has no more digits than that.
pub proof fn lemma_fixed_digits_value(n: nat, width: nat)
    requires
        n < pow10(width),
    ensures
        all_digits(fixed_digits(n, width)),
        fixed_digits(n, width).len() == width,
        digits_value(fixed_digits(n, width)) == n,
        width > 0 ==> fixed_digits(n, width).last() == digit_char((n % 10) as int),
    decreases width,
{
    if width > 0 {
        lemma_fixed_digits_value(n / 10, (width - 1) as nat);
        lemma_digit_char_value(n % 10);
        let s = fixed_digits(n, width);
        assert(s.drop_last() =~= fixed_digits(n / 10, (width - 1) as nat));
    }
}

/// A text of digits is the fixed digits, in its own length, of the number that it spells, and
/// that number is below ten to the length.
pub proof fn lemma_digits_fixed(s: Seq<char>)
    requires
        all_digits(s),
    ensures
        digits_value(s) < pow10(s.len()),
        fixed_digits(digits_value(s), s.len()) == s,
        s.len() > 0 ==> digits_value(s) % 10 == digit_value(s.last()),
    decreases s.len(),
{
    if s.len() > 0 {
        let t = s.drop_last();
        let c = s.last();
        lemma_digit_value_char(c);
        lemma_digits_fixed(t);
        let v = digits_value(t);
        assert((v * 10 + digit_value(c)) / 10 == v);
        assert((v * 10 + digit_value(c)) % 10 == digit_value(c));
        assert(fixed_digits(digits_value(s), s.len()) =~= t.push(c));
        assert(t.push(c) =~= s);
    }
}

} // verus!
