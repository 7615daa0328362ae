//! Decimal numbers: the literal values of apertures and of macro primitives.

use vstd::prelude::*;
use vstd::std_specs::cmp::PartialEqSpecImpl;
use vstd::string::{StrSliceExecFns, StringExecFns};
use crate::digits::{
    all_digits,
    decimal_digits,
    digits_value,
    fixed_digits,
    is_digit,
    is_numeral,
    lemma_decimal_digits_numeral,
    lemma_digits_fixed,
    lemma_fixed_digits_value,
    lemma_numeral_decimal_digits,
    lemma_pow10_adds,
    lemma_pow10_increases,
    lemma_pow10_values,
    pow10,
    power_of_ten,
    write_fixed,
    write_unsigned,
};
use crate::errors::GerberResult;
use crate::traits::{PartialGerberCode, Rendering};

verus! {

/// A decimal number, exact and of any length: a sign, the digits of the integer part, and
/// the digits behind the decimal point.
///
/// Every decimal is well-formed: its integer part has at least one digit and no leading
/// zero, and its decimal places do not end in zero. So a number has one decimal only, but
/// for zero: the sign is kept apart from the digits, and there is a negative zero. It renders
/// as `-0`, equals zero, and is not negative.
#[derive(Debug)]
pub struct Decimal {
    negative: bool,
    integer: String,
    fraction: String,
}

impl Decimal {
    /// Whether the sign is negative.
    pub closed spec fn spec_has_minus_sign(&self) -> bool {
        self.negative
    }

    /// The digits of the integer part.
    pub closed spec fn integer_digits(&self) -> Seq<char> {
        self.integer@
    }

    /// The digits behind the decimal point.
    pub closed spec fn fraction_digits(&self) -> Seq<char> {
        self.fraction@
    }

    /// Well-formed decimals are those that are written without a digit too many: the integer
    /// part is a numeral, and the decimal places are digits that do not end in zero. Every
    /// decimal that a program holds is well-formed.
    #[verifier::type_invariant]
    pub open spec fn wf(&self) -> bool {
        &&& is_numeral(self.integer_digits())
        &&& all_digits(self.fraction_digits())
        &&& self.fraction_digits().len() > 0 ==> self.fraction_digits().last() != '0'
    }

    /// Whether the number is zero, of either sign.
    pub open spec fn spec_is_zero(&self) -> bool {
        self.integer_digits() == seq!['0'] && self.fraction_digits().len() == 0
    }

    /// Whether the number is below zero. Negative zero is not.
    pub open spec fn spec_is_negative(&self) -> bool {
        self.has_minus_sign() && !self.spec_is_zero()
    }

    /// Whether two decimals are written alike: with the same sign and the same digits.
    pub open spec fn same_digits(&self, other: &Decimal) -> bool {
        &&& self.has_minus_sign() == other.has_minus_sign()
        &&& self.integer_digits() == other.integer_digits()
        &&& self.fraction_digits() == other.fraction_digits()
    }

    /// Whether two decimals are the same number: they are zero, of whatever sign, or they are
    /// written alike.
    pub open spec fn same_number(&self, other: &Decimal) -> bool {
        ||| self.spec_is_zero() && other.spec_is_zero()
        ||| self.same_digits(other)
    }

    /// The number times ten to the power `places`, which is an integer where the decimal has
    /// no more decimal places than that.
    pub open spec fn scaled_value(&self, places: nat) -> int
        recommends
            places >= self.fraction_digits().len(),
    {
        let magnitude = (digits_value(self.integer_digits()) * pow10(places) + digits_value(
            self.fraction_digits(),
        ) * pow10((places - self.fraction_digits().len()) as nat)) as int;
        if self.has_minus_sign() {
            -magnitude
        } else {
            magnitude
        }
    }

    /// The text of the number: a minus sign where the sign is negative, the digits of the
    /// integer part, and, where there are decimal places, a point and their digits.
    #[verifier::opaque]
    pub open spec fn text(&self) -> Seq<char> {
        (if self.has_minus_sign() {
            "-"@
        } else {
            Seq::empty()
        }) + self.integer_digits() + (if self.fraction_digits().len() > 0 {
            "."@ + self.fraction_digits()
        } else {
            Seq::empty()
        })
    }

    /// Whether these parts make a decimal: a fraction of no places is zero, one of some
    /// places does not end in zero, and it has no more digits than places.
    pub open spec fn parts_fit(fraction: u64, places: u8) -> bool {
        &&& fraction < pow10(places as nat)
        &&& places > 0 ==> fraction % 10 != 0
    }

    /// The decimal with this sign, this integer part, and a fraction of `places` digits that
    /// spell `fraction`, where such parts make a decimal. So `12.034` has the integer part 12,
    /// the fraction 34 and three places.
    pub fn new(negative: bool, integer: u64, fraction: u64, places: u8) -> (decimal: Option<Self>)
        ensures
            decimal is Some <==> Decimal::parts_fit(fraction, places),
            decimal matches Some(d) ==> {
                &&& d.wf()
                &&& d.has_minus_sign() == negative
                &&& d.integer_digits() == decimal_digits(integer as nat)
                &&& d.fraction_digits() == fixed_digits(fraction as nat, places as nat)
            },
    {
        if places > 0 && fraction % 10 == 0 {
            return None;
        }
        proof {
            lemma_pow10_values();
        }
        if places <= 19 {
            if fraction >= power_of_ten(places) {
                return None;
            }
        } else {
            proof {
                lemma_pow10_increases(20, places as nat);
                assert(pow10(20) == 10 * pow10(19));
            }
        }
        let mut integer_digits = String::new();
        write_unsigned(&mut integer_digits, integer);
        let mut fraction_digits = String::new();
        write_fixed(&mut fraction_digits, fraction, places);
        proof {
            lemma_decimal_digits_numeral(integer as nat);
            lemma_fixed_digits_value(fraction as nat, places as nat);
            crate::digits::lemma_digit_char_value((fraction % 10) as nat);
            assert(integer_digits@ =~= decimal_digits(integer as nat));
            assert(fraction_digits@ =~= fixed_digits(fraction as nat, places as nat));
        }
        Some(Decimal { negative, integer: integer_digits, fraction: fraction_digits })
    }

    /// Zero.
    pub fn zero() -> (decimal: Self)
        ensures
            decimal.wf(),
            !decimal.has_minus_sign(),
            decimal.is_zero(),
    {
        proof {
            reveal_strlit("0");
            assert("0"@ =~= seq!['0']);
        }
        Decimal { negative: false, integer: String::from_str("0"), fraction: String::new() }
    }

    #[verifier::when_used_as_spec(spec_has_minus_sign)]
    pub fn has_minus_sign(&self) -> (negative: bool)
        ensures
            negative == self.spec_has_minus_sign(),
    {
        self.negative
    }

    /// The digits of the integer part.
    pub fn integer_part(&self) -> (digits: &str)
        ensures
            digits@ == self.integer_digits(),
    {
        self.integer.as_str()
    }

    /// The digits behind the decimal point.
    pub fn fraction_part(&self) -> (digits: &str)
        ensures
            digits@ == self.fraction_digits(),
    {
        self.fraction.as_str()
    }

    #[verifier::when_used_as_spec(spec_is_zero)]
    pub fn is_zero(&self) -> (zero: bool)
        ensures
            zero == self.spec_is_zero(),
    {
        let integer = self.integer.as_str();
        let single_zero = integer.unicode_len() == 1 && integer.get_char(0) == '0';
        proof {
            if single_zero {
                assert(self.integer_digits() =~= seq!['0']);
            }
        }
        single_zero && self.fraction.as_str().unicode_len() == 0
    }

    #[verifier::when_used_as_spec(spec_is_negative)]
    pub fn is_negative(&self) -> (negative: bool)
        ensures
            negative == self.spec_is_negative(),
    {
        self.negative && !self.is_zero()
    }
}

impl Clone for Decimal {
    fn clone(&self) -> (decimal: Self)
        ensures
            decimal == *self,
    {
        proof {
            use_type_invariant(self);
        }
        Decimal {
            negative: self.negative,
            integer: self.integer.clone(),
            fraction: self.fraction.clone(),
        }
    }
}

/// Whether a byte of ASCII text is a decimal digit.
fn is_digit_byte(b: u8) -> (digit: bool)
    ensures
        digit == (48 <= b <= 57),
{
    b >= 48 && b <= 57
}

/// A character of ASCII text is told by its byte.
proof fn lemma_ascii_byte(c: char)
    requires
        c <= '\u{7f}',
    ensures
        is_digit(c) <==> 48 <= c as u8 <= 57,
        c == '-' <==> c as u8 == 45,
        c == '.' <==> c as u8 == 46,
        c == '0' <==> c as u8 == 48,
{
}

/// The end of the run of digits of `text` that begins at `from`.
fn scan_digits(text: &str, from: usize, len: usize) -> (end: usize)
    requires
        text.is_ascii(),
        len == text@.len(),
        from <= len,
    ensures
        from <= end <= len,
        all_digits(text@.subrange(from as int, end as int)),
        end == len || !is_digit(text@[end as int]),
{
    let mut end: usize = from;
    while end < len
        invariant
            text.is_ascii(),
            len == text@.len(),
            from <= end <= len,
            all_digits(text@.subrange(from as int, end as int)),
        decreases len - end,
    {
        let b: u8 = text.get_ascii(end);
        proof {
            lemma_ascii_byte(text@[end as int]);
        }
        if !is_digit_byte(b) {
            return end;
        }
        proof {
            let after = text@.subrange(from as int, end + 1);
            assert forall|i: int| 0 <= i < after.len() implies is_digit(#[trigger] after[i]) by {
                if i < end - from {
                    assert(text@.subrange(from as int, end as int)[i] == after[i]);
                }
            }
        }
        end = end + 1;
    }
    end
}

impl Decimal {
    /// The number of characters that the sign takes in the text.
    pub open spec fn sign_len(&self) -> int {
        if self.has_minus_sign() {
            1
        } else {
            0
        }
    }

    /// The parts of the text of a decimal: where each begins, and what it holds.
    pub proof fn lemma_text_shape(&self)
        requires
            self.wf(),
        ensures
            ({
                let t = self.text();
                let a = self.sign_len();
                let k = self.integer_digits().len() as int;
                let m = self.fraction_digits().len() as int;
                &&& k >= 1
                &&& t.len() == a + k + (if m > 0 {
                    1 + m
                } else {
                    0
                })
                &&& self.has_minus_sign() ==> t[0] == '-'
                &&& t.subrange(a, a + k) == self.integer_digits()
                &&& m > 0 ==> t[a + k] == '.'
                &&& m > 0 ==> t.subrange(a + k + 1, t.len() as int) == self.fraction_digits()
            }),
    {
        reveal(Decimal::text);
        reveal_strlit("-");
        reveal_strlit(".");
        let t = self.text();
        let a = self.sign_len();
        let k = self.integer_digits().len() as int;
        assert(t.subrange(a, a + k) =~= self.integer_digits());
        if self.fraction_digits().len() > 0 {
            assert(t.subrange(a + k + 1, t.len() as int) =~= self.fraction_digits());
        }
    }

    /// The text of a decimal is ASCII text.
    pub proof fn lemma_text_is_ascii(&self)
        requires
            self.wf(),
        ensures
            vstd::utf8::is_ascii_chars(self.text()),
    {
        reveal(Decimal::text);
        reveal_strlit("-");
        reveal_strlit(".");
        let t = self.text();
        let a = self.sign_len();
        let k = self.integer_digits().len() as int;
        assert forall|i: int| 0 <= i < t.len() implies '\0' <= #[trigger] t[i] <= '\u{7f}' by {
            if i < a {
            } else if i < a + k {
                assert(is_digit(self.integer_digits()[i - a]));
            } else if i == a + k {
            } else {
                assert(is_digit(self.fraction_digits()[i - a - k - 1]));
            }
        }
    }

    /// A text that is made of the parts of a decimal is the text of the decimal.
    pub proof fn lemma_text_from_parts(&self, t: Seq<char>, end: int)
        requires
            self.sign_len() <= end <= t.len(),
            self.has_minus_sign() ==> t[0] == '-',
            t.subrange(self.sign_len(), end) == self.integer_digits(),
            self.fraction_digits().len() == 0 ==> end == t.len(),
            self.fraction_digits().len() > 0 ==> end < t.len() && t[end] == '.' && t.subrange(
                end + 1,
                t.len() as int,
            ) == self.fraction_digits(),
        ensures
            self.text() == t,
    {
        reveal(Decimal::text);
        reveal_strlit("-");
        reveal_strlit(".");
        let a = self.sign_len();
        let digits = self.integer_digits();
        let places = self.fraction_digits();
        assert(digits.len() == end - a);
        assert forall|i: int| a <= i < end implies t[i] == digits[i - a] by {
            assert(t.subrange(a, end)[i - a] == t[i]);
        }
        if places.len() > 0 {
            assert forall|i: int| end + 1 <= i < t.len() implies t[i] == places[i - end - 1] by {
                assert(t.subrange(end + 1, t.len() as int)[i - end - 1] == t[i]);
            }
        }
        assert(self.text() =~= t);
    }

    /// Zero without a minus sign is written `0`.
    pub proof fn lemma_zero_text(&self)
        requires
            self.is_zero(),
            !self.has_minus_sign(),
        ensures
            self.text() == seq!['0'],
            self.text() == "0"@,
    {
        reveal_strlit("0");
        assert("0"@ =~= seq!['0']);
        assert(seq!['0'].subrange(0, 1) =~= seq!['0']);
        self.lemma_text_from_parts(seq!['0'], 1);
    }

    /// The text of a decimal begins with a minus sign exactly where the sign is negative.
    pub proof fn lemma_text_sign(&self)
        requires
            self.wf(),
        ensures
            self.text().len() > 0,
            self.has_minus_sign() == (self.text()[0] == '-'),
    {
        self.lemma_text_shape();
        let digits = self.integer_digits();
        if !self.has_minus_sign() {
            assert(self.text().subrange(0, digits.len() as int)[0] == self.text()[0]);
            assert(is_digit(digits[0]));
        }
    }

    /// In the text of a decimal the digits of the integer part are the run of digits that
    /// follows the sign, and what follows them is the point and the decimal places, or
    /// nothing.
    pub proof fn lemma_text_integer_run(&self, end: int)
        requires
            self.wf(),
            self.sign_len() <= end <= self.text().len(),
            all_digits(self.text().subrange(self.sign_len(), end)),
            end == self.text().len() || !is_digit(self.text()[end]),
        ensures
            self.integer_digits() == self.text().subrange(self.sign_len(), end),
            self.fraction_digits().len() == 0 ==> end == self.text().len(),
            self.fraction_digits().len() > 0 ==> end < self.text().len() && self.text()[end]
                == '.' && self.text().subrange(end + 1, self.text().len() as int)
                == self.fraction_digits(),
    {
        self.lemma_text_shape();
        let t = self.text();
        let a = self.sign_len();
        let digits = self.integer_digits();
        let k = digits.len() as int;
        if k < end - a {
            assert(t.subrange(a, end)[k] == t[a + k]);
            assert(is_digit(t[a + k]));
            assert(false);
        }
        if k > end - a {
            assert(t.subrange(a, a + k)[end - a] == t[end]);
            assert(is_digit(digits[end - a]));
            assert(false);
        }
    }

    /// What the text of a decimal holds, told by the place where the digits that follow the
    /// sign end.
    proof fn lemma_text_parts(&self, start: int, end: int)
        requires
            self.wf(),
            self.text().len() > 0,
            start == (if self.text()[0] == '-' {
                1int
            } else {
                0int
            }),
            start <= end <= self.text().len(),
            all_digits(self.text().subrange(start, end)),
            end == self.text().len() || !is_digit(self.text()[end]),
        ensures
            start == self.sign_len(),
            is_numeral(self.text().subrange(start, end)),
            self.fraction_digits().len() == 0 ==> end == self.text().len(),
            self.fraction_digits().len() > 0 ==> {
                let places = self.text().subrange(end + 1, self.text().len() as int);
                &&& end < self.text().len()
                &&& self.text()[end] == '.'
                &&& all_digits(places)
                &&& places.len() > 0
                &&& places.last() != '0'
            },
    {
        self.lemma_text_sign();
        self.lemma_text_integer_run(end);
    }

    /// Two decimals with the same text are written alike.
    pub proof fn lemma_text_injective(&self, other: &Decimal)
        requires
            self.wf(),
            other.wf(),
            self.text() == other.text(),
        ensures
            self.same_digits(other),
    {
        self.lemma_text_sign();
        other.lemma_text_sign();
        self.lemma_text_shape();
        let end = self.sign_len() + self.integer_digits().len();
        other.lemma_text_integer_run(end);
        self.lemma_text_integer_run(end);
        assert(self.fraction_digits() =~= other.fraction_digits());
    }

    /// A decimal is zero exactly where its value is zero, and negative exactly where its
    /// value is below zero.
    pub proof fn lemma_sign_of_value(&self, places: nat)
        requires
            self.wf(),
            places >= self.fraction_digits().len(),
        ensures
            self.is_zero() <==> self.scaled_value(places) == 0,
            self.is_negative() <==> self.scaled_value(places) < 0,
    {
        let unit = pow10(places) as int;
        let rest = pow10((places - self.fraction_digits().len()) as nat) as int;
        let i = digits_value(self.integer_digits()) as int;
        let f = digits_value(self.fraction_digits()) as int;
        lemma_pow10_increases(0, places);
        lemma_pow10_increases(0, (places - self.fraction_digits().len()) as nat);
        self.lemma_value_of_digits();
        assert(i * unit >= 0 && (i > 0 ==> i * unit > 0) && (i == 0 ==> i * unit == 0))
            by (nonlinear_arith)
            requires
                i >= 0,
                unit > 0,
        ;
        assert(f * rest >= 0 && (f > 0 ==> f * rest > 0) && (f == 0 ==> f * rest == 0))
            by (nonlinear_arith)
            requires
                f >= 0,
                rest > 0,
        ;
    }

    /// The digits of a decimal spell zero exactly where they are the digit zero, or none.
    proof fn lemma_value_of_digits(&self)
        requires
            self.wf(),
        ensures
            digits_value(self.integer_digits()) == 0 <==> self.integer_digits() == seq!['0'],
            digits_value(self.fraction_digits()) == 0 <==> self.fraction_digits().len() == 0,
            self.fraction_digits().len() > 0 ==> digits_value(self.fraction_digits()) % 10 != 0,
    {
        let integer = self.integer_digits();
        let fraction = self.fraction_digits();
        lemma_numeral_decimal_digits(integer);
        lemma_decimal_digits_numeral(0);
        if integer == seq!['0'] {
            assert(integer.drop_last() =~= Seq::<char>::empty());
        }
        lemma_digits_fixed(fraction);
        if fraction.len() > 0 {
            crate::digits::lemma_digit_value_char(fraction.last());
        }
    }

    /// Two decimals are the same number exactly where their values are equal.
    pub proof fn lemma_same_number_is_equal_value(&self, other: &Decimal, places: nat)
        requires
            self.wf(),
            other.wf(),
            places >= self.fraction_digits().len(),
            places >= other.fraction_digits().len(),
        ensures
            self.same_number(other) <==> self.scaled_value(places) == other.scaled_value(places),
    {
        let unit = pow10(places) as int;
        let (pa, pb) = (self.fraction_digits().len(), other.fraction_digits().len());
        let (ia, fa) = (
            digits_value(self.integer_digits()) as int,
            digits_value(self.fraction_digits()) as int,
        );
        let (ib, fb) = (
            digits_value(other.integer_digits()) as int,
            digits_value(other.fraction_digits()) as int,
        );
        let ua = pow10((places - pa) as nat) as int;
        let ub = pow10((places - pb) as nat) as int;
        self.lemma_value_of_digits();
        other.lemma_value_of_digits();
        self.lemma_sign_of_value(places);
        other.lemma_sign_of_value(places);
        lemma_digits_fixed(self.fraction_digits());
        lemma_digits_fixed(other.fraction_digits());
        lemma_pow10_increases(0, places);
        lemma_pow10_increases(0, (places - pa) as nat);
        lemma_pow10_increases(0, (places - pb) as nat);
        lemma_pow10_adds(pa, (places - pa) as nat);
        lemma_pow10_adds(pb, (places - pb) as nat);
        assert(pa + (places - pa) as nat == places);
        assert(pb + (places - pb) as nat == places);
        assert(0 <= fa * ua < unit) by (nonlinear_arith)
            requires
                0 <= fa < pow10(pa),
                ua > 0,
                pow10(pa) * ua == unit,
        ;
        assert(0 <= fb * ub < unit) by (nonlinear_arith)
            requires
                0 <= fb < pow10(pb),
                ub > 0,
                pow10(pb) * ub == unit,
        ;
        if self.scaled_value(places) == other.scaled_value(places) && !(self.is_zero()
            && other.is_zero()) {
            assert(ia * unit + fa * ua == ib * unit + fb * ub);
            assert(ia == ib) by (nonlinear_arith)
                requires
                    ia * unit + fa * ua == ib * unit + fb * ub,
                    0 <= fa * ua < unit,
                    0 <= fb * ub < unit,
            ;
            assert(fa * ua == fb * ub);
            if pa < pb {
                lemma_same_scaled_fraction(fa, pa, fb, pb, places);
            } else if pb < pa {
                lemma_same_scaled_fraction(fb, pb, fa, pa, places);
            } else {
                assert(fa == fb) by (nonlinear_arith)
                    requires
                        fa * ua == fb * ua,
                        ua > 0,
                ;
            }
            lemma_numeral_decimal_digits(self.integer_digits());
            lemma_numeral_decimal_digits(other.integer_digits());
        }
    }

    /// Reads a decimal from its text. The texts that can be read are those that `text` gives
    /// for a decimal, and no others: a minus sign or none, a whole number without leading
    /// zeros, and a point with decimal places behind it, the last of them not zero, or none.
    pub fn parse(text: &str) -> (decimal: Option<Decimal>)
        ensures
            match decimal {
                Some(d) => d.wf() && d.text() == text@,
                None => forall|d: Decimal| d.wf() ==> #[trigger] d.text() != text@,
            },
    {
        if !text.is_ascii() {
            proof {
                assert forall|d: Decimal| d.wf() implies #[trigger] d.text() != text@ by {
                    d.lemma_text_is_ascii();
                }
            }
            return None;
        }
        let len: usize = text.unicode_len();
        if len == 0 {
            proof {
                assert forall|d: Decimal| d.wf() implies #[trigger] d.text() != text@ by {
                    d.lemma_text_sign();
                }
            }
            return None;
        }
        proof {
            lemma_ascii_byte(text@[0]);
        }
        let negative: bool = text.get_ascii(0) == 45;
        let start: usize = if negative {
            1
        } else {
            0
        };
        let end: usize = scan_digits(text, start, len);
        let ghost run = text@.subrange(start as int, end as int);
        if end > start {
            proof {
                lemma_ascii_byte(text@[start as int]);
                assert(run[0] == text@[start as int]);
            }
        }
        if end == start || (end - start > 1 && text.get_ascii(start) == 48) {
            proof {
                assert forall|d: Decimal| d.wf() implies #[trigger] d.text() != text@ by {
                    if d.text() == text@ {
                        d.lemma_text_parts(start as int, end as int);
                    }
                }
            }
            return None;
        }
        let integer = String::from_str(text.substring_ascii(start, end));
        if end == len {
            let d = Decimal { negative, integer, fraction: String::new() };
            proof {
                d.lemma_text_from_parts(text@, end as int);
            }
            return Some(d);
        }
        proof {
            lemma_ascii_byte(text@[end as int]);
        }
        if text.get_ascii(end) != 46 {
            proof {
                assert forall|d: Decimal| d.wf() implies #[trigger] d.text() != text@ by {
                    if d.text() == text@ {
                        d.lemma_text_parts(start as int, end as int);
                    }
                }
            }
            return None;
        }
        let first: usize = end + 1;
        let last: usize = scan_digits(text, first, len);
        let ghost places_run = text@.subrange(first as int, last as int);
        proof {
            lemma_ascii_byte(text@[len - 1]);
        }
        if last != len || last == first || text.get_ascii(len - 1) == 48 {
            proof {
                assert forall|d: Decimal| d.wf() implies #[trigger] d.text() != text@ by {
                    if d.text() == text@ {
                        d.lemma_text_parts(start as int, end as int);
                        let places = text@.subrange(first as int, len as int);
                        if last != len {
                            assert(places[last - first] == text@[last as int]);
                        } else if last > first {
                            assert(places.last() == text@[len - 1]);
                        }
                    }
                }
            }
            return None;
        }
        proof {
            assert(places_run.last() == text@[len - 1]);
        }
        let fraction = String::from_str(text.substring_ascii(first, len));
        let d = Decimal { negative, integer, fraction };
        proof {
            d.lemma_text_from_parts(text@, end as int);
        }
        Some(d)
    }
}

/// Decimal places that spell the same part of a unit as fewer places do end in zero.
proof fn lemma_same_scaled_fraction(
    few: int,
    few_places: nat,
    many: int,
    many_places: nat,
    places: nat,
)
    requires
        few_places < many_places <= places,
        few * pow10((places - few_places) as nat) == many * pow10((places - many_places) as nat),
    ensures
        many % 10 == 0,
{
    let rest = (places - many_places) as nat;
    let gap = (many_places - few_places - 1) as nat;
    let unit = pow10(rest) as int;
    let step = pow10(gap) as int;
    lemma_pow10_increases(0, rest);
    lemma_pow10_adds((gap + 1) as nat, rest);
    assert((places - few_places) as nat == (gap + 1) as nat + rest);
    assert(pow10((gap + 1) as nat) == 10 * step);
    assert(few * ((10 * step) * unit) == (10 * (few * step)) * unit) by (nonlinear_arith);
    assert(many == 10 * (few * step)) by (nonlinear_arith)
        requires
            (10 * (few * step)) * unit == many * unit,
            unit > 0,
    ;
}

impl PartialEq for Decimal {
    fn eq(&self, other: &Self) -> (equal: bool) {
        (self.is_zero() && other.is_zero()) || (self.negative == other.negative && self.integer
            == other.integer && self.fraction == other.fraction)
    }
}

impl PartialEqSpecImpl for Decimal {
    open spec fn obeys_eq_spec() -> bool {
        true
    }

    open spec fn eq_spec(&self, other: &Self) -> bool {
        self.same_number(other)
    }
}

/// A decimal renders as its text.
impl PartialGerberCode for Decimal {
    open spec fn partial_supported(&self) -> bool {
        true
    }

    fn is_partial_supported(&self) -> (supported: bool) {
        true
    }

    open spec fn partial_code(&self) -> Rendering {
        Rendering::ok(self.text())
    }

    fn serialize_partial(&self, writer: &mut String) -> (result: GerberResult<()>) {
        proof {
            reveal(Decimal::text);
        }
        let mut line = String::new();
        if self.negative {
            line.append("-");
        }
        line.append(self.integer.as_str());
        if self.fraction.as_str().unicode_len() > 0 {
            line.append(".");
            line.append(self.fraction.as_str());
        }
        assert(line@ =~= self.text());
        writer.append(line.as_str());
        Ok(())
    }
}

} // verus!
