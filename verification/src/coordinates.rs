//! Coordinates: the fixed-point numbers of a plot, their format, and their code.

use vstd::arithmetic::div_mod::{lemma_div_multiples_vanish_fancy, lemma_fundamental_div_mod};
use vstd::prelude::*;
use vstd::std_specs::convert::{FromSpecImpl, IntoSpec};
use vstd::string::StringExecFns;
use num_rational::Ratio;
use crate::digits::{
    decimal_digits,
    integer_text,
    lemma_decimal_digits_len,
    lemma_decimal_digits_len_lower,
    lemma_pow10_adds,
    lemma_pow10_increases,
    lemma_pow10_values,
    magnitude,
    pow10,
    power_of_ten,
    write_signed,
};
use crate::errors::{ErrorKind, GerberError, GerberResult};
use crate::traits::{PartialGerberCode, Rendering};

verus! {

/// The number of decimal places that a `CoordinateNumber` stores.
pub const DECIMAL_PLACES_CHARS: u8 = 6;

/// The value of one unit in a `CoordinateNumber`: ten to the number of stored decimal places.
pub const DECIMAL_PLACES_FACTOR: i64 = 1_000_000;

/// The coordinate format gives the number of integer and decimal places of a coordinate
/// number in the code. The format `24`, for one, has 2 integer and 4 decimal places.
///
/// A number renders only under a format whose decimal places do not exceed the six that a
/// `CoordinateNumber` stores.
#[derive(Debug, Copy, Clone, PartialEq, Eq, Structural)]
pub struct CoordinateFormat {
    pub integer: u8,
    pub decimal: u8,
}

impl CoordinateFormat {
    pub fn new(integer: u8, decimal: u8) -> (format: Self)
        ensures
            format.integer == integer,
            format.decimal == decimal,
    {
        CoordinateFormat { integer, decimal }
    }
}

/// A coordinate number: a decimal fixed-point number with six decimal places, stored as a
/// 64-bit count of millionths.
///
/// In the code a coordinate number is an integer without a decimal point, with as many of
/// the decimal places as the coordinate format declares. It has at least one character, so
/// zero is `0`.
#[derive(Debug, Copy, Clone, PartialEq, Eq, Structural)]
pub struct CoordinateNumber {
    pub nano: i64,
}

/// The classes of binary floating-point numbers.
#[derive(Debug, Copy, Clone, PartialEq, Eq, Structural)]
pub enum NumberClass {
    /// Not a number.
    Nan,
    /// Positive or negative infinity.
    Infinite,
    /// Positive or negative zero.
    Zero,
    /// A number too small for the normal form.
    Subnormal,
    /// Every other number.
    Normal,
}

/// The quotient of `numer` by `denom`, rounded to the nearest integer, with a quotient
/// half-way between two integers rounded to the one further from zero.
pub open spec fn round_half_away_from_zero(numer: int, denom: int) -> int
    recommends
        denom > 0,
{
    if numer >= 0 {
        (2 * numer + denom) / (2 * denom)
    } else {
        -((2 * (-numer) + denom) / (2 * denom))
    }
}

/// Rounds `numer / denom` with `num_rational`: builds the ratio with `Ratio::new`, rounds it
/// with `Ratio::round`, and takes the integer that results with `Ratio::to_integer`.
///
/// Trusted: that `round` rounds to the nearest integer and half-way cases away from zero, as
/// its documentation says, and that for a denominator between one and a million none of the
/// three calls overflows or panics, whatever the numerator.
#[verifier::external_body]
fn rounded_quotient(numer: i64, denom: i64) -> (quotient: i64)
    requires
        1 <= denom <= 1_000_000,
    ensures
        quotient == round_half_away_from_zero(numer as int, denom as int),
{
    Ratio::new(numer, denom).round().to_integer()
}

impl CoordinateNumber {
    pub fn new(nano: i64) -> (number: Self)
        ensures
            number.nano == nano,
    {
        CoordinateNumber { nano }
    }

    /// The coordinate number of a floating-point value, or the kind of the error that
    /// `from_scaled` reports, told from the class of the value and from its million-fold, cut
    /// off toward zero, which is absent where it leaves the 64-bit range.
    ///
    /// What is not a number, and what is infinite, is an error. Zero and the subnormal
    /// numbers are zero. A normal number is its million-fold, and an error where that is
    /// absent.
    pub open spec fn scaled_number(class: NumberClass, scaled: Option<i64>) -> Result<
        CoordinateNumber,
        ErrorKind,
    > {
        match class {
            NumberClass::Nan => Err(ErrorKind::Conversion),
            NumberClass::Infinite => Err(ErrorKind::Conversion),
            NumberClass::Zero => Ok(CoordinateNumber { nano: 0 }),
            NumberClass::Subnormal => Ok(CoordinateNumber { nano: 0 }),
            NumberClass::Normal => match scaled {
                Some(nano) => Ok(CoordinateNumber { nano }),
                None => Err(ErrorKind::Conversion),
            },
        }
    }

    /// Makes the coordinate number of a floating-point value. The caller, who holds the
    /// value, tells its class and its million-fold, cut off toward zero, or `None` where the
    /// million-fold leaves the 64-bit range.
    pub fn from_scaled(class: NumberClass, scaled: Option<i64>) -> (result: Result<
        CoordinateNumber,
        GerberError,
    >)
        ensures
            match result {
                Ok(number) => Self::scaled_number(class, scaled) == Ok::<
                    CoordinateNumber,
                    ErrorKind,
                >(number),
                Err(e) => Self::scaled_number(class, scaled) == Err::<CoordinateNumber, ErrorKind>(
                    e.kind(),
                ),
            },
    {
        match class {
            NumberClass::Nan => Err(
                GerberError::ConversionError(String::from_str("Value is NaN")),
            ),
            NumberClass::Infinite => Err(
                GerberError::ConversionError(String::from_str("Value is infinite")),
            ),
            NumberClass::Zero | NumberClass::Subnormal => Ok(CoordinateNumber { nano: 0 }),
            NumberClass::Normal => match scaled {
                Some(nano) => Ok(CoordinateNumber { nano }),
                None => Err(
                    GerberError::ConversionError(String::from_str("Value is out of bounds")),
                ),
            },
        }
    }

    /// The absolute value of the stored count.
    pub open spec fn magnitude(&self) -> nat {
        if self.nano < 0 {
            (-self.nano) as nat
        } else {
            self.nano as nat
        }
    }

    /// The stored count divided down to the decimal places of `format` and rounded half away
    /// from zero: the integer that the code shows.
    pub open spec fn scaled(&self, format: CoordinateFormat) -> int
        recommends
            format.decimal <= DECIMAL_PLACES_CHARS,
    {
        round_half_away_from_zero(
            self.nano as int,
            pow10((DECIMAL_PLACES_CHARS - format.decimal) as nat) as int,
        )
    }

    /// The code of the number under `format`, or the kind of error that `gerber` reports.
    ///
    /// A format with more than six decimal places is an error. Zero is `0` under every other
    /// format. A number with more integer digits than the format has integer places is an
    /// error: its magnitude, a count of millionths, reaches ten to the power of those places
    /// plus six. Every other number is the decimal text of `scaled`.
    pub open spec fn gerber_text(&self, format: CoordinateFormat) -> Result<Seq<char>, ErrorKind> {
        if format.decimal > DECIMAL_PLACES_CHARS {
            Err(ErrorKind::CoordinateFormat)
        } else if self.nano == 0 {
            Ok(seq!['0'])
        } else if self.magnitude() >= pow10((format.integer + DECIMAL_PLACES_CHARS) as nat) {
            Err(ErrorKind::CoordinateFormat)
        } else {
            Ok(integer_text(self.scaled(format)))
        }
    }

    /// Renders the number as the format asks.
    pub fn gerber(&self, format: &CoordinateFormat) -> (result: Result<String, GerberError>)
        ensures
            match result {
                Ok(text) => self.gerber_text(*format) == Ok::<Seq<char>, ErrorKind>(text@),
                Err(e) => self.gerber_text(*format) == Err::<Seq<char>, ErrorKind>(e.kind()),
            },
    {
        if format.decimal > DECIMAL_PLACES_CHARS {
            return Err(
                GerberError::CoordinateFormatError(
                    String::from_str("Invalid precision: Too high!"),
                ),
            );
        }
        if self.nano == 0 {
            proof {
                reveal_strlit("0");
                assert("0"@ =~= seq!['0']);
            }
            return Ok(String::from_str("0"));
        }
        proof {
            lemma_pow10_values();
        }
        if format.integer <= 12 {
            let limit: u64 = power_of_ten(format.integer + DECIMAL_PLACES_CHARS);
            if magnitude(self.nano) >= limit {
                return Err(
                    GerberError::CoordinateFormatError(
                        String::from_str("Number is too large for chosen format!"),
                    ),
                );
            }
        } else {
            proof {
                lemma_pow10_increases(19, (format.integer + DECIMAL_PLACES_CHARS) as nat);
            }
        }
        proof {
            lemma_pow10_increases((DECIMAL_PLACES_CHARS - format.decimal) as nat, 6);
        }
        let divisor: i64 = power_of_ten(DECIMAL_PLACES_CHARS - format.decimal) as i64;
        let number: i64 = rounded_quotient(self.nano, divisor);
        let mut text = String::new();
        write_signed(&mut text, number);
        Ok(text)
    }
}

/// A whole number of units is that many millions of millionths.
impl From<i8> for CoordinateNumber {
    fn from(val: i8) -> (number: Self)
        ensures
            number.nano == val * DECIMAL_PLACES_FACTOR,
    {
        CoordinateNumber { nano: val as i64 * DECIMAL_PLACES_FACTOR }
    }
}

impl FromSpecImpl<i8> for CoordinateNumber {
    open spec fn obeys_from_spec() -> bool {
        true
    }

    open spec fn from_spec(val: i8) -> Self {
        CoordinateNumber { nano: (val * DECIMAL_PLACES_FACTOR) as i64 }
    }
}

/// A whole number of units is that many millions of millionths.
impl From<i16> for CoordinateNumber {
    fn from(val: i16) -> (number: Self)
        ensures
            number.nano == val * DECIMAL_PLACES_FACTOR,
    {
        CoordinateNumber { nano: val as i64 * DECIMAL_PLACES_FACTOR }
    }
}

impl FromSpecImpl<i16> for CoordinateNumber {
    open spec fn obeys_from_spec() -> bool {
        true
    }

    open spec fn from_spec(val: i16) -> Self {
        CoordinateNumber { nano: (val * DECIMAL_PLACES_FACTOR) as i64 }
    }
}

/// A whole number of units is that many millions of millionths.
impl From<i32> for CoordinateNumber {
    fn from(val: i32) -> (number: Self)
        ensures
            number.nano == val * DECIMAL_PLACES_FACTOR,
    {
        CoordinateNumber { nano: val as i64 * DECIMAL_PLACES_FACTOR }
    }
}

impl FromSpecImpl<i32> for CoordinateNumber {
    open spec fn obeys_from_spec() -> bool {
        true
    }

    open spec fn from_spec(val: i32) -> Self {
        CoordinateNumber { nano: (val * DECIMAL_PLACES_FACTOR) as i64 }
    }
}

/// A whole number of units is that many millions of millionths.
impl From<u8> for CoordinateNumber {
    fn from(val: u8) -> (number: Self)
        ensures
            number.nano == val * DECIMAL_PLACES_FACTOR,
    {
        CoordinateNumber { nano: val as i64 * DECIMAL_PLACES_FACTOR }
    }
}

impl FromSpecImpl<u8> for CoordinateNumber {
    open spec fn obeys_from_spec() -> bool {
        true
    }

    open spec fn from_spec(val: u8) -> Self {
        CoordinateNumber { nano: (val * DECIMAL_PLACES_FACTOR) as i64 }
    }
}

/// A whole number of units is that many millions of millionths.
impl From<u16> for CoordinateNumber {
    fn from(val: u16) -> (number: Self)
        ensures
            number.nano == val * DECIMAL_PLACES_FACTOR,
    {
        CoordinateNumber { nano: val as i64 * DECIMAL_PLACES_FACTOR }
    }
}

impl FromSpecImpl<u16> for CoordinateNumber {
    open spec fn obeys_from_spec() -> bool {
        true
    }

    open spec fn from_spec(val: u16) -> Self {
        CoordinateNumber { nano: (val * DECIMAL_PLACES_FACTOR) as i64 }
    }
}

/// The render of one axis of a position: nothing where the axis is absent, else the letter
/// of the axis and the number under `format`. A number that does not render fails the axis
/// before anything is written.
pub open spec fn axis_code(
    letter: Seq<char>,
    value: Option<CoordinateNumber>,
    format: CoordinateFormat,
) -> Rendering {
    match value {
        None => Rendering::ok(Seq::empty()),
        Some(number) => match number.gerber_text(format) {
            Ok(text) => Rendering::ok(letter + text),
            Err(kind) => Rendering::fail(kind),
        },
    }
}

/// Appends one axis of a position.
fn serialize_axis(
    letter: &str,
    value: &Option<CoordinateNumber>,
    format: &CoordinateFormat,
    writer: &mut String,
) -> (result: GerberResult<()>)
    ensures
        final(writer)@ =~= old(writer)@ + axis_code(letter@, *value, *format).text,
        axis_code(letter@, *value, *format).reported_by(result),
{
    if let Some(number) = value {
        let text = number.gerber(format)?;
        writer.append(letter);
        writer.append(text.as_str());
    }
    Ok(())
}

/// Appends a pair of axes, each under its letter: the first axis, then the second.
fn serialize_xy(
    x_letter: &str,
    x: &Option<CoordinateNumber>,
    y_letter: &str,
    y: &Option<CoordinateNumber>,
    format: &CoordinateFormat,
    writer: &mut String,
) -> (result: GerberResult<()>)
    ensures
        final(writer)@ =~= old(writer)@ + axis_code(x_letter@, *x, *format).and_then(
            axis_code(y_letter@, *y, *format),
        ).text,
        axis_code(x_letter@, *x, *format).and_then(
            axis_code(y_letter@, *y, *format),
        ).reported_by(result),
{
    serialize_axis(x_letter, x, format, writer)?;
    serialize_axis(y_letter, y, format, writer)
}

/// Coordinates are part of an operation.
///
/// Coordinates are modal: where X is left out, the X coordinate of the current point holds,
/// and likewise for Y.
#[derive(Debug, Clone, PartialEq, Eq)]
pub struct Coordinates {
    pub x: Option<CoordinateNumber>,
    pub y: Option<CoordinateNumber>,
    pub format: CoordinateFormat,
}

impl Coordinates {
    pub fn new<T, U>(x: T, y: U, format: CoordinateFormat) -> (coordinates: Self) where
        T: Into<CoordinateNumber>,
        U: Into<CoordinateNumber>,

        ensures
            coordinates.format == format,
            coordinates.x is Some,
            coordinates.y is Some,
            call_ensures(<T as Into<CoordinateNumber>>::into, (x,), coordinates.x->0),
            call_ensures(<U as Into<CoordinateNumber>>::into, (y,), coordinates.y->0),
            T::obeys_into_spec() ==> coordinates.x == Some(x.into_spec()),
            U::obeys_into_spec() ==> coordinates.y == Some(y.into_spec()),
    {
        Coordinates { x: Some(x.into()), y: Some(y.into()), format }
    }

    pub fn at_x<T>(x: T, format: CoordinateFormat) -> (coordinates: Self) where
        T: Into<CoordinateNumber>,

        ensures
            coordinates.format == format,
            coordinates.x is Some,
            coordinates.y is None,
            call_ensures(<T as Into<CoordinateNumber>>::into, (x,), coordinates.x->0),
            T::obeys_into_spec() ==> coordinates.x == Some(x.into_spec()),
    {
        Coordinates { x: Some(x.into()), y: None, format }
    }

    pub fn at_y<T>(y: T, format: CoordinateFormat) -> (coordinates: Self) where
        T: Into<CoordinateNumber>,

        ensures
            coordinates.format == format,
            coordinates.x is None,
            coordinates.y is Some,
            call_ensures(<T as Into<CoordinateNumber>>::into, (y,), coordinates.y->0),
            T::obeys_into_spec() ==> coordinates.y == Some(y.into_spec()),
    {
        Coordinates { x: None, y: Some(y.into()), format }
    }
}

/// Coordinates render as `X` and the X number, then `Y` and the Y number, each left out
/// where the axis is absent.
impl PartialGerberCode for Coordinates {
    open spec fn partial_supported(&self) -> bool {
        true
    }

    fn is_partial_supported(&self) -> (supported: bool) {
        true
    }

    open spec fn partial_code(&self) -> Rendering {
        axis_code("X"@, self.x, self.format).and_then(axis_code("Y"@, self.y, self.format))
    }

    fn serialize_partial(&self, writer: &mut String) -> (result: GerberResult<()>) {
        serialize_xy("X", &self.x, "Y", &self.y, &self.format, writer)
    }
}

/// Coordinate offsets are used by interpolate operations in circular interpolation mode.
#[derive(Debug, Clone, PartialEq, Eq)]
pub struct CoordinateOffset {
    pub x: Option<CoordinateNumber>,
    pub y: Option<CoordinateNumber>,
    pub format: CoordinateFormat,
}

impl CoordinateOffset {
    pub fn new<T, U>(x: T, y: U, format: CoordinateFormat) -> (offset: Self) where
        T: Into<CoordinateNumber>,
        U: Into<CoordinateNumber>,

        ensures
            offset.format == format,
            offset.x is Some,
            offset.y is Some,
            call_ensures(<T as Into<CoordinateNumber>>::into, (x,), offset.x->0),
            call_ensures(<U as Into<CoordinateNumber>>::into, (y,), offset.y->0),
            T::obeys_into_spec() ==> offset.x == Some(x.into_spec()),
            U::obeys_into_spec() ==> offset.y == Some(y.into_spec()),
    {
        CoordinateOffset { x: Some(x.into()), y: Some(y.into()), format }
    }

    pub fn at_x<T>(x: T, format: CoordinateFormat) -> (offset: Self) where
        T: Into<CoordinateNumber>,

        ensures
            offset.format == format,
            offset.x is Some,
            offset.y is None,
            call_ensures(<T as Into<CoordinateNumber>>::into, (x,), offset.x->0),
            T::obeys_into_spec() ==> offset.x == Some(x.into_spec()),
    {
        CoordinateOffset { x: Some(x.into()), y: None, format }
    }

    pub fn at_y<T>(y: T, format: CoordinateFormat) -> (offset: Self) where
        T: Into<CoordinateNumber>,

        ensures
            offset.format == format,
            offset.x is None,
            offset.y is Some,
            call_ensures(<T as Into<CoordinateNumber>>::into, (y,), offset.y->0),
            T::obeys_into_spec() ==> offset.y == Some(y.into_spec()),
    {
        CoordinateOffset { x: None, y: Some(y.into()), format }
    }
}

/// An offset renders as `I` and the X number, then `J` and the Y number, each left out where
/// the axis is absent.
impl PartialGerberCode for CoordinateOffset {
    open spec fn partial_supported(&self) -> bool {
        true
    }

    fn is_partial_supported(&self) -> (supported: bool) {
        true
    }

    open spec fn partial_code(&self) -> Rendering {
        axis_code("I"@, self.x, self.format).and_then(axis_code("J"@, self.y, self.format))
    }

    fn serialize_partial(&self, writer: &mut String) -> (result: GerberResult<()>) {
        serialize_xy("I", &self.x, "J", &self.y, &self.format, writer)
    }
}

/// The number of decimal digits of an integer, the sign not counted.
pub open spec fn digit_count(i: int) -> nat {
    decimal_digits(
        if i < 0 {
            (-i) as nat
        } else {
            i as nat
        },
    ).len()
}

/// The quotient that `round_half_away_from_zero` yields is a nearest integer: it differs
/// from the exact quotient by at most one half. Where it differs by exactly one half, it is
/// the one of the two nearest integers that lies further from zero.
pub proof fn lemma_round_half_away_is_nearest(numer: int, denom: int)
    requires
        denom > 0,
    ensures
        ({
            let q = round_half_away_from_zero(numer, denom);
            &&& -denom <= 2 * (q * denom - numer) <= denom
            &&& numer >= 0 ==> q >= 0 && 2 * (q * denom - numer) > -denom
            &&& numer < 0 ==> q <= 0 && 2 * (q * denom - numer) < denom
        }),
{
    let m = if numer >= 0 {
        numer
    } else {
        -numer
    };
    let k = 2 * denom;
    let q = (2 * m + denom) / k;
    lemma_fundamental_div_mod(2 * m + denom, k);
    let r = (2 * m + denom) % k;
    assert(0 <= r < k);
    assert(2 * m + denom == k * q + r);
    assert(k * q == 2 * (q * denom)) by (nonlinear_arith)
        requires
            k == 2 * denom,
    ;
    assert(q >= 0) by (nonlinear_arith)
        requires
            k * q + r >= denom,
            r < k,
            k == 2 * denom,
            denom > 0,
    ;
    if numer < 0 {
        assert((-q) * denom == -(q * denom)) by (nonlinear_arith);
    }
}

/// A number that fits its format renders, and the sign aside it has at most as many digits
/// as the format has places: with leading zeros it fills them exactly.
///
/// This needs a format with at least one place, and a number that rounding does not carry
/// into a further place, as it does `9999.999999` under four integer and four decimal places.
pub proof fn lemma_gerber_digit_count(number: CoordinateNumber, format: CoordinateFormat)
    requires
        format.decimal <= DECIMAL_PLACES_CHARS,
        format.integer + format.decimal >= 1,
        number.nano != 0,
        number.magnitude() < pow10((format.integer + DECIMAL_PLACES_CHARS) as nat),
        2 * number.magnitude() + pow10((DECIMAL_PLACES_CHARS - format.decimal) as nat) < 2 * pow10(
            (format.integer + DECIMAL_PLACES_CHARS) as nat,
        ),
    ensures
        number.gerber_text(format) == Ok::<Seq<char>, ErrorKind>(
            integer_text(number.scaled(format)),
        ),
        1 <= digit_count(number.scaled(format)) <= format.integer + format.decimal,
{
    let m = number.magnitude() as int;
    let places = (format.integer + format.decimal) as nat;
    let shift = (DECIMAL_PLACES_CHARS - format.decimal) as nat;
    let d = pow10(shift) as int;
    let limit = pow10(places) as int;
    lemma_pow10_increases(0, shift);
    lemma_pow10_adds(places, shift);
    assert(places + shift == format.integer + DECIMAL_PLACES_CHARS);
    let k = 2 * d;
    let q = (2 * m + d) / k;
    lemma_fundamental_div_mod(2 * m + d, k);
    assert(q < limit) by (nonlinear_arith)
        requires
            2 * m + d == k * q + (2 * m + d) % k,
            0 <= (2 * m + d) % k,
            2 * m + d < 2 * (limit * d),
            k == 2 * d,
            d > 0,
    ;
    assert(q >= 0) by (nonlinear_arith)
        requires
            2 * m + d == k * q + (2 * m + d) % k,
            (2 * m + d) % k < k,
            2 * m + d >= 0,
            k > 0,
    ;
    lemma_decimal_digits_len(q as nat, places);
}

/// Zero renders as `0` under every format that renders at all.
pub proof fn lemma_gerber_zero(format: CoordinateFormat)
    requires
        format.decimal <= DECIMAL_PLACES_CHARS,
    ensures
        (CoordinateNumber { nano: 0 }).gerber_text(format) == Ok::<Seq<char>, ErrorKind>("0"@),
{
    reveal_strlit("0");
    assert("0"@ =~= seq!['0']);
}

/// A number other than zero with no decimal part does not render as `0`: it renders as its
/// integer part followed by one zero for each decimal place of the format.
pub proof fn lemma_gerber_whole_number(number: CoordinateNumber, format: CoordinateFormat)
    requires
        format.decimal <= DECIMAL_PLACES_CHARS,
        number.nano != 0,
        number.nano % DECIMAL_PLACES_FACTOR == 0,
        number.magnitude() < pow10((format.integer + DECIMAL_PLACES_CHARS) as nat),
    ensures
        number.gerber_text(format) == Ok::<Seq<char>, ErrorKind>(
            integer_text(
                (number.nano / DECIMAL_PLACES_FACTOR) * pow10(format.decimal as nat),
            ),
        ),
        number.gerber_text(format) != Ok::<Seq<char>, ErrorKind>("0"@),
{
    let n = number.nano as int;
    let shift = (DECIMAL_PLACES_CHARS - format.decimal) as nat;
    let d = pow10(shift) as int;
    let e = pow10(format.decimal as nat) as int;
    let units = n / (DECIMAL_PLACES_FACTOR as int);
    lemma_pow10_values();
    lemma_pow10_increases(0, shift);
    lemma_pow10_increases(0, format.decimal as nat);
    lemma_pow10_adds(format.decimal as nat, shift);
    assert(format.decimal as nat + shift == 6);
    assert(e * d == 1_000_000);
    lemma_fundamental_div_mod(n, DECIMAL_PLACES_FACTOR as int);
    assert(n == 1_000_000 * units);
    let v = units * e;
    assert(n == d * v) by (nonlinear_arith)
        requires
            n == 1_000_000 * units,
            e * d == 1_000_000,
            v == units * e,
    ;
    assert(v != 0) by (nonlinear_arith)
        requires
            n == d * v,
            n != 0,
    ;
    let k = 2 * d;
    if n >= 0 {
        assert(2 * n + d == k * v + d) by (nonlinear_arith)
            requires
                n == d * v,
                k == 2 * d,
        ;
        lemma_div_multiples_vanish_fancy(v, d, k);
    } else {
        assert(2 * (-n) + d == k * (-v) + d) by (nonlinear_arith)
            requires
                n == d * v,
                k == 2 * d,
        ;
        lemma_div_multiples_vanish_fancy(-v, d, k);
    }
    assert(number.scaled(format) == v);
    reveal_strlit("0");
    reveal_strlit("-");
    let text = integer_text(v);
    if v < 0 {
        assert(text[0] == '-');
    } else if v < 10 {
        assert(text[0] == crate::digits::digit_char(v));
    } else {
        lemma_decimal_digits_len_lower(v as nat, 1);
    }
    assert("0"@.len() == 1 && "0"@[0] == '0');
}

/// A number fails to render exactly where the number of the opposite sign fails.
pub proof fn lemma_gerber_sign_symmetric(number: CoordinateNumber, format: CoordinateFormat)
    requires
        number.nano != i64::MIN,
    ensures
        number.gerber_text(format) is Err <==> (CoordinateNumber {
            nano: (-number.nano) as i64,
        }).gerber_text(format) is Err,
{
}

/// A number that does not fit its format fails as a format error, whatever its sign.
pub proof fn lemma_gerber_too_large(number: CoordinateNumber, format: CoordinateFormat)
    requires
        number.magnitude() >= pow10((format.integer + DECIMAL_PLACES_CHARS) as nat),
    ensures
        number.gerber_text(format) == Err::<Seq<char>, ErrorKind>(ErrorKind::CoordinateFormat),
{
    lemma_pow10_increases(0, (format.integer + DECIMAL_PLACES_CHARS) as nat);
}

} // verus!
