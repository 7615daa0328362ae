//! Commands with plain coordinates, and their code as strings.
//!
//! This module stands apart from the rest of the crate. Its types bear the names of those of
//! the command tree, but their coordinates are integers that render digit for digit, with no
//! coordinate format, and their code is handed out as a `String` that no newline ends.

use vstd::prelude::*;
use vstd::string::StringExecFns;
use crate::digits::{integer_text, write_signed};

verus! {

/// All types that implement this trait can be converted to Gerber Code.
pub trait GerberCode {
    /// The code of the value.
    spec fn code_text(&self) -> Seq<char>;

    fn to_code(&self) -> (code: String)
        ensures
            code@ == self.code_text(),
    ;
}

/// The code of one axis: nothing where the axis is absent, else its letter and its number.
pub open spec fn axis_text(letter: Seq<char>, value: Option<i32>) -> Seq<char> {
    match value {
        Some(v) => letter + integer_text(v as int),
        None => Seq::empty(),
    }
}

/// The code of a pair of axes, each under its letter.
fn xy_to_code(x_letter: &str, x: Option<i32>, y_letter: &str, y: Option<i32>) -> (code: String)
    ensures
        code@ == axis_text(x_letter@, x) + axis_text(y_letter@, y),
{
    let mut code = String::new();
    if let Some(v) = x {
        code.append(x_letter);
        write_signed(&mut code, v as i64);
    }
    let ghost first = code@;
    assert(first =~= axis_text(x_letter@, x));
    if let Some(v) = y {
        let mut second = String::from_str(y_letter);
        write_signed(&mut second, v as i64);
        code.append(second.as_str());
    }
    assert(code@ =~= first + axis_text(y_letter@, y));
    code
}

/// Coordinates are part of an operation.
///
/// Coordinates are modal: where X is left out, the X coordinate of the current point holds,
/// and likewise for Y.
#[derive(Debug)]
pub struct Coordinates {
    pub x: Option<i32>,
    pub y: Option<i32>,
}

impl Coordinates {
    pub fn new(x: i32, y: i32) -> (coordinates: Self)
        ensures
            coordinates.x == Some(x),
            coordinates.y == Some(y),
    {
        Coordinates { x: Some(x), y: Some(y) }
    }

    pub fn at_x(x: i32) -> (coordinates: Self)
        ensures
            coordinates.x == Some(x),
            coordinates.y is None,
    {
        Coordinates { x: Some(x), y: None }
    }

    pub fn at_y(y: i32) -> (coordinates: Self)
        ensures
            coordinates.x is None,
            coordinates.y == Some(y),
    {
        Coordinates { x: None, y: Some(y) }
    }
}

/// Coordinates are `X` and the X number, then `Y` and the Y number, each left out where the
/// axis is absent.
impl GerberCode for Coordinates {
    open spec fn code_text(&self) -> Seq<char> {
        axis_text("X"@, self.x) + axis_text("Y"@, self.y)
    }

    fn to_code(&self) -> (code: String) {
        xy_to_code("X", self.x, "Y", self.y)
    }
}

/// Coordinate offsets are used by interpolate operations in circular interpolation mode.
#[derive(Debug)]
pub struct CoordinateOffset {
    pub x: Option<i32>,
    pub y: Option<i32>,
}

impl CoordinateOffset {
    pub fn new(x: i32, y: i32) -> (offset: Self)
        ensures
            offset.x == Some(x),
            offset.y == Some(y),
    {
        CoordinateOffset { x: Some(x), y: Some(y) }
    }

    pub fn at_x(x: i32) -> (offset: Self)
        ensures
            offset.x == Some(x),
            offset.y is None,
    {
        CoordinateOffset { x: Some(x), y: None }
    }

    pub fn at_y(y: i32) -> (offset: Self)
        ensures
            offset.x is None,
            offset.y == Some(y),
    {
        CoordinateOffset { x: None, y: Some(y) }
    }
}

/// An offset is `I` and the X number, then `J` and the Y number, each left out where the axis
/// is absent.
impl GerberCode for CoordinateOffset {
    open spec fn code_text(&self) -> Seq<char> {
        axis_text("I"@, self.x) + axis_text("J"@, self.y)
    }

    fn to_code(&self) -> (code: String) {
        xy_to_code("I", self.x, "J", self.y)
    }
}

#[derive(Debug)]
pub enum Command {
    FunctionCode(FunctionCode),
    ExtendedCode(ExtendedCode),
}

#[derive(Debug)]
pub enum FunctionCode {
    DCode(DCode),
    GCode(GCode),
    MCode(MCode),
}

#[derive(Debug)]
pub enum ExtendedCode {
    FS,
    MO,
    AD,
    AM,
    SR,
    LP,
    TF,
    TA,
    TD,
}

#[derive(Debug)]
pub enum Operation {
    Interpolate(Coordinates, Option<CoordinateOffset>),
    Move(Coordinates),
    Flash(Coordinates),
}

/// An operation is its coordinates, the offset where an interpolation has one, and the code
/// of the operation: `D01*`, `D02*` or `D03*`.
impl GerberCode for Operation {
    open spec fn code_text(&self) -> Seq<char> {
        match self {
            Operation::Interpolate(coords, offset) => coords.code_text() + offset.code_text()
                + "D01*"@,
            Operation::Move(coords) => coords.code_text() + "D02*"@,
            Operation::Flash(coords) => coords.code_text() + "D03*"@,
        }
    }

    fn to_code(&self) -> (code: String) {
        match self {
            Operation::Interpolate(coords, offset) => {
                let mut code = coords.to_code();
                code.append(offset.to_code().as_str());
                code.append("D01*");
                code
            },
            Operation::Move(coords) => {
                let mut code = coords.to_code();
                code.append("D02*");
                code
            },
            Operation::Flash(coords) => {
                let mut code = coords.to_code();
                code.append("D03*");
                code
            },
        }
    }
}

#[derive(Debug)]
pub enum DCode {
    Operation,
    SelectAperture,
}

#[derive(Debug)]
pub enum InterpolationMode {
    Linear,
    ClockwiseCircular,
    CounterclockwiseCircular,
}

/// The interpolation modes are `G01*`, `G02*` and `G03*`.
impl GerberCode for InterpolationMode {
    open spec fn code_text(&self) -> Seq<char> {
        match self {
            InterpolationMode::Linear => "G01*"@,
            InterpolationMode::ClockwiseCircular => "G02*"@,
            InterpolationMode::CounterclockwiseCircular => "G03*"@,
        }
    }

    fn to_code(&self) -> (code: String) {
        String::from_str(
            match self {
                InterpolationMode::Linear => "G01*",
                InterpolationMode::ClockwiseCircular => "G02*",
                InterpolationMode::CounterclockwiseCircular => "G03*",
            },
        )
    }
}

#[derive(Debug)]
pub enum QuadrantMode {
    Single,
    Multi,
}

/// The quadrant modes are `G74*` and `G75*`.
impl GerberCode for QuadrantMode {
    open spec fn code_text(&self) -> Seq<char> {
        match self {
            QuadrantMode::Single => "G74*"@,
            QuadrantMode::Multi => "G75*"@,
        }
    }

    fn to_code(&self) -> (code: String) {
        String::from_str(
            match self {
                QuadrantMode::Single => "G74*",
                QuadrantMode::Multi => "G75*",
            },
        )
    }
}

#[derive(Debug)]
pub enum GCode {
    InterpolationMode(InterpolationMode),
    RegionMode(bool),
    QuadrantMode(QuadrantMode),
    Comment(String),
}

/// The modes are their codes, a region is `G36*` where it begins and `G37*` where it ends,
/// and a comment is `G04 `, its text, a space and `*`.
impl GerberCode for GCode {
    open spec fn code_text(&self) -> Seq<char> {
        match self {
            GCode::InterpolationMode(mode) => mode.code_text(),
            GCode::RegionMode(enabled) => if *enabled {
                "G36*"@
            } else {
                "G37*"@
            },
            GCode::QuadrantMode(mode) => mode.code_text(),
            GCode::Comment(comment) => "G04 "@ + comment@ + " *"@,
        }
    }

    fn to_code(&self) -> (code: String) {
        match self {
            GCode::InterpolationMode(mode) => mode.to_code(),
            GCode::RegionMode(enabled) => if *enabled {
                String::from_str("G36*")
            } else {
                String::from_str("G37*")
            },
            GCode::QuadrantMode(mode) => mode.to_code(),
            GCode::Comment(comment) => {
                let mut code = String::from_str("G04 ");
                code.append(comment.as_str());
                code.append(" *");
                code
            },
        }
    }
}

#[derive(Debug)]
pub enum MCode {
    EndOfFile,
}

/// The end of the file is `M02*`.
impl GerberCode for MCode {
    open spec fn code_text(&self) -> Seq<char> {
        match self {
            MCode::EndOfFile => "M02*"@,
        }
    }

    fn to_code(&self) -> (code: String) {
        match self {
            MCode::EndOfFile => String::from_str("M02*"),
        }
    }
}

/// The codes of the items of a list, with a newline between one and the next.
pub open spec fn joined_text<T: GerberCode>(items: Seq<T>) -> Seq<char>
    decreases items.len(),
{
    if items.len() == 0 {
        Seq::empty()
    } else if items.len() == 1 {
        items[0].code_text()
    } else {
        joined_text(items.drop_last()) + "\n"@ + items.last().code_text()
    }
}

/// A list is the codes of its items, one to a line, with no newline after the last.
impl<T: GerberCode> GerberCode for Vec<T> {
    open spec fn code_text(&self) -> Seq<char> {
        joined_text(self@)
    }

    fn to_code(&self) -> (code: String) {
        let mut code = String::new();
        let mut i: usize = 0;
        while i < self.len()
            invariant
                i <= self@.len(),
                code@ == joined_text(self@.take(i as int)),
            decreases self@.len() - i,
        {
            let item = self[i].to_code();
            proof {
                assert(self@.take(i + 1).drop_last() =~= self@.take(i as int));
                assert(self@.take(i + 1).last() == self@[i as int]);
                assert(self@.take(i + 1)[0] == self@[0]);
            }
            if i == 0 {
                assert(self@.take(0) =~= Seq::<T>::empty());
                assert(Seq::<char>::empty() + item@ =~= item@);
                code.append(item.as_str());
            } else {
                let mut line = String::from_str("\n");
                line.append(item.as_str());
                assert(code@ + line@ =~= code@ + "\n"@ + item@);
                code.append(line.as_str());
            }
            i = i + 1;
        }
        proof {
            assert(self@.take(i as int) =~= self@);
        }
        code
    }
}

/// An absent value has no code.
impl<T: GerberCode> GerberCode for Option<T> {
    open spec fn code_text(&self) -> Seq<char> {
        match self {
            Some(v) => v.code_text(),
            None => Seq::empty(),
        }
    }

    fn to_code(&self) -> (code: String) {
        match self {
            Some(v) => v.to_code(),
            None => String::new(),
        }
    }
}

} // verus!
