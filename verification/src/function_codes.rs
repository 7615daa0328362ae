//! Function codes: the D, G and M commands.

use vstd::prelude::*;
use vstd::string::StringExecFns;
use crate::coordinates::{CoordinateOffset, Coordinates};
use crate::digits::{integer_text, write_signed};
use crate::errors::GerberResult;
use crate::traits::{GerberCode, PartialGerberCode, Rendering};

verus! {

// DCode
#[derive(Debug, Clone, PartialEq, Eq)]
pub enum DCode {
    Operation(Operation),
    SelectAperture(i32),
}

/// An operation renders as itself. The selection of an aperture renders as `D`, the code of
/// the aperture and `*`.
impl GerberCode for DCode {
    open spec fn supported(&self) -> bool {
        true
    }

    fn is_supported(&self) -> (supported: bool) {
        true
    }

    open spec fn code(&self) -> Rendering {
        match self {
            DCode::Operation(operation) => operation.code(),
            DCode::SelectAperture(code) => Rendering::ok(
                "D"@ + integer_text(*code as int) + "*\n"@,
            ),
        }
    }

    fn serialize(&self, writer: &mut String) -> (result: GerberResult<()>) {
        match self {
            DCode::Operation(operation) => operation.serialize(writer),
            DCode::SelectAperture(code) => {
                writer.append("D");
                write_signed(writer, *code as i64);
                writer.append("*\n");
                Ok(())
            },
        }
    }
}

// GCode
#[derive(Debug, Clone, PartialEq, Eq)]
pub enum GCode {
    InterpolationMode(InterpolationMode),
    RegionMode(bool),
    QuadrantMode(QuadrantMode),
    Comment(String),
}

/// The modes render as their codes, a region as `G36*` where it begins and `G37*` where it
/// ends, a comment as `G04 `, its text and `*`.
impl GerberCode for GCode {
    open spec fn supported(&self) -> bool {
        true
    }

    fn is_supported(&self) -> (supported: bool) {
        true
    }

    open spec fn code(&self) -> Rendering {
        match self {
            GCode::InterpolationMode(mode) => mode.code(),
            GCode::RegionMode(enabled) => Rendering::ok(
                if *enabled {
                    "G36*\n"@
                } else {
                    "G37*\n"@
                },
            ),
            GCode::QuadrantMode(mode) => mode.code(),
            GCode::Comment(comment) => Rendering::ok("G04 "@ + comment@ + "*\n"@),
        }
    }

    fn serialize(&self, writer: &mut String) -> (result: GerberResult<()>) {
        match self {
            GCode::InterpolationMode(mode) => mode.serialize(writer),
            GCode::RegionMode(enabled) => {
                if *enabled {
                    writer.append("G36*\n");
                } else {
                    writer.append("G37*\n");
                }
                Ok(())
            },
            GCode::QuadrantMode(mode) => mode.serialize(writer),
            GCode::Comment(comment) => {
                writer.append("G04 ");
                writer.append(comment.as_str());
                writer.append("*\n");
                Ok(())
            },
        }
    }
}

// MCode
#[derive(Debug, Clone, PartialEq, Eq)]
pub enum MCode {
    EndOfFile,
}

/// The end of the file renders as `M02*`.
impl GerberCode for MCode {
    open spec fn supported(&self) -> bool {
        true
    }

    fn is_supported(&self) -> (supported: bool) {
        true
    }

    open spec fn code(&self) -> Rendering {
        match self {
            MCode::EndOfFile => Rendering::ok("M02*\n"@),
        }
    }

    fn serialize(&self, writer: &mut String) -> (result: GerberResult<()>) {
        match self {
            MCode::EndOfFile => {
                writer.append("M02*\n");
            },
        }
        Ok(())
    }
}

// Operation
#[derive(Debug, Clone, PartialEq, Eq)]
pub enum Operation {
    /// D01 Command
    Interpolate(Coordinates, Option<CoordinateOffset>),
    /// D02 Command
    Move(Coordinates),
    /// D03 Command
    Flash(Coordinates),
}

/// An operation renders as its coordinates, the offset where an interpolation has one, and
/// the code of the operation: `D01*`, `D02*` or `D03*`.
impl GerberCode for Operation {
    open spec fn supported(&self) -> bool {
        true
    }

    fn is_supported(&self) -> (supported: bool) {
        true
    }

    open spec fn code(&self) -> Rendering {
        match self {
            Operation::Interpolate(coords, offset) => coords.partial_code().and_then(
                offset.partial_code(),
            ).and_then(Rendering::ok("D01*\n"@)),
            Operation::Move(coords) => coords.partial_code().and_then(Rendering::ok("D02*\n"@)),
            Operation::Flash(coords) => coords.partial_code().and_then(Rendering::ok("D03*\n"@)),
        }
    }

    fn serialize(&self, writer: &mut String) -> (result: GerberResult<()>) {
        match self {
            Operation::Interpolate(coords, offset) => {
                coords.serialize_partial(writer)?;
                offset.serialize_partial(writer)?;
                writer.append("D01*\n");
            },
            Operation::Move(coords) => {
                coords.serialize_partial(writer)?;
                writer.append("D02*\n");
            },
            Operation::Flash(coords) => {
                coords.serialize_partial(writer)?;
                writer.append("D03*\n");
            },
        }
        Ok(())
    }
}

// InterpolationMode
#[derive(Debug, Clone, Copy, PartialEq, Eq, Structural)]
pub enum InterpolationMode {
    Linear,
    ClockwiseCircular,
    CounterclockwiseCircular,
}

/// The interpolation modes render as `G01*`, `G02*` and `G03*`.
impl GerberCode for InterpolationMode {
    open spec fn supported(&self) -> bool {
        true
    }

    fn is_supported(&self) -> (supported: bool) {
        true
    }

    open spec fn code(&self) -> Rendering {
        Rendering::ok(
            match self {
                InterpolationMode::Linear => "G01*\n"@,
                InterpolationMode::ClockwiseCircular => "G02*\n"@,
                InterpolationMode::CounterclockwiseCircular => "G03*\n"@,
            },
        )
    }

    fn serialize(&self, writer: &mut String) -> (result: GerberResult<()>) {
        match self {
            InterpolationMode::Linear => writer.append("G01*\n"),
            InterpolationMode::ClockwiseCircular => writer.append("G02*\n"),
            InterpolationMode::CounterclockwiseCircular => writer.append("G03*\n"),
        }
        Ok(())
    }
}

// QuadrantMode
#[derive(Debug, Clone, Copy, PartialEq, Eq, Structural)]
pub enum QuadrantMode {
    Single,
    Multi,
}

/// The quadrant modes render as `G74*` and `G75*`.
impl GerberCode for QuadrantMode {
    open spec fn supported(&self) -> bool {
        true
    }

    fn is_supported(&self) -> (supported: bool) {
        true
    }

    open spec fn code(&self) -> Rendering {
        Rendering::ok(
            match self {
                QuadrantMode::Single => "G74*\n"@,
                QuadrantMode::Multi => "G75*\n"@,
            },
        )
    }

    fn serialize(&self, writer: &mut String) -> (result: GerberResult<()>) {
        match self {
            QuadrantMode::Single => writer.append("G74*\n"),
            QuadrantMode::Multi => writer.append("G75*\n"),
        }
        Ok(())
    }
}

} // verus!
