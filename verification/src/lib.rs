//! # Gerber commands
//!
//! The building blocks of Gerber (RS-274X, Extended Gerber version 2) code: a typed model of
//! the commands, and the functions that render it as the text that fabrication tools read.
//! The crate works on the level of single commands and does no semantic checking: an aperture
//! can be selected that was never defined, and the result is well-formed Gerber code that
//! makes no sense.
//!
//! ## Rendering
//!
//! Two traits generate code:
//!
//! - [`GerberCode`] writes a complete line, terminated by a newline character.
//! - [`PartialGerberCode`] writes the representation of a value that is part of a line.
//!
//! Both append to a `String`. What they append is stated by a specification function of the
//! value, for the successful case and for the text that is left behind by a render that fails.
//!
//! A few attribute variants have no code. Their render fails as a conversion error, and
//! `is_supported` and `is_partial_supported` tell them apart beforehand.
//!
//! ## Numbers
//!
//! No number in this crate is a floating-point number. A coordinate is a [`CoordinateNumber`],
//! a fixed-point number of six decimal places; every other number with decimal places is a
//! [`Decimal`]. Both are exact, and their code is a function of their digits.
//!
//! ## Plain commands
//!
//! The module [`commands`] holds a smaller model of its own: commands whose coordinates are
//! plain integers, with their code as strings.

pub mod attributes;
pub mod codegen;
pub mod commands;
pub mod coordinates;
pub mod decimal;
pub mod digits;
pub mod errors;
pub mod extended_codes;
pub mod function_codes;
pub mod macros;
pub mod traits;
pub mod types;

pub use attributes::{
    ApertureAttribute,
    ApertureFunction,
    CopperType,
    Drill,
    DrillFunction,
    DrillRouteType,
    ExtendedPosition,
    FiducialScope,
    FileAttribute,
    FileFunction,
    FilePolarity,
    GenerationSoftware,
    Part,
    Position,
    Profile,
    SmdPadType,
};
pub use coordinates::{
    CoordinateFormat,
    CoordinateNumber,
    CoordinateOffset,
    Coordinates,
    NumberClass,
};
pub use decimal::Decimal;
pub use errors::{ErrorKind, GerberError, GerberResult};
pub use extended_codes::{
    Aperture,
    ApertureDefinition,
    Circle,
    Polarity,
    Polygon,
    Rectangular,
    StepAndRepeat,
    Unit,
};
pub use function_codes::{DCode, GCode, InterpolationMode, MCode, Operation, QuadrantMode};
pub use macros::{
    ApertureMacro,
    CenterLinePrimitive,
    CirclePrimitive,
    MacroContent,
    MacroDecimal,
    MoirePrimitive,
    OutlinePrimitive,
    PolygonPrimitive,
    ThermalPrimitive,
    VariableDefinition,
    VectorLinePrimitive,
};
pub use traits::{GerberCode, PartialGerberCode, Rendering};
pub use types::{Command, ExtendedCode, FunctionCode};
