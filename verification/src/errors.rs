//! Error types of the code generator.

use vstd::prelude::*;
use vstd::std_specs::convert::FromSpecImpl;
use vstd::string::StringExecFns;

verus! {

/// An I/O failure of an output sink. The library itself writes into a `String` and never
/// creates one; the variant that carries it exists for callers that forward the text to a sink
/// of their own.
#[verifier::external_type_specification]
#[verifier::external_body]
pub struct ExIoError(std::io::Error);

/// The kind of a failure, without its message.
#[derive(Debug, Clone, Copy, PartialEq, Eq, Structural)]
pub enum ErrorKind {
    /// A value cannot be represented: a number that does not convert, or a value for which
    /// there is no code.
    Conversion,
    /// A coordinate format is invalid, or a value does not fit it.
    CoordinateFormat,
    /// A numeric field is outside the bounds of its primitive.
    Range,
    /// A required collection is empty or too short.
    MissingData,
    /// The output sink failed.
    Io,
}

#[derive(Debug)]
pub enum GerberError {
    ConversionError(String),
    CoordinateFormatError(String),
    RangeError(String),
    MissingDataError(String),
    IoError(std::io::Error),
}

pub type GerberResult<T> = Result<T, GerberError>;

/// The failure of a sink is an I/O error.
impl From<std::io::Error> for GerberError {
    fn from(err: std::io::Error) -> (error: GerberError) {
        GerberError::IoError(err)
    }
}

impl FromSpecImpl<std::io::Error> for GerberError {
    open spec fn obeys_from_spec() -> bool {
        true
    }

    open spec fn from_spec(err: std::io::Error) -> GerberError {
        GerberError::IoError(err)
    }
}

impl GerberError {
    /// The kind of this error.
    pub open spec fn spec_kind(&self) -> ErrorKind {
        match self {
            GerberError::ConversionError(_) => ErrorKind::Conversion,
            GerberError::CoordinateFormatError(_) => ErrorKind::CoordinateFormat,
            GerberError::RangeError(_) => ErrorKind::Range,
            GerberError::MissingDataError(_) => ErrorKind::MissingData,
            GerberError::IoError(_) => ErrorKind::Io,
        }
    }

    /// The text that describes this error: a fixed sentence for its kind, followed by the
    /// message it carries.
    pub open spec fn description(&self) -> Seq<char> {
        match self {
            GerberError::ConversionError(m) => "Conversion between two types failed: "@ + m@,
            GerberError::CoordinateFormatError(m) => "Bad coordinate format: "@ + m@,
            GerberError::RangeError(m) => "A value is out of range: "@ + m@,
            GerberError::MissingDataError(m) => "Required data is missing: "@ + m@,
            GerberError::IoError(_) => "I/O error during code generation"@,
        }
    }

    #[verifier::when_used_as_spec(spec_kind)]
    pub fn kind(&self) -> (k: ErrorKind)
        ensures
            k == self.spec_kind(),
    {
        match self {
            GerberError::ConversionError(_) => ErrorKind::Conversion,
            GerberError::CoordinateFormatError(_) => ErrorKind::CoordinateFormat,
            GerberError::RangeError(_) => ErrorKind::Range,
            GerberError::MissingDataError(_) => ErrorKind::MissingData,
            GerberError::IoError(_) => ErrorKind::Io,
        }
    }

    /// Renders the error for a reader.
    pub fn to_string(&self) -> (s: String)
        ensures
            s@ == self.description(),
    {
        match self {
            GerberError::ConversionError(m) => String::from_str(
                "Conversion between two types failed: ",
            ).concat(m.as_str()),
            GerberError::CoordinateFormatError(m) => String::from_str(
                "Bad coordinate format: ",
            ).concat(m.as_str()),
            GerberError::RangeError(m) => String::from_str("A value is out of range: ").concat(
                m.as_str(),
            ),
            GerberError::MissingDataError(m) => String::from_str(
                "Required data is missing: ",
            ).concat(m.as_str()),
            GerberError::IoError(_) => String::from_str("I/O error during code generation"),
        }
    }
}

} // verus!
