//! The command tree: the types of the commands of a Gerber file.
//!
//! The types carry all that their code needs. Coordinates, for one, hold the coordinate
//! format under which they render. The three levels of the tree render by handing the work
//! down to what they hold.

use vstd::prelude::*;
use vstd::std_specs::convert::FromSpecImpl;
use vstd::string::StringExecFns;
use crate::attributes::{ApertureAttribute, FileAttribute};
use crate::coordinates::CoordinateFormat;
use crate::digits::{integer_text, write_unsigned};
use crate::errors::{ErrorKind, GerberError, GerberResult};
use crate::extended_codes::{ApertureDefinition, Polarity, StepAndRepeat, Unit};
use crate::function_codes::{DCode, GCode, MCode};
use crate::macros::ApertureMacro;
use crate::traits::{GerberCode, PartialGerberCode, Rendering};

verus! {

// Root type
#[derive(Debug, Clone, PartialEq)]
pub enum Command {
    FunctionCode(FunctionCode),
    ExtendedCode(ExtendedCode),
}

// Main categories
#[derive(Debug, Clone, PartialEq, Eq)]
pub enum FunctionCode {
    DCode(DCode),
    GCode(GCode),
    MCode(MCode),
}

#[derive(Debug, Clone, PartialEq)]
pub enum ExtendedCode {
    /// FS
    CoordinateFormat(CoordinateFormat),
    /// MO
    Unit(Unit),
    /// AD
    ApertureDefinition(ApertureDefinition),
    /// AM
    ApertureMacro(ApertureMacro),
    /// LP
    LoadPolarity(Polarity),
    /// SR
    StepAndRepeat(StepAndRepeat),
    /// TF
    FileAttribute(FileAttribute),
    /// TA
    ApertureAttribute(ApertureAttribute),
    /// TD
    DeleteAttribute(String),
}

impl From<FunctionCode> for Command {
    fn from(val: FunctionCode) -> (code: Command) {
        Command::FunctionCode(val)
    }
}

impl FromSpecImpl<FunctionCode> for Command {
    open spec fn obeys_from_spec() -> bool {
        true
    }

    open spec fn from_spec(val: FunctionCode) -> Command {
        Command::FunctionCode(val)
    }
}

impl From<ExtendedCode> for Command {
    fn from(val: ExtendedCode) -> (code: Command) {
        Command::ExtendedCode(val)
    }
}

impl FromSpecImpl<ExtendedCode> for Command {
    open spec fn obeys_from_spec() -> bool {
        true
    }

    open spec fn from_spec(val: ExtendedCode) -> Command {
        Command::ExtendedCode(val)
    }
}

impl From<DCode> for FunctionCode {
    fn from(val: DCode) -> (code: FunctionCode) {
        FunctionCode::DCode(val)
    }
}

impl FromSpecImpl<DCode> for FunctionCode {
    open spec fn obeys_from_spec() -> bool {
        true
    }

    open spec fn from_spec(val: DCode) -> FunctionCode {
        FunctionCode::DCode(val)
    }
}

impl From<GCode> for FunctionCode {
    fn from(val: GCode) -> (code: FunctionCode) {
        FunctionCode::GCode(val)
    }
}

impl FromSpecImpl<GCode> for FunctionCode {
    open spec fn obeys_from_spec() -> bool {
        true
    }

    open spec fn from_spec(val: GCode) -> FunctionCode {
        FunctionCode::GCode(val)
    }
}

impl From<MCode> for FunctionCode {
    fn from(val: MCode) -> (code: FunctionCode) {
        FunctionCode::MCode(val)
    }
}

impl FromSpecImpl<MCode> for FunctionCode {
    open spec fn obeys_from_spec() -> bool {
        true
    }

    open spec fn from_spec(val: MCode) -> FunctionCode {
        FunctionCode::MCode(val)
    }
}

impl From<DCode> for Command {
    fn from(val: DCode) -> (code: Command) {
        Command::FunctionCode(FunctionCode::DCode(val))
    }
}

impl FromSpecImpl<DCode> for Command {
    open spec fn obeys_from_spec() -> bool {
        true
    }

    open spec fn from_spec(val: DCode) -> Command {
        Command::FunctionCode(FunctionCode::DCode(val))
    }
}

impl From<GCode> for Command {
    fn from(val: GCode) -> (code: Command) {
        Command::FunctionCode(FunctionCode::GCode(val))
    }
}

impl FromSpecImpl<GCode> for Command {
    open spec fn obeys_from_spec() -> bool {
        true
    }

    open spec fn from_spec(val: GCode) -> Command {
        Command::FunctionCode(FunctionCode::GCode(val))
    }
}

impl From<MCode> for Command {
    fn from(val: MCode) -> (code: Command) {
        Command::FunctionCode(FunctionCode::MCode(val))
    }
}

impl FromSpecImpl<MCode> for Command {
    open spec fn obeys_from_spec() -> bool {
        true
    }

    open spec fn from_spec(val: MCode) -> Command {
        Command::FunctionCode(FunctionCode::MCode(val))
    }
}

impl From<CoordinateFormat> for ExtendedCode {
    fn from(val: CoordinateFormat) -> (code: ExtendedCode) {
        ExtendedCode::CoordinateFormat(val)
    }
}

impl FromSpecImpl<CoordinateFormat> for ExtendedCode {
    open spec fn obeys_from_spec() -> bool {
        true
    }

    open spec fn from_spec(val: CoordinateFormat) -> ExtendedCode {
        ExtendedCode::CoordinateFormat(val)
    }
}

impl From<Unit> for ExtendedCode {
    fn from(val: Unit) -> (code: ExtendedCode) {
        ExtendedCode::Unit(val)
    }
}

impl FromSpecImpl<Unit> for ExtendedCode {
    open spec fn obeys_from_spec() -> bool {
        true
    }

    open spec fn from_spec(val: Unit) -> ExtendedCode {
        ExtendedCode::Unit(val)
    }
}

impl From<ApertureDefinition> for ExtendedCode {
    fn from(val: ApertureDefinition) -> (code: ExtendedCode) {
        ExtendedCode::ApertureDefinition(val)
    }
}

impl FromSpecImpl<ApertureDefinition> for ExtendedCode {
    open spec fn obeys_from_spec() -> bool {
        true
    }

    open spec fn from_spec(val: ApertureDefinition) -> ExtendedCode {
        ExtendedCode::ApertureDefinition(val)
    }
}

impl From<ApertureMacro> for ExtendedCode {
    fn from(val: ApertureMacro) -> (code: ExtendedCode) {
        ExtendedCode::ApertureMacro(val)
    }
}

impl FromSpecImpl<ApertureMacro> for ExtendedCode {
    open spec fn obeys_from_spec() -> bool {
        true
    }

    open spec fn from_spec(val: ApertureMacro) -> ExtendedCode {
        ExtendedCode::ApertureMacro(val)
    }
}

impl From<Polarity> for ExtendedCode {
    fn from(val: Polarity) -> (code: ExtendedCode) {
        ExtendedCode::LoadPolarity(val)
    }
}

impl FromSpecImpl<Polarity> for ExtendedCode {
    open spec fn obeys_from_spec() -> bool {
        true
    }

    open spec fn from_spec(val: Polarity) -> ExtendedCode {
        ExtendedCode::LoadPolarity(val)
    }
}

impl From<StepAndRepeat> for ExtendedCode {
    fn from(val: StepAndRepeat) -> (code: ExtendedCode) {
        ExtendedCode::StepAndRepeat(val)
    }
}

impl FromSpecImpl<StepAndRepeat> for ExtendedCode {
    open spec fn obeys_from_spec() -> bool {
        true
    }

    open spec fn from_spec(val: StepAndRepeat) -> ExtendedCode {
        ExtendedCode::StepAndRepeat(val)
    }
}

impl From<FileAttribute> for ExtendedCode {
    fn from(val: FileAttribute) -> (code: ExtendedCode) {
        ExtendedCode::FileAttribute(val)
    }
}

impl FromSpecImpl<FileAttribute> for ExtendedCode {
    open spec fn obeys_from_spec() -> bool {
        true
    }

    open spec fn from_spec(val: FileAttribute) -> ExtendedCode {
        ExtendedCode::FileAttribute(val)
    }
}

impl From<ApertureAttribute> for ExtendedCode {
    fn from(val: ApertureAttribute) -> (code: ExtendedCode) {
        ExtendedCode::ApertureAttribute(val)
    }
}

impl FromSpecImpl<ApertureAttribute> for ExtendedCode {
    open spec fn obeys_from_spec() -> bool {
        true
    }

    open spec fn from_spec(val: ApertureAttribute) -> ExtendedCode {
        ExtendedCode::ApertureAttribute(val)
    }
}

impl From<CoordinateFormat> for Command {
    fn from(val: CoordinateFormat) -> (code: Command) {
        Command::ExtendedCode(ExtendedCode::CoordinateFormat(val))
    }
}

impl FromSpecImpl<CoordinateFormat> for Command {
    open spec fn obeys_from_spec() -> bool {
        true
    }

    open spec fn from_spec(val: CoordinateFormat) -> Command {
        Command::ExtendedCode(ExtendedCode::CoordinateFormat(val))
    }
}

impl From<Unit> for Command {
    fn from(val: Unit) -> (code: Command) {
        Command::ExtendedCode(ExtendedCode::Unit(val))
    }
}

impl FromSpecImpl<Unit> for Command {
    open spec fn obeys_from_spec() -> bool {
        true
    }

    open spec fn from_spec(val: Unit) -> Command {
        Command::ExtendedCode(ExtendedCode::Unit(val))
    }
}

impl From<ApertureDefinition> for Command {
    fn from(val: ApertureDefinition) -> (code: Command) {
        Command::ExtendedCode(ExtendedCode::ApertureDefinition(val))
    }
}

impl FromSpecImpl<ApertureDefinition> for Command {
    open spec fn obeys_from_spec() -> bool {
        true
    }

    open spec fn from_spec(val: ApertureDefinition) -> Command {
        Command::ExtendedCode(ExtendedCode::ApertureDefinition(val))
    }
}

impl From<ApertureMacro> for Command {
    fn from(val: ApertureMacro) -> (code: Command) {
        Command::ExtendedCode(ExtendedCode::ApertureMacro(val))
    }
}

impl FromSpecImpl<ApertureMacro> for Command {
    open spec fn obeys_from_spec() -> bool {
        true
    }

    open spec fn from_spec(val: ApertureMacro) -> Command {
        Command::ExtendedCode(ExtendedCode::ApertureMacro(val))
    }
}

impl From<Polarity> for Command {
    fn from(val: Polarity) -> (code: Command) {
        Command::ExtendedCode(ExtendedCode::LoadPolarity(val))
    }
}

impl FromSpecImpl<Polarity> for Command {
    open spec fn obeys_from_spec() -> bool {
        true
    }

    open spec fn from_spec(val: Polarity) -> Command {
        Command::ExtendedCode(ExtendedCode::LoadPolarity(val))
    }
}

impl From<StepAndRepeat> for Command {
    fn from(val: StepAndRepeat) -> (code: Command) {
        Command::ExtendedCode(ExtendedCode::StepAndRepeat(val))
    }
}

impl FromSpecImpl<StepAndRepeat> for Command {
    open spec fn obeys_from_spec() -> bool {
        true
    }

    open spec fn from_spec(val: StepAndRepeat) -> Command {
        Command::ExtendedCode(ExtendedCode::StepAndRepeat(val))
    }
}

impl From<FileAttribute> for Command {
    fn from(val: FileAttribute) -> (code: Command) {
        Command::ExtendedCode(ExtendedCode::FileAttribute(val))
    }
}

impl FromSpecImpl<FileAttribute> for Command {
    open spec fn obeys_from_spec() -> bool {
        true
    }

    open spec fn from_spec(val: FileAttribute) -> Command {
        Command::ExtendedCode(ExtendedCode::FileAttribute(val))
    }
}

impl From<ApertureAttribute> for Command {
    fn from(val: ApertureAttribute) -> (code: Command) {
        Command::ExtendedCode(ExtendedCode::ApertureAttribute(val))
    }
}

impl FromSpecImpl<ApertureAttribute> for Command {
    open spec fn obeys_from_spec() -> bool {
        true
    }

    open spec fn from_spec(val: ApertureAttribute) -> Command {
        Command::ExtendedCode(ExtendedCode::ApertureAttribute(val))
    }
}

impl Command {
    /// Whether the command has code: all commands do but the aperture attribute and the file
    /// attributes without code. Those render as a conversion error.
    pub open spec fn spec_has_code(&self) -> bool {
        match self {
            Command::FunctionCode(_) => true,
            Command::ExtendedCode(code) => code.has_code(),
        }
    }

    #[verifier::when_used_as_spec(spec_has_code)]
    pub fn has_code(&self) -> (has: bool)
        ensures
            has == self.spec_has_code(),
    {
        match self {
            Command::FunctionCode(_) => true,
            Command::ExtendedCode(code) => code.has_code(),
        }
    }
}

/// A command renders as the function code or the extended code that it holds.
impl GerberCode for Command {
    open spec fn supported(&self) -> bool {
        self.has_code()
    }

    fn is_supported(&self) -> (supported: bool) {
        self.has_code()
    }

    open spec fn code(&self) -> Rendering {
        match self {
            Command::FunctionCode(code) => code.code(),
            Command::ExtendedCode(code) => code.code(),
        }
    }

    fn serialize(&self, writer: &mut String) -> (result: GerberResult<()>) {
        match self {
            Command::FunctionCode(code) => code.serialize(writer),
            Command::ExtendedCode(code) => code.serialize(writer),
        }
    }
}

/// A function code renders as the D, G or M code that it holds.
impl GerberCode for FunctionCode {
    open spec fn supported(&self) -> bool {
        true
    }

    fn is_supported(&self) -> (supported: bool) {
        true
    }

    open spec fn code(&self) -> Rendering {
        match self {
            FunctionCode::DCode(code) => code.code(),
            FunctionCode::GCode(code) => code.code(),
            FunctionCode::MCode(code) => code.code(),
        }
    }

    fn serialize(&self, writer: &mut String) -> (result: GerberResult<()>) {
        match self {
            FunctionCode::DCode(code) => code.serialize(writer),
            FunctionCode::GCode(code) => code.serialize(writer),
            FunctionCode::MCode(code) => code.serialize(writer),
        }
    }
}

impl ExtendedCode {
    /// Whether the extended code has code: all do but the aperture attribute and the file
    /// attributes without code. Those render as a conversion error.
    pub open spec fn spec_has_code(&self) -> bool {
        match self {
            ExtendedCode::FileAttribute(attribute) => attribute.has_code(),
            ExtendedCode::ApertureAttribute(_) => false,
            _ => true,
        }
    }

    #[verifier::when_used_as_spec(spec_has_code)]
    pub fn has_code(&self) -> (has: bool)
        ensures
            has == self.spec_has_code(),
    {
        match self {
            ExtendedCode::FileAttribute(attribute) => attribute.has_code(),
            ExtendedCode::ApertureAttribute(_) => false,
            _ => true,
        }
    }
}

/// An extended code renders as a line between two `%`.
///
/// - The coordinate format is `FSLAX` and `Y`, each followed by the integer and the decimal
///   places, and `*`.
/// - The unit is `MO`, the unit and `*`.
/// - An aperture definition is `ADD`, the definition and `*`.
/// - An aperture macro is the macro, which closes each of its items by a `*` of its own. A
///   macro that fails leaves behind the opening `%` and what it wrote itself.
/// - The polarity is `LP`, the polarity and `*`.
/// - Step and repeat is `SR`, the statement and `*`.
/// - A file attribute is `TF.`, the attribute and `*`. An attribute without code fails as a
///   conversion error and leaves behind `%TF.` and what it wrote itself.
/// - The deletion of an attribute is `TD`, the name of the attribute and `*`.
/// - An aperture attribute has no code: it fails as a conversion error before anything is
///   written.
impl GerberCode for ExtendedCode {
    open spec fn supported(&self) -> bool {
        self.has_code()
    }

    fn is_supported(&self) -> (supported: bool) {
        self.has_code()
    }

    open spec fn code(&self) -> Rendering {
        match self {
            ExtendedCode::CoordinateFormat(cf) => Rendering::ok(
                "%FSLAX"@ + integer_text(cf.integer as int) + integer_text(cf.decimal as int)
                    + "Y"@ + integer_text(cf.integer as int) + integer_text(cf.decimal as int)
                    + "*%\n"@,
            ),
            ExtendedCode::Unit(unit) => Rendering::ok("%MO"@ + unit.partial_code().text + "*%\n"@),
            ExtendedCode::ApertureDefinition(def) => Rendering::ok(
                "%ADD"@ + def.text() + "*%\n"@,
            ),
            ExtendedCode::ApertureMacro(am) => Rendering::ok("%"@).and_then(
                am.partial_code(),
            ).and_then(Rendering::ok("%\n"@)),
            ExtendedCode::LoadPolarity(polarity) => Rendering::ok(
                "%LP"@ + polarity.partial_code().text + "*%\n"@,
            ),
            ExtendedCode::StepAndRepeat(sar) => Rendering::ok("%SR"@ + sar.text() + "*%\n"@),
            ExtendedCode::FileAttribute(attr) => Rendering::ok("%TF."@).and_then(
                attr.partial_code(),
            ).and_then(Rendering::ok("*%\n"@)),
            ExtendedCode::DeleteAttribute(attr) => Rendering::ok("%TD"@ + attr@ + "*%\n"@),
            ExtendedCode::ApertureAttribute(_) => Rendering::fail(ErrorKind::Conversion),
        }
    }

    fn serialize(&self, writer: &mut String) -> (result: GerberResult<()>) {
        match self {
            ExtendedCode::CoordinateFormat(cf) => {
                let mut line = String::from_str("%FSLAX");
                write_unsigned(&mut line, cf.integer as u64);
                write_unsigned(&mut line, cf.decimal as u64);
                line.append("Y");
                write_unsigned(&mut line, cf.integer as u64);
                write_unsigned(&mut line, cf.decimal as u64);
                line.append("*%\n");
                writer.append(line.as_str());
            },
            ExtendedCode::Unit(unit) => {
                writer.append("%MO");
                unit.serialize_partial(writer)?;
                writer.append("*%\n");
            },
            ExtendedCode::ApertureDefinition(def) => {
                writer.append("%ADD");
                def.serialize_partial(writer)?;
                writer.append("*%\n");
            },
            ExtendedCode::ApertureMacro(am) => {
                writer.append("%");
                am.serialize_partial(writer)?;
                writer.append("%\n");
            },
            ExtendedCode::LoadPolarity(polarity) => {
                writer.append("%LP");
                polarity.serialize_partial(writer)?;
                writer.append("*%\n");
            },
            ExtendedCode::StepAndRepeat(sar) => {
                writer.append("%SR");
                sar.serialize_partial(writer)?;
                writer.append("*%\n");
            },
            ExtendedCode::FileAttribute(attr) => {
                writer.append("%TF.");
                attr.serialize_partial(writer)?;
                writer.append("*%\n");
            },
            ExtendedCode::DeleteAttribute(attr) => {
                writer.append("%TD");
                writer.append(attr.as_str());
                writer.append("*%\n");
            },
            ExtendedCode::ApertureAttribute(_) => {
                return Err(
                    GerberError::ConversionError(
                        String::from_str("No code is defined for aperture attributes"),
                    ),
                );
            },
        }
        Ok(())
    }
}

/// An extended code fails as a conversion error exactly where it has no code.
pub proof fn lemma_extended_code_without_code(code: ExtendedCode)
    ensures
        !code.has_code() <==> code.code().failure == Some(ErrorKind::Conversion),
{
    if let ExtendedCode::ApertureMacro(aperture_macro) = code {
        crate::macros::lemma_macro_failure_kinds(aperture_macro);
    }
}

/// A function code never fails as a conversion error.
pub proof fn lemma_function_code_failure_kinds(code: FunctionCode)
    ensures
        code.code().failure != Some(ErrorKind::Conversion),
{
}

/// A command fails as a conversion error exactly where it has no code.
pub proof fn lemma_command_without_code(command: Command)
    ensures
        !command.has_code() <==> command.code().failure == Some(ErrorKind::Conversion),
{
    match command {
        Command::FunctionCode(code) => lemma_function_code_failure_kinds(code),
        Command::ExtendedCode(code) => lemma_extended_code_without_code(code),
    }
}

} // verus!
