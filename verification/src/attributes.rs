//! Attributes.

use vstd::prelude::*;
use vstd::std_specs::convert::IntoSpec;
use vstd::string::StringExecFns;
use crate::decimal::Decimal;
use crate::digits::{integer_text, write_signed};
use crate::errors::{ErrorKind, GerberError, GerberResult};
use crate::traits::{PartialGerberCode, Rendering};

verus! {

/// A universally unique identifier, of the crate `uuid`. The library carries it and never
/// looks inside.
#[verifier::external_type_specification]
#[verifier::external_body]
pub struct ExUuid(uuid::Uuid);

/// A date and a time of day without a time zone, of the crate `chrono`. The library carries
/// it and never looks inside.
#[verifier::external_type_specification]
#[verifier::external_body]
pub struct ExNaiveDateTime(chrono::NaiveDateTime);

// FileAttribute
#[derive(Debug, PartialEq, Eq)]
pub enum FileAttribute {
    Part(Part),
    FileFunction(FileFunction),
    FilePolarity(FilePolarity),
    GenerationSoftware(GenerationSoftware),
    /// The date and time of the creation of the file, in UTC.
    CreationDate(chrono::NaiveDateTime),
    ProjectId { id: String, guid: uuid::Uuid, revision: String },
    Md5(String),
    UserDefined { name: String, value: Vec<String> },
}

impl Clone for FileAttribute {
    fn clone(&self) -> (attribute: Self) {
        match self {
            FileAttribute::Part(part) => FileAttribute::Part(part.clone()),
            FileAttribute::FileFunction(function) => FileAttribute::FileFunction(function.clone()),
            FileAttribute::FilePolarity(polarity) => FileAttribute::FilePolarity(polarity.clone()),
            FileAttribute::GenerationSoftware(software) => FileAttribute::GenerationSoftware(
                software.clone(),
            ),
            FileAttribute::CreationDate(date) => FileAttribute::CreationDate(*date),
            FileAttribute::ProjectId { id, guid, revision } => FileAttribute::ProjectId {
                id: id.clone(),
                guid: *guid,
                revision: revision.clone(),
            },
            FileAttribute::Md5(hash) => FileAttribute::Md5(hash.clone()),
            FileAttribute::UserDefined { name, value } => FileAttribute::UserDefined {
                name: name.clone(),
                value: value.clone(),
            },
        }
    }
}

impl FileAttribute {
    /// Whether the attribute has code: the part, the file functions that have code, the file
    /// polarity, the generation software and the MD5 checksum do.
    pub open spec fn spec_has_code(&self) -> bool {
        match self {
            FileAttribute::Part(_) => true,
            FileAttribute::FileFunction(function) => function.has_code(),
            FileAttribute::FilePolarity(_) => true,
            FileAttribute::GenerationSoftware(_) => true,
            FileAttribute::Md5(_) => true,
            _ => false,
        }
    }

    #[verifier::when_used_as_spec(spec_has_code)]
    pub fn has_code(&self) -> (has: bool)
        ensures
            has == self.spec_has_code(),
    {
        match self {
            FileAttribute::Part(_) => true,
            FileAttribute::FileFunction(function) => function.has_code(),
            FileAttribute::FilePolarity(_) => true,
            FileAttribute::GenerationSoftware(_) => true,
            FileAttribute::Md5(_) => true,
            _ => false,
        }
    }
}

/// A file attribute renders as its name, a comma and its value. The creation date, the
/// project id and the user defined attributes have no code: they fail as a conversion error
/// before anything is written. A file function without code fails in the same way after the
/// name of the attribute and the comma are written.
impl PartialGerberCode for FileAttribute {
    open spec fn partial_supported(&self) -> bool {
        self.has_code()
    }

    fn is_partial_supported(&self) -> (supported: bool) {
        self.has_code()
    }

    open spec fn partial_code(&self) -> Rendering {
        match self {
            FileAttribute::Part(part) => Rendering::ok("Part,"@ + part.text()),
            FileAttribute::FileFunction(function) => match function.text() {
                Some(text) => Rendering::ok("FileFunction,"@ + text),
                None => Rendering {
                    text: "FileFunction,"@,
                    failure: Some(ErrorKind::Conversion),
                },
            },
            FileAttribute::GenerationSoftware(gs) => Rendering::ok(
                "GenerationSoftware,"@ + gs.text(),
            ),
            FileAttribute::FilePolarity(p) => Rendering::ok("FilePolarity,"@ + p.text()),
            FileAttribute::Md5(hash) => Rendering::ok("MD5,"@ + hash@),
            _ => Rendering::fail(ErrorKind::Conversion),
        }
    }

    fn serialize_partial(&self, writer: &mut String) -> (result: GerberResult<()>) {
        match self {
            FileAttribute::Part(part) => {
                writer.append("Part,");
                part.serialize_partial(writer)?;
            },
            FileAttribute::FileFunction(function) => {
                writer.append("FileFunction,");
                function.serialize_partial(writer)?;
            },
            FileAttribute::GenerationSoftware(gs) => {
                writer.append("GenerationSoftware,");
                gs.serialize_partial(writer)?;
            },
            FileAttribute::FilePolarity(p) => {
                writer.append("FilePolarity,");
                p.serialize_partial(writer)?;
            },
            FileAttribute::Md5(hash) => {
                writer.append("MD5,");
                writer.append(hash.as_str());
            },
            _ => {
                return Err(
                    GerberError::ConversionError(
                        String::from_str("No code is defined for this file attribute"),
                    ),
                );
            },
        }
        Ok(())
    }
}

/// A file attribute renders without failure exactly where it has code, and one without code
/// fails as a conversion error.
pub proof fn lemma_file_attribute_code(attribute: FileAttribute)
    ensures
        attribute.has_code() <==> attribute.partial_code().failure is None,
        !attribute.has_code() ==> attribute.partial_code().failure == Some(ErrorKind::Conversion),
{
}

// ApertureAttribute
#[derive(Debug, Clone, PartialEq)]
pub enum ApertureAttribute {
    ApertureFunction(ApertureFunction),
    DrillTolerance { plus: Decimal, minus: Decimal },
}

// Part
#[derive(Debug, Clone, PartialEq, Eq)]
pub enum Part {
    /// Single PCB
    Single,
    /// A.k.a. customer panel, assembly panel, shipping panel, biscuit
    Array,
    /// A.k.a. working panel, production panel
    FabricationPanel,
    /// A test coupon
    Coupon,
    /// None of the above
    Other(String),
}

impl Part {
    /// The code of the part: its name, and for another part `Other`, a comma and its
    /// description.
    pub open spec fn text(&self) -> Seq<char> {
        match self {
            Part::Single => "Single"@,
            Part::Array => "Array"@,
            Part::FabricationPanel => "FabricationPanel"@,
            Part::Coupon => "Coupon"@,
            Part::Other(description) => "Other,"@ + description@,
        }
    }
}

/// A part renders as its name, another part as `Other`, a comma and its description.
impl PartialGerberCode for Part {
    open spec fn partial_supported(&self) -> bool {
        true
    }

    fn is_partial_supported(&self) -> (supported: bool) {
        true
    }

    open spec fn partial_code(&self) -> Rendering {
        Rendering::ok(self.text())
    }

    fn serialize_partial(&self, writer: &mut String) -> (result: GerberResult<()>) {
        match self {
            Part::Single => writer.append("Single"),
            Part::Array => writer.append("Array"),
            Part::FabricationPanel => writer.append("FabricationPanel"),
            Part::Coupon => writer.append("Coupon"),
            Part::Other(description) => {
                writer.append("Other,");
                writer.append(description.as_str());
            },
        }
        Ok(())
    }
}

// Position
#[derive(Debug, Clone, PartialEq, Eq)]
pub enum Position {
    Top,
    Bottom,
}

impl Position {
    /// The code of the position: `Top` or `Bot`.
    pub open spec fn text(&self) -> Seq<char> {
        match self {
            Position::Top => "Top"@,
            Position::Bottom => "Bot"@,
        }
    }
}

/// The positions render as `Top` and `Bot`.
impl PartialGerberCode for Position {
    open spec fn partial_supported(&self) -> bool {
        true
    }

    fn is_partial_supported(&self) -> (supported: bool) {
        true
    }

    open spec fn partial_code(&self) -> Rendering {
        Rendering::ok(self.text())
    }

    fn serialize_partial(&self, writer: &mut String) -> (result: GerberResult<()>) {
        match self {
            Position::Top => writer.append("Top"),
            Position::Bottom => writer.append("Bot"),
        }
        Ok(())
    }
}

// ExtendedPosition
#[derive(Debug, Clone, PartialEq, Eq)]
pub enum ExtendedPosition {
    Top,
    Inner,
    Bottom,
}

impl ExtendedPosition {
    /// The code of the position: `Top`, `Inr` or `Bot`.
    pub open spec fn text(&self) -> Seq<char> {
        match self {
            ExtendedPosition::Top => "Top"@,
            ExtendedPosition::Inner => "Inr"@,
            ExtendedPosition::Bottom => "Bot"@,
        }
    }
}

/// The extended positions render as `Top`, `Inr` and `Bot`.
impl PartialGerberCode for ExtendedPosition {
    open spec fn partial_supported(&self) -> bool {
        true
    }

    fn is_partial_supported(&self) -> (supported: bool) {
        true
    }

    open spec fn partial_code(&self) -> Rendering {
        Rendering::ok(self.text())
    }

    fn serialize_partial(&self, writer: &mut String) -> (result: GerberResult<()>) {
        match self {
            ExtendedPosition::Top => writer.append("Top"),
            ExtendedPosition::Inner => writer.append("Inr"),
            ExtendedPosition::Bottom => writer.append("Bot"),
        }
        Ok(())
    }
}

// CopperType
#[derive(Debug, Clone, PartialEq, Eq)]
pub enum CopperType {
    Plane,
    Signal,
    Mixed,
    Hatched,
}

impl CopperType {
    /// The code of the copper type: its name.
    pub open spec fn text(&self) -> Seq<char> {
        match self {
            CopperType::Plane => "Plane"@,
            CopperType::Signal => "Signal"@,
            CopperType::Mixed => "Mixed"@,
            CopperType::Hatched => "Hatched"@,
        }
    }
}

/// A copper type renders as its name.
impl PartialGerberCode for CopperType {
    open spec fn partial_supported(&self) -> bool {
        true
    }

    fn is_partial_supported(&self) -> (supported: bool) {
        true
    }

    open spec fn partial_code(&self) -> Rendering {
        Rendering::ok(self.text())
    }

    fn serialize_partial(&self, writer: &mut String) -> (result: GerberResult<()>) {
        match self {
            CopperType::Plane => writer.append("Plane"),
            CopperType::Signal => writer.append("Signal"),
            CopperType::Mixed => writer.append("Mixed"),
            CopperType::Hatched => writer.append("Hatched"),
        }
        Ok(())
    }
}

// Drill
#[derive(Debug, Clone, PartialEq, Eq)]
pub enum Drill {
    ThroughHole,
    Blind,
    Buried,
}

// DrillRouteType
#[derive(Debug, Clone, PartialEq, Eq)]
pub enum DrillRouteType {
    Drill,
    Route,
    Mixed,
}

// Profile
#[derive(Debug, Clone, PartialEq, Eq)]
pub enum Profile {
    Plated,
    NonPlated,
}

impl Profile {
    /// The code of the profile: `P` or `NP`.
    pub open spec fn text(&self) -> Seq<char> {
        match self {
            Profile::Plated => "P"@,
            Profile::NonPlated => "NP"@,
        }
    }
}

/// The profiles render as `P` and `NP`.
impl PartialGerberCode for Profile {
    open spec fn partial_supported(&self) -> bool {
        true
    }

    fn is_partial_supported(&self) -> (supported: bool) {
        true
    }

    open spec fn partial_code(&self) -> Rendering {
        Rendering::ok(self.text())
    }

    fn serialize_partial(&self, writer: &mut String) -> (result: GerberResult<()>) {
        match self {
            Profile::Plated => writer.append("P"),
            Profile::NonPlated => writer.append("NP"),
        }
        Ok(())
    }
}

// FileFunction
#[derive(Debug, Clone, PartialEq, Eq)]
pub enum FileFunction {
    Copper { layer: i32, pos: ExtendedPosition, copper_type: Option<CopperType> },
    Soldermask { pos: Position, index: Option<i32> },
    Legend { pos: Position, index: Option<i32> },
    Goldmask { pos: Position, index: Option<i32> },
    Silvermask { pos: Position, index: Option<i32> },
    Tinmask { pos: Position, index: Option<i32> },
    Carbonmask { pos: Position, index: Option<i32> },
    Peelablesoldermask { pos: Position, index: Option<i32> },
    Glue { pos: Position, index: Option<i32> },
    Viatenting(Position),
    Viafill,
    Heatsink(Position),
    Paste(Position),
    KeepOut(Position),
    Pads(Position),
    Scoring(Position),
    Plated { from_layer: i32, to_layer: i32, drill: Drill, label: Option<DrillRouteType> },
    NonPlated { from_layer: i32, to_layer: i32, drill: Drill, label: Option<DrillRouteType> },
    Profile(Profile),
    Drillmap,
    FabricationDrawing,
    ArrayDrawing,
    AssemblyDrawing(Position),
    Drawing(String),
    Other(String),
}

/// The code of the index of a mask or legend: a comma and the index, or nothing where there
/// is none.
pub open spec fn index_text(index: Option<i32>) -> Seq<char> {
    match index {
        Some(i) => ","@ + integer_text(i as int),
        None => Seq::empty(),
    }
}

/// Appends the index of a mask or legend.
fn serialize_index(index: &Option<i32>, writer: &mut String)
    ensures
        final(writer)@ =~= old(writer)@ + index_text(*index),
{
    if let Some(i) = index {
        let mut text = String::from_str(",");
        write_signed(&mut text, *i as i64);
        writer.append(text.as_str());
    }
}

impl FileFunction {
    /// Whether the file function has code: copper, profile, solder mask and legend do.
    pub open spec fn spec_has_code(&self) -> bool {
        self.text() is Some
    }

    /// The code of a file function, where it has code: its name and its values, separated by
    /// commas. The layer of a copper file has an `L` in front, and what is absent is left
    /// out.
    pub open spec fn text(&self) -> Option<Seq<char>> {
        match self {
            FileFunction::Copper { layer, pos, copper_type } => Some(
                "Copper,L"@ + integer_text(*layer as int) + ","@ + pos.text() + (match copper_type {
                    Some(t) => ","@ + t.text(),
                    None => Seq::empty(),
                }),
            ),
            FileFunction::Profile(plating) => Some("Profile,"@ + plating.text()),
            FileFunction::Soldermask { pos, index } => Some(
                "Soldermask,"@ + pos.text() + index_text(*index),
            ),
            FileFunction::Legend { pos, index } => Some(
                "Legend,"@ + pos.text() + index_text(*index),
            ),
            _ => None,
        }
    }

    #[verifier::when_used_as_spec(spec_has_code)]
    pub fn has_code(&self) -> (has: bool)
        ensures
            has == self.spec_has_code(),
    {
        match self {
            FileFunction::Copper { .. } => true,
            FileFunction::Profile(_) => true,
            FileFunction::Soldermask { .. } => true,
            FileFunction::Legend { .. } => true,
            _ => false,
        }
    }
}

/// A file function renders as its name and its values, separated by commas. Of the file
/// functions only copper, profile, solder mask and legend have code. Every other fails as a
/// conversion error before anything is written.
impl PartialGerberCode for FileFunction {
    open spec fn partial_supported(&self) -> bool {
        self.has_code()
    }

    fn is_partial_supported(&self) -> (supported: bool) {
        self.has_code()
    }

    open spec fn partial_code(&self) -> Rendering {
        match self.text() {
            Some(text) => Rendering::ok(text),
            None => Rendering::fail(ErrorKind::Conversion),
        }
    }

    fn serialize_partial(&self, writer: &mut String) -> (result: GerberResult<()>) {
        match self {
            FileFunction::Copper { layer, pos, copper_type } => {
                let mut line = String::from_str("Copper,L");
                write_signed(&mut line, *layer as i64);
                line.append(",");
                pos.serialize_partial(&mut line)?;
                let ghost head = line@;
                if let Some(t) = copper_type {
                    line.append(",");
                    t.serialize_partial(&mut line)?;
                    assert(line@ =~= head + (","@ + t.text()));
                } else {
                    assert(line@ =~= head + Seq::<char>::empty());
                }
                writer.append(line.as_str());
            },
            FileFunction::Profile(plating) => {
                writer.append("Profile,");
                plating.serialize_partial(writer)?;
            },
            FileFunction::Soldermask { pos, index } => {
                writer.append("Soldermask,");
                pos.serialize_partial(writer)?;
                serialize_index(index, writer);
            },
            FileFunction::Legend { pos, index } => {
                writer.append("Legend,");
                pos.serialize_partial(writer)?;
                serialize_index(index, writer);
            },
            _ => {
                return Err(
                    GerberError::ConversionError(
                        String::from_str("No code is defined for this file function"),
                    ),
                );
            },
        }
        Ok(())
    }
}

// FilePolarity
#[derive(Debug, Clone, PartialEq, Eq)]
pub enum FilePolarity {
    Positive,
    Negative,
}

impl FilePolarity {
    /// The code of the polarity: its name.
    pub open spec fn text(&self) -> Seq<char> {
        match self {
            FilePolarity::Positive => "Positive"@,
            FilePolarity::Negative => "Negative"@,
        }
    }
}

/// A file polarity renders as its name.
impl PartialGerberCode for FilePolarity {
    open spec fn partial_supported(&self) -> bool {
        true
    }

    fn is_partial_supported(&self) -> (supported: bool) {
        true
    }

    open spec fn partial_code(&self) -> Rendering {
        Rendering::ok(self.text())
    }

    fn serialize_partial(&self, writer: &mut String) -> (result: GerberResult<()>) {
        match self {
            FilePolarity::Positive => writer.append("Positive"),
            FilePolarity::Negative => writer.append("Negative"),
        }
        Ok(())
    }
}

// GenerationSoftware
#[derive(Debug, Clone, PartialEq, Eq)]
pub struct GenerationSoftware {
    pub vendor: String,
    pub application: String,
    pub version: Option<String>,
}

impl GenerationSoftware {
    pub fn new<S: Into<String>>(vendor: S, application: S, version: Option<S>) -> (software: Self)
        ensures
            call_ensures(<S as Into<String>>::into, (vendor,), software.vendor),
            call_ensures(<S as Into<String>>::into, (application,), software.application),
            software.version is Some <==> version is Some,
            version is Some ==> call_ensures(
                <S as Into<String>>::into,
                (version->0,),
                software.version->0,
            ),
            S::obeys_into_spec() ==> software.vendor == vendor.into_spec(),
            S::obeys_into_spec() ==> software.application == application.into_spec(),
            S::obeys_into_spec() ==> software.version == match version {
                Some(v) => Some(v.into_spec()),
                None => None,
            },
    {
        GenerationSoftware {
            vendor: vendor.into(),
            application: application.into(),
            version: match version {
                Some(v) => Some(v.into()),
                None => None,
            },
        }
    }

    /// The code of the software: the vendor, the application and, where it is known, the
    /// version, separated by commas.
    pub open spec fn text(&self) -> Seq<char> {
        match self.version {
            Some(v) => self.vendor@ + ","@ + self.application@ + ","@ + v@,
            None => self.vendor@ + ","@ + self.application@,
        }
    }
}

/// The generation software renders as its vendor, its application and, where it is known,
/// its version, separated by commas.
impl PartialGerberCode for GenerationSoftware {
    open spec fn partial_supported(&self) -> bool {
        true
    }

    fn is_partial_supported(&self) -> (supported: bool) {
        true
    }

    open spec fn partial_code(&self) -> Rendering {
        Rendering::ok(self.text())
    }

    fn serialize_partial(&self, writer: &mut String) -> (result: GerberResult<()>) {
        let mut line = String::from_str(self.vendor.as_str());
        line.append(",");
        line.append(self.application.as_str());
        if let Some(v) = &self.version {
            line.append(",");
            line.append(v.as_str());
        }
        writer.append(line.as_str());
        Ok(())
    }
}

// ApertureFunction
#[derive(Debug, Clone, PartialEq, Eq)]
pub enum ApertureFunction {
    // Only valid for layers with file function plated or non-plated
    ViaDrill,
    BackDrill,
    ComponentDrill { press_fit: Option<bool> },
    CastellatedDrill,
    MechanicalDrill { function: Option<DrillFunction> },
    Slot,
    CutOut,
    Cavity,
    OtherDrill(String),
    // Only valid for layers with file function copper
    ComponentPad { press_fit: Option<bool> },
    SmdPad(SmdPadType),
    BgaPad(SmdPadType),
    ConnectorPad,
    HeatsinkPad,
    ViaPad,
    TestPad,
    CastellatedPad,
    FiducialPad(FiducialScope),
    ThermalReliefPad,
    WasherPad,
    AntiPad,
    OtherPad(String),
    Conductor,
    NonConductor,
    CopperBalancing,
    Border,
    OtherCopper(String),
    // All layers
    Profile,
    NonMaterial,
    Material,
    Other(String),
}

// DrillFunction
#[derive(Debug, Clone, PartialEq, Eq)]
pub enum DrillFunction {
    BreakOut,
    Tooling,
    Other,
}

// SmdPadType
#[derive(Debug, Clone, PartialEq, Eq)]
pub enum SmdPadType {
    CopperDefined,
    SoldermaskDefined,
}

// FiducialScope
#[derive(Debug, Clone, PartialEq, Eq)]
pub enum FiducialScope {
    Global,
    Local,
}

} // verus!
