//! Extended code types.

use vstd::prelude::*;
use vstd::string::StringExecFns;
use crate::decimal::Decimal;
use crate::digits::{integer_text, write_signed, write_unsigned};
use crate::errors::GerberResult;
use crate::traits::{PartialGerberCode, Rendering};

verus! {

// Unit
#[derive(Debug, Clone, Copy, PartialEq, Eq, Structural)]
pub enum Unit {
    Inches,
    Millimeters,
}

/// The units render as `IN` and `MM`.
impl PartialGerberCode for Unit {
    open spec fn partial_supported(&self) -> bool {
        true
    }

    fn is_partial_supported(&self) -> (supported: bool) {
        true
    }

    open spec fn partial_code(&self) -> Rendering {
        Rendering::ok(
            match self {
                Unit::Millimeters => "MM"@,
                Unit::Inches => "IN"@,
            },
        )
    }

    fn serialize_partial(&self, writer: &mut String) -> (result: GerberResult<()>) {
        match self {
            Unit::Millimeters => writer.append("MM"),
            Unit::Inches => writer.append("IN"),
        }
        Ok(())
    }
}

// ApertureDefinition
#[derive(Debug, Clone, PartialEq)]
pub struct ApertureDefinition {
    pub code: i32,
    pub aperture: Aperture,
}

impl ApertureDefinition {
    pub fn new(code: i32, aperture: Aperture) -> (definition: Self)
        ensures
            definition == (ApertureDefinition { code, aperture }),
    {
        ApertureDefinition { code, aperture }
    }

    /// The code of the definition: the number of the aperture, then the aperture.
    pub open spec fn text(&self) -> Seq<char> {
        integer_text(self.code as int) + self.aperture.text()
    }
}

/// An aperture definition renders as the number of the aperture, then the aperture.
impl PartialGerberCode for ApertureDefinition {
    open spec fn partial_supported(&self) -> bool {
        true
    }

    fn is_partial_supported(&self) -> (supported: bool) {
        true
    }

    open spec fn partial_code(&self) -> Rendering {
        Rendering::ok(self.text())
    }

    fn serialize_partial(&self, writer: &mut String) -> (result: GerberResult<()>) {
        write_signed(writer, self.code as i64);
        self.aperture.serialize_partial(writer)?;
        Ok(())
    }
}

// Aperture
#[derive(Debug, Clone, PartialEq)]
pub enum Aperture {
    Circle(Circle),
    Rectangle(Rectangular),
    Obround(Rectangular),
    Polygon(Polygon),
    Other(String),
}

impl Aperture {
    /// The code of the aperture: the letter of its shape, a comma and the shape, or the text
    /// of another aperture as it is.
    pub open spec fn text(&self) -> Seq<char> {
        match self {
            Aperture::Circle(circle) => "C,"@ + circle.text(),
            Aperture::Rectangle(rectangular) => "R,"@ + rectangular.text(),
            Aperture::Obround(rectangular) => "O,"@ + rectangular.text(),
            Aperture::Polygon(polygon) => "P,"@ + polygon.text(),
            Aperture::Other(string) => string@,
        }
    }
}

/// An aperture renders as the letter of its shape, a comma and the shape: `C` for a circle,
/// `R` for a rectangle, `O` for an obround, `P` for a polygon. Another aperture renders as
/// its text.
impl PartialGerberCode for Aperture {
    open spec fn partial_supported(&self) -> bool {
        true
    }

    fn is_partial_supported(&self) -> (supported: bool) {
        true
    }

    open spec fn partial_code(&self) -> Rendering {
        Rendering::ok(self.text())
    }

    fn serialize_partial(&self, writer: &mut String) -> (result: GerberResult<()>) {
        match self {
            Aperture::Circle(circle) => {
                writer.append("C,");
                circle.serialize_partial(writer)?;
            },
            Aperture::Rectangle(rectangular) => {
                writer.append("R,");
                rectangular.serialize_partial(writer)?;
            },
            Aperture::Obround(rectangular) => {
                writer.append("O,");
                rectangular.serialize_partial(writer)?;
            },
            Aperture::Polygon(polygon) => {
                writer.append("P,");
                polygon.serialize_partial(writer)?;
            },
            Aperture::Other(string) => {
                writer.append(string.as_str());
            },
        }
        Ok(())
    }
}

// Circle
#[derive(Debug, Clone, PartialEq)]
pub struct Circle {
    pub diameter: Decimal,
    pub hole_diameter: Option<Decimal>,
}

impl Circle {
    pub fn new(diameter: Decimal) -> (circle: Self)
        ensures
            circle == (Circle { diameter, hole_diameter: None }),
    {
        Circle { diameter, hole_diameter: None }
    }

    pub fn with_hole(diameter: Decimal, hole_diameter: Decimal) -> (circle: Self)
        ensures
            circle == (Circle { diameter, hole_diameter: Some(hole_diameter) }),
    {
        Circle { diameter, hole_diameter: Some(hole_diameter) }
    }

    /// The code of the circle: the diameter and, after an `X`, the diameter of the hole where
    /// there is one.
    pub open spec fn text(&self) -> Seq<char> {
        match self.hole_diameter {
            Some(hole_diameter) => self.diameter.text() + "X"@ + hole_diameter.text(),
            None => self.diameter.text(),
        }
    }
}

/// A circle renders as its diameter and, after an `X`, the diameter of its hole where it has
/// one.
impl PartialGerberCode for Circle {
    open spec fn partial_supported(&self) -> bool {
        true
    }

    fn is_partial_supported(&self) -> (supported: bool) {
        true
    }

    open spec fn partial_code(&self) -> Rendering {
        Rendering::ok(self.text())
    }

    fn serialize_partial(&self, writer: &mut String) -> (result: GerberResult<()>) {
        let mut line = String::new();
        self.diameter.serialize_partial(&mut line)?;
        if let Some(hole_diameter) = &self.hole_diameter {
            line.append("X");
            hole_diameter.serialize_partial(&mut line)?;
        }
        assert(line@ =~= self.text());
        writer.append(line.as_str());
        Ok(())
    }
}

// Rectangular
#[derive(Debug, Clone, PartialEq)]
pub struct Rectangular {
    pub x: Decimal,
    pub y: Decimal,
    pub hole_diameter: Option<Decimal>,
}

impl Rectangular {
    pub fn new(x: Decimal, y: Decimal) -> (rectangular: Self)
        ensures
            rectangular == (Rectangular { x, y, hole_diameter: None }),
    {
        Rectangular { x, y, hole_diameter: None }
    }

    pub fn with_hole(x: Decimal, y: Decimal, hole_diameter: Decimal) -> (rectangular: Self)
        ensures
            rectangular == (Rectangular { x, y, hole_diameter: Some(hole_diameter) }),
    {
        Rectangular { x, y, hole_diameter: Some(hole_diameter) }
    }

    /// The code of the shape: the two sides and, where there is a hole, its diameter,
    /// separated by `X`.
    pub open spec fn text(&self) -> Seq<char> {
        match self.hole_diameter {
            Some(hole_diameter) => self.x.text() + "X"@ + self.y.text() + "X"@
                + hole_diameter.text(),
            None => self.x.text() + "X"@ + self.y.text(),
        }
    }
}

/// A rectangle or obround renders as its two sides and, where it has a hole, the diameter of
/// the hole, separated by `X`.
impl PartialGerberCode for Rectangular {
    open spec fn partial_supported(&self) -> bool {
        true
    }

    fn is_partial_supported(&self) -> (supported: bool) {
        true
    }

    open spec fn partial_code(&self) -> Rendering {
        Rendering::ok(self.text())
    }

    fn serialize_partial(&self, writer: &mut String) -> (result: GerberResult<()>) {
        let mut line = String::new();
        self.x.serialize_partial(&mut line)?;
        line.append("X");
        self.y.serialize_partial(&mut line)?;
        if let Some(hole_diameter) = &self.hole_diameter {
            line.append("X");
            hole_diameter.serialize_partial(&mut line)?;
        }
        assert(line@ =~= self.text());
        writer.append(line.as_str());
        Ok(())
    }
}

// Polygon
#[derive(Debug, Clone, PartialEq)]
pub struct Polygon {
    pub diameter: Decimal,
    pub vertices: u8,  // 3--12
    pub rotation: Option<Decimal>,
    pub hole_diameter: Option<Decimal>,
}

impl Polygon {
    pub fn new(diameter: Decimal, vertices: u8) -> (polygon: Self)
        ensures
            polygon == (Polygon { diameter, vertices, rotation: None, hole_diameter: None }),
    {
        Polygon { diameter, vertices, rotation: None, hole_diameter: None }
    }

    pub fn with_rotation(self, angle: Decimal) -> (polygon: Self)
        ensures
            polygon == (Polygon { rotation: Some(angle), ..self }),
    {
        Polygon { rotation: Some(angle), ..self }
    }

    pub fn with_diameter(self, diameter: Decimal) -> (polygon: Self)
        ensures
            polygon == (Polygon { diameter, ..self }),
    {
        Polygon { diameter, ..self }
    }

    /// The code of the polygon: the diameter, the number of vertices, the rotation where it
    /// has one, and the diameter of the hole where it has one, separated by `X`. A hole
    /// without a rotation renders after the rotation `0`.
    pub open spec fn text(&self) -> Seq<char> {
        let head = self.diameter.text() + "X"@ + integer_text(self.vertices as int);
        match (self.rotation, self.hole_diameter) {
            (Some(rotation), Some(hole_diameter)) => head + "X"@ + rotation.text() + "X"@
                + hole_diameter.text(),
            (Some(rotation), None) => head + "X"@ + rotation.text(),
            (None, Some(hole_diameter)) => head + "X0X"@ + hole_diameter.text(),
            (None, None) => head,
        }
    }
}

/// A polygon renders as its diameter, the number of its vertices, its rotation where it has
/// one, and the diameter of its hole where it has one, separated by `X`. A hole without a
/// rotation renders after the rotation `0`.
impl PartialGerberCode for Polygon {
    open spec fn partial_supported(&self) -> bool {
        true
    }

    fn is_partial_supported(&self) -> (supported: bool) {
        true
    }

    open spec fn partial_code(&self) -> Rendering {
        Rendering::ok(self.text())
    }

    fn serialize_partial(&self, writer: &mut String) -> (result: GerberResult<()>) {
        let mut line = String::new();
        self.diameter.serialize_partial(&mut line)?;
        line.append("X");
        write_unsigned(&mut line, self.vertices as u64);
        assert(line@ =~= self.diameter.text() + "X"@ + integer_text(self.vertices as int));
        match (&self.rotation, &self.hole_diameter) {
            (Some(rotation), Some(hole_diameter)) => {
                line.append("X");
                rotation.serialize_partial(&mut line)?;
                line.append("X");
                hole_diameter.serialize_partial(&mut line)?;
            },
            (Some(rotation), None) => {
                line.append("X");
                rotation.serialize_partial(&mut line)?;
            },
            (None, Some(hole_diameter)) => {
                line.append("X0X");
                hole_diameter.serialize_partial(&mut line)?;
            },
            (None, None) => {},
        }
        writer.append(line.as_str());
        Ok(())
    }
}

// Polarity
#[derive(Debug, Clone, Copy, PartialEq, Eq, Structural)]
pub enum Polarity {
    Clear,
    Dark,
}

/// The polarities render as `C` and `D`.
impl PartialGerberCode for Polarity {
    open spec fn partial_supported(&self) -> bool {
        true
    }

    fn is_partial_supported(&self) -> (supported: bool) {
        true
    }

    open spec fn partial_code(&self) -> Rendering {
        Rendering::ok(
            match self {
                Polarity::Clear => "C"@,
                Polarity::Dark => "D"@,
            },
        )
    }

    fn serialize_partial(&self, writer: &mut String) -> (result: GerberResult<()>) {
        match self {
            Polarity::Clear => writer.append("C"),
            Polarity::Dark => writer.append("D"),
        }
        Ok(())
    }
}

// StepAndRepeat
#[derive(Debug, Clone, PartialEq)]
pub enum StepAndRepeat {
    Open { repeat_x: u32, repeat_y: u32, distance_x: Decimal, distance_y: Decimal },
    Close,
}

impl StepAndRepeat {
    /// The code of the statement: for the opening one the two repeat counts after `X` and
    /// `Y` and the two distances after `I` and `J`, for the closing one nothing.
    pub open spec fn text(&self) -> Seq<char> {
        match self {
            StepAndRepeat::Open { repeat_x, repeat_y, distance_x, distance_y } => "X"@
                + integer_text(*repeat_x as int) + "Y"@ + integer_text(*repeat_y as int) + "I"@
                + distance_x.text() + "J"@ + distance_y.text(),
            StepAndRepeat::Close => Seq::empty(),
        }
    }
}

/// An opening step and repeat renders as its two repeat counts after `X` and `Y` and its two
/// distances after `I` and `J`, a closing one as nothing.
impl PartialGerberCode for StepAndRepeat {
    open spec fn partial_supported(&self) -> bool {
        true
    }

    fn is_partial_supported(&self) -> (supported: bool) {
        true
    }

    open spec fn partial_code(&self) -> Rendering {
        Rendering::ok(self.text())
    }

    fn serialize_partial(&self, writer: &mut String) -> (result: GerberResult<()>) {
        match self {
            StepAndRepeat::Open { repeat_x, repeat_y, distance_x, distance_y } => {
                let mut line = String::from_str("X");
                write_unsigned(&mut line, *repeat_x as u64);
                line.append("Y");
                write_unsigned(&mut line, *repeat_y as u64);
                line.append("I");
                distance_x.serialize_partial(&mut line)?;
                line.append("J");
                distance_y.serialize_partial(&mut line)?;
                writer.append(line.as_str());
            },
            StepAndRepeat::Close => {},
        }
        Ok(())
    }
}

} // verus!
