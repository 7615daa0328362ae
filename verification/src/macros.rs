//! Aperture macros.

use vstd::prelude::*;
use vstd::std_specs::cmp::PartialEqSpecImpl;
use vstd::std_specs::convert::{FromSpecImpl, IntoSpec};
use vstd::string::StringExecFns;
use crate::decimal::Decimal;
use crate::digits::{integer_text, write_unsigned};
use crate::errors::{ErrorKind, GerberError, GerberResult};
use crate::traits::{PartialGerberCode, Rendering};

verus! {

/// A macro decimal is either a decimal number or a variable placeholder.
#[derive(Debug)]
pub enum MacroDecimal {
    /// A decimal value.
    Value(Decimal),
    /// A variable placeholder.
    Variable(u32),
}

impl MacroDecimal {
    /// Whether this is a value below zero. A variable never counts as negative: what it
    /// will hold is not known when the macro is written.
    pub open spec fn spec_is_negative(&self) -> bool {
        match self {
            MacroDecimal::Value(v) => v.is_negative(),
            MacroDecimal::Variable(_) => false,
        }
    }

    /// Whether two macro decimals are equal: two values that are the same number, or twice
    /// the same variable.
    pub open spec fn same(&self, other: &MacroDecimal) -> bool {
        match (self, other) {
            (MacroDecimal::Value(a), MacroDecimal::Value(b)) => a.same_number(b),
            (MacroDecimal::Variable(a), MacroDecimal::Variable(b)) => a == b,
            _ => false,
        }
    }

    /// The text of the macro decimal: the text of the value, or `$` and the number of the
    /// variable.
    pub open spec fn text(&self) -> Seq<char> {
        match self {
            MacroDecimal::Value(v) => v.text(),
            MacroDecimal::Variable(n) => "$"@ + integer_text(*n as int),
        }
    }

    #[verifier::when_used_as_spec(spec_is_negative)]
    pub fn is_negative(&self) -> (negative: bool)
        ensures
            negative == self.spec_is_negative(),
    {
        match self {
            MacroDecimal::Value(v) => v.is_negative(),
            MacroDecimal::Variable(_) => false,
        }
    }
}

impl Clone for MacroDecimal {
    fn clone(&self) -> (decimal: Self)
        ensures
            decimal == *self,
    {
        match self {
            MacroDecimal::Value(v) => MacroDecimal::Value(v.clone()),
            MacroDecimal::Variable(n) => MacroDecimal::Variable(*n),
        }
    }
}

impl PartialEq for MacroDecimal {
    fn eq(&self, other: &Self) -> (equal: bool) {
        match (self, other) {
            (MacroDecimal::Value(a), MacroDecimal::Value(b)) => *a == *b,
            (MacroDecimal::Variable(a), MacroDecimal::Variable(b)) => *a == *b,
            _ => false,
        }
    }
}

impl PartialEqSpecImpl for MacroDecimal {
    open spec fn obeys_eq_spec() -> bool {
        true
    }

    open spec fn eq_spec(&self, other: &Self) -> bool {
        self.same(other)
    }
}

impl From<Decimal> for MacroDecimal {
    fn from(val: Decimal) -> (decimal: Self) {
        MacroDecimal::Value(val)
    }
}

impl FromSpecImpl<Decimal> for MacroDecimal {
    open spec fn obeys_from_spec() -> bool {
        true
    }

    open spec fn from_spec(val: Decimal) -> Self {
        MacroDecimal::Value(val)
    }
}

/// A macro decimal renders as its text.
impl PartialGerberCode for MacroDecimal {
    open spec fn partial_supported(&self) -> bool {
        true
    }

    fn is_partial_supported(&self) -> (supported: bool) {
        true
    }

    open spec fn partial_code(&self) -> Rendering {
        Rendering::ok(self.text())
    }

    fn serialize_partial(&self, writer: &mut String) -> (result: GerberResult<()>) {
        match self {
            MacroDecimal::Value(v) => {
                v.serialize_partial(writer)?;
            },
            MacroDecimal::Variable(n) => {
                writer.append("$");
                write_unsigned(writer, *n as u64);
            },
        }
        Ok(())
    }
}

/// Whether a macro decimal is the value zero, without a minus sign.
pub open spec fn is_zero_value(decimal: MacroDecimal) -> bool {
    decimal matches MacroDecimal::Value(v) && v.is_zero() && !v.has_minus_sign()
}

/// The value zero, which the constructors put where the caller gives no value.
pub fn zero_value() -> (zero: MacroDecimal)
    ensures
        is_zero_value(zero),
{
    MacroDecimal::Value(Decimal::zero())
}

/// The text of an exposure flag: `1` for on, `0` for off.
pub open spec fn exposure_text(exposure: bool) -> Seq<char> {
    exposure.partial_code().text
}

/// Whether two points are equal: equal in both coordinates.
pub open spec fn same_point(
    a: (MacroDecimal, MacroDecimal),
    b: (MacroDecimal, MacroDecimal),
) -> bool {
    a.0.same(&b.0) && a.1.same(&b.1)
}

#[derive(Debug, PartialEq)]
pub struct CirclePrimitive {
    /// Exposure off/on
    pub exposure: bool,
    /// Diameter, a decimal >= 0
    pub diameter: MacroDecimal,
    /// X and Y coordinates of center position, decimals
    pub center: (MacroDecimal, MacroDecimal),
    /// Rotation angle, in degrees, around the origin of the macro definition: the point
    /// (0, 0) of the macro coordinates. It may be left out, which means no rotation.
    pub angle: Option<MacroDecimal>,
}

impl Clone for CirclePrimitive {
    fn clone(&self) -> (circle: Self)
        ensures
            circle == *self,
    {
        CirclePrimitive {
            exposure: self.exposure,
            diameter: self.diameter.clone(),
            center: (self.center.0.clone(), self.center.1.clone()),
            angle: match &self.angle {
                Some(value) => Some(value.clone()),
                None => None,
            },
        }
    }
}

impl CirclePrimitive {
    pub fn new(diameter: MacroDecimal) -> (circle: Self)
        ensures
            circle.exposure,
            circle.diameter == diameter,
            is_zero_value(circle.center.0),
            is_zero_value(circle.center.1),
            circle.angle is None,
    {
        CirclePrimitive {
            exposure: true,
            diameter,
            center: (zero_value(), zero_value()),
            angle: None,
        }
    }

    pub fn centered_at(self, center: (MacroDecimal, MacroDecimal)) -> (circle: Self)
        ensures
            circle == (CirclePrimitive { center, ..self }),
    {
        CirclePrimitive { center, ..self }
    }

    pub fn exposure_on(self, exposure: bool) -> (circle: Self)
        ensures
            circle == (CirclePrimitive { exposure, ..self }),
    {
        CirclePrimitive { exposure, ..self }
    }

    pub fn with_angle(self, angle: MacroDecimal) -> (circle: Self)
        ensures
            circle == (CirclePrimitive { angle: Some(angle), ..self }),
    {
        CirclePrimitive { angle: Some(angle), ..self }
    }

    /// The code of the circle: `1`, the exposure, the diameter, the two coordinates of the
    /// center and, where it has one, the angle, separated by commas and closed by `*`.
    #[verifier::opaque]
    pub open spec fn text(&self) -> Seq<char> {
        "1,"@ + exposure_text(self.exposure) + ","@ + self.diameter.text() + ","@
            + self.center.0.text() + ","@ + self.center.1.text() + (match self.angle {
            Some(angle) => ","@ + angle.text(),
            None => Seq::empty(),
        }) + "*"@
    }
}

/// A circle renders as the code `1`, the exposure, the diameter, the two coordinates of the
/// center and, where it has one, the angle, separated by commas and closed by `*`.
impl PartialGerberCode for CirclePrimitive {
    open spec fn partial_supported(&self) -> bool {
        true
    }

    fn is_partial_supported(&self) -> (supported: bool) {
        true
    }

    open spec fn partial_code(&self) -> Rendering {
        Rendering::ok(self.text())
    }

    fn serialize_partial(&self, writer: &mut String) -> (result: GerberResult<()>) {
        proof {
            reveal(CirclePrimitive::text);
        }
        let mut line = String::from_str("1,");
        self.exposure.serialize_partial(&mut line)?;
        line.append(",");
        self.diameter.serialize_partial(&mut line)?;
        line.append(",");
        self.center.0.serialize_partial(&mut line)?;
        line.append(",");
        self.center.1.serialize_partial(&mut line)?;
        let ghost head = line@;
        if let Some(ref angle) = self.angle {
            line.append(",");
            angle.serialize_partial(&mut line)?;
            assert(line@ =~= head + (","@ + angle.text()));
        } else {
            assert(line@ =~= head + Seq::<char>::empty());
        }
        line.append("*");
        writer.append(line.as_str());
        Ok(())
    }
}

#[derive(Debug, PartialEq)]
pub struct VectorLinePrimitive {
    /// Exposure off/on
    pub exposure: bool,
    /// Line width, a decimal >= 0
    pub width: MacroDecimal,
    /// X and Y coordinates of start point, decimals
    pub start: (MacroDecimal, MacroDecimal),
    /// X and Y coordinates of end point, decimals
    pub end: (MacroDecimal, MacroDecimal),
    /// Rotation angle, in degrees, around the origin of the macro definition: the point
    /// (0, 0) of the macro coordinates.
    pub angle: MacroDecimal,
}

impl Clone for VectorLinePrimitive {
    fn clone(&self) -> (line: Self)
        ensures
            line == *self,
    {
        VectorLinePrimitive {
            exposure: self.exposure,
            width: self.width.clone(),
            start: (self.start.0.clone(), self.start.1.clone()),
            end: (self.end.0.clone(), self.end.1.clone()),
            angle: self.angle.clone(),
        }
    }
}

impl VectorLinePrimitive {
    pub fn new(start: (MacroDecimal, MacroDecimal), end: (MacroDecimal, MacroDecimal)) -> (line:
        Self)
        ensures
            line.exposure,
            is_zero_value(line.width),
            line.start == start,
            line.end == end,
            is_zero_value(line.angle),
    {
        VectorLinePrimitive {
            exposure: true,
            width: zero_value(),
            start,
            end,
            angle: zero_value(),
        }
    }

    pub fn exposure_on(self, exposure: bool) -> (line: Self)
        ensures
            line == (VectorLinePrimitive { exposure, ..self }),
    {
        VectorLinePrimitive { exposure, ..self }
    }

    pub fn with_width(self, width: MacroDecimal) -> (line: Self)
        ensures
            line == (VectorLinePrimitive { width, ..self }),
    {
        VectorLinePrimitive { width, ..self }
    }

    pub fn with_angle(self, angle: MacroDecimal) -> (line: Self)
        ensures
            line == (VectorLinePrimitive { angle, ..self }),
    {
        VectorLinePrimitive { angle, ..self }
    }

    /// The code of the line: `20`, the exposure, the width, the two coordinates of the start,
    /// the two of the end, and the angle, separated by commas and closed by `*`.
    #[verifier::opaque]
    pub open spec fn text(&self) -> Seq<char> {
        "20,"@ + exposure_text(self.exposure) + ","@ + self.width.text() + ","@
            + self.start.0.text() + ","@ + self.start.1.text() + ","@ + self.end.0.text()
            + ","@ + self.end.1.text() + ","@ + self.angle.text() + "*"@
    }
}

/// A vector line renders as the code `20`, the exposure, the width, the two coordinates of
/// the start, the two of the end, and the angle, separated by commas and closed by `*`.
impl PartialGerberCode for VectorLinePrimitive {
    open spec fn partial_supported(&self) -> bool {
        true
    }

    fn is_partial_supported(&self) -> (supported: bool) {
        true
    }

    open spec fn partial_code(&self) -> Rendering {
        Rendering::ok(self.text())
    }

    fn serialize_partial(&self, writer: &mut String) -> (result: GerberResult<()>) {
        proof {
            reveal(VectorLinePrimitive::text);
        }
        let mut line = String::from_str("20,");
        self.exposure.serialize_partial(&mut line)?;
        line.append(",");
        self.width.serialize_partial(&mut line)?;
        line.append(",");
        self.start.0.serialize_partial(&mut line)?;
        line.append(",");
        self.start.1.serialize_partial(&mut line)?;
        line.append(",");
        self.end.0.serialize_partial(&mut line)?;
        line.append(",");
        self.end.1.serialize_partial(&mut line)?;
        line.append(",");
        self.angle.serialize_partial(&mut line)?;
        line.append("*");
        writer.append(line.as_str());
        Ok(())
    }
}

#[derive(Debug, PartialEq)]
pub struct CenterLinePrimitive {
    /// Exposure off/on (0/1)
    pub exposure: bool,
    /// Rectangle dimensions (width/height)
    pub dimensions: (MacroDecimal, MacroDecimal),
    /// X and Y coordinates of center point, decimals
    pub center: (MacroDecimal, MacroDecimal),
    /// Rotation angle, in degrees, around the origin of the macro definition: the point
    /// (0, 0) of the macro coordinates.
    pub angle: MacroDecimal,
}

impl Clone for CenterLinePrimitive {
    fn clone(&self) -> (line: Self)
        ensures
            line == *self,
    {
        CenterLinePrimitive {
            exposure: self.exposure,
            dimensions: (self.dimensions.0.clone(), self.dimensions.1.clone()),
            center: (self.center.0.clone(), self.center.1.clone()),
            angle: self.angle.clone(),
        }
    }
}

impl CenterLinePrimitive {
    pub fn new(dimensions: (MacroDecimal, MacroDecimal)) -> (line: Self)
        ensures
            line.exposure,
            line.dimensions == dimensions,
            is_zero_value(line.center.0),
            is_zero_value(line.center.1),
            is_zero_value(line.angle),
    {
        CenterLinePrimitive {
            exposure: true,
            dimensions,
            center: (zero_value(), zero_value()),
            angle: zero_value(),
        }
    }

    pub fn exposure_on(self, exposure: bool) -> (line: Self)
        ensures
            line == (CenterLinePrimitive { exposure, ..self }),
    {
        CenterLinePrimitive { exposure, ..self }
    }

    pub fn centered_at(self, center: (MacroDecimal, MacroDecimal)) -> (line: Self)
        ensures
            line == (CenterLinePrimitive { center, ..self }),
    {
        CenterLinePrimitive { center, ..self }
    }

    pub fn with_angle(self, angle: MacroDecimal) -> (line: Self)
        ensures
            line == (CenterLinePrimitive { angle, ..self }),
    {
        CenterLinePrimitive { angle, ..self }
    }

    /// The code of the line: `21`, the exposure, the width and the height, the two coordinates
    /// of the center, and the angle, separated by commas and closed by `*`.
    #[verifier::opaque]
    pub open spec fn text(&self) -> Seq<char> {
        "21,"@ + exposure_text(self.exposure) + ","@ + self.dimensions.0.text() + ","@
            + self.dimensions.1.text() + ","@ + self.center.0.text() + ","@
            + self.center.1.text() + ","@ + self.angle.text() + "*"@
    }
}

/// A center line renders as the code `21`, the exposure, the width and the height, the two
/// coordinates of the center, and the angle, separated by commas and closed by `*`.
impl PartialGerberCode for CenterLinePrimitive {
    open spec fn partial_supported(&self) -> bool {
        true
    }

    fn is_partial_supported(&self) -> (supported: bool) {
        true
    }

    open spec fn partial_code(&self) -> Rendering {
        Rendering::ok(self.text())
    }

    fn serialize_partial(&self, writer: &mut String) -> (result: GerberResult<()>) {
        proof {
            reveal(CenterLinePrimitive::text);
        }
        let mut line = String::from_str("21,");
        self.exposure.serialize_partial(&mut line)?;
        line.append(",");
        self.dimensions.0.serialize_partial(&mut line)?;
        line.append(",");
        self.dimensions.1.serialize_partial(&mut line)?;
        line.append(",");
        self.center.0.serialize_partial(&mut line)?;
        line.append(",");
        self.center.1.serialize_partial(&mut line)?;
        line.append(",");
        self.angle.serialize_partial(&mut line)?;
        line.append("*");
        writer.append(line.as_str());
        Ok(())
    }
}

/// The largest number of points of an outline: one more than its 5000 segments at most.
pub const MAX_OUTLINE_POINTS: usize = 5001;

#[derive(Debug, Clone, PartialEq)]
pub struct OutlinePrimitive {
    /// Exposure off/on (0/1)
    pub exposure: bool,
    /// The points of the outline, each a pair of coordinates. The last point must be equal
    /// to the first.
    pub points: Vec<(MacroDecimal, MacroDecimal)>,
    /// Rotation angle, in degrees, around the origin of the macro definition: the point
    /// (0, 0) of the macro coordinates.
    pub angle: MacroDecimal,
}

/// The text of the points of an outline: for each point its two coordinates, each followed
/// by a comma, and a newline.
pub open spec fn points_text(points: Seq<(MacroDecimal, MacroDecimal)>) -> Seq<char>
    decreases points.len(),
{
    if points.len() == 0 {
        Seq::empty()
    } else {
        points_text(points.drop_last()) + points.last().0.text() + ","@ + points.last().1.text()
            + ",\n"@
    }
}

impl OutlinePrimitive {
    pub fn new() -> (outline: Self)
        ensures
            outline.exposure,
            outline.points@ == Seq::<(MacroDecimal, MacroDecimal)>::empty(),
            is_zero_value(outline.angle),
    {
        OutlinePrimitive { exposure: true, points: Vec::new(), angle: zero_value() }
    }

    pub fn from_points(points: Vec<(MacroDecimal, MacroDecimal)>) -> (outline: Self)
        ensures
            outline.exposure,
            outline.points == points,
            is_zero_value(outline.angle),
    {
        OutlinePrimitive { exposure: true, points, angle: zero_value() }
    }

    pub fn add_point(self, point: (MacroDecimal, MacroDecimal)) -> (outline: Self)
        ensures
            outline.exposure == self.exposure,
            outline.points@ == self.points@.push(point),
            outline.angle == self.angle,
    {
        let mut outline = self;
        outline.points.push(point);
        outline
    }

    pub fn with_angle(self, angle: MacroDecimal) -> (outline: Self)
        ensures
            outline == (OutlinePrimitive { angle, ..self }),
    {
        OutlinePrimitive { angle, ..self }
    }

    /// What is wrong with the points of the outline, if anything is: fewer than two points is
    /// missing data; more than 5001, or a last point that differs from the first, is out of
    /// range.
    pub open spec fn violation(&self) -> Option<ErrorKind> {
        if self.points@.len() < 2 {
            Some(ErrorKind::MissingData)
        } else if self.points@.len() > MAX_OUTLINE_POINTS {
            Some(ErrorKind::Range)
        } else if !same_point(self.points@[0], self.points@.last()) {
            Some(ErrorKind::Range)
        } else {
            None
        }
    }

    /// The code of the outline: `4`, the exposure and the number of segments, which is one
    /// less than that of the points, then on a line of its own each point, then the angle,
    /// closed by `*`.
    #[verifier::opaque]
    pub open spec fn text(&self) -> Seq<char> {
        "4,"@ + exposure_text(self.exposure) + ","@ + integer_text(self.points@.len() - 1)
            + ",\n"@ + points_text(self.points@) + self.angle.text() + "*"@
    }
}

/// An outline that breaks no rule renders as the code `4`, the exposure and the number of
/// its segments, which is one less than that of its points, then on a line of its own each
/// point, then the angle, closed by `*`. One that breaks a rule fails before anything is
/// written.
impl PartialGerberCode for OutlinePrimitive {
    open spec fn partial_supported(&self) -> bool {
        true
    }

    fn is_partial_supported(&self) -> (supported: bool) {
        true
    }

    open spec fn partial_code(&self) -> Rendering {
        match self.violation() {
            Some(kind) => Rendering::fail(kind),
            None => Rendering::ok(self.text()),
        }
    }

    fn serialize_partial(&self, writer: &mut String) -> (result: GerberResult<()>) {
        let count: usize = self.points.len();
        if count < 2 {
            return Err(
                GerberError::MissingDataError(
                    String::from_str("There must be at least 1 subsequent point in an outline"),
                ),
            );
        }
        if count > MAX_OUTLINE_POINTS {
            return Err(
                GerberError::RangeError(
                    String::from_str(
                        "The maximum number of subsequent points in an outline is 5000",
                    ),
                ),
            );
        }
        let first = &self.points[0];
        let last = &self.points[count - 1];
        if !(first.0 == last.0 && first.1 == last.1) {
            return Err(
                GerberError::RangeError(
                    String::from_str("The last point must be equal to the first point"),
                ),
            );
        }
        proof {
            reveal(OutlinePrimitive::text);
        }
        let mut line = String::from_str("4,");
        self.exposure.serialize_partial(&mut line)?;
        line.append(",");
        write_unsigned(&mut line, (count - 1) as u64);
        line.append(",\n");
        let ghost head = line@;
        let mut i: usize = 0;
        while i < count
            invariant
                i <= count,
                count == self.points@.len(),
                line@ =~= head + points_text(self.points@.take(i as int)),
            decreases count - i,
        {
            let point = &self.points[i];
            point.0.serialize_partial(&mut line)?;
            line.append(",");
            point.1.serialize_partial(&mut line)?;
            line.append(",\n");
            proof {
                assert(self.points@.take(i + 1).drop_last() =~= self.points@.take(i as int));
                assert(self.points@.take(i + 1).last() == self.points@[i as int]);
            }
            i = i + 1;
        }
        proof {
            assert(self.points@.take(count as int) =~= self.points@);
        }
        self.angle.serialize_partial(&mut line)?;
        line.append("*");
        writer.append(line.as_str());
        Ok(())
    }
}

/// A polygon primitive is a regular polygon defined by the number of vertices, the center
/// point and the diameter of the circumscribed circle.
#[derive(Debug, PartialEq)]
pub struct PolygonPrimitive {
    /// Exposure off/on (0/1)
    pub exposure: bool,
    /// Number of vertices n, 3 <= n <= 12
    pub vertices: u8,
    /// X and Y coordinates of center point, decimals
    pub center: (MacroDecimal, MacroDecimal),
    /// Diameter of the circumscribed circle, a decimal >= 0
    pub diameter: MacroDecimal,
    /// Rotation angle, in degrees, around the origin of the macro definition: the point
    /// (0, 0) of the macro coordinates. With an angle of zero the first vertex lies on the
    /// positive X axis through the center.
    ///
    /// A rotation is only allowed where the center of the primitive is the origin of the
    /// macro definition.
    pub angle: MacroDecimal,
}

impl Clone for PolygonPrimitive {
    fn clone(&self) -> (polygon: Self)
        ensures
            polygon == *self,
    {
        PolygonPrimitive {
            exposure: self.exposure,
            vertices: self.vertices,
            center: (self.center.0.clone(), self.center.1.clone()),
            diameter: self.diameter.clone(),
            angle: self.angle.clone(),
        }
    }
}

impl PolygonPrimitive {
    pub fn new(vertices: u8) -> (polygon: Self)
        ensures
            polygon.exposure,
            polygon.vertices == vertices,
            is_zero_value(polygon.center.0),
            is_zero_value(polygon.center.1),
            is_zero_value(polygon.diameter),
            is_zero_value(polygon.angle),
    {
        PolygonPrimitive {
            exposure: true,
            vertices,
            center: (zero_value(), zero_value()),
            diameter: zero_value(),
            angle: zero_value(),
        }
    }

    pub fn exposure_on(self, exposure: bool) -> (polygon: Self)
        ensures
            polygon == (PolygonPrimitive { exposure, ..self }),
    {
        PolygonPrimitive { exposure, ..self }
    }

    pub fn centered_at(self, center: (MacroDecimal, MacroDecimal)) -> (polygon: Self)
        ensures
            polygon == (PolygonPrimitive { center, ..self }),
    {
        PolygonPrimitive { center, ..self }
    }

    pub fn with_diameter(self, diameter: MacroDecimal) -> (polygon: Self)
        ensures
            polygon == (PolygonPrimitive { diameter, ..self }),
    {
        PolygonPrimitive { diameter, ..self }
    }

    pub fn with_angle(self, angle: MacroDecimal) -> (polygon: Self)
        ensures
            polygon == (PolygonPrimitive { angle, ..self }),
    {
        PolygonPrimitive { angle, ..self }
    }

    /// What is wrong with the polygon, if anything is: fewer than three vertices is missing
    /// data; more than twelve, or a negative diameter, is out of range.
    pub open spec fn violation(&self) -> Option<ErrorKind> {
        if self.vertices < 3 {
            Some(ErrorKind::MissingData)
        } else if self.vertices > 12 {
            Some(ErrorKind::Range)
        } else if self.diameter.is_negative() {
            Some(ErrorKind::Range)
        } else {
            None
        }
    }

    /// The code of the polygon: `5`, the exposure, the number of vertices, the two coordinates
    /// of the center, the diameter and the angle, separated by commas and closed by `*`.
    #[verifier::opaque]
    pub open spec fn text(&self) -> Seq<char> {
        "5,"@ + exposure_text(self.exposure) + ","@ + integer_text(self.vertices as int)
            + ","@ + self.center.0.text() + ","@ + self.center.1.text() + ","@
            + self.diameter.text() + ","@ + self.angle.text() + "*"@
    }
}

/// A polygon that breaks no rule renders as the code `5`, the exposure, the number of
/// vertices, the two coordinates of the center, the diameter and the angle, separated by
/// commas and closed by `*`. One that breaks a rule fails before anything is written.
impl PartialGerberCode for PolygonPrimitive {
    open spec fn partial_supported(&self) -> bool {
        true
    }

    fn is_partial_supported(&self) -> (supported: bool) {
        true
    }

    open spec fn partial_code(&self) -> Rendering {
        match self.violation() {
            Some(kind) => Rendering::fail(kind),
            None => Rendering::ok(self.text()),
        }
    }

    fn serialize_partial(&self, writer: &mut String) -> (result: GerberResult<()>) {
        if self.vertices < 3 {
            return Err(
                GerberError::MissingDataError(
                    String::from_str("There must be at least 3 vertices in a polygon"),
                ),
            );
        }
        if self.vertices > 12 {
            return Err(
                GerberError::RangeError(
                    String::from_str("The maximum number of vertices in a polygon is 12"),
                ),
            );
        }
        if self.diameter.is_negative() {
            return Err(
                GerberError::RangeError(String::from_str("The diameter must not be negative")),
            );
        }
        proof {
            reveal(PolygonPrimitive::text);
        }
        let mut line = String::from_str("5,");
        self.exposure.serialize_partial(&mut line)?;
        line.append(",");
        write_unsigned(&mut line, self.vertices as u64);
        line.append(",");
        self.center.0.serialize_partial(&mut line)?;
        line.append(",");
        self.center.1.serialize_partial(&mut line)?;
        line.append(",");
        self.diameter.serialize_partial(&mut line)?;
        line.append(",");
        self.angle.serialize_partial(&mut line)?;
        line.append("*");
        writer.append(line.as_str());
        Ok(())
    }
}

/// The moiré primitive is a cross hair centered on concentric rings (annuli).
/// Exposure is always on.
#[derive(Debug, PartialEq)]
pub struct MoirePrimitive {
    /// X and Y coordinates of center point, decimals
    pub center: (MacroDecimal, MacroDecimal),
    /// Outer diameter of outer concentric ring, a decimal >= 0
    pub diameter: MacroDecimal,
    /// Ring thickness, a decimal >= 0
    pub ring_thickness: MacroDecimal,
    /// Gap between rings, a decimal >= 0
    pub gap: MacroDecimal,
    /// Maximum number of rings
    pub max_rings: u32,
    /// Cross hair thickness, a decimal >= 0
    pub cross_hair_thickness: MacroDecimal,
    /// Cross hair length, a decimal >= 0
    pub cross_hair_length: MacroDecimal,
    /// Rotation angle, in degrees, around the origin of the macro definition: the point
    /// (0, 0) of the macro coordinates.
    ///
    /// A rotation is only allowed where the center of the primitive is the origin of the
    /// macro definition.
    pub angle: MacroDecimal,
}

impl Clone for MoirePrimitive {
    fn clone(&self) -> (moire: Self)
        ensures
            moire == *self,
    {
        MoirePrimitive {
            center: (self.center.0.clone(), self.center.1.clone()),
            diameter: self.diameter.clone(),
            ring_thickness: self.ring_thickness.clone(),
            gap: self.gap.clone(),
            max_rings: self.max_rings,
            cross_hair_thickness: self.cross_hair_thickness.clone(),
            cross_hair_length: self.cross_hair_length.clone(),
            angle: self.angle.clone(),
        }
    }
}

impl MoirePrimitive {
    pub fn new() -> (moire: Self)
        ensures
            is_zero_value(moire.center.0),
            is_zero_value(moire.center.1),
            is_zero_value(moire.diameter),
            is_zero_value(moire.ring_thickness),
            is_zero_value(moire.gap),
            moire.max_rings == 1,
            is_zero_value(moire.cross_hair_thickness),
            is_zero_value(moire.cross_hair_length),
            is_zero_value(moire.angle),
    {
        MoirePrimitive {
            center: (zero_value(), zero_value()),
            diameter: zero_value(),
            ring_thickness: zero_value(),
            gap: zero_value(),
            max_rings: 1,
            cross_hair_thickness: zero_value(),
            cross_hair_length: zero_value(),
            angle: zero_value(),
        }
    }

    pub fn centered_at(self, center: (MacroDecimal, MacroDecimal)) -> (moire: Self)
        ensures
            moire == (MoirePrimitive { center, ..self }),
    {
        MoirePrimitive { center, ..self }
    }

    pub fn with_diameter(self, diameter: MacroDecimal) -> (moire: Self)
        ensures
            moire == (MoirePrimitive { diameter, ..self }),
    {
        MoirePrimitive { diameter, ..self }
    }

    pub fn with_rings_max(self, max_rings: u32) -> (moire: Self)
        ensures
            moire == (MoirePrimitive { max_rings, ..self }),
    {
        MoirePrimitive { max_rings, ..self }
    }

    pub fn with_ring_thickness(self, thickness: MacroDecimal) -> (moire: Self)
        ensures
            moire == (MoirePrimitive { ring_thickness: thickness, ..self }),
    {
        MoirePrimitive { ring_thickness: thickness, ..self }
    }

    pub fn with_gap(self, gap: MacroDecimal) -> (moire: Self)
        ensures
            moire == (MoirePrimitive { gap, ..self }),
    {
        MoirePrimitive { gap, ..self }
    }

    pub fn with_cross_thickness(self, thickness: MacroDecimal) -> (moire: Self)
        ensures
            moire == (MoirePrimitive { cross_hair_thickness: thickness, ..self }),
    {
        MoirePrimitive { cross_hair_thickness: thickness, ..self }
    }

    pub fn with_cross_length(self, length: MacroDecimal) -> (moire: Self)
        ensures
            moire == (MoirePrimitive { cross_hair_length: length, ..self }),
    {
        MoirePrimitive { cross_hair_length: length, ..self }
    }

    pub fn with_angle(self, angle: MacroDecimal) -> (moire: Self)
        ensures
            moire == (MoirePrimitive { angle, ..self }),
    {
        MoirePrimitive { angle, ..self }
    }

    /// What is wrong with the moiré, if anything is: a negative diameter, ring thickness,
    /// gap, cross hair thickness or cross hair length is out of range.
    pub open spec fn violation(&self) -> Option<ErrorKind> {
        if self.diameter.is_negative() || self.ring_thickness.is_negative()
            || self.gap.is_negative() || self.cross_hair_thickness.is_negative()
            || self.cross_hair_length.is_negative() {
            Some(ErrorKind::Range)
        } else {
            None
        }
    }

    /// The code of the moiré: `6`, the two coordinates of the center, the diameter, the ring
    /// thickness, the gap, the number of rings, the thickness and the length of the cross
    /// hair, and the angle, separated by commas and closed by `*`.
    #[verifier::opaque]
    pub open spec fn text(&self) -> Seq<char> {
        "6,"@ + self.center.0.text() + ","@ + self.center.1.text() + ","@
            + self.diameter.text() + ","@ + self.ring_thickness.text() + ","@
            + self.gap.text() + ","@ + integer_text(self.max_rings as int) + ","@
            + self.cross_hair_thickness.text() + ","@ + self.cross_hair_length.text()
            + ","@ + self.angle.text() + "*"@
    }
}

/// A moiré that breaks no rule renders as the code `6`, the two coordinates of the center,
/// the diameter, the ring thickness, the gap, the number of rings, the thickness and the
/// length of the cross hair, and the angle, separated by commas and closed by `*`. One that
/// breaks a rule fails before anything is written.
impl PartialGerberCode for MoirePrimitive {
    open spec fn partial_supported(&self) -> bool {
        true
    }

    fn is_partial_supported(&self) -> (supported: bool) {
        true
    }

    open spec fn partial_code(&self) -> Rendering {
        match self.violation() {
            Some(kind) => Rendering::fail(kind),
            None => Rendering::ok(self.text()),
        }
    }

    fn serialize_partial(&self, writer: &mut String) -> (result: GerberResult<()>) {
        if self.diameter.is_negative() {
            return Err(
                GerberError::RangeError(
                    String::from_str("Outer diameter of a moiré may not be negative"),
                ),
            );
        }
        if self.ring_thickness.is_negative() {
            return Err(
                GerberError::RangeError(
                    String::from_str("Ring thickness of a moiré may not be negative"),
                ),
            );
        }
        if self.gap.is_negative() {
            return Err(
                GerberError::RangeError(String::from_str("Gap of a moiré may not be negative")),
            );
        }
        if self.cross_hair_thickness.is_negative() {
            return Err(
                GerberError::RangeError(
                    String::from_str("Cross hair thickness of a moiré may not be negative"),
                ),
            );
        }
        if self.cross_hair_length.is_negative() {
            return Err(
                GerberError::RangeError(
                    String::from_str("Cross hair length of a moiré may not be negative"),
                ),
            );
        }
        proof {
            reveal(MoirePrimitive::text);
        }
        let mut line = String::from_str("6,");
        self.center.0.serialize_partial(&mut line)?;
        line.append(",");
        self.center.1.serialize_partial(&mut line)?;
        line.append(",");
        self.diameter.serialize_partial(&mut line)?;
        line.append(",");
        self.ring_thickness.serialize_partial(&mut line)?;
        line.append(",");
        self.gap.serialize_partial(&mut line)?;
        line.append(",");
        write_unsigned(&mut line, self.max_rings as u64);
        line.append(",");
        self.cross_hair_thickness.serialize_partial(&mut line)?;
        line.append(",");
        self.cross_hair_length.serialize_partial(&mut line)?;
        line.append(",");
        self.angle.serialize_partial(&mut line)?;
        line.append("*");
        writer.append(line.as_str());
        Ok(())
    }
}

/// The thermal primitive is a ring (annulus) interrupted by four gaps.
/// Exposure is always on.
#[derive(Debug, PartialEq)]
pub struct ThermalPrimitive {
    /// X and Y coordinates of center point, decimals
    pub center: (MacroDecimal, MacroDecimal),
    /// Outer diameter, a decimal > inner diameter
    pub outer_diameter: MacroDecimal,
    /// Inner diameter, a decimal >= 0
    pub inner_diameter: MacroDecimal,
    /// Gap thickness, a decimal < (outer diameter) / sqrt(2)
    pub gap: MacroDecimal,
    /// Rotation angle, in degrees, around the origin of the macro definition: the point
    /// (0, 0) of the macro coordinates. With an angle of zero the gaps lie on the X and Y
    /// axes through the center.
    ///
    /// A rotation is only allowed where the center of the primitive is the origin of the
    /// macro definition.
    pub angle: MacroDecimal,
}

impl Clone for ThermalPrimitive {
    fn clone(&self) -> (thermal: Self)
        ensures
            thermal == *self,
    {
        ThermalPrimitive {
            center: (self.center.0.clone(), self.center.1.clone()),
            outer_diameter: self.outer_diameter.clone(),
            inner_diameter: self.inner_diameter.clone(),
            gap: self.gap.clone(),
            angle: self.angle.clone(),
        }
    }
}

impl ThermalPrimitive {
    pub fn new(inner: MacroDecimal, outer: MacroDecimal, gap: MacroDecimal) -> (thermal: Self)
        ensures
            is_zero_value(thermal.center.0),
            is_zero_value(thermal.center.1),
            thermal.outer_diameter == outer,
            thermal.inner_diameter == inner,
            thermal.gap == gap,
            is_zero_value(thermal.angle),
    {
        ThermalPrimitive {
            center: (zero_value(), zero_value()),
            outer_diameter: outer,
            inner_diameter: inner,
            gap,
            angle: zero_value(),
        }
    }

    pub fn centered_at(self, center: (MacroDecimal, MacroDecimal)) -> (thermal: Self)
        ensures
            thermal == (ThermalPrimitive { center, ..self }),
    {
        ThermalPrimitive { center, ..self }
    }

    pub fn with_angle(self, angle: MacroDecimal) -> (thermal: Self)
        ensures
            thermal == (ThermalPrimitive { angle, ..self }),
    {
        ThermalPrimitive { angle, ..self }
    }

    /// What is wrong with the thermal, if anything is: a negative inner diameter is out of
    /// range.
    pub open spec fn violation(&self) -> Option<ErrorKind> {
        if self.inner_diameter.is_negative() {
            Some(ErrorKind::Range)
        } else {
            None
        }
    }

    /// The code of the thermal: `7`, the two coordinates of the center, the outer and the
    /// inner diameter, the gap and the angle, separated by commas and closed by `*`.
    #[verifier::opaque]
    pub open spec fn text(&self) -> Seq<char> {
        "7,"@ + self.center.0.text() + ","@ + self.center.1.text() + ","@
            + self.outer_diameter.text() + ","@ + self.inner_diameter.text() + ","@
            + self.gap.text() + ","@ + self.angle.text() + "*"@
    }
}

/// A thermal that breaks no rule renders as the code `7`, the two coordinates of the center,
/// the outer and the inner diameter, the gap and the angle, separated by commas and closed by
/// `*`. One that breaks a rule fails before anything is written.
impl PartialGerberCode for ThermalPrimitive {
    open spec fn partial_supported(&self) -> bool {
        true
    }

    fn is_partial_supported(&self) -> (supported: bool) {
        true
    }

    open spec fn partial_code(&self) -> Rendering {
        match self.violation() {
            Some(kind) => Rendering::fail(kind),
            None => Rendering::ok(self.text()),
        }
    }

    fn serialize_partial(&self, writer: &mut String) -> (result: GerberResult<()>) {
        if self.inner_diameter.is_negative() {
            return Err(
                GerberError::RangeError(
                    String::from_str("Inner diameter of a thermal may not be negative"),
                ),
            );
        }
        proof {
            reveal(ThermalPrimitive::text);
        }
        let mut line = String::from_str("7,");
        self.center.0.serialize_partial(&mut line)?;
        line.append(",");
        self.center.1.serialize_partial(&mut line)?;
        line.append(",");
        self.outer_diameter.serialize_partial(&mut line)?;
        line.append(",");
        self.inner_diameter.serialize_partial(&mut line)?;
        line.append(",");
        self.gap.serialize_partial(&mut line)?;
        line.append(",");
        self.angle.serialize_partial(&mut line)?;
        line.append("*");
        writer.append(line.as_str());
        Ok(())
    }
}

/// The definition of a macro variable: its number and the expression that gives its value.
#[derive(Debug, Clone, PartialEq, Eq)]
pub struct VariableDefinition {
    pub number: u32,
    pub expression: String,
}

impl VariableDefinition {
    pub fn new(number: u32, expr: &str) -> (definition: Self)
        ensures
            definition.number == number,
            definition.expression@ == expr@,
    {
        VariableDefinition { number, expression: String::from_str(expr) }
    }
}

/// A variable definition renders as `$`, the number of the variable, `=`, the expression,
/// and `*`.
impl PartialGerberCode for VariableDefinition {
    open spec fn partial_supported(&self) -> bool {
        true
    }

    fn is_partial_supported(&self) -> (supported: bool) {
        true
    }

    open spec fn partial_code(&self) -> Rendering {
        Rendering::ok("$"@ + integer_text(self.number as int) + "="@ + self.expression@ + "*"@)
    }

    fn serialize_partial(&self, writer: &mut String) -> (result: GerberResult<()>) {
        writer.append("$");
        write_unsigned(writer, self.number as u64);
        writer.append("=");
        writer.append(self.expression.as_str());
        writer.append("*");
        Ok(())
    }
}

/// An item of the body of an aperture macro.
#[derive(Debug, Clone, PartialEq)]
pub enum MacroContent {
    // Primitives
    Circle(CirclePrimitive),
    VectorLine(VectorLinePrimitive),
    CenterLine(CenterLinePrimitive),
    Outline(OutlinePrimitive),
    Polygon(PolygonPrimitive),
    Moire(MoirePrimitive),
    Thermal(ThermalPrimitive),
    // Variables
    VariableDefinition(VariableDefinition),
    // Comment
    Comment(String),
}

/// A primitive and a variable definition render as themselves, a comment as `0 `, its text
/// and `*`.
impl PartialGerberCode for MacroContent {
    open spec fn partial_supported(&self) -> bool {
        true
    }

    fn is_partial_supported(&self) -> (supported: bool) {
        true
    }

    open spec fn partial_code(&self) -> Rendering {
        match self {
            MacroContent::Circle(c) => c.partial_code(),
            MacroContent::VectorLine(vl) => vl.partial_code(),
            MacroContent::CenterLine(cl) => cl.partial_code(),
            MacroContent::Outline(o) => o.partial_code(),
            MacroContent::Polygon(p) => p.partial_code(),
            MacroContent::Moire(m) => m.partial_code(),
            MacroContent::Thermal(t) => t.partial_code(),
            MacroContent::Comment(s) => Rendering::ok("0 "@ + s@ + "*"@),
            MacroContent::VariableDefinition(v) => v.partial_code(),
        }
    }

    fn serialize_partial(&self, writer: &mut String) -> (result: GerberResult<()>) {
        match self {
            MacroContent::Circle(c) => c.serialize_partial(writer),
            MacroContent::VectorLine(vl) => vl.serialize_partial(writer),
            MacroContent::CenterLine(cl) => cl.serialize_partial(writer),
            MacroContent::Outline(o) => o.serialize_partial(writer),
            MacroContent::Polygon(p) => p.serialize_partial(writer),
            MacroContent::Moire(m) => m.serialize_partial(writer),
            MacroContent::Thermal(t) => t.serialize_partial(writer),
            MacroContent::Comment(s) => {
                writer.append("0 ");
                writer.append(s.as_str());
                writer.append("*");
                Ok(())
            },
            MacroContent::VariableDefinition(v) => v.serialize_partial(writer),
        }
    }
}

impl From<CirclePrimitive> for MacroContent {
    fn from(val: CirclePrimitive) -> (content: MacroContent) {
        MacroContent::Circle(val)
    }
}

impl FromSpecImpl<CirclePrimitive> for MacroContent {
    open spec fn obeys_from_spec() -> bool {
        true
    }

    open spec fn from_spec(val: CirclePrimitive) -> MacroContent {
        MacroContent::Circle(val)
    }
}

impl From<VectorLinePrimitive> for MacroContent {
    fn from(val: VectorLinePrimitive) -> (content: MacroContent) {
        MacroContent::VectorLine(val)
    }
}

impl FromSpecImpl<VectorLinePrimitive> for MacroContent {
    open spec fn obeys_from_spec() -> bool {
        true
    }

    open spec fn from_spec(val: VectorLinePrimitive) -> MacroContent {
        MacroContent::VectorLine(val)
    }
}

impl From<CenterLinePrimitive> for MacroContent {
    fn from(val: CenterLinePrimitive) -> (content: MacroContent) {
        MacroContent::CenterLine(val)
    }
}

impl FromSpecImpl<CenterLinePrimitive> for MacroContent {
    open spec fn obeys_from_spec() -> bool {
        true
    }

    open spec fn from_spec(val: CenterLinePrimitive) -> MacroContent {
        MacroContent::CenterLine(val)
    }
}

impl From<OutlinePrimitive> for MacroContent {
    fn from(val: OutlinePrimitive) -> (content: MacroContent) {
        MacroContent::Outline(val)
    }
}

impl FromSpecImpl<OutlinePrimitive> for MacroContent {
    open spec fn obeys_from_spec() -> bool {
        true
    }

    open spec fn from_spec(val: OutlinePrimitive) -> MacroContent {
        MacroContent::Outline(val)
    }
}

impl From<PolygonPrimitive> for MacroContent {
    fn from(val: PolygonPrimitive) -> (content: MacroContent) {
        MacroContent::Polygon(val)
    }
}

impl FromSpecImpl<PolygonPrimitive> for MacroContent {
    open spec fn obeys_from_spec() -> bool {
        true
    }

    open spec fn from_spec(val: PolygonPrimitive) -> MacroContent {
        MacroContent::Polygon(val)
    }
}

impl From<MoirePrimitive> for MacroContent {
    fn from(val: MoirePrimitive) -> (content: MacroContent) {
        MacroContent::Moire(val)
    }
}

impl FromSpecImpl<MoirePrimitive> for MacroContent {
    open spec fn obeys_from_spec() -> bool {
        true
    }

    open spec fn from_spec(val: MoirePrimitive) -> MacroContent {
        MacroContent::Moire(val)
    }
}

impl From<ThermalPrimitive> for MacroContent {
    fn from(val: ThermalPrimitive) -> (content: MacroContent) {
        MacroContent::Thermal(val)
    }
}

impl FromSpecImpl<ThermalPrimitive> for MacroContent {
    open spec fn obeys_from_spec() -> bool {
        true
    }

    open spec fn from_spec(val: ThermalPrimitive) -> MacroContent {
        MacroContent::Thermal(val)
    }
}

impl From<VariableDefinition> for MacroContent {
    fn from(val: VariableDefinition) -> (content: MacroContent) {
        MacroContent::VariableDefinition(val)
    }
}

impl FromSpecImpl<VariableDefinition> for MacroContent {
    open spec fn obeys_from_spec() -> bool {
        true
    }

    open spec fn from_spec(val: VariableDefinition) -> MacroContent {
        MacroContent::VariableDefinition(val)
    }
}

/// Text becomes a comment.
impl<T: Into<String>> From<T> for MacroContent {
    fn from(val: T) -> (content: MacroContent) {
        MacroContent::Comment(val.into())
    }
}

impl<T: Into<String>> FromSpecImpl<T> for MacroContent {
    open spec fn obeys_from_spec() -> bool {
        T::obeys_into_spec()
    }

    open spec fn from_spec(val: T) -> MacroContent {
        MacroContent::Comment(val.into_spec())
    }
}

#[derive(Debug, Clone, PartialEq)]
pub struct ApertureMacro {
    pub name: String,
    pub content: Vec<MacroContent>,
}

/// The render of the body of a macro: the items in order, a newline between one and the
/// next, up to the first that fails. The newline that precedes the failing item is written.
pub open spec fn contents_code(content: Seq<MacroContent>) -> Rendering
    decreases content.len(),
{
    if content.len() == 0 {
        Rendering::ok(Seq::empty())
    } else {
        contents_code(content.drop_last()).and_then(
            Rendering::ok(
                if content.len() == 1 {
                    Seq::empty()
                } else {
                    "\n"@
                },
            ),
        ).and_then(content.last().partial_code())
    }
}

/// Once a prefix of the body has failed, the rest of the body adds nothing.
pub proof fn lemma_contents_code_failed_prefix(content: Seq<MacroContent>, k: int)
    requires
        0 <= k <= content.len(),
        contents_code(content.take(k)).failure is Some,
    ensures
        contents_code(content) == contents_code(content.take(k)),
    decreases content.len(),
{
    if k == content.len() {
        assert(content.take(k) =~= content);
    } else {
        assert(content.drop_last().take(k) =~= content.take(k));
        lemma_contents_code_failed_prefix(content.drop_last(), k);
    }
}

impl ApertureMacro {
    pub fn new<S: Into<String>>(name: S) -> (aperture_macro: Self)
        ensures
            call_ensures(<S as Into<String>>::into, (name,), aperture_macro.name),
            S::obeys_into_spec() ==> aperture_macro.name == name.into_spec(),
            aperture_macro.content@ == Seq::<MacroContent>::empty(),
    {
        ApertureMacro { name: name.into(), content: Vec::new() }
    }

    pub fn add_content<C>(self, c: C) -> (aperture_macro: Self) where C: Into<MacroContent>
        ensures
            aperture_macro.name == self.name,
            aperture_macro.content@.len() == self.content@.len() + 1,
            aperture_macro.content@.drop_last() == self.content@,
            call_ensures(
                <C as Into<MacroContent>>::into,
                (c,),
                aperture_macro.content@.last(),
            ),
            C::obeys_into_spec() ==> aperture_macro.content@ == self.content@.push(c.into_spec()),
    {
        let mut aperture_macro = self;
        aperture_macro.content.push(c.into());
        assert(aperture_macro.content@.drop_last() =~= self.content@);
        aperture_macro
    }

    pub fn add_content_mut<C>(&mut self, c: C) where C: Into<MacroContent>
        ensures
            final(self).name == old(self).name,
            final(self).content@.len() == old(self).content@.len() + 1,
            final(self).content@.drop_last() == old(self).content@,
            call_ensures(<C as Into<MacroContent>>::into, (c,), final(self).content@.last()),
            C::obeys_into_spec() ==> final(self).content@ == old(self).content@.push(
                c.into_spec(),
            ),
    {
        self.content.push(c.into());
        assert(self.content@.drop_last() =~= old(self).content@);
    }
}

/// A macro without content fails before anything is written. Any other renders as `AM`, its
/// name and `*` on the first line, then its items, each on a line of its own, with no newline
/// after the last.
impl PartialGerberCode for ApertureMacro {
    open spec fn partial_supported(&self) -> bool {
        true
    }

    fn is_partial_supported(&self) -> (supported: bool) {
        true
    }

    open spec fn partial_code(&self) -> Rendering {
        if self.content@.len() == 0 {
            Rendering::fail(ErrorKind::MissingData)
        } else {
            Rendering::ok("AM"@ + self.name@ + "*\n"@).and_then(contents_code(self.content@))
        }
    }

    fn serialize_partial(&self, writer: &mut String) -> (result: GerberResult<()>) {
        if self.content.len() == 0 {
            return Err(
                GerberError::MissingDataError(
                    String::from_str(
                        "There must be at least 1 content element in an aperture macro",
                    ),
                ),
            );
        }
        writer.append("AM");
        writer.append(self.name.as_str());
        writer.append("*\n");
        let ghost head = writer@;
        let mut i: usize = 0;
        while i < self.content.len()
            invariant
                i <= self.content@.len(),
                head =~= old(writer)@ + "AM"@ + self.name@ + "*\n"@,
                writer@ =~= head + contents_code(self.content@.take(i as int)).text,
                contents_code(self.content@.take(i as int)).failure is None,
            decreases self.content@.len() - i,
        {
            if i > 0 {
                writer.append("\n");
            }
            let outcome = self.content[i].serialize_partial(writer);
            proof {
                assert(self.content@.take(i + 1).drop_last() =~= self.content@.take(i as int));
                assert(self.content@.take(i + 1).last() == self.content@[i as int]);
            }
            match outcome {
                Err(e) => {
                    proof {
                        lemma_contents_code_failed_prefix(self.content@, i + 1);
                    }
                    return Err(e);
                },
                Ok(()) => {},
            }
            i = i + 1;
        }
        proof {
            assert(self.content@.take(i as int) =~= self.content@);
        }
        Ok(())
    }
}

/// An outline of fewer than two points fails for want of data, and one of two to 5001 points
/// whose last point differs from its first fails as out of range. Neither writes anything.
pub proof fn lemma_outline_failures(outline: OutlinePrimitive)
    ensures
        outline.points@.len() < 2 ==> outline.partial_code() == Rendering::fail(
            ErrorKind::MissingData,
        ),
        2 <= outline.points@.len() <= MAX_OUTLINE_POINTS && !same_point(
            outline.points@[0],
            outline.points@.last(),
        ) ==> outline.partial_code() == Rendering::fail(ErrorKind::Range),
        outline.points@.len() > MAX_OUTLINE_POINTS ==> outline.partial_code() == Rendering::fail(
            ErrorKind::Range,
        ),
{
}

/// A polygon of fewer than three vertices fails for want of data, and one of more than
/// twelve fails as out of range. One of three to twelve vertices renders, unless its diameter
/// is a negative value.
pub proof fn lemma_polygon_vertices(polygon: PolygonPrimitive)
    ensures
        polygon.vertices < 3 ==> polygon.partial_code() == Rendering::fail(ErrorKind::MissingData),
        polygon.vertices > 12 ==> polygon.partial_code() == Rendering::fail(ErrorKind::Range),
        3 <= polygon.vertices <= 12 && !polygon.diameter.is_negative() ==> polygon.partial_code()
            == Rendering::ok(polygon.text()),
{
}

/// A macro without content fails for want of data and writes nothing. A macro of one item
/// that renders is `AM`, the name, `*`, a newline and the item, with no newline at the end.
pub proof fn lemma_macro_of_one_item(aperture_macro: ApertureMacro)
    ensures
        aperture_macro.content@.len() == 0 ==> aperture_macro.partial_code() == Rendering::fail(
            ErrorKind::MissingData,
        ),
        aperture_macro.content@.len() == 1 && aperture_macro.content@[0].partial_code().failure
            is None ==> aperture_macro.partial_code() == Rendering::ok(
            "AM"@ + aperture_macro.name@ + "*\n"@ + aperture_macro.content@[0].partial_code().text,
        ),
{
    let content = aperture_macro.content@;
    if content.len() == 1 {
        let item = content[0].partial_code();
        assert(content.drop_last() =~= Seq::<MacroContent>::empty());
        assert(contents_code(content.drop_last()) == Rendering::ok(Seq::<char>::empty()));
        assert(Seq::<char>::empty() + Seq::<char>::empty() + item.text =~= item.text);
        if item.failure is None {
            assert(contents_code(content) == Rendering::ok(item.text));
        }
    }
}

/// A macro fails for want of data or as out of range, and in no other way.
pub proof fn lemma_macro_failure_kinds(aperture_macro: ApertureMacro)
    ensures
        aperture_macro.partial_code().failure matches Some(kind) ==> kind == ErrorKind::MissingData
            || kind == ErrorKind::Range,
{
    lemma_contents_failure_kinds(aperture_macro.content@);
}

/// The body of a macro fails for want of data or as out of range, and in no other way.
pub proof fn lemma_contents_failure_kinds(content: Seq<MacroContent>)
    ensures
        contents_code(content).failure matches Some(kind) ==> kind == ErrorKind::MissingData
            || kind == ErrorKind::Range,
    decreases content.len(),
{
    if content.len() > 0 {
        lemma_contents_failure_kinds(content.drop_last());
    }
}

} // verus!
