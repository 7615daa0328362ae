use gerber_types::{
    Aperture, ApertureDefinition, Circle, Decimal, PartialGerberCode, Polarity, Polygon,
    Rectangular, StepAndRepeat, Unit,
};

fn partial_code<T: PartialGerberCode>(obj: &T) -> String {
    let mut code = String::new();
    obj.serialize_partial(&mut code)
        .expect("Could not generate Gerber code");
    code
}

fn dec(value: f64) -> Decimal {
    Decimal::parse(&format!("{}", value)).expect("Not a decimal number")
}

#[test]
fn test_aperture_definition_new() {
    let ad1 = ApertureDefinition::new(10, Aperture::Circle(Circle::new(dec(3.0))));
    let ad2 = ApertureDefinition {
        code: 10,
        aperture: Aperture::Circle(Circle::new(dec(3.0))),
    };
    assert_eq!(ad1, ad2);
}

#[test]
fn test_rectangular_new() {
    let r1 = Rectangular::new(dec(2.0), dec(3.0));
    let r2 = Rectangular {
        x: dec(2.0),
        y: dec(3.0),
        hole_diameter: None,
    };
    assert_eq!(r1, r2);
}

#[test]
fn test_rectangular_with_hole() {
    let r1 = Rectangular::with_hole(dec(3.0), dec(2.0), dec(1.0));
    let r2 = Rectangular {
        x: dec(3.0),
        y: dec(2.0),
        hole_diameter: Some(dec(1.0)),
    };
    assert_eq!(r1, r2);
}

#[test]
fn test_circle_new() {
    let c1 = Circle::new(dec(3.0));
    let c2 = Circle {
        diameter: dec(3.0),
        hole_diameter: None,
    };
    assert_eq!(c1, c2);
}

#[test]
fn test_circle_with_hole() {
    let c1 = Circle::with_hole(dec(3.0), dec(1.0));
    let c2 = Circle {
        diameter: dec(3.0),
        hole_diameter: Some(dec(1.0)),
    };
    assert_eq!(c1, c2);
}

#[test]
fn test_polygon_new() {
    let p1 = Polygon::new(dec(3.0), 4).with_rotation(dec(45.0));
    let p2 = Polygon {
        diameter: dec(3.0),
        vertices: 4,
        rotation: Some(dec(45.0)),
        hole_diameter: None,
    };
    assert_eq!(p1, p2);
}

#[test]
fn test_polygon_with_diameter() {
    let p1 = Polygon::new(dec(3.0), 4).with_diameter(dec(4.5));
    let p2 = Polygon {
        diameter: dec(4.5),
        vertices: 4,
        rotation: None,
        hole_diameter: None,
    };
    assert_eq!(p1, p2);
    assert_eq!(partial_code(&p1), "4.5X4");
}

#[test]
fn test_shapes_partial() {
    assert_eq!(partial_code(&Circle::new(dec(0.125))), "0.125");
    assert_eq!(
        partial_code(&Circle::with_hole(dec(10.0), dec(0.5))),
        "10X0.5"
    );
    assert_eq!(
        partial_code(&Rectangular::new(dec(0.044), dec(0.025))),
        "0.044X0.025"
    );
    assert_eq!(
        partial_code(&Rectangular::with_hole(dec(0.044), dec(0.025), dec(0.019))),
        "0.044X0.025X0.019"
    );
}

#[test]
fn test_unit_and_polarity_partial() {
    assert_eq!(partial_code(&Unit::Millimeters), "MM");
    assert_eq!(partial_code(&Unit::Inches), "IN");
    assert_eq!(partial_code(&Polarity::Clear), "C");
    assert_eq!(partial_code(&Polarity::Dark), "D");
}

#[test]
fn test_step_and_repeat_partial() {
    let open = StepAndRepeat::Open {
        repeat_x: 4294967295,
        repeat_y: 1,
        distance_x: dec(5.0),
        distance_y: dec(0.125),
    };
    assert_eq!(partial_code(&open), "X4294967295Y1I5J0.125");
    assert_eq!(partial_code(&StepAndRepeat::Close), "");
}
