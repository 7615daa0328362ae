use gerber_types::MacroDecimal::{Value, Variable};
use gerber_types::{
    ApertureMacro, CenterLinePrimitive, CirclePrimitive, Decimal, ErrorKind, ExtendedCode,
    GerberCode, MacroContent, MacroDecimal, MoirePrimitive, OutlinePrimitive, PartialGerberCode,
    PolygonPrimitive, ThermalPrimitive, VariableDefinition, VectorLinePrimitive,
};

fn partial_code<T: PartialGerberCode>(obj: &T) -> String {
    let mut code = String::new();
    obj.serialize_partial(&mut code)
        .expect("Could not generate Gerber code");
    code
}

/// The kind of the failure of a render, and what it left in the sink.
fn failure<T: PartialGerberCode>(obj: &T) -> (ErrorKind, String) {
    let mut code = String::new();
    let err = obj
        .serialize_partial(&mut code)
        .expect_err("Gerber code was generated");
    (err.kind(), code)
}

fn dec(value: f64) -> Decimal {
    Decimal::parse(&format!("{}", value)).expect("Not a decimal number")
}

#[test]
fn test_circle_primitive_codegen() {
    let with_angle = CirclePrimitive {
        exposure: true,
        diameter: Value(dec(1.5)),
        center: (Value(dec(0.)), Value(dec(0.))),
        angle: Some(Value(dec(0.))),
    };
    assert_eq!(partial_code(&with_angle), "1,1,1.5,0,0,0*");
    let no_angle = CirclePrimitive {
        exposure: false,
        diameter: Value(dec(99.9)),
        center: (Value(dec(1.1)), Value(dec(2.2))),
        angle: None,
    };
    assert_eq!(partial_code(&no_angle), "1,0,99.9,1.1,2.2*");
}

#[test]
fn test_vector_line_primitive_codegen() {
    let line = VectorLinePrimitive {
        exposure: true,
        width: Value(dec(0.9)),
        start: (Value(dec(0.)), Value(dec(0.45))),
        end: (Value(dec(12.)), Value(dec(0.45))),
        angle: Value(dec(0.)),
    };
    assert_eq!(partial_code(&line), "20,1,0.9,0,0.45,12,0.45,0*");
}

#[test]
fn test_center_line_primitive_codegen() {
    let line = CenterLinePrimitive {
        exposure: true,
        dimensions: (Value(dec(6.8)), Value(dec(1.2))),
        center: (Value(dec(3.4)), Value(dec(0.6))),
        angle: Value(dec(30.0)),
    };
    assert_eq!(partial_code(&line), "21,1,6.8,1.2,3.4,0.6,30*");
}

#[test]
fn test_outline_primitive_codegen() {
    let line = OutlinePrimitive {
        exposure: true,
        points: vec![
            (Value(dec(0.1)), Value(dec(0.1))),
            (Value(dec(0.5)), Value(dec(0.1))),
            (Value(dec(0.5)), Value(dec(0.5))),
            (Value(dec(0.1)), Value(dec(0.5))),
            (Value(dec(0.1)), Value(dec(0.1))),
        ],
        angle: Value(dec(0.0)),
    };
    assert_eq!(
        partial_code(&line),
        "4,1,4,\n0.1,0.1,\n0.5,0.1,\n0.5,0.5,\n0.1,0.5,\n0.1,0.1,\n0*"
    );
}

#[test]
fn test_polygon_primitive_codegen() {
    let line = PolygonPrimitive {
        exposure: true,
        vertices: 8,
        center: (Value(dec(1.5)), Value(dec(2.0))),
        diameter: Value(dec(8.0)),
        angle: Value(dec(0.0)),
    };
    assert_eq!(partial_code(&line), "5,1,8,1.5,2,8,0*");
}

#[test]
fn test_moire_primitive_codegen() {
    let line = MoirePrimitive {
        center: (Value(dec(0.0)), Value(dec(0.0))),
        diameter: Value(dec(5.0)),
        ring_thickness: Value(dec(0.5)),
        gap: Value(dec(0.5)),
        max_rings: 2,
        cross_hair_thickness: Value(dec(0.1)),
        cross_hair_length: Value(dec(6.0)),
        angle: Value(dec(0.0)),
    };
    assert_eq!(partial_code(&line), "6,0,0,5,0.5,0.5,2,0.1,6,0*");
}

#[test]
fn test_thermal_primitive_codegen() {
    let line = ThermalPrimitive {
        center: (Value(dec(0.0)), Value(dec(0.0))),
        outer_diameter: Value(dec(8.0)),
        inner_diameter: Value(dec(6.5)),
        gap: Value(dec(1.0)),
        angle: Value(dec(45.0)),
    };
    assert_eq!(partial_code(&line), "7,0,0,8,6.5,1,45*");
}

#[test]
fn test_aperture_macro_codegen() {
    let am = ApertureMacro::new("CRAZY")
        .add_content(MacroContent::Thermal(ThermalPrimitive {
            center: (Value(dec(0.0)), Value(dec(0.0))),
            outer_diameter: Value(dec(0.08)),
            inner_diameter: Value(dec(0.055)),
            gap: Value(dec(0.0125)),
            angle: Value(dec(45.0)),
        }))
        .add_content(MacroContent::Moire(MoirePrimitive {
            center: (Value(dec(0.0)), Value(dec(0.0))),
            diameter: Value(dec(0.125)),
            ring_thickness: Value(dec(0.01)),
            gap: Value(dec(0.01)),
            max_rings: 3,
            cross_hair_thickness: Value(dec(0.003)),
            cross_hair_length: Value(dec(0.150)),
            angle: Value(dec(0.0)),
        }));
    assert_eq!(
        partial_code(&am),
        "AMCRAZY*\n7,0,0,0.08,0.055,0.0125,45*\n6,0,0,0.125,0.01,0.01,3,0.003,0.15,0*"
    );
}

#[test]
fn test_codegen_with_variable() {
    let line = VectorLinePrimitive {
        exposure: true,
        width: Variable(0),
        start: (Variable(1), dec(0.45).into()),
        end: (Value(dec(12.)), Variable(2)),
        angle: Variable(3),
    };
    assert_eq!(partial_code(&line), "20,1,$0,$1,0.45,12,$2,$3*");
}

#[test]
fn test_macro_decimal_into() {
    let a = Value(dec(1.0));
    let b: MacroDecimal = dec(1.0).into();
    assert_eq!(a, b);
    let c = Variable(1);
    let d = Variable(1);
    assert_eq!(c, d);
}

#[test]
fn test_macro_decimal_equality() {
    assert_ne!(Value(dec(1.0)), Variable(1));
    assert_ne!(Variable(1), Variable(2));
    assert_ne!(Value(dec(1.0)), Value(dec(1.5)));
    assert_ne!(Value(dec(1.0)), Value(dec(-1.0)));
    assert_eq!(Value(dec(0.0)), Value(dec(-0.0)));
}

#[test]
fn test_macro_decimal_is_negative() {
    assert!(Value(dec(-0.5)).is_negative());
    assert!(Value(dec(-3.0)).is_negative());
    assert!(!Value(dec(0.0)).is_negative());
    assert!(!Value(dec(-0.0)).is_negative());
    assert!(!Value(dec(0.5)).is_negative());
    assert!(!Variable(0).is_negative());
    assert!(!Variable(4294967295).is_negative());
}

#[test]
fn test_macro_decimal_codegen() {
    assert_eq!(partial_code(&Value(dec(-0.5))), "-0.5");
    assert_eq!(partial_code(&Value(dec(1234.005))), "1234.005");
    assert_eq!(partial_code(&Variable(0)), "$0");
    assert_eq!(partial_code(&Variable(4294967295)), "$4294967295");
}

#[test]
fn test_comment_codegen() {
    let comment = MacroContent::Comment("hello world".to_string());
    assert_eq!(partial_code(&comment), "0 hello world*");
}

#[test]
fn test_variable_definition_codegen() {
    let var = VariableDefinition {
        number: 17,
        expression: "$40+2".to_string(),
    };
    assert_eq!(partial_code(&var), "$17=$40+2*");
}

#[test]
fn test_macrocontent_from_into() {
    let a = MacroContent::Comment("hello".into());
    let b: MacroContent = "hello".to_string().into();
    let c: MacroContent = "hello".into();
    assert_eq!(a, b);
    assert_eq!(b, c);
}

#[test]
fn test_macrocontent_from_primitives() {
    let circle = CirclePrimitive::new(Value(dec(3.0)));
    let content: MacroContent = circle.clone().into();
    assert_eq!(content, MacroContent::Circle(circle));
    let definition = VariableDefinition::new(1, "$2x2");
    let content: MacroContent = definition.clone().into();
    assert_eq!(content, MacroContent::VariableDefinition(definition));
    let thermal = ThermalPrimitive::new(Value(dec(1.0)), Value(dec(2.0)), Value(dec(0.5)));
    let content: MacroContent = thermal.clone().into();
    assert_eq!(partial_code(&content), partial_code(&thermal));
}

#[test]
fn test_circle_primitive_new() {
    let c1 = CirclePrimitive::new(Value(dec(3.0))).centered_at((Value(dec(5.0)), Value(dec(0.0))));
    let c2 = CirclePrimitive {
        exposure: true,
        diameter: Value(dec(3.0)),
        center: (Value(dec(5.0)), Value(dec(0.0))),
        angle: None,
    };
    assert_eq!(c1, c2);
}

#[test]
fn test_circle_primitive_builders() {
    let c1 = CirclePrimitive::new(Value(dec(3.0)))
        .exposure_on(false)
        .with_angle(Variable(2));
    let c2 = CirclePrimitive {
        exposure: false,
        diameter: Value(dec(3.0)),
        center: (Value(dec(0.0)), Value(dec(0.0))),
        angle: Some(Variable(2)),
    };
    assert_eq!(c1, c2);
}

#[test]
fn test_vectorline_primitive_new() {
    let vl1 = VectorLinePrimitive::new(
        (Value(dec(0.0)), Value(dec(5.3))),
        (Value(dec(3.9)), Value(dec(8.5))),
    )
    .with_angle(Value(dec(38.0)));
    let vl2 = VectorLinePrimitive {
        exposure: true,
        width: Value(dec(0.0)),
        start: (Value(dec(0.0)), Value(dec(5.3))),
        end: (Value(dec(3.9)), Value(dec(8.5))),
        angle: Value(dec(38.0)),
    };
    assert_eq!(vl1, vl2);
}

#[test]
fn test_vectorline_primitive_builders() {
    let vl1 = VectorLinePrimitive::new(
        (Value(dec(0.0)), Value(dec(5.3))),
        (Value(dec(3.9)), Value(dec(8.5))),
    )
    .exposure_on(false)
    .with_width(Value(dec(0.25)));
    let vl2 = VectorLinePrimitive {
        exposure: false,
        width: Value(dec(0.25)),
        start: (Value(dec(0.0)), Value(dec(5.3))),
        end: (Value(dec(3.9)), Value(dec(8.5))),
        angle: Value(dec(0.0)),
    };
    assert_eq!(vl1, vl2);
}

#[test]
fn test_centerline_primitive_new() {
    let cl1 = CenterLinePrimitive::new((Value(dec(3.0)), Value(dec(4.5)))).exposure_on(false);
    let cl2 = CenterLinePrimitive {
        exposure: false,
        dimensions: (Value(dec(3.0)), Value(dec(4.5))),
        center: (Value(dec(0.0)), Value(dec(0.0))),
        angle: Value(dec(0.0)),
    };
    assert_eq!(cl1, cl2);
}

#[test]
fn test_centerline_primitive_builders() {
    let cl1 = CenterLinePrimitive::new((Value(dec(3.0)), Value(dec(4.5))))
        .centered_at((Variable(1), Variable(2)))
        .with_angle(Value(dec(90.0)));
    let cl2 = CenterLinePrimitive {
        exposure: true,
        dimensions: (Value(dec(3.0)), Value(dec(4.5))),
        center: (Variable(1), Variable(2)),
        angle: Value(dec(90.0)),
    };
    assert_eq!(cl1, cl2);
}

#[test]
fn test_outline_primitive_new() {
    let op1 = OutlinePrimitive::new()
        .add_point((Value(dec(0.0)), Value(dec(0.0))))
        .add_point((Value(dec(2.0)), Value(dec(2.0))))
        .add_point((Value(dec(-2.0)), Value(dec(-2.0))))
        .add_point((Value(dec(0.0)), Value(dec(0.0))));

    let pts = vec![
        (Value(dec(0.0)), Value(dec(0.0))),
        (Value(dec(2.0)), Value(dec(2.0))),
        (Value(dec(-2.0)), Value(dec(-2.0))),
        (Value(dec(0.0)), Value(dec(0.0))),
    ];

    let op2 = OutlinePrimitive {
        exposure: true,
        points: pts,
        angle: Value(dec(0.0)),
    };
    assert_eq!(op1, op2);
}

#[test]
fn test_outline_primitive_from_points() {
    let pts = vec![
        (Value(dec(0.0)), Value(dec(0.0))),
        (Value(dec(2.0)), Value(dec(2.0))),
        (Value(dec(0.0)), Value(dec(0.0))),
    ];
    let op1 = OutlinePrimitive::from_points(pts.clone()).with_angle(Value(dec(15.0)));
    let op2 = OutlinePrimitive {
        exposure: true,
        points: pts,
        angle: Value(dec(15.0)),
    };
    assert_eq!(op1, op2);
    assert_eq!(partial_code(&op1), "4,1,2,\n0,0,\n2,2,\n0,0,\n15*");
}

#[test]
fn test_polygon_primitive_new() {
    let pp1 = PolygonPrimitive::new(5)
        .with_angle(Value(dec(98.0)))
        .with_diameter(Value(dec(5.3)))
        .centered_at((Value(dec(1.0)), Value(dec(1.0))));
    let pp2 = PolygonPrimitive {
        exposure: true,
        vertices: 5,
        angle: Value(dec(98.0)),
        diameter: Value(dec(5.3)),
        center: (Value(dec(1.0)), Value(dec(1.0))),
    };
    assert_eq!(pp1, pp2);
}

#[test]
fn test_moire_primitive_new() {
    let mp1 = MoirePrimitive::new()
        .with_diameter(Value(dec(3.0)))
        .with_ring_thickness(Value(dec(0.05)))
        .with_cross_thickness(Value(dec(0.01)))
        .with_cross_length(Value(dec(0.5)))
        .with_rings_max(3);
    let mp2 = MoirePrimitive {
        center: (MacroDecimal::Value(dec(0.0)), MacroDecimal::Value(dec(0.0))),
        diameter: MacroDecimal::Value(dec(3.0)),
        ring_thickness: MacroDecimal::Value(dec(0.05)),
        gap: MacroDecimal::Value(dec(0.0)),
        max_rings: 3,
        cross_hair_thickness: MacroDecimal::Value(dec(0.01)),
        cross_hair_length: MacroDecimal::Value(dec(0.5)),
        angle: MacroDecimal::Value(dec(0.0)),
    };
    assert_eq!(mp1, mp2);
}

#[test]
fn test_moire_primitive_builders() {
    let mp1 = MoirePrimitive::new()
        .centered_at((Value(dec(1.0)), Value(dec(2.0))))
        .with_gap(Value(dec(0.25)))
        .with_angle(Variable(7));
    let mp2 = MoirePrimitive {
        center: (Value(dec(1.0)), Value(dec(2.0))),
        diameter: Value(dec(0.0)),
        ring_thickness: Value(dec(0.0)),
        gap: Value(dec(0.25)),
        max_rings: 1,
        cross_hair_thickness: Value(dec(0.0)),
        cross_hair_length: Value(dec(0.0)),
        angle: Variable(7),
    };
    assert_eq!(mp1, mp2);
}

#[test]
fn test_thermal_primitive_new() {
    let tp1 = ThermalPrimitive::new(Value(dec(1.0)), Value(dec(2.0)), Value(dec(1.5)))
        .with_angle(Value(dec(87.3)));
    let tp2 = ThermalPrimitive {
        inner_diameter: Value(dec(1.0)),
        outer_diameter: Value(dec(2.0)),
        gap: Value(dec(1.5)),
        angle: Value(dec(87.3)),
        center: (Value(dec(0.0)), Value(dec(0.0))),
    };
    assert_eq!(tp1, tp2);
}

#[test]
fn test_thermal_primitive_centered_at() {
    let tp = ThermalPrimitive::new(Value(dec(1.0)), Value(dec(2.0)), Value(dec(1.5)))
        .centered_at((Value(dec(-1.0)), Variable(3)));
    assert_eq!(partial_code(&tp), "7,-1,$3,2,1,1.5,0*");
}

#[test]
fn test_variabledefinition_new() {
    let vd1 = VariableDefinition::new(3, "Test!");
    let vd2 = VariableDefinition {
        number: 3,
        expression: "Test!".into(),
    };
    assert_eq!(vd1, vd2);
}

#[test]
fn test_outline_single_point_fails() {
    let outline = OutlinePrimitive::from_points(vec![(Value(dec(0.0)), Value(dec(0.0)))]);
    assert_eq!(failure(&outline), (ErrorKind::MissingData, String::new()));
    let empty = OutlinePrimitive::new();
    assert_eq!(failure(&empty), (ErrorKind::MissingData, String::new()));
}

#[test]
fn test_outline_open_fails() {
    let outline = OutlinePrimitive::new()
        .add_point((Value(dec(0.0)), Value(dec(0.0))))
        .add_point((Value(dec(2.0)), Value(dec(2.0))))
        .add_point((Value(dec(0.0)), Value(dec(1.0))));
    assert_eq!(failure(&outline), (ErrorKind::Range, String::new()));
    let with_variables = OutlinePrimitive::new()
        .add_point((Variable(1), Value(dec(0.0))))
        .add_point((Variable(2), Value(dec(0.0))));
    assert_eq!(failure(&with_variables), (ErrorKind::Range, String::new()));
    let closed = OutlinePrimitive::new()
        .add_point((Variable(1), Value(dec(0.0))))
        .add_point((Variable(1), Value(dec(-0.0))));
    assert_eq!(partial_code(&closed), "4,1,1,\n$1,0,\n$1,-0,\n0*");
}

#[test]
fn test_outline_too_many_points_fails() {
    let point = (Value(dec(1.0)), Value(dec(1.0)));
    let most = OutlinePrimitive::from_points(vec![point.clone(); 5001]);
    let code = partial_code(&most);
    assert!(code.starts_with("4,1,5000,\n1,1,\n"));
    assert!(code.ends_with("1,1,\n0*"));
    assert_eq!(code.len(), "4,1,5000,\n".len() + 5001 * "1,1,\n".len() + "0*".len());
    let too_many = OutlinePrimitive::from_points(vec![point; 5002]);
    assert_eq!(failure(&too_many), (ErrorKind::Range, String::new()));
}

#[test]
fn test_polygon_vertices() {
    assert_eq!(
        failure(&PolygonPrimitive::new(2)),
        (ErrorKind::MissingData, String::new())
    );
    assert_eq!(
        failure(&PolygonPrimitive::new(0)),
        (ErrorKind::MissingData, String::new())
    );
    assert_eq!(
        failure(&PolygonPrimitive::new(13)),
        (ErrorKind::Range, String::new())
    );
    assert_eq!(
        failure(&PolygonPrimitive::new(255)),
        (ErrorKind::Range, String::new())
    );
    for vertices in 3u8..=12 {
        let polygon = PolygonPrimitive::new(vertices);
        assert_eq!(
            partial_code(&polygon),
            format!("5,1,{},0,0,0,0*", vertices)
        );
    }
}

#[test]
fn test_polygon_negative_diameter_fails() {
    let polygon = PolygonPrimitive::new(5).with_diameter(Value(dec(-1.0)));
    assert_eq!(failure(&polygon), (ErrorKind::Range, String::new()));
    let polygon = PolygonPrimitive::new(5).with_diameter(Variable(1));
    assert_eq!(partial_code(&polygon), "5,1,5,0,0,$1,0*");
    let polygon = PolygonPrimitive::new(5).with_diameter(Value(dec(-0.0)));
    assert_eq!(partial_code(&polygon), "5,1,5,0,0,-0,0*");
}

#[test]
fn test_moire_negative_fields_fail() {
    let negative = Value(dec(-0.1));
    let moires = vec![
        MoirePrimitive::new().with_diameter(negative.clone()),
        MoirePrimitive::new().with_ring_thickness(negative.clone()),
        MoirePrimitive::new().with_gap(negative.clone()),
        MoirePrimitive::new().with_cross_thickness(negative.clone()),
        MoirePrimitive::new().with_cross_length(negative.clone()),
    ];
    for moire in moires.iter() {
        assert_eq!(failure(moire), (ErrorKind::Range, String::new()));
    }
    let fine = MoirePrimitive::new()
        .centered_at((negative.clone(), negative.clone()))
        .with_angle(negative);
    assert_eq!(partial_code(&fine), "6,-0.1,-0.1,0,0,0,1,0,0,-0.1*");
}

#[test]
fn test_thermal_negative_inner_diameter_fails() {
    let thermal = ThermalPrimitive::new(Value(dec(-1.0)), Value(dec(2.0)), Value(dec(1.5)));
    assert_eq!(failure(&thermal), (ErrorKind::Range, String::new()));
    let thermal = ThermalPrimitive::new(Value(dec(1.0)), Value(dec(-2.0)), Value(dec(-1.5)));
    assert_eq!(partial_code(&thermal), "7,0,0,-2,1,-1.5,0*");
}

#[test]
fn test_aperture_macro_without_content_fails() {
    let am = ApertureMacro::new("X");
    assert_eq!(failure(&am), (ErrorKind::MissingData, String::new()));
}

#[test]
fn test_aperture_macro_single_primitive() {
    let circle = CirclePrimitive::new(Value(dec(1.5)));
    let am = ApertureMacro::new("X").add_content(circle.clone());
    assert_eq!(partial_code(&am), "AMX*\n1,1,1.5,0,0*");
    assert_eq!(
        partial_code(&am),
        format!("AMX*\n{}", partial_code(&circle))
    );
}

#[test]
fn test_aperture_macro_add_content_mut() {
    let mut am = ApertureMacro::new("BOX");
    am.add_content_mut("a box");
    am.add_content_mut(VariableDefinition::new(3, "$1x2"));
    am.add_content_mut(CenterLinePrimitive::new((Variable(1), Variable(3))));
    assert_eq!(am.name, "BOX");
    assert_eq!(am.content.len(), 3);
    assert_eq!(
        partial_code(&am),
        "AMBOX*\n0 a box*\n$3=$1x2*\n21,1,$1,$3,0,0,0*"
    );
}

#[test]
/// An item that fails ends the macro. The header, the items before it and the newline that
/// precedes it stay in the sink.
fn test_aperture_macro_failing_item() {
    let am = ApertureMacro::new("BAD")
        .add_content(CirclePrimitive::new(Value(dec(1.0))))
        .add_content(PolygonPrimitive::new(2))
        .add_content(CirclePrimitive::new(Value(dec(2.0))));
    assert_eq!(
        failure(&am),
        (ErrorKind::MissingData, "AMBAD*\n1,1,1,0,0*\n".to_string())
    );
    let first = ApertureMacro::new("BAD").add_content(PolygonPrimitive::new(13));
    assert_eq!(failure(&first), (ErrorKind::Range, "AMBAD*\n".to_string()));
}

#[test]
fn test_aperture_macro_serialize() {
    let am = ApertureMacro::new("DONUT")
        .add_content(CirclePrimitive::new(Variable(1)))
        .add_content(CirclePrimitive::new(Variable(2)).exposure_on(false));
    let code = ExtendedCode::ApertureMacro(am);
    let mut text = String::new();
    code.serialize(&mut text).unwrap();
    assert_eq!(text, "%AMDONUT*\n1,1,$1,0,0*\n1,0,$2,0,0*%\n");

    let empty = ExtendedCode::ApertureMacro(ApertureMacro::new("NONE"));
    let mut text = String::new();
    let err = empty.serialize(&mut text).unwrap_err();
    assert_eq!(err.kind(), ErrorKind::MissingData);
    assert_eq!(text, "%");
}
