use gerber_types::{
    Command, CoordinateFormat, DCode, ExtendedCode, FunctionCode, GCode, GerberCode, MCode,
    Polarity, Unit,
};

fn code<T: GerberCode>(obj: &T) -> String {
    let mut code = String::new();
    obj.serialize(&mut code)
        .expect("Could not generate Gerber code");
    code
}

#[test]
fn types_test_debug() {
    //! The debug representation should work properly.
    let c = Command::FunctionCode(FunctionCode::GCode(GCode::Comment("test".to_string())));
    let debug = format!("{:?}", c);
    assert_eq!(debug, "FunctionCode(GCode(Comment(\"test\")))");
}

#[test]
fn test_function_code_serialize() {
    //! A `FunctionCode` should implement `GerberCode`
    let c = FunctionCode::GCode(GCode::Comment("comment".to_string()));
    assert_eq!(code(&c), "G04 comment*\n");
}

#[test]
fn test_function_code_from_gcode() {
    let comment = GCode::Comment("hello".into());
    let f1: FunctionCode = FunctionCode::GCode(comment.clone());
    let f2: FunctionCode = comment.into();
    assert_eq!(f1, f2);
}

#[test]
fn test_command_from_function_code() {
    let comment = FunctionCode::GCode(GCode::Comment("hello".into()));
    let c1: Command = Command::FunctionCode(comment.clone());
    let c2: Command = comment.into();
    assert_eq!(c1, c2);
}

#[test]
fn test_command_from_extended_code() {
    let delete_attr = ExtendedCode::DeleteAttribute("hello".into());
    let c1: Command = Command::ExtendedCode(delete_attr.clone());
    let c2: Command = delete_attr.into();
    assert_eq!(c1, c2);
}

#[test]
fn test_extended_code_from_polarity() {
    let e1: ExtendedCode = ExtendedCode::LoadPolarity(Polarity::Dark);
    let e2: ExtendedCode = Polarity::Dark.into();
    assert_eq!(e1, e2);
}

#[test]
fn test_command_from_leaves() {
    let c: Command = MCode::EndOfFile.into();
    assert_eq!(
        c,
        Command::FunctionCode(FunctionCode::MCode(MCode::EndOfFile))
    );
    let c: Command = DCode::SelectAperture(11).into();
    assert_eq!(
        c,
        Command::FunctionCode(FunctionCode::DCode(DCode::SelectAperture(11)))
    );
    let c: Command = Unit::Inches.into();
    assert_eq!(c, Command::ExtendedCode(ExtendedCode::Unit(Unit::Inches)));
    let c: Command = CoordinateFormat::new(2, 6).into();
    assert_eq!(code(&c), "%FSLAX26Y26*%\n");
}

#[test]
fn test_has_code() {
    let c: Command = MCode::EndOfFile.into();
    assert!(c.has_code());
    let c: Command = ExtendedCode::DeleteAttribute("x".into()).into();
    assert!(c.has_code());
    let c = ExtendedCode::ApertureAttribute(gerber_types::ApertureAttribute::ApertureFunction(
        gerber_types::ApertureFunction::ViaDrill,
    ));
    assert!(!c.has_code());
    assert!(!Command::from(c).has_code());
}
