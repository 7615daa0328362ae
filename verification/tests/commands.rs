use gerber_types::commands::GerberCode;
use gerber_types::commands::{Command, FunctionCode};
use gerber_types::commands::{CoordinateOffset, Coordinates, Operation};
use gerber_types::commands::{GCode, InterpolationMode, QuadrantMode};
use gerber_types::commands::MCode;

#[test]
fn commands_test_debug() {
    //! The debug representation should work properly.
    let c = Command::FunctionCode(FunctionCode::GCode(GCode::Comment("test".to_string())));
    let debug = format!("{:?}", c);
    assert_eq!(debug, "FunctionCode(GCode(Comment(\"test\")))");
}

#[test]
fn test_to_code() {
    //! The to_code method of the GerberCode trait should generate strings.
    let comment = GCode::Comment("testcomment".to_string());
    assert_eq!(comment.to_code(), "G04 testcomment *".to_string());
}

#[test]
fn test_vec_to_code() {
    //! A `Vec<T: GerberCode>` should also implement `GerberCode`.
    let mut v = Vec::new();
    v.push(GCode::Comment("comment 1".to_string()));
    v.push(GCode::Comment("another one".to_string()));
    assert_eq!(
        v.to_code(),
        "G04 comment 1 *\nG04 another one *".to_string()
    );
}

#[test]
fn test_empty_vec_to_code() {
    let v: Vec<MCode> = Vec::new();
    assert_eq!(v.to_code(), "");
    let v = vec![MCode::EndOfFile];
    assert_eq!(v.to_code(), "M02*");
}

#[test]
fn commands_test_interpolation_mode() {
    let mut commands = Vec::new();
    let c1 = GCode::InterpolationMode(InterpolationMode::Linear);
    let c2 = GCode::InterpolationMode(InterpolationMode::ClockwiseCircular);
    let c3 = GCode::InterpolationMode(InterpolationMode::CounterclockwiseCircular);
    commands.push(c1);
    commands.push(c2);
    commands.push(c3);
    assert_eq!(commands.to_code(), "G01*\nG02*\nG03*".to_string());
}

#[test]
fn commands_test_region_mode() {
    let mut commands = Vec::new();
    commands.push(GCode::RegionMode(true));
    commands.push(GCode::RegionMode(false));
    assert_eq!(commands.to_code(), "G36*\nG37*".to_string());
}

#[test]
fn commands_test_quadrant_mode() {
    let mut commands = Vec::new();
    commands.push(GCode::QuadrantMode(QuadrantMode::Single));
    commands.push(GCode::QuadrantMode(QuadrantMode::Multi));
    assert_eq!(commands.to_code(), "G74*\nG75*".to_string());
}

#[test]
fn commands_test_end_of_file() {
    let c = MCode::EndOfFile;
    assert_eq!(c.to_code(), "M02*".to_string());
}

#[test]
fn commands_test_coordinates() {
    assert_eq!(
        Coordinates {
            x: Some(10),
            y: Some(20)
        }
        .to_code(),
        "X10Y20".to_string()
    );
    assert_eq!(Coordinates { x: None, y: None }.to_code(), "".to_string());
    assert_eq!(
        Coordinates {
            x: Some(10),
            y: None
        }
        .to_code(),
        "X10".to_string()
    );
    assert_eq!(
        Coordinates {
            x: None,
            y: Some(20)
        }
        .to_code(),
        "Y20".to_string()
    );
    assert_eq!(
        Coordinates {
            x: Some(0),
            y: Some(-400)
        }
        .to_code(),
        "X0Y-400".to_string()
    );
}

#[test]
fn commands_test_offset() {
    assert_eq!(
        CoordinateOffset {
            x: Some(10),
            y: Some(20)
        }
        .to_code(),
        "I10J20".to_string()
    );
    assert_eq!(
        CoordinateOffset { x: None, y: None }.to_code(),
        "".to_string()
    );
    assert_eq!(
        CoordinateOffset {
            x: Some(10),
            y: None
        }
        .to_code(),
        "I10".to_string()
    );
    assert_eq!(
        CoordinateOffset {
            x: None,
            y: Some(20)
        }
        .to_code(),
        "J20".to_string()
    );
    assert_eq!(
        CoordinateOffset {
            x: Some(0),
            y: Some(-400)
        }
        .to_code(),
        "I0J-400".to_string()
    );
}

#[test]
fn commands_test_operation_interpolate() {
    let c1 = Operation::Interpolate(
        Coordinates::new(100, 200),
        Some(CoordinateOffset::new(5, 10)),
    );
    assert_eq!(c1.to_code(), "X100Y200I5J10D01*".to_string());
    let c2 = Operation::Interpolate(Coordinates::at_y(-200), None);
    assert_eq!(c2.to_code(), "Y-200D01*".to_string());
    let c3 = Operation::Interpolate(Coordinates::at_x(1), Some(CoordinateOffset::at_y(2)));
    assert_eq!(c3.to_code(), "X1J2D01*".to_string());
}

#[test]
fn commands_test_operation_move() {
    let c = Operation::Move(Coordinates::new(23, 42));
    assert_eq!(c.to_code(), "X23Y42D02*".to_string());
}

#[test]
fn commands_test_operation_flash() {
    let c = Operation::Flash(Coordinates::new(23, 42));
    assert_eq!(c.to_code(), "X23Y42D03*".to_string());
}

#[test]
fn commands_test_extremes() {
    let c = Coordinates::new(i32::MIN, i32::MAX);
    assert_eq!(c.to_code(), "X-2147483648Y2147483647");
    let o = CoordinateOffset::at_x(i32::MIN);
    assert_eq!(o.to_code(), "I-2147483648");
}
