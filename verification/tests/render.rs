use vast_enum::render::lay_out;
use vast_enum::VastEnum;

#[derive(Debug, Copy, Clone, Eq, PartialEq)]
enum Color {
    Red,
    Yellow,
    Green,
}

impl From<Color> for u8 {
    fn from(color: Color) -> u8 {
        match color {
            Color::Red => 0,
            Color::Yellow => 1,
            Color::Green => 2,
        }
    }
}

impl TryFrom<u8> for Color {
    type Error = ();

    fn try_from(raw: u8) -> Result<Color, ()> {
        match raw {
            0 => Ok(Color::Red),
            1 => Ok(Color::Yellow),
            2 => Ok(Color::Green),
            _ => Err(()),
        }
    }
}

#[test]
fn lay_out_with_a_variant() {
    assert_eq!(lay_out("2", Some("Green")), "VastEnum(2: Green)");
    assert_eq!(lay_out("", Some("")), "VastEnum(: )");
}

#[test]
fn lay_out_without_a_variant() {
    assert_eq!(lay_out("5", None), "VastEnum(5)");
    assert_eq!(lay_out("", None), "VastEnum()");
}

#[test]
fn a_valid_wrapper_shows_integer_and_variant() {
    assert_eq!(VastEnum::<Color, u8>::from_variant(Color::Green).debug_string(), "VastEnum(2: Green)");
    assert_eq!(VastEnum::<Color, u8>::from_int(0).debug_string(), "VastEnum(0: Red)");
    assert_eq!(VastEnum::<Color, u8>::from_int(1).debug_string(), "VastEnum(1: Yellow)");
}

#[test]
fn an_invalid_wrapper_shows_the_integer_alone() {
    assert_eq!(VastEnum::<Color, u8>::from_int(5).debug_string(), "VastEnum(5)");
    assert_eq!(VastEnum::<Color, u8>::from_int(255).debug_string(), "VastEnum(255)");
}

#[test]
fn the_text_follows_the_stored_integer() {
    let mut wrapped = VastEnum::<Color, u8>::from_variant(Color::Red);
    assert_eq!(wrapped.debug_string(), "VastEnum(0: Red)");
    *wrapped.int_mut() = 3;
    assert_eq!(wrapped.debug_string(), "VastEnum(3)");
}
