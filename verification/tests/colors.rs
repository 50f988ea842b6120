use console_session::Color;
use console_session::ConsoleError;

#[test]
fn palette_codes_are_contiguous_and_default_is_negative() {
    let palette = [
        Color::Black,
        Color::Blue,
        Color::Green,
        Color::Cyan,
        Color::Red,
        Color::Pink,
        Color::Yellow,
        Color::White,
        Color::LightBlack,
        Color::LightBlue,
        Color::LightGreen,
        Color::LightCyan,
        Color::LightRed,
        Color::LightPink,
        Color::LightYellow,
        Color::LightWhite,
    ];
    for (i, c) in palette.iter().enumerate() {
        assert_eq!(c.code(), i as i8);
    }
    assert_eq!(Color::Default.code(), -1);
}

#[test]
fn error_carries_its_message() {
    let e = ConsoleError::new("something went wrong");
    assert_eq!(e.message(), "something went wrong");
}
