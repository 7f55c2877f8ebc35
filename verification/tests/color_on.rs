use cli_helpers::{horizontal_sep, parse_num};
use text_colorizer::control::set_override;
use text_colorizer::Color;

#[test]
fn blue_line_is_wrapped_in_escape_codes() {
    set_override(true);
    let result = horizontal_sep(10, Some(Color::Blue));
    assert_eq!(result.line, "----------");
    assert_eq!(
        result.colored,
        Some(String::from("\x1B[34m----------\x1B[0m"))
    );
    assert_eq!(
        result.output(),
        Some(String::from("\x1B[34m----------\x1B[0m\n"))
    );
}

#[test]
fn empty_colored_line_is_still_shown() {
    set_override(true);
    let result = horizontal_sep(0, Some(Color::Red));
    assert_eq!(result.line, "");
    assert_eq!(result.colored, Some(String::from("\x1B[31m\x1B[0m")));
    assert_eq!(result.output(), Some(String::from("\x1B[31m\x1B[0m\n")));
}

#[test]
fn the_color_is_the_foreground() {
    set_override(true);
    let result = horizontal_sep(1, Some(Color::BrightYellow));
    assert_eq!(result.colored, Some(String::from("\x1B[93m-\x1B[0m")));
}

#[test]
fn diagnostic_is_bright_red() {
    set_override(true);
    let invalid = parse_num::<u64>("hello world").unwrap_err();
    assert_eq!(invalid.message, "Invalid input detected: hello world");
    assert_eq!(
        invalid.highlighted,
        "\x1B[91mInvalid input detected: hello world\x1B[0m"
    );
    assert_eq!(
        invalid.report(),
        "\x1B[91mInvalid input detected: hello world\x1B[0m\n"
    );
}
