use libfastfetch::output::color::{bold, colored, dim, Color, Style, StyledString};

#[test]
fn test_color_codes() {
    assert_eq!(Color::Red.fg_code(), "\x1b[31m");
    assert_eq!(Color::BrightGreen.fg_code(), "\x1b[92m");
}

#[test]
fn test_styled_string() {
    let styled = StyledString::new("test").fg(Color::Red);
    assert_eq!(styled.format(), "\x1b[31mtest\x1b[0m");
}

#[test]
fn test_rgb_color() {
    let color = Color::Rgb(255, 128, 0);
    assert_eq!(
        color.fg_rgb_code(),
        Some("\x1b[38;2;255;128;0m".to_string())
    );
}

#[test]
fn named_colors_have_no_rgb_code() {
    assert_eq!(Color::Red.fg_rgb_code(), None);
    assert_eq!(Color::Rgb(1, 2, 3).fg_code(), "");
}

#[test]
fn rgb_code_of_zero_and_small_parts() {
    assert_eq!(
        Color::Rgb(0, 7, 10).fg_rgb_code(),
        Some("\x1b[38;2;0;7;10m".to_string())
    );
}

#[test]
fn style_codes() {
    assert_eq!(Style::Bold.code(), "\x1b[1m");
    assert_eq!(Style::Dim.code(), "\x1b[2m");
    assert_eq!(Style::Italic.code(), "\x1b[3m");
    assert_eq!(Style::Underline.code(), "\x1b[4m");
    assert_eq!(Style::Reset.code(), "\x1b[0m");
}

#[test]
fn plain_text_has_no_escape_sequences() {
    assert_eq!(StyledString::new("plain").format(), "plain");
    assert_eq!(StyledString::new("plain").to_string(), "plain");
}

#[test]
fn style_stands_before_color() {
    let styled = StyledString::new("x").fg(Color::Blue).style(Style::Bold);
    assert_eq!(styled.format(), "\x1b[1m\x1b[34mx\x1b[0m");
    let styled = StyledString::new("x").style(Style::Underline);
    assert_eq!(styled.format(), "\x1b[4mx\x1b[0m");
}

#[test]
fn rgb_styled_string() {
    let styled = StyledString::new("x").fg(Color::Rgb(1, 20, 255));
    assert_eq!(styled.format(), "\x1b[38;2;1;20;255mx\x1b[0m");
}

#[test]
fn color_helpers() {
    assert_eq!(bold("a", Color::Red).format(), "\x1b[1m\x1b[31ma\x1b[0m");
    assert_eq!(dim("a", Color::Green).format(), "\x1b[2m\x1b[32ma\x1b[0m");
    assert_eq!(colored("a", Color::Cyan).format(), "\x1b[36ma\x1b[0m");
}
