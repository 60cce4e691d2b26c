use fastfetch_rs::color::{ansi_to_crossterm_color, Color};

#[test]
fn named_colors_encode_to_their_codes() {
    assert_eq!(Color::Black.to_ansi(), "\x1b[30m");
    assert_eq!(Color::DarkRed.to_ansi(), "\x1b[31m");
    assert_eq!(Color::DarkGreen.to_ansi(), "\x1b[32m");
    assert_eq!(Color::DarkYellow.to_ansi(), "\x1b[33m");
    assert_eq!(Color::DarkBlue.to_ansi(), "\x1b[34m");
    assert_eq!(Color::DarkMagenta.to_ansi(), "\x1b[35m");
    assert_eq!(Color::DarkCyan.to_ansi(), "\x1b[36m");
    assert_eq!(Color::Grey.to_ansi(), "\x1b[37m");
    assert_eq!(Color::DarkGrey.to_ansi(), "\x1b[90m");
    assert_eq!(Color::Red.to_ansi(), "\x1b[91m");
    assert_eq!(Color::Green.to_ansi(), "\x1b[92m");
    assert_eq!(Color::Yellow.to_ansi(), "\x1b[93m");
    assert_eq!(Color::Blue.to_ansi(), "\x1b[94m");
    assert_eq!(Color::Magenta.to_ansi(), "\x1b[95m");
    assert_eq!(Color::Cyan.to_ansi(), "\x1b[96m");
    assert_eq!(Color::White.to_ansi(), "\x1b[97m");
}

#[test]
fn indexed_and_rgb_colors_encode_their_numbers() {
    assert_eq!(Color::AnsiValue(0).to_ansi(), "\x1b[38;5;0m");
    assert_eq!(Color::AnsiValue(7).to_ansi(), "\x1b[38;5;7m");
    assert_eq!(Color::AnsiValue(208).to_ansi(), "\x1b[38;5;208m");
    assert_eq!(Color::AnsiValue(255).to_ansi(), "\x1b[38;5;255m");
    assert_eq!(
        Color::Rgb { r: 255, g: 0, b: 10 }.to_ansi(),
        "\x1b[38;2;255;0;10m"
    );
    assert_eq!(
        Color::Rgb { r: 18, g: 52, b: 86 }.to_ansi(),
        "\x1b[38;2;18;52;86m"
    );
}

#[test]
fn reset_encodes_as_the_reset_sequence() {
    assert_eq!(Color::Reset.to_ansi(), "\x1b[0m");
}

#[test]
fn symbolic_names_translate_exactly() {
    assert_eq!(ansi_to_crossterm_color("FF_COLOR_FG_BLACK"), Some(Color::Black));
    assert_eq!(ansi_to_crossterm_color("FF_COLOR_FG_RED"), Some(Color::DarkRed));
    assert_eq!(ansi_to_crossterm_color("FF_COLOR_FG_WHITE"), Some(Color::Grey));
    assert_eq!(ansi_to_crossterm_color("FF_COLOR_FG_DEFAULT"), Some(Color::Reset));
    assert_eq!(
        ansi_to_crossterm_color("FF_COLOR_FG_LIGHT_BLACK"),
        Some(Color::DarkGrey)
    );
    assert_eq!(ansi_to_crossterm_color("FF_COLOR_FG_LIGHT_RED"), Some(Color::Red));
    assert_eq!(
        ansi_to_crossterm_color("FF_COLOR_FG_LIGHT_WHITE"),
        Some(Color::White)
    );
    assert_eq!(ansi_to_crossterm_color("ff_color_fg_black"), None);
    assert_eq!(ansi_to_crossterm_color("FF_COLOR_FG_ORANGE"), None);
    assert_eq!(ansi_to_crossterm_color(""), None);
}
