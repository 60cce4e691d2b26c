use fastfetch_rs::color::Color;
use fastfetch_rs::logo::{Logo, LogoError};
use fastfetch_rs::palette::Palette;

fn logo_with(colors: Palette) -> Logo {
    Logo {
        lines: Vec::new(),
        colors,
    }
}

fn two_colors() -> Palette {
    let mut colors = Palette::new();
    colors.insert("$1", Color::Red);
    colors.insert("$2", Color::AnsiValue(208));
    colors
}

#[test]
fn width_ignores_placeholders() {
    assert_eq!(Logo::calculate_display_width("$1Hello"), 5);
    assert_eq!(Logo::calculate_display_width("${c1}Hi"), 2);
    assert_eq!(Logo::calculate_display_width("$"), 1);
    assert_eq!(Logo::calculate_display_width("$9"), 0);
    assert_eq!(Logo::calculate_display_width(""), 0);
    assert_eq!(Logo::calculate_display_width("plain text"), 10);
}

#[test]
fn width_counts_only_a_bare_dollar() {
    assert_eq!(Logo::calculate_display_width("$$"), 2);
    assert_eq!(Logo::calculate_display_width("$a"), 2);
    assert_eq!(Logo::calculate_display_width("a$"), 2);
    assert_eq!(Logo::calculate_display_width("$ 1"), 3);
    assert_eq!(Logo::calculate_display_width("$$1x"), 2);
    assert_eq!(Logo::calculate_display_width("$12"), 1);
    assert_eq!(Logo::calculate_display_width("$0$1$2"), 0);
}

#[test]
fn width_of_brace_forms() {
    assert_eq!(Logo::calculate_display_width("${c1}"), 0);
    assert_eq!(Logo::calculate_display_width("${anything at all}ab"), 2);
    assert_eq!(Logo::calculate_display_width("${}x"), 1);
    assert_eq!(Logo::calculate_display_width("${c1"), 0);
    assert_eq!(Logo::calculate_display_width("${never closed"), 0);
    assert_eq!(Logo::calculate_display_width("a${b}c}d"), 4);
    assert_eq!(Logo::calculate_display_width("${a{b}c"), 1);
    assert_eq!(Logo::calculate_display_width("${"), 0);
}

#[test]
fn width_counts_characters_not_bytes() {
    assert_eq!(Logo::calculate_display_width("\u{e9}\u{4e16}\u{1f600}"), 3);
    assert_eq!(Logo::calculate_display_width("$1\u{e9}${c2}\u{4e16}"), 2);
    // Only the ten ASCII digits open the digit form.
    assert_eq!(Logo::calculate_display_width("$\u{663}"), 2);
    assert_eq!(Logo::calculate_display_width("$\u{b2}"), 2);
}

#[test]
fn digit_placeholder_emits_and_carries_its_colour() {
    let logo = logo_with(two_colors());
    let mut carried = None;
    assert_eq!(logo.render_line("$1AB", &mut carried), "\x1b[91mAB");
    assert_eq!(carried, Some(Color::Red));
    assert_eq!(logo.render_line("CD", &mut carried), "\x1b[91mCD");
    assert_eq!(carried, Some(Color::Red));
    assert_eq!(
        logo.render_line("E$2F", &mut carried),
        "\x1b[91mE\x1b[38;5;208mF"
    );
    assert_eq!(carried, Some(Color::AnsiValue(208)));
    assert_eq!(logo.render_line("", &mut carried), "\x1b[38;5;208m");
    assert_eq!(carried, Some(Color::AnsiValue(208)));
}

#[test]
fn brace_placeholder_selects_like_the_digit_form() {
    let logo = logo_with(two_colors());
    let mut carried = None;
    assert_eq!(
        logo.render_line("${c2}x${c1}y", &mut carried),
        "\x1b[38;5;208mx\x1b[91my"
    );
    assert_eq!(carried, Some(Color::Red));
    let mut carried = None;
    assert_eq!(logo.render_line("a${c2", &mut carried), "a\x1b[38;5;208m");
    assert_eq!(carried, Some(Color::AnsiValue(208)));
}

#[test]
fn unresolved_placeholders_leave_no_trace() {
    let logo = logo_with(two_colors());
    let mut carried = Some(Color::Blue);
    assert_eq!(logo.render_line("a$3b", &mut carried), "\x1b[94mab");
    assert_eq!(carried, Some(Color::Blue));
    assert_eq!(logo.render_line("a${c3}b", &mut carried), "\x1b[94mab");
    assert_eq!(logo.render_line("a${c12}b", &mut carried), "\x1b[94mab");
    assert_eq!(logo.render_line("a${1}b", &mut carried), "\x1b[94mab");
    assert_eq!(logo.render_line("a${C1}b", &mut carried), "\x1b[94mab");
    assert_eq!(logo.render_line("a${cx}b", &mut carried), "\x1b[94mab");
    assert_eq!(logo.render_line("a${}b", &mut carried), "\x1b[94mab");
    assert_eq!(logo.render_line("a${lost", &mut carried), "\x1b[94ma");
    assert_eq!(carried, Some(Color::Blue));
}

#[test]
fn bare_dollar_is_shown() {
    let logo = logo_with(two_colors());
    let mut carried = None;
    assert_eq!(logo.render_line("$", &mut carried), "$");
    assert_eq!(logo.render_line("a$", &mut carried), "a$");
    assert_eq!(logo.render_line("$x$ y", &mut carried), "$x$ y");
    assert_eq!(logo.render_line("$$1z", &mut carried), "$\x1b[91mz");
    assert_eq!(carried, Some(Color::Red));
}

#[test]
fn colour_is_carried_until_another_placeholder() {
    let mut colors = Palette::new();
    colors.insert("$1", Color::Green);
    colors.insert("$2", Color::Rgb { r: 1, g: 2, b: 3 });
    let logo = logo_with(colors);
    let mut carried = None;
    assert_eq!(logo.render_line("no colour yet", &mut carried), "no colour yet");
    assert_eq!(carried, None);
    assert_eq!(logo.render_line("a$1b", &mut carried), "a\x1b[92mb");
    assert_eq!(logo.render_line("c", &mut carried), "\x1b[92mc");
    assert_eq!(logo.render_line("d", &mut carried), "\x1b[92md");
    assert_eq!(logo.render_line("$2e", &mut carried), "\x1b[92m\x1b[38;2;1;2;3me");
    assert_eq!(logo.render_line("f", &mut carried), "\x1b[38;2;1;2;3mf");
    assert_eq!(carried, Some(Color::Rgb { r: 1, g: 2, b: 3 }));
}

#[test]
fn logo_encodes_colours_like_the_colour_itself() {
    let logo = logo_with(Palette::new());
    assert_eq!(logo.color_to_ansi(&Color::Cyan), "\x1b[96m");
    assert_eq!(logo.color_to_ansi(&Color::AnsiValue(33)), "\x1b[38;5;33m");
    assert_eq!(logo.color_to_ansi(&Color::Reset), "\x1b[0m");
}

#[test]
fn default_colours_are_the_eight_of_the_engine() {
    let colors = Logo::get_default_colors();
    assert_eq!(colors.len(), 8);
    assert_eq!(colors.get("$1"), Some(&Color::Cyan));
    assert_eq!(colors.get("$2"), Some(&Color::Blue));
    assert_eq!(colors.get("$3"), Some(&Color::Green));
    assert_eq!(colors.get("$4"), Some(&Color::Yellow));
    assert_eq!(colors.get("$5"), Some(&Color::Red));
    assert_eq!(colors.get("$6"), Some(&Color::Magenta));
    assert_eq!(colors.get("$7"), Some(&Color::White));
    assert_eq!(colors.get("$8"), Some(&Color::DarkGrey));
}

fn lines_of(logo: &Logo) -> Vec<&str> {
    logo.lines.iter().map(|l| l.as_str()).collect()
}

#[test]
fn source_within_the_limits_becomes_a_logo() {
    let content = "$1AAA\n$2BBB\n";
    let logo = Logo::from_source("nixos", content.len() as u64, content, &Palette::new()).unwrap();
    assert_eq!(lines_of(&logo), vec!["$1AAA", "$2BBB"]);
    assert_eq!(logo.colors.len(), 2);
    assert_eq!(logo.colors.get("$1"), Some(&Color::Blue));
    assert_eq!(logo.colors.get("$2"), Some(&Color::Cyan));
}

#[test]
fn source_takes_colours_by_name_and_overrides() {
    let mut overrides = Palette::new();
    overrides.insert("$2", Color::DarkGreen);
    overrides.insert("$5", Color::AnsiValue(9));
    let logo = Logo::from_source("Arch", 3, "abc", &overrides).unwrap();
    assert_eq!(lines_of(&logo), vec!["abc"]);
    assert_eq!(logo.colors.len(), 3);
    assert_eq!(logo.colors.get("$1"), Some(&Color::Cyan));
    assert_eq!(logo.colors.get("$2"), Some(&Color::DarkGreen));
    assert_eq!(logo.colors.get("$5"), Some(&Color::AnsiValue(9)));
    let unknown = Logo::from_source("my-own-logo", 0, "", &Palette::new()).unwrap();
    assert!(unknown.lines.is_empty());
    assert_eq!(unknown.colors.get("$1"), Some(&Color::White));
    assert_eq!(unknown.colors.get("$2"), Some(&Color::Grey));
    assert_eq!(unknown.colors.len(), 2);
}

#[test]
fn lines_split_like_the_standard_library() {
    let samples = vec![
        "",
        "\n",
        "a",
        "a\n",
        "a\nb",
        "a\n\nb\n",
        "a\r\nb\r\n",
        "a\r",
        "a\rb\n",
        "\r\n",
        "\r",
        "\n\n\n",
        "a\r\r\nb",
        "\r\n\r\n",
        "x\n\ry\n\r",
        "last line without end",
        "\u{e9}\u{4e16}\n\u{1f600}\r\n",
    ];
    for content in samples {
        let logo = Logo::from_source("x", content.len() as u64, content, &Palette::new()).unwrap();
        let expected: Vec<&str> = content.lines().collect();
        assert_eq!(lines_of(&logo), expected, "{:?}", content);
    }
}

#[test]
fn oversized_source_is_turned_down() {
    assert_eq!(
        Logo::from_source("x", 16385, "a", &Palette::new()).unwrap_err(),
        LogoError::TooLarge { size: 16385 }
    );
    assert!(Logo::from_source("x", 16384, "a", &Palette::new()).is_ok());
    assert_eq!(Logo::check_size(16384), Ok(()));
    assert_eq!(Logo::check_size(0), Ok(()));
    assert_eq!(
        Logo::check_size(16385),
        Err(LogoError::TooLarge { size: 16385 })
    );
    assert_eq!(
        Logo::check_size(u64::MAX),
        Err(LogoError::TooLarge { size: u64::MAX })
    );
    assert_eq!(
        LogoError::TooLarge { size: 20000 }.message(),
        "Logo file too large: 20000 bytes (max: 16384 bytes)"
    );
}

#[test]
fn escape_characters_are_turned_down() {
    let err = Logo::from_source("x", 10, "ab\x1b[31mcd", &Palette::new()).unwrap_err();
    assert_eq!(err, LogoError::EscapeSequences);
    assert_eq!(err.message(), "Logo file contains ANSI escape sequences");
    let err = Logo::from_source("x", 1, "\x1b", &Palette::new()).unwrap_err();
    assert_eq!(err, LogoError::EscapeSequences);
}

#[test]
fn too_many_lines_are_turned_down() {
    let hundred = "x\n".repeat(100);
    assert!(Logo::from_source("x", 200, &hundred, &Palette::new()).is_ok());
    let more = "x\n".repeat(101);
    let err = Logo::from_source("x", 202, &more, &Palette::new()).unwrap_err();
    assert_eq!(err, LogoError::TooManyLines { count: 101 });
    assert_eq!(err.message(), "Logo has too many lines: 101 (max: 100)");
}

#[test]
fn wide_line_is_named_with_its_number_and_width() {
    let wide = "a".repeat(201);
    let content = format!("short\n{}\nshort\n{}\n", wide, "b".repeat(300));
    let err = Logo::from_source("x", content.len() as u64, &content, &Palette::new()).unwrap_err();
    assert_eq!(err, LogoError::LineTooWide { line: 2, width: 201 });
    assert_eq!(err.message(), "Line 2 is too wide: 201 chars (max: 200)");
    let exact = "a".repeat(200);
    assert!(Logo::from_source("x", 200, &exact, &Palette::new()).is_ok());
}

#[test]
fn width_limit_counts_columns_not_bytes() {
    // 200 columns written with placeholders and multi-byte characters.
    let line = format!("$1{}${{c2}}{}", "\u{e9}".repeat(100), "x".repeat(100));
    assert!(Logo::from_source("x", line.len() as u64, &line, &Palette::new()).is_ok());
    let line = format!("$1{}${{c2}}{}", "\u{e9}".repeat(100), "x".repeat(101));
    assert_eq!(
        Logo::from_source("x", line.len() as u64, &line, &Palette::new()).unwrap_err(),
        LogoError::LineTooWide { line: 1, width: 201 }
    );
}

#[test]
fn limits_are_tried_in_their_order() {
    let wide_with_escape = format!("\x1b{}", "a".repeat(300));
    assert_eq!(
        Logo::from_source("x", 20000, &wide_with_escape, &Palette::new()).unwrap_err(),
        LogoError::TooLarge { size: 20000 }
    );
    assert_eq!(
        Logo::from_source("x", 301, &wide_with_escape, &Palette::new()).unwrap_err(),
        LogoError::EscapeSequences
    );
    let many_and_wide = format!("{}\n", "a".repeat(300)).repeat(101);
    assert_eq!(
        Logo::from_source("x", 1, &many_and_wide, &Palette::new()).unwrap_err(),
        LogoError::TooManyLines { count: 101 }
    );
}

#[test]
fn missing_logo_is_reported_by_name() {
    let err = LogoError::NotFound {
        name: "nixos".to_string(),
    };
    assert_eq!(err.message(), "Logo 'nixos' not found");
}
