use fastfetch_rs::color::Color;
use fastfetch_rs::parse::{get_color_overrides, parse_color, parse_color_lowered};

#[test]
fn test_parse_color_names() {
    assert_eq!(parse_color("red"), Some(Color::Red));
    assert_eq!(parse_color("RED"), Some(Color::Red));
    assert_eq!(parse_color("darkred"), Some(Color::DarkRed));
    assert_eq!(parse_color("brightred"), Some(Color::Red));
    assert_eq!(parse_color("yellow"), Some(Color::Yellow));
    assert_eq!(parse_color("darkyellow"), Some(Color::DarkYellow));
    assert_eq!(parse_color("cyan"), Some(Color::Cyan));
    assert_eq!(parse_color("orange"), Some(Color::AnsiValue(208)));
    assert_eq!(parse_color("pink"), Some(Color::AnsiValue(213)));
}

#[test]
fn test_parse_hex_colors() {
    assert_eq!(
        parse_color("#FF0000"),
        Some(Color::Rgb { r: 255, g: 0, b: 0 })
    );
    assert_eq!(
        parse_color("#00FF00"),
        Some(Color::Rgb { r: 0, g: 255, b: 0 })
    );
    assert_eq!(
        parse_color("#0000FF"),
        Some(Color::Rgb { r: 0, g: 0, b: 255 })
    );
    assert_eq!(
        parse_color("#123456"),
        Some(Color::Rgb {
            r: 18,
            g: 52,
            b: 86
        })
    );
}

#[test]
fn test_parse_ansi_colors() {
    assert_eq!(parse_color("0"), Some(Color::AnsiValue(0)));
    assert_eq!(parse_color("128"), Some(Color::AnsiValue(128)));
    assert_eq!(parse_color("255"), Some(Color::AnsiValue(255)));
}

#[test]
fn test_parse_invalid_colors() {
    assert_eq!(parse_color("invalid"), None);
    assert_eq!(parse_color("#GGG"), None);
    assert_eq!(parse_color("#12345"), None);
    assert_eq!(parse_color("256"), None);
}

#[test]
fn every_colour_name_is_known() {
    let names = vec![
        ("black", Color::Black),
        ("red", Color::Red),
        ("green", Color::Green),
        ("yellow", Color::Yellow),
        ("blue", Color::Blue),
        ("magenta", Color::Magenta),
        ("cyan", Color::Cyan),
        ("white", Color::White),
        ("darkred", Color::DarkRed),
        ("darkgreen", Color::DarkGreen),
        ("darkyellow", Color::DarkYellow),
        ("darkblue", Color::DarkBlue),
        ("darkmagenta", Color::DarkMagenta),
        ("darkcyan", Color::DarkCyan),
        ("darkgray", Color::DarkGrey),
        ("darkgrey", Color::DarkGrey),
        ("gray", Color::Grey),
        ("grey", Color::Grey),
        ("lightred", Color::Red),
        ("brightred", Color::Red),
        ("lightgreen", Color::Green),
        ("brightgreen", Color::Green),
        ("lightyellow", Color::Yellow),
        ("brightyellow", Color::Yellow),
        ("lightblue", Color::Blue),
        ("brightblue", Color::Blue),
        ("lightmagenta", Color::Magenta),
        ("brightmagenta", Color::Magenta),
        ("lightcyan", Color::Cyan),
        ("brightcyan", Color::Cyan),
        ("lightwhite", Color::White),
        ("brightwhite", Color::White),
        ("orange", Color::AnsiValue(208)),
        ("pink", Color::AnsiValue(213)),
        ("purple", Color::AnsiValue(141)),
        ("brown", Color::AnsiValue(130)),
        ("lime", Color::AnsiValue(118)),
        ("teal", Color::AnsiValue(51)),
        ("indigo", Color::AnsiValue(63)),
        ("violet", Color::AnsiValue(177)),
        ("gold", Color::AnsiValue(220)),
        ("silver", Color::AnsiValue(250)),
    ];
    for (name, color) in names {
        assert_eq!(parse_color(name), Some(color), "{}", name);
        assert_eq!(parse_color(&name.to_uppercase()), Some(color), "{}", name);
    }
}

#[test]
fn hex_literals_take_six_digits_in_either_case() {
    assert_eq!(
        parse_color("#abcdef"),
        Some(Color::Rgb { r: 171, g: 205, b: 239 })
    );
    assert_eq!(
        parse_color("#AbCdEf"),
        Some(Color::Rgb { r: 171, g: 205, b: 239 })
    );
    assert_eq!(parse_color("#0a0B0c"), Some(Color::Rgb { r: 10, g: 11, b: 12 }));
    assert_eq!(parse_color("#1234567"), None);
    assert_eq!(parse_color("#"), None);
    assert_eq!(parse_color("#12345g"), None);
    assert_eq!(parse_color("123456"), None);
    assert_eq!(parse_color("##12345"), None);
    assert_eq!(parse_color("#+1+2+3"), None);
    assert_eq!(parse_color("#12 456"), None);
    assert_eq!(parse_color("#\u{e9}1234"), None);
    assert_eq!(parse_color("#a\u{e9}123"), None);
}

#[test]
fn indexed_colours_are_bare_decimal_numbers() {
    assert_eq!(parse_color("7"), Some(Color::AnsiValue(7)));
    assert_eq!(parse_color("007"), Some(Color::AnsiValue(7)));
    assert_eq!(parse_color("0000000000000000000000255"), Some(Color::AnsiValue(255)));
    assert_eq!(parse_color("0000000000000000000000256"), None);
    assert_eq!(parse_color("99999999999999999999999999"), None);
    assert_eq!(parse_color(""), None);
    assert_eq!(parse_color("-1"), None);
    assert_eq!(parse_color("+5"), None);
    assert_eq!(parse_color(" 5"), None);
    assert_eq!(parse_color("5 "), None);
    assert_eq!(parse_color("1a"), None);
    assert_eq!(parse_color("12.0"), None);
    assert_eq!(parse_color("\u{663}"), None);
}

#[test]
fn the_name_is_read_from_the_lowered_form_only() {
    assert_eq!(parse_color_lowered("RED", "red"), Some(Color::Red));
    assert_eq!(parse_color_lowered("RED", "RED"), None);
    assert_eq!(parse_color_lowered("#FF0000", "#ff0000"), Some(Color::Rgb { r: 255, g: 0, b: 0 }));
    assert_eq!(parse_color_lowered("12", "blue"), Some(Color::Blue));
    assert_eq!(parse_color_lowered("12", "12"), Some(Color::AnsiValue(12)));
}

#[test]
fn overrides_take_each_valid_choice_under_its_key() {
    let choices = vec![
        Some("red".to_string()),
        None,
        Some("#FF0000".to_string()),
        Some("no-such-colour".to_string()),
        None,
        Some("200".to_string()),
        Some("256".to_string()),
        None,
        Some("BrightBlue".to_string()),
    ];
    let overrides = get_color_overrides(&choices);
    assert_eq!(overrides.rejected, vec![3, 6]);
    assert_eq!(overrides.palette.len(), 4);
    assert_eq!(overrides.palette.get("$1"), Some(&Color::Red));
    assert_eq!(overrides.palette.get("$2"), None);
    assert_eq!(
        overrides.palette.get("$3"),
        Some(&Color::Rgb { r: 255, g: 0, b: 0 })
    );
    assert_eq!(overrides.palette.get("$4"), None);
    assert_eq!(overrides.palette.get("$6"), Some(&Color::AnsiValue(200)));
    assert_eq!(overrides.palette.get("$7"), None);
    assert_eq!(overrides.palette.get("$9"), Some(&Color::Blue));
}

#[test]
fn no_choice_gives_no_override() {
    let none: Vec<Option<String>> = vec![None, None, None];
    let overrides = get_color_overrides(&none);
    assert!(overrides.palette.is_empty());
    assert!(overrides.rejected.is_empty());
    let empty: Vec<Option<String>> = Vec::new();
    let overrides = get_color_overrides(&empty);
    assert!(overrides.palette.is_empty());
    assert!(overrides.rejected.is_empty());
}

#[test]
fn choices_beyond_the_ninth_get_longer_keys() {
    let mut choices: Vec<Option<String>> = Vec::new();
    let mut i = 0;
    while i < 11 {
        choices.push(None);
        i += 1;
    }
    choices[9] = Some("green".to_string());
    choices[10] = Some("1".to_string());
    let overrides = get_color_overrides(&choices);
    assert_eq!(overrides.palette.len(), 2);
    assert_eq!(overrides.palette.get("$10"), Some(&Color::Green));
    assert_eq!(overrides.palette.get("$11"), Some(&Color::AnsiValue(1)));
}
