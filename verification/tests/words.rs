use fastfetch_rs::words::{
    is_space_char, parse_number, split_words, strip_both, strip_prefixes, trim,
};

fn chars(s: &str) -> Vec<char> {
    s.chars().collect()
}

fn text(v: &Vec<char>) -> String {
    v.iter().collect()
}

const SAMPLES: [&str; 24] = [
    "",
    " ",
    "a",
    " a",
    "a ",
    "  a  b  ",
    "\t\n a\u{a0}b \r\n",
    "\u{3000}wide\u{3000}",
    "\u{2000}\u{200a}x\u{2028}y\u{2029}",
    "\u{85}\u{1680}z\u{202f}\u{205f}",
    "no-space",
    "   ",
    "one two  three\tfour\nfive",
    "\u{200b}zero-width-is-no-space\u{200b}",
    "\u{feff}bom",
    "MemTotal:       16384256 kB",
    "/dev/sda1 100 50 50 50% /",
    "\"quoted\"",
    "\"\"\"",
    "%%%",
    "12%%",
    "PRETTY_NAME=PRETTY_NAME=x",
    "a\u{b}b\u{c}c",
    "\u{1c}\u{1d}\u{1e}\u{1f}",
];

#[test]
fn blank_space_is_what_the_standard_library_calls_whitespace() {
    let mut code: u32 = 0;
    while code <= 0x10ffff {
        if let Some(c) = char::from_u32(code) {
            assert_eq!(is_space_char(c), c.is_whitespace(), "{:x}", code);
        }
        code += 1;
    }
}

#[test]
fn trimming_agrees_with_the_standard_library() {
    for s in SAMPLES {
        assert_eq!(text(&trim(&chars(s))), s.trim(), "{:?}", s);
    }
}

#[test]
fn words_agree_with_the_standard_library() {
    for s in SAMPLES {
        let found: Vec<String> = split_words(&chars(s)).iter().map(text).collect();
        let expected: Vec<&str> = s.split_whitespace().collect();
        assert_eq!(found, expected, "{:?}", s);
    }
}

#[test]
fn stripping_agrees_with_the_standard_library() {
    for s in SAMPLES {
        assert_eq!(text(&strip_both(&chars(s), '"')), s.trim_matches('"'), "{:?}", s);
        assert_eq!(text(&strip_both(&chars(s), ' ')), s.trim_matches(' '), "{:?}", s);
        assert_eq!(
            text(&strip_prefixes(&chars(s), &chars("PRETTY_NAME="))),
            s.trim_start_matches("PRETTY_NAME="),
            "{:?}",
            s
        );
        assert_eq!(
            text(&strip_prefixes(&chars(s), &chars(" "))),
            s.trim_start_matches(" "),
            "{:?}",
            s
        );
        assert_eq!(
            text(&strip_prefixes(&chars(s), &chars("%"))),
            s.trim_start_matches("%"),
            "{:?}",
            s
        );
    }
    assert_eq!(text(&strip_prefixes(&chars("abab-ab"), &chars("ab"))), "-ab");
    assert_eq!(text(&strip_prefixes(&chars("aaa"), &chars("aa"))), "a");
    assert_eq!(text(&strip_prefixes(&chars("abc"), &chars(""))), "abc");
}

#[test]
fn numbers_agree_with_the_standard_library() {
    let samples = [
        "",
        "0",
        "7",
        "007",
        "+7",
        "+",
        "++7",
        "-7",
        "-0",
        "7+",
        " 7",
        "7 ",
        "1_000",
        "12a",
        "a12",
        "1.5",
        "18446744073709551615",
        "18446744073709551616",
        "+18446744073709551615",
        "018446744073709551615",
        "99999999999999999999999",
        "000000000000000000000000000000001",
        "\u{663}",
        "16384256",
    ];
    for s in samples {
        assert_eq!(parse_number(&chars(s)), s.parse::<u64>().ok(), "{:?}", s);
    }
}
