use fastfetch_rs::color::Color;
use fastfetch_rs::palette::Palette;
use fastfetch_rs::resolve::{get_logo_colors, palette_for_key, resolve, resolve_key};

#[test]
fn test_known_logos() {
    let test_cases = vec![
        ("nixos", 2),
        ("arch", 2),
        ("ubuntu", 2),
        ("debian", 2),
        ("fedora", 2),
        ("manjaro", 1),
        ("gentoo", 2),
        ("void", 2),
        ("alpine", 1),
        ("centos", 5),
        ("windows", 4),
        ("windows 11", 4),
        ("uwuntu", 3),
        ("xeroarch", 6),
    ];

    for (distro, expected_colors) in test_cases {
        let colors = get_logo_colors(distro);
        assert_eq!(
            colors.len(),
            expected_colors,
            "Expected {} colors for {}, got {}",
            expected_colors,
            distro,
            colors.len()
        );
    }
}

#[test]
fn test_color_keys() {
    let colors = get_logo_colors("arch");
    assert!(colors.contains_key("$1"));
    assert!(colors.contains_key("$2"));
    assert!(!colors.contains_key("$0"));
    assert!(!colors.contains_key("$10"));
}

#[test]
fn test_case_insensitive() {
    let colors_lower = get_logo_colors("nixos");
    let colors_upper = get_logo_colors("NIXOS");
    let colors_mixed = get_logo_colors("NixOS");

    assert_eq!(colors_lower.len(), colors_upper.len());
    assert_eq!(colors_lower.len(), colors_mixed.len());
}

#[test]
fn test_aliases() {
    let arch_colors = get_logo_colors("arch");
    let archlinux_colors = get_logo_colors("archlinux");
    let arch_linux_colors = get_logo_colors("arch-linux");

    assert_eq!(arch_colors.len(), archlinux_colors.len());
    assert_eq!(arch_colors.len(), arch_linux_colors.len());
}

#[test]
fn test_default_fallback() {
    let colors = get_logo_colors("unknown_distro_12345");
    assert_eq!(colors.len(), 2);
    assert_eq!(colors.get("$1"), Some(&Color::White));
    assert_eq!(colors.get("$2"), Some(&Color::Grey));
}

#[test]
fn test_ansi256_colors() {
    let uwuntu_colors = get_logo_colors("uwuntu");
    assert_eq!(uwuntu_colors.get("$1"), Some(&Color::AnsiValue(225)));
    assert_eq!(uwuntu_colors.get("$2"), Some(&Color::AnsiValue(206)));
    assert_eq!(uwuntu_colors.get("$3"), Some(&Color::AnsiValue(52)));

    let xeroarch_colors = get_logo_colors("xeroarch");
    assert_eq!(xeroarch_colors.len(), 6);
    assert_eq!(xeroarch_colors.get("$1"), Some(&Color::AnsiValue(50)));
}

#[test]
fn resolve_ignores_the_case_of_the_identifier() {
    let none = Palette::new();
    let lower = resolve("arch", &none);
    assert_eq!(resolve("Arch", &none), lower);
    assert_eq!(resolve("ARCH", &none), lower);
    assert_eq!(lower.get("$1"), Some(&Color::Cyan));
    assert_eq!(lower.get("$2"), Some(&Color::Cyan));
    assert_eq!(lower.len(), 2);
}

#[test]
fn uppercase_identifier_reaches_the_table() {
    let colors = get_logo_colors("NixOS");
    assert_eq!(colors.get("$1"), Some(&Color::Blue));
    assert_eq!(colors.get("$2"), Some(&Color::Cyan));
    assert_eq!(colors.len(), 2);
}

#[test]
fn names_are_matched_exactly_once_lowered() {
    // The table holds a few names with capitals; a lowered key never equals them.
    assert_eq!(palette_for_key("antiX"), palette_for_key("antix"));
    assert_eq!(palette_for_key("arch "), palette_for_key("no such system"));
    assert_eq!(palette_for_key("arc"), palette_for_key("no such system"));
    assert_eq!(palette_for_key(""), palette_for_key("no such system"));
}

#[test]
fn aliases_resolve_to_identical_palettes() {
    let none = Palette::new();
    let arch = resolve("arch", &none);
    assert_eq!(resolve("archlinux", &none), arch);
    assert_eq!(resolve("arch-linux", &none), arch);
    let windows = resolve("windows 11", &none);
    assert_eq!(resolve("windows server 2022", &none), windows);
    let pop = resolve("popos", &none);
    assert_eq!(resolve("pop_os", &none), pop);
    assert_eq!(resolve("pop!_os", &none), pop);
    assert_eq!(resolve("pop", &none), pop);
}

#[test]
fn unknown_identifier_resolves_to_white_and_grey() {
    let palette = resolve("totally-unknown-xyz", &Palette::new());
    assert_eq!(palette.len(), 2);
    assert_eq!(palette.get("$1"), Some(&Color::White));
    assert_eq!(palette.get("$2"), Some(&Color::Grey));
    assert_eq!(palette.get("$3"), None);
}

#[test]
fn overrides_merge_onto_the_resolved_palette() {
    let mut overrides = Palette::new();
    overrides.insert("$3", Color::Rgb { r: 255, g: 0, b: 0 });
    let palette = resolve("arch", &overrides);
    assert_eq!(palette.len(), 3);
    assert_eq!(palette.get("$1"), Some(&Color::Cyan));
    assert_eq!(palette.get("$2"), Some(&Color::Cyan));
    assert_eq!(palette.get("$3"), Some(&Color::Rgb { r: 255, g: 0, b: 0 }));
}

#[test]
fn overrides_overwrite_the_keys_they_name() {
    let mut overrides = Palette::new();
    overrides.insert("$1", Color::Red);
    overrides.insert("$9", Color::AnsiValue(7));
    let palette = resolve_key("nixos", &overrides);
    assert_eq!(palette.len(), 3);
    assert_eq!(palette.get("$1"), Some(&Color::Red));
    assert_eq!(palette.get("$2"), Some(&Color::Cyan));
    assert_eq!(palette.get("$9"), Some(&Color::AnsiValue(7)));
}

#[test]
fn entries_with_separate_inserts_keep_their_order() {
    let vnux = get_logo_colors("vnux");
    assert_eq!(vnux.len(), 5);
    assert_eq!(vnux.get("$1"), Some(&Color::AnsiValue(11)));
    assert_eq!(vnux.get("$2"), Some(&Color::AnsiValue(8)));
    assert_eq!(vnux.get("$3"), Some(&Color::AnsiValue(15)));
    assert_eq!(vnux.get("$4"), Some(&Color::Red));
    assert_eq!(vnux.get("$5"), Some(&Color::White));
    let pnm = get_logo_colors("pnm linux");
    assert_eq!(pnm.len(), 4);
    assert_eq!(pnm.get("$3"), Some(&Color::White));
    assert_eq!(pnm.get("$4"), Some(&Color::AnsiValue(202)));
}

#[test]
fn first_and_last_names_of_the_table_are_found() {
    let adelie = get_logo_colors("adelie");
    assert_eq!(adelie.len(), 3);
    assert_eq!(adelie.get("$1"), Some(&Color::Blue));
    assert_eq!(adelie.get("$2"), Some(&Color::White));
    assert_eq!(adelie.get("$3"), Some(&Color::Cyan));
    let zos = get_logo_colors("z/os");
    assert_eq!(zos.len(), 1);
    assert_eq!(zos.get("$1"), Some(&Color::Blue));
    let zorin = get_logo_colors("zorinos-linux");
    assert_eq!(zorin.len(), 1);
    assert_eq!(zorin.get("$1"), Some(&Color::Blue));
}

#[test]
fn palettes_compare_by_keys_and_colours() {
    let mut a = Palette::new();
    let mut b = Palette::new();
    assert!(a.is_empty());
    assert_eq!(a, b);
    a.insert("$1", Color::Red);
    assert_ne!(a, b);
    b.insert("$2", Color::Blue);
    b.insert("$1", Color::Red);
    a.insert("$2", Color::Green);
    assert_ne!(a, b);
    a.insert("$2", Color::Blue);
    assert_eq!(a, b);
    assert_eq!(a.len(), 2);
    assert!(!a.is_empty());
    let c = a.clone();
    assert_eq!(c, a);
    assert!(c.contains_key("$2"));
    assert!(!c.contains_key("$22"));
}
