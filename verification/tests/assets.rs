use fastfetch_rs::assets::{candidate_paths, find_alias, list_available, search_patterns};

fn strings(names: &[&str]) -> Vec<String> {
    names.iter().map(|n| n.to_string()).collect()
}

#[test]
fn candidate_paths_in_their_order() {
    assert_eq!(
        candidate_paths("arch", None, None, None, None),
        strings(&[
            "src/logo/ascii/arch.txt",
            "logo/ascii/arch.txt",
            "/usr/share/fastfetch-rs/logos/arch.txt",
            "/usr/local/share/fastfetch-rs/logos/arch.txt",
        ])
    );
    assert_eq!(
        candidate_paths(
            "arch",
            Some("/logos"),
            Some("/home/u/.local/share"),
            Some("/opt/ff"),
            Some("/home/u")
        ),
        strings(&[
            "src/logo/ascii/arch.txt",
            "logo/ascii/arch.txt",
            "/logos/arch.txt",
            "/home/u/.local/share/fastfetch-rs/logos/arch.txt",
            "/opt/ff/share/fastfetch-rs/logos/arch.txt",
            "/usr/share/fastfetch-rs/logos/arch.txt",
            "/usr/local/share/fastfetch-rs/logos/arch.txt",
            "/home/u/.local/share/fastfetch-rs/logos/arch.txt",
        ])
    );
    assert_eq!(
        candidate_paths("x y", None, None, Some(""), None),
        strings(&[
            "src/logo/ascii/x y.txt",
            "logo/ascii/x y.txt",
            "/share/fastfetch-rs/logos/x y.txt",
            "/usr/share/fastfetch-rs/logos/x y.txt",
            "/usr/local/share/fastfetch-rs/logos/x y.txt",
        ])
    );
}

#[test]
fn search_patterns_end_with_the_program_directory() {
    assert_eq!(
        search_patterns(None),
        strings(&[
            "src/logo/ascii/*.txt",
            "logo/ascii/*.txt",
            "/usr/share/fastfetch-rs/logos/*.txt",
            "/usr/local/share/fastfetch-rs/logos/*.txt",
        ])
    );
    assert_eq!(
        search_patterns(Some("/opt/ff")),
        strings(&[
            "src/logo/ascii/*.txt",
            "logo/ascii/*.txt",
            "/usr/share/fastfetch-rs/logos/*.txt",
            "/usr/local/share/fastfetch-rs/logos/*.txt",
            "/opt/ff/share/fastfetch-rs/logos/*.txt",
        ])
    );
}

#[test]
fn listing_leaves_out_variants_and_repeats() {
    let stems = strings(&[
        "nixos",
        "arch",
        "arch_small",
        "debian",
        "arch",
        "ubuntu_old",
        "nixos_old",
        "nixos",
        "_small",
        "small",
        "old",
        "_old_",
        "",
    ]);
    assert_eq!(
        list_available(&stems),
        strings(&["", "_old_", "arch", "debian", "nixos", "old", "small"])
    );
    assert_eq!(list_available(&Vec::new()), Vec::<String>::new());
}

#[test]
fn listing_sorts_like_the_standard_library() {
    let stems = strings(&[
        "b", "a", "ab", "B", "", "a", "\u{e9}", "z", "\u{4e16}", "aa", "a\u{e9}", "~", "Z", "0",
        "\u{1f600}", "\u{7f}", "\u{80}", "\u{7ff}", "\u{800}", "\u{ffff}", "\u{10000}", "a b", "a-b",
        "a_b", "ab",
    ]);
    let mut expected = stems.clone();
    expected.sort();
    expected.dedup();
    assert_eq!(list_available(&stems), expected);
}

#[test]
fn unknown_identifier_is_recovered_by_another_unknown_name() {
    let candidates = strings(&["arch", "my-logo", "nixos", "another"]);
    assert_eq!(find_alias("not-a-system", &candidates, 0), Some(1));
    assert_eq!(find_alias("not-a-system", &candidates, 1), Some(1));
    assert_eq!(find_alias("not-a-system", &candidates, 2), Some(3));
    assert_eq!(find_alias("not-a-system", &candidates, 4), None);
    assert_eq!(find_alias("not-a-system", &candidates, 9), None);
}

#[test]
fn known_identifier_is_not_recovered() {
    let candidates = strings(&["archlinux", "arch-linux", "my-logo"]);
    assert_eq!(find_alias("arch", &candidates, 0), None);
    assert_eq!(find_alias("nixos", &candidates, 0), None);
}

#[test]
fn the_identifier_itself_is_no_alias() {
    let candidates = strings(&["mine", "Mine", "arch"]);
    assert_eq!(find_alias("mine", &candidates, 0), Some(1));
    let candidates = strings(&["mine", "arch"]);
    assert_eq!(find_alias("mine", &candidates, 0), None);
    assert_eq!(find_alias("mine", &Vec::new(), 0), None);
}
