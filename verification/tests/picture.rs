use fastfetch_rs::color::Color;
use fastfetch_rs::compose::{render, threshold_color_of, InfoLine};
use fastfetch_rs::logo::Logo;
use fastfetch_rs::palette::Palette;
use fastfetch_rs::resolve::resolve;
use fastfetch_rs::sysinfo::SystemInfo;

const STANDARD: &str =
    "\x1b[40m   \x1b[41m   \x1b[42m   \x1b[43m   \x1b[44m   \x1b[45m   \x1b[46m   \x1b[47m   \x1b[0m\n";
const BRIGHT: &str =
    "\x1b[100m   \x1b[101m   \x1b[102m   \x1b[103m   \x1b[104m   \x1b[105m   \x1b[106m   \x1b[107m   \x1b[0m\n";

fn footer(indent: usize) -> String {
    format!("\n{}{}{}{}", " ".repeat(indent), STANDARD, " ".repeat(indent), BRIGHT)
}

fn info(text: &str, is_percent: bool, percent: u32) -> InfoLine {
    InfoLine {
        text: text.to_string(),
        is_percent,
        percent,
    }
}

fn strings(lines: &[&str]) -> Vec<String> {
    lines.iter().map(|l| l.to_string()).collect()
}

#[test]
fn nixos_logo_beside_two_facts() {
    let palette = resolve("nixos", &Palette::new());
    let lines = strings(&["$1AAA", "$2BBB"]);
    let infos = vec![info("OS: Linux", false, 0), info("Mem: 1GiB (50%)", true, 50)];
    let expected = format!(
        "{}{}{}",
        "\x1b[1m\x1b[94m\x1b[94mAAA\x1b[0m  OS: Linux\x1b[0m\n",
        "\x1b[1m\x1b[94m\x1b[96mBBB\x1b[0m  Mem: 1GiB (\x1b[93m50%\x1b[0m)\x1b[0m\n",
        footer(5)
    );
    assert_eq!(render(&palette, &lines, &infos), expected);
}

#[test]
fn percentages_are_coloured_by_their_band() {
    assert_eq!(threshold_color_of(0), Color::Green);
    assert_eq!(threshold_color_of(10), Color::Green);
    assert_eq!(threshold_color_of(32), Color::Green);
    assert_eq!(threshold_color_of(33), Color::Yellow);
    assert_eq!(threshold_color_of(50), Color::Yellow);
    assert_eq!(threshold_color_of(65), Color::Yellow);
    assert_eq!(threshold_color_of(66), Color::Red);
    assert_eq!(threshold_color_of(90), Color::Red);
    assert_eq!(threshold_color_of(100), Color::Red);
    assert_eq!(threshold_color_of(u32::MAX), Color::Red);
}

fn one_row(percent: u32) -> String {
    let palette = Palette::new();
    let lines = strings(&["x"]);
    let text = format!("Disk: 1 GiB ({}%) - ext4", percent);
    let infos = vec![info(&text, true, percent)];
    let out = render(&palette, &lines, &infos);
    let end = out.find('\n').unwrap();
    out[..end].to_string()
}

#[test]
fn percent_rows_show_the_marker_of_their_band() {
    assert_eq!(
        one_row(10),
        "\x1b[1mx\x1b[0m  Disk: 1 GiB (\x1b[92m10%\x1b[0m) - ext4\x1b[0m"
    );
    assert_eq!(
        one_row(50),
        "\x1b[1mx\x1b[0m  Disk: 1 GiB (\x1b[93m50%\x1b[0m) - ext4\x1b[0m"
    );
    assert_eq!(
        one_row(90),
        "\x1b[1mx\x1b[0m  Disk: 1 GiB (\x1b[91m90%\x1b[0m) - ext4\x1b[0m"
    );
    assert_eq!(
        one_row(33),
        "\x1b[1mx\x1b[0m  Disk: 1 GiB (\x1b[93m33%\x1b[0m) - ext4\x1b[0m"
    );
    assert_eq!(
        one_row(66),
        "\x1b[1mx\x1b[0m  Disk: 1 GiB (\x1b[91m66%\x1b[0m) - ext4\x1b[0m"
    );
    assert_eq!(
        one_row(32),
        "\x1b[1mx\x1b[0m  Disk: 1 GiB (\x1b[92m32%\x1b[0m) - ext4\x1b[0m"
    );
    assert_eq!(
        one_row(65),
        "\x1b[1mx\x1b[0m  Disk: 1 GiB (\x1b[93m65%\x1b[0m) - ext4\x1b[0m"
    );
}

#[test]
fn the_last_bracket_is_the_one_recoloured() {
    let palette = Palette::new();
    let lines = strings(&["x"]);
    let infos = vec![info("Disk (/home): 2 (a) (7%) - btrfs (raid)", true, 7)];
    let out = render(&palette, &lines, &infos);
    assert!(out.starts_with(
        "\x1b[1mx\x1b[0m  Disk (/home): 2 (a) (7%) - btrfs (\x1b[92m7%\x1b[0m)\x1b[0m\n"
    ));
}

#[test]
fn percent_row_without_a_bracket_stays_as_it_is() {
    let palette = Palette::new();
    let lines = strings(&["x", "y"]);
    let infos = vec![info("Mem: half", true, 50), info("Mem: half (open", true, 50)];
    let expected = format!(
        "{}{}{}",
        "\x1b[1mx\x1b[0m  Mem: half\x1b[0m\n",
        "\x1b[1my\x1b[0m  Mem: half (open\x1b[0m\n",
        footer(3)
    );
    assert_eq!(render(&palette, &lines, &infos), expected);
}

#[test]
fn rows_are_padded_to_the_widest_logo_line() {
    let mut palette = Palette::new();
    palette.insert("$1", Color::Red);
    let lines = strings(&["$1ab", "abcdef", "${c1}"]);
    let infos = vec![info("one", false, 0), info("two", false, 0), info("three", false, 0)];
    let expected = format!(
        "{}{}{}{}",
        "\x1b[1m\x1b[91m\x1b[91mab\x1b[0m      one\x1b[0m\n",
        "\x1b[1m\x1b[91mabcdef\x1b[0m  two\x1b[0m\n",
        "\x1b[1m\x1b[91m\x1b[91m\x1b[0m        three\x1b[0m\n",
        footer(8)
    );
    assert_eq!(render(&palette, &lines, &infos), expected);
}

#[test]
fn panel_longer_than_the_logo_is_indented() {
    let palette = Palette::new();
    let lines = strings(&["abc"]);
    let infos = vec![
        info("one", false, 0),
        info("two (5%)", true, 5),
        info("three", false, 0),
    ];
    let expected = format!(
        "{}{}{}{}",
        "\x1b[1mabc\x1b[0m  one\x1b[0m\n",
        "     two (5%)\n",
        "     three\n",
        footer(5)
    );
    assert_eq!(render(&palette, &lines, &infos), expected);
}

#[test]
fn logo_longer_than_the_panel_is_shown_alone() {
    let mut palette = Palette::new();
    palette.insert("$2", Color::Blue);
    let lines = strings(&["ab", "$2cd", "ef"]);
    let infos = vec![info("one", false, 0)];
    let expected = format!(
        "{}{}{}{}",
        "\x1b[1mab\x1b[0m  one\x1b[0m\n",
        "\x1b[1m\x1b[94mcd\x1b[0m\n",
        "\x1b[1m\x1b[94mef\x1b[0m\n",
        footer(4)
    );
    assert_eq!(render(&palette, &lines, &infos), expected);
}

#[test]
fn unknown_facts_drop_their_row() {
    let mut palette = Palette::new();
    palette.insert("$1", Color::Red);
    palette.insert("$2", Color::Blue);
    let lines = strings(&["a", "$2b", "c", "d", "e"]);
    let infos = vec![
        info("OS: Linux", false, 0),
        info("GPU: unknown", false, 0),
        info("Host: Unknown", false, 0),
        info("Swap: None", false, 0),
        info("Shell: unknowable", false, 0),
        info("Below: unknown", false, 0),
        info("Below: known", false, 0),
    ];
    // The second logo line is dropped with its row, so its colour is never taken up.
    let expected = format!(
        "{}{}{}{}",
        "\x1b[1m\x1b[91ma\x1b[0m  OS: Linux\x1b[0m\n",
        "\x1b[1m\x1b[91me\x1b[0m  Shell: unknowable\x1b[0m\n",
        "   Below: known\n",
        footer(3)
    );
    assert_eq!(render(&palette, &lines, &infos), expected);
}

#[test]
fn unknown_markers_are_case_sensitive() {
    let palette = Palette::new();
    let lines: Vec<String> = Vec::new();
    let infos = vec![
        info("A: UNKNOWN", false, 0),
        info("B: none", false, 0),
        info("C:unknown", false, 0),
        info("D: Nonesuch", false, 0),
    ];
    let expected = format!("{}{}{}", "  A: UNKNOWN\n  B: none\n", "  C:unknown\n", footer(2));
    assert_eq!(render(&palette, &lines, &infos), expected);
}

#[test]
fn nothing_to_show_leaves_the_footer() {
    let palette = Palette::new();
    let lines: Vec<String> = Vec::new();
    let infos: Vec<InfoLine> = Vec::new();
    assert_eq!(render(&palette, &lines, &infos), footer(2));
}

fn facts() -> SystemInfo {
    SystemInfo {
        username: "ada".to_string(),
        hostname: "engine".to_string(),
        os: "NixOS 24.05 x86_64".to_string(),
        host: "Unknown".to_string(),
        kernel: "Linux 6.1".to_string(),
        uptime: "1 hour, 2 mins".to_string(),
        packages: "unknown".to_string(),
        shell: "bash 5.2".to_string(),
        display: "1280x800 @ 75 Hz in 15\"".to_string(),
        terminal: "/dev/pts/1".to_string(),
        cpu: "Some CPU (8) @ 3.00 GHz".to_string(),
        gpu: "Some GPU".to_string(),
        memory: "1.00 GiB / 2.00 GiB".to_string(),
        memory_percent: 50,
        swap: "Disabled".to_string(),
        disks: vec![
            ("/".to_string(), "1.00 GiB / 4.00 GiB - ext4".to_string(), 25),
            ("/data".to_string(), "Unknown".to_string(), 70),
        ],
        local_ip: "10.0.0.2/24 (eth0)".to_string(),
        locale: "en_US.UTF-8".to_string(),
    }
}

#[test]
fn panel_lines_carry_label_and_fact() {
    let lines = facts().info_lines("<L>");
    let texts: Vec<&str> = lines.iter().map(|l| l.text.as_str()).collect();
    assert_eq!(
        texts,
        vec![
            "<L>\x1b[1mada\x1b[0m<L>\x1b[1m@\x1b[0m<L>\x1b[1mengine\x1b[0m",
            "<L>----------\x1b[0m",
            "<L>\x1b[1mOS\x1b[0m: NixOS 24.05 x86_64",
            "<L>\x1b[1mHost\x1b[0m: Unknown",
            "<L>\x1b[1mKernel\x1b[0m: Linux 6.1",
            "<L>\x1b[1mUptime\x1b[0m: 1 hour, 2 mins",
            "<L>\x1b[1mPackages\x1b[0m: unknown",
            "<L>\x1b[1mShell\x1b[0m: bash 5.2",
            "<L>\x1b[1mDisplay\x1b[0m: 1280x800 @ 75 Hz in 15\"",
            "<L>\x1b[1mTerminal\x1b[0m: /dev/pts/1",
            "<L>\x1b[1mCPU\x1b[0m: Some CPU (8) @ 3.00 GHz",
            "<L>\x1b[1mGPU\x1b[0m: Some GPU",
            "<L>\x1b[1mMemory\x1b[0m: 1.00 GiB / 2.00 GiB (50%)",
            "<L>\x1b[1mSwap\x1b[0m: Disabled",
            "<L>\x1b[1mDisk (/)\x1b[0m: 1.00 GiB / 4.00 GiB (25%) - ext4",
            "<L>\x1b[1mDisk (/data)\x1b[0m: Unknown (70%) - unknown",
            "<L>\x1b[1mLocal IP (eth0)\x1b[0m: 10.0.0.2/24",
            "<L>\x1b[1mLocale\x1b[0m: en_US.UTF-8",
        ]
    );
    let flagged: Vec<(bool, u32)> = lines.iter().map(|l| (l.is_percent, l.percent)).collect();
    let mut expected = vec![(false, 0); 18];
    expected[12] = (true, 50);
    expected[14] = (true, 25);
    expected[15] = (true, 70);
    assert_eq!(flagged, expected);
}

#[test]
fn rule_is_as_long_as_the_title_in_bytes() {
    let mut info = facts();
    info.username = "\u{e9}".to_string();
    info.hostname = "".to_string();
    let lines = info.info_lines("");
    assert_eq!(lines[1].text, "---\x1b[0m");
    info.username = "".to_string();
    let lines = info.info_lines("");
    assert_eq!(lines[1].text, "-\x1b[0m");
}

#[test]
fn local_address_moves_its_interface_into_the_label() {
    let mut info = facts();
    info.local_ip = "Unknown".to_string();
    assert_eq!(info.info_lines("")[16].text, "\x1b[1mLocal IP\x1b[0m: Unknown");
    info.local_ip = "1.2.3.4/8 (wlan0))) ".to_string();
    assert_eq!(
        info.info_lines("")[16].text,
        "\x1b[1mLocal IP (wlan0))) )\x1b[0m: 1.2.3.4/8"
    );
    info.local_ip = "1.2.3.4/8 (wlan0)))".to_string();
    assert_eq!(
        info.info_lines("")[16].text,
        "\x1b[1mLocal IP (wlan0)\x1b[0m: 1.2.3.4/8"
    );
    info.local_ip = "a (b) (c)".to_string();
    assert_eq!(info.info_lines("")[16].text, "\x1b[1mLocal IP\x1b[0m: a (b) (c)");
    info.local_ip = " (".to_string();
    assert_eq!(info.info_lines("")[16].text, "\x1b[1mLocal IP ()\x1b[0m: ");
}

#[test]
fn disk_usage_splits_at_its_last_dash() {
    let mut info = facts();
    info.disks = vec![("/mnt/a - b".to_string(), "1 - 2 - zfs".to_string(), 3)];
    assert_eq!(
        info.info_lines("")[14].text,
        "\x1b[1mDisk (/mnt/a - b)\x1b[0m: 1 - 2 (3%) - zfs"
    );
    info.disks = Vec::new();
    assert_eq!(info.info_lines("").len(), 16);
}

#[test]
fn display_uses_the_second_colour_for_labels() {
    let logo = Logo {
        lines: strings(&["$1AA", "$2B"]),
        colors: resolve("nixos", &Palette::new()),
    };
    let out = facts().display(&logo);
    let rows: Vec<&str> = out.split('\n').collect();
    assert_eq!(
        rows[0],
        "\x1b[1m\x1b[94m\x1b[94mAA\x1b[0m  \x1b[96m\x1b[1mada\x1b[0m\x1b[96m\x1b[1m@\x1b[0m\x1b[96m\x1b[1mengine\x1b[0m\x1b[0m"
    );
    assert_eq!(
        rows[1],
        "\x1b[1m\x1b[94m\x1b[96mB\x1b[0m   \x1b[96m----------\x1b[0m\x1b[0m"
    );
    assert_eq!(rows[2], "    \x1b[96m\x1b[1mOS\x1b[0m: NixOS 24.05 x86_64");
    // Host and Packages are unknown and leave no row.
    assert_eq!(rows[3], "    \x1b[96m\x1b[1mKernel\x1b[0m: Linux 6.1");
    assert_eq!(rows[4], "    \x1b[96m\x1b[1mUptime\x1b[0m: 1 hour, 2 mins");
    assert_eq!(rows[5], "    \x1b[96m\x1b[1mShell\x1b[0m: bash 5.2");
    assert_eq!(rows.len(), 15 + 4);
    assert!(out.ends_with(&footer(4)));
}

#[test]
fn label_colour_falls_back_to_the_first_colour_then_to_cyan() {
    let info = facts();
    let mut colors = Palette::new();
    colors.insert("$1", Color::Magenta);
    let logo = Logo {
        lines: Vec::new(),
        colors,
    };
    assert!(info.display(&logo).starts_with("  \x1b[95m\x1b[1mada\x1b[0m"));
    let logo = Logo {
        lines: Vec::new(),
        colors: Palette::new(),
    };
    assert!(info.display(&logo).starts_with("  \x1b[96m\x1b[1mada\x1b[0m"));
    assert_eq!(info.color_to_ansi_for_label(&Color::Grey), "\x1b[37m");
    let mut colors = Palette::new();
    colors.insert("$3", Color::Magenta);
    colors.insert("$2", Color::AnsiValue(9));
    let logo = Logo {
        lines: Vec::new(),
        colors,
    };
    assert!(info.display(&logo).starts_with("  \x1b[38;5;9m\x1b[1mada\x1b[0m"));
}
