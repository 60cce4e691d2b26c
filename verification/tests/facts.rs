use fastfetch_rs::disks::disk_rows;
use fastfetch_rs::facts::{
    address_from, extract_version, format_uptime, fs_type_of, gpu_text, host_text,
    interface_after, kernel_text, local_ip_text, memory_counts, memory_usage_text, os_id,
    os_text, packages_text, release_value, shell_text, shell_with_version, swap_text,
    uptime_text,
};

const OS_RELEASE: &str = "NAME=NixOS\nID=nixos\nVERSION=\"24.05 (Uakari)\"\nPRETTY_NAME=\"NixOS 24.05 (Uakari)\"\nID_LIKE=\"\"\n";

#[test]
fn release_values_lose_key_and_quotes() {
    assert_eq!(
        release_value(OS_RELEASE, "PRETTY_NAME="),
        Some("NixOS 24.05 (Uakari)".to_string())
    );
    assert_eq!(release_value(OS_RELEASE, "ID="), Some("nixos".to_string()));
    assert_eq!(release_value(OS_RELEASE, "NAME="), Some("NixOS".to_string()));
    assert_eq!(release_value(OS_RELEASE, "HOME_URL="), None);
    assert_eq!(release_value("", "ID="), None);
    assert_eq!(release_value(" ID=x\n", "ID="), None);
    assert_eq!(release_value("ID=first\nID=second\n", "ID="), Some("first".to_string()));
    assert_eq!(release_value("ID=ID=ID=x\n", "ID="), Some("x".to_string()));
    assert_eq!(release_value("ID=\"\"a\"b\"\"\r\n", "ID="), Some("a\"b".to_string()));
    assert_eq!(release_value("ID=", "ID="), Some("".to_string()));
}

#[test]
fn system_name_joins_pretty_name_and_machine() {
    assert_eq!(
        os_text(Some(OS_RELEASE), Some("x86_64\n")),
        "NixOS 24.05 (Uakari) x86_64"
    );
    assert_eq!(os_text(Some(OS_RELEASE), None), "NixOS 24.05 (Uakari) unknown");
    assert_eq!(os_text(Some("ID=x\n"), Some("x86_64")), "Unknown OS");
    assert_eq!(os_text(None, Some("x86_64")), "Unknown OS");
    assert_eq!(os_text(Some("PRETTY_NAME=A\n"), Some("  \t")), "A ");
}

#[test]
fn system_identifier_is_lowered() {
    assert_eq!(os_id(Some(OS_RELEASE)), "nixos");
    assert_eq!(os_id(Some("ID=\"Ubuntu\"\n")), "ubuntu");
    assert_eq!(os_id(Some("ID_LIKE=debian\n")), "unknown");
    assert_eq!(os_id(Some("VERSION_ID=1\nID=Arch\n")), "arch");
    assert_eq!(os_id(None), "unknown");
}

#[test]
fn host_shows_the_version_unless_empty_or_none() {
    assert_eq!(
        host_text(Some("ACME \n"), Some(" Board 9\n"), Some(" 1.0 \n")),
        "ACME Board 9 (1.0)"
    );
    assert_eq!(host_text(Some("ACME"), Some("Board"), Some("None\n")), "ACME Board");
    assert_eq!(host_text(Some("ACME"), Some("Board"), Some("  \n")), "ACME Board");
    assert_eq!(host_text(Some("ACME"), Some("Board"), None), "ACME Board");
    assert_eq!(host_text(None, None, None), "Unknown Unknown");
    assert_eq!(host_text(None, Some("B"), Some("none")), "Unknown B (none)");
    assert_eq!(host_text(Some(""), Some(""), Some("x")), "  (x)");
}

#[test]
fn kernel_is_the_trimmed_release() {
    assert_eq!(kernel_text(Some("6.1.0-nixos\n")), "Linux 6.1.0-nixos");
    assert_eq!(kernel_text(Some("")), "Linux ");
    assert_eq!(kernel_text(None), "Unknown");
}

#[test]
fn uptime_names_days_hours_and_minutes() {
    assert_eq!(format_uptime(0), "less than a minute");
    assert_eq!(format_uptime(59), "less than a minute");
    assert_eq!(format_uptime(60), "1 min");
    assert_eq!(format_uptime(119), "1 min");
    assert_eq!(format_uptime(120), "2 mins");
    assert_eq!(format_uptime(3600), "1 hour");
    assert_eq!(format_uptime(3660), "1 hour, 1 min");
    assert_eq!(format_uptime(7200 + 59 * 60 + 59), "2 hours, 59 mins");
    assert_eq!(format_uptime(86400), "1 day");
    assert_eq!(format_uptime(86400 + 60), "1 day, 1 min");
    assert_eq!(format_uptime(86400 + 3600), "1 day, 1 hour");
    assert_eq!(format_uptime(2 * 86400 + 23 * 3600 + 59 * 60), "2 days, 23 hours, 59 mins");
    assert_eq!(format_uptime(90061), "1 day, 1 hour, 1 min");
    assert_eq!(
        format_uptime(u64::MAX),
        "213503982334601 days, 7 hours"
    );
    assert_eq!(uptime_text(Some(3600)), "1 hour");
    assert_eq!(uptime_text(None), "unknown");
}

#[test]
fn packages_are_the_lines_of_the_listing() {
    assert_eq!(packages_text(Some("/nix/store/a\n/nix/store/b\n")), "2 (nix-system)");
    assert_eq!(packages_text(Some("/nix/store/a\n/nix/store/b")), "2 (nix-system)");
    assert_eq!(packages_text(Some("")), "0 (nix-system)");
    assert_eq!(packages_text(Some("\n\n\n")), "3 (nix-system)");
    assert_eq!(packages_text(None), "unknown");
}

#[test]
fn version_is_the_first_run_of_dotted_numbers() {
    assert_eq!(
        extract_version("GNU bash, version 5.2.15(1)-release (x86_64-pc-linux-gnu)"),
        Some("5.2.15".to_string())
    );
    assert_eq!(extract_version("zsh 5.9 (x86_64)"), Some("5.9".to_string()));
    assert_eq!(extract_version("fish, version 3.6.1.2"), Some("3.6.1".to_string()));
    assert_eq!(extract_version("1.2 and 3.4.5"), Some("1.2".to_string()));
    assert_eq!(extract_version("version 7"), None);
    assert_eq!(extract_version("7."), None);
    assert_eq!(extract_version(""), None);
}

#[test]
fn shell_shows_its_version_where_one_is_found() {
    assert_eq!(
        shell_text(Some("bash"), Some("GNU bash, version 5.2.15(1)-release")),
        "bash 5.2.15"
    );
    assert_eq!(shell_text(Some("bash"), Some("no version here")), "bash");
    assert_eq!(shell_text(Some("bash"), None), "bash");
    assert_eq!(shell_text(None, Some("5.2.15")), "unknown");
    assert_eq!(shell_text(None, None), "unknown");
    assert_eq!(shell_with_version(Some("zsh"), Some("5.9")), "zsh 5.9");
    assert_eq!(shell_with_version(Some("zsh"), None), "zsh");
    assert_eq!(shell_with_version(None, Some("5.9")), "unknown");
}

const ADDRESSES: &str = "1: lo: <LOOPBACK,UP,LOWER_UP> mtu 65536 qdisc noqueue state UNKNOWN\n    link/loopback 00:00:00:00:00:00 brd 00:00:00:00:00:00\n    inet 127.0.0.1/8 scope host lo\n       valid_lft forever preferred_lft forever\n2: eth0@if5: <BROADCAST,MULTICAST,UP,LOWER_UP> mtu 1500 qdisc noqueue state UP\n    link/ether 02:42:ac:11:00:02 brd ff:ff:ff:ff:ff:ff\n    inet 172.17.0.2/16 brd 172.17.255.255 scope global eth0\n       valid_lft forever preferred_lft forever\n3: wlan0: <BROADCAST> mtu 1500\n    inet 10.0.0.7/24 scope global wlan0\n";

#[test]
fn local_address_is_the_first_that_is_no_loopback() {
    assert_eq!(local_ip_text(Some(ADDRESSES)), "172.17.0.2/16 (eth0)");
    assert_eq!(local_ip_text(Some("")), "Unknown");
    assert_eq!(local_ip_text(None), "Unknown");
    assert_eq!(
        local_ip_text(Some("1: lo: <LOOPBACK>\n    inet 127.0.0.1/8 scope host lo\n")),
        "Unknown"
    );
    assert_eq!(local_ip_text(Some("    inet 10.0.0.7/24 scope global\n")), "Unknown");
    assert_eq!(
        local_ip_text(Some("7: br-lan: inet 10.1.2.3/8\n")),
        "10.1.2.3/8 (br-lan)"
    );
}

#[test]
fn interface_is_named_by_a_colon_among_the_first_bytes() {
    assert_eq!(interface_after("2: eth0@if5: <UP>", "lo"), "eth0");
    assert_eq!(interface_after("3: wlan0: <UP>", "lo"), "wlan0");
    assert_eq!(interface_after("    inet 10.0.0.7/24", "lo"), "lo");
    assert_eq!(interface_after(": starts with a colon", "lo"), "lo");
    assert_eq!(interface_after("123456789: x: y", "lo"), "x");
    assert_eq!(interface_after("1234567890: x: y", "lo"), "lo");
    // Nine bytes before the colon, but only in characters.
    assert_eq!(interface_after("12345678\u{e9}: x: y", "lo"), "lo");
    assert_eq!(interface_after("1234567\u{e9}: x: y", "lo"), "x");
    assert_eq!(interface_after("4:", "lo"), "");
    assert_eq!(interface_after("4: @if: z", "lo"), "");
    assert_eq!(interface_after("4:  dummy0  ", "lo"), "dummy0");
    assert_eq!(interface_after("link/ether 02:42", "lo"), "lo");
    assert_eq!(interface_after("", "lo"), "lo");
}

#[test]
fn address_needs_an_interface_and_no_loopback() {
    assert_eq!(
        address_from(Some("10.0.0.7/24"), "eth0"),
        Some("10.0.0.7/24 (eth0)".to_string())
    );
    assert_eq!(address_from(Some("127.0.0.1/8"), "lo"), None);
    assert_eq!(address_from(Some("127.1.2.3/8"), "eth0"), None);
    assert_eq!(
        address_from(Some("12.7.0.1/8"), "eth0"),
        Some("12.7.0.1/8 (eth0)".to_string())
    );
    assert_eq!(address_from(Some("10.0.0.7/24"), ""), None);
    assert_eq!(address_from(None, "eth0"), None);
}

#[test]
fn graphics_device_is_the_third_field_of_its_line() {
    let listing = "00:00.0 Host bridge: Intel Corporation Device 1234\n00:02.0 VGA compatible controller: Intel Corporation UHD Graphics 620 (rev 07)\n01:00.0 3D controller: NVIDIA Corporation GP108M\n";
    assert_eq!(
        gpu_text(Some(listing)),
        "Intel Corporation UHD Graphics 620 (rev 07)"
    );
    assert_eq!(gpu_text(Some("00:02.0 Display controller: A: B\n")), "A");
    assert_eq!(
        gpu_text(Some("VGA without colons\n01:00.0 3D controller: NVIDIA\n")),
        "NVIDIA"
    );
    assert_eq!(gpu_text(Some("00:02.0 VGA\n")), "Unknown GPU");
    assert_eq!(gpu_text(Some("00:02.0 vga controller: lower case\n")), "Unknown GPU");
    assert_eq!(gpu_text(Some("")), "Unknown GPU");
    assert_eq!(gpu_text(None), "Unknown GPU");
}

const MEMINFO: &str = "MemTotal:       16384256 kB\nMemFree:         1000000 kB\nMemAvailable:    8192128 kB\nSwapCached:            0 kB\nSwapTotal:       2097148 kB\nSwapFree:        2097148 kB\n";

#[test]
fn swap_is_disabled_or_unknown() {
    assert_eq!(swap_text(Some(MEMINFO)), "Unknown");
    assert_eq!(swap_text(Some("SwapTotal:       0 kB\n")), "Disabled");
    assert_eq!(swap_text(Some("SwapTotal:\n")), "Disabled");
    assert_eq!(swap_text(Some("SwapTotal: many kB\n")), "Disabled");
    assert_eq!(swap_text(Some("SwapTotal: 0 kB\nSwapTotal: 5 kB\n")), "Disabled");
    assert_eq!(swap_text(Some("MemTotal: 5 kB\n")), "Disabled");
    assert_eq!(swap_text(Some("")), "Disabled");
    assert_eq!(swap_text(None), "Unknown");
}

#[test]
fn memory_counts_are_the_last_that_are_reported() {
    assert_eq!(memory_counts(MEMINFO), (16384256, 8192128));
    assert_eq!(memory_counts(""), (0, 0));
    assert_eq!(memory_counts("MemTotal: 5 kB\nMemTotal: 7 kB\n"), (7, 0));
    assert_eq!(memory_counts("MemTotal: 5 kB\nMemTotal:\n"), (5, 0));
    assert_eq!(memory_counts("MemTotal: 5 kB\nMemTotal: x kB\n"), (0, 0));
    assert_eq!(memory_counts("MemAvailable: +3\nMemTotal:9\n"), (0, 3));
    assert_eq!(memory_counts(" MemTotal: 5 kB\n"), (0, 0));
    assert_eq!(
        memory_counts("MemTotal: 18446744073709551616 kB\nMemAvailable: 18446744073709551615\n"),
        (0, 18446744073709551615)
    );
}

#[test]
fn memory_usage_shows_used_bytes_and_total_in_gibibytes() {
    assert_eq!(
        memory_usage_text(16384256, 8192128),
        Some("7.81 GiB / 15.63 GiB".to_string())
    );
    assert_eq!(
        memory_usage_text(16384256, 8192128).unwrap(),
        format!(
            "{} / {:.2} GiB",
            "7.81 GiB",
            16384256u64 as f64 / 1024.0 / 1024.0
        )
    );
    assert_eq!(memory_usage_text(1024, 1024), Some("0 B / 0.00 GiB".to_string()));
    assert_eq!(memory_usage_text(2048, 1), Some("2.00 MiB / 0.00 GiB".to_string()));
    assert_eq!(memory_usage_text(0, 0), None);
    assert_eq!(memory_usage_text(5, 0), None);
    assert_eq!(memory_usage_text(0, 5), None);
    assert_eq!(memory_usage_text(5, 6), None);
    assert_eq!(memory_usage_text(u64::MAX, 1), None);
    // The most memory in use whose bytes still fit in 64 bits.
    let most = u64::MAX / 1024 + 1;
    assert_eq!(
        memory_usage_text(most, 1),
        Some("16777216.00 TiB / 17179869184.00 GiB".to_string())
    );
    assert_eq!(memory_usage_text(most + 1, 1), None);
}

#[test]
fn total_memory_agrees_with_floating_point_formatting() {
    let mut state: u64 = 0x2545F4914F6CDD1D;
    let mut round = 0;
    while round < 5000 {
        state ^= state << 13;
        state ^= state >> 7;
        state ^= state << 17;
        let total = (state >> (round % 50)) | 1;
        let text = memory_usage_text(total, total).unwrap();
        let expected = format!("0 B / {:.2} GiB", total as f64 / 1024.0 / 1024.0);
        assert_eq!(text, expected, "{}", total);
        round += 1;
    }
}

const MOUNTS: &str = "/dev/sda2 / ext4 rw,relatime 0 0\nproc /proc proc rw 0 0\n/dev/sda3 /home btrfs rw 0 0\n/dev/sda3 /data btrfs rw 0 0\n/dev/sdb1 /mnt/usb vfat rw 0 0\nshort line\n";

#[test]
fn file_system_kind_is_the_third_word_of_its_line() {
    assert_eq!(fs_type_of(Some(MOUNTS), "/"), "ext4");
    assert_eq!(fs_type_of(Some(MOUNTS), "/home"), "btrfs");
    assert_eq!(fs_type_of(Some(MOUNTS), "/mnt/usb"), "vfat");
    assert_eq!(fs_type_of(Some(MOUNTS), "/mnt"), "unknown");
    assert_eq!(fs_type_of(Some(MOUNTS), "line"), "unknown");
    assert_eq!(fs_type_of(Some("a /x one\nb /x two\n"), "/x"), "one");
    assert_eq!(fs_type_of(Some(""), "/"), "unknown");
    assert_eq!(fs_type_of(None, "/"), "unknown");
}

fn rows(found: &[(&str, &str, u32)]) -> Vec<(String, String, u32)> {
    found
        .iter()
        .map(|(a, b, c)| (a.to_string(), b.to_string(), *c))
        .collect()
}

const REPORT: &str = "Filesystem       1B-blocks        Used   Available Use% Mounted on\n/dev/sda3      10737418240  5368709120  5368709120  50% /home\ntmpfs            1000000      0     1000000   0% /run\n/dev/sda3      10737418240  5368709120  5368709120  50% /data\n/dev/sdb1       1048576      1024     1047552   1% /mnt/usb\n/dev/sda2      21474836480  2147483648 19327352832  10% /\n/dev/sda1        536870912   1048576   535822336   1% /boot\nnone              1024         0       1024   0% /none\nshort line\n/dev/sdc1       oops      nope     1 many% /mnt/odd\n";

#[test]
fn disks_are_filtered_and_shown_root_first() {
    assert_eq!(
        disk_rows(Some(REPORT), Some(MOUNTS)),
        rows(&[
            ("/", "2.00 GiB / 20.00 GiB - ext4", 10),
            ("/home", "5.00 GiB / 10.00 GiB - btrfs", 50),
            ("/mnt/odd", "0 B / 0 B - unknown", 0),
            ("/mnt/usb", "1.00 KiB / 1.00 MiB - vfat", 1),
        ])
    );
}

#[test]
fn disks_without_a_report_are_one_unknown_root() {
    assert_eq!(disk_rows(None, Some(MOUNTS)), rows(&[("/", "Unknown", 0)]));
    assert_eq!(disk_rows(Some(""), None), rows(&[("/", "Unknown", 0)]));
    assert_eq!(
        disk_rows(Some("/dev/sda2 1 1 1 1% /\n"), None),
        rows(&[("/", "Unknown", 0)])
    );
    assert_eq!(
        disk_rows(Some("heading\ntmpfs 1 1 1 1% /run\n"), None),
        rows(&[("/", "Unknown", 0)])
    );
}

#[test]
fn disks_follow_the_rules_of_what_is_shown() {
    let report = "heading\n/dev/a 1 1 1 1% /dev/shm\n/dev/a 1 1 1 1% /proc/x\n/dev/a 1 1 1 1% /sys\n/dev/a 1 1 1 1% /tmpfiles\n/dev/a 1 1 1 1% /boot/efi\n/dev/a 1 1 1 1% /boot2\noverlayfs 1 1 1 1% /\nefivarfs 1 1 1 1% /\nrootfs 1 1 1 1% /\nrootfs 1 1 1 1% /mnt\n/devices 1 1 1 1% /x\n/dev/b 1024 2048 1 7%% /a b\n";
    assert_eq!(
        disk_rows(Some(report), None),
        rows(&[
            ("/", "1 B / 1 B - unknown", 1),
            ("/a", "2.00 KiB / 1.00 KiB - unknown", 7),
            ("/boot2", "1 B / 1 B - unknown", 1),
        ])
    );
}

#[test]
fn disks_with_the_same_place_keep_the_order_of_the_report() {
    let report = "heading\n/dev/b 1 1 1 2% /x\n/dev/a 1 1 1 1% /x\n/dev/c 1 1 1 3% /\n/dev/d 1 1 1 4% /\n/dev/e 1 1 1 5% /a\n";
    assert_eq!(
        disk_rows(Some(report), None),
        rows(&[
            ("/", "1 B / 1 B - unknown", 3),
            ("/", "1 B / 1 B - unknown", 4),
            ("/a", "1 B / 1 B - unknown", 5),
            ("/x", "1 B / 1 B - unknown", 2),
            ("/x", "1 B / 1 B - unknown", 1),
        ])
    );
}

#[test]
fn disk_order_agrees_with_a_stable_sort() {
    let mounts = ["/z", "/a", "/", "/m/n", "/m", "/a b", "/A", "/\u{e9}", "/a", "/zz", "/0", "/m-1"];
    let mut report = String::from("heading\n");
    let mut expected: Vec<(String, String, u32)> = Vec::new();
    for (i, m) in mounts.iter().enumerate() {
        if m.contains(' ') {
            continue;
        }
        report.push_str(&format!("/dev/d{} 1 1 1 {}% {}\n", i, i, m));
        expected.push((m.to_string(), "1 B / 1 B - unknown".to_string(), i as u32));
    }
    expected.sort_by(|a, b| {
        let a_root = a.0 == "/";
        let b_root = b.0 == "/";
        b_root.cmp(&a_root).then_with(|| a.0.cmp(&b.0))
    });
    assert_eq!(disk_rows(Some(&report), None), expected);
}

#[test]
fn percentages_beyond_32_bits_count_as_zero() {
    let report = "heading\n/dev/a 1 1 1 4294967295% /a\n/dev/b 1 1 1 4294967296% /b\n/dev/c 1 1 1 +5%%% /c\n/dev/d 1 1 1 %5 /d\n";
    assert_eq!(
        disk_rows(Some(report), None),
        rows(&[
            ("/a", "1 B / 1 B - unknown", 4294967295),
            ("/b", "1 B / 1 B - unknown", 0),
            ("/c", "1 B / 1 B - unknown", 5),
            ("/d", "1 B / 1 B - unknown", 0),
        ])
    );
}
