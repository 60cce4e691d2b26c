use fastfetch_rs::sysinfo::SystemInfo;

fn with_floats(bytes: u64) -> String {
    let kib: f64 = 1024.0;
    let mib: f64 = kib * 1024.0;
    let gib: f64 = mib * 1024.0;
    let tib: f64 = gib * 1024.0;
    let value = bytes as f64;
    if value >= tib {
        format!("{:.2} TiB", value / tib)
    } else if value >= gib {
        format!("{:.2} GiB", value / gib)
    } else if value >= mib {
        format!("{:.2} MiB", value / mib)
    } else if value >= kib {
        format!("{:.2} KiB", value / kib)
    } else {
        format!("{} B", bytes)
    }
}

#[test]
fn plain_bytes_below_one_kibibyte() {
    assert_eq!(SystemInfo::format_bytes(0), "0 B");
    assert_eq!(SystemInfo::format_bytes(1), "1 B");
    assert_eq!(SystemInfo::format_bytes(512), "512 B");
    assert_eq!(SystemInfo::format_bytes(1023), "1023 B");
}

#[test]
fn unit_thresholds_are_inclusive() {
    assert_eq!(SystemInfo::format_bytes(1024), "1.00 KiB");
    assert_eq!(SystemInfo::format_bytes(1048575), "1024.00 KiB");
    assert_eq!(SystemInfo::format_bytes(1048576), "1.00 MiB");
    assert_eq!(SystemInfo::format_bytes(1073741823), "1024.00 MiB");
    assert_eq!(SystemInfo::format_bytes(1073741824), "1.00 GiB");
    assert_eq!(SystemInfo::format_bytes(1099511627775), "1024.00 GiB");
    assert_eq!(SystemInfo::format_bytes(1099511627776), "1.00 TiB");
}

#[test]
fn two_decimals_exact_values() {
    assert_eq!(SystemInfo::format_bytes(1536), "1.50 KiB");
    assert_eq!(SystemInfo::format_bytes(1500), "1.46 KiB");
    assert_eq!(SystemInfo::format_bytes(8 * 1073741824 + 536870912), "8.50 GiB");
    assert_eq!(SystemInfo::format_bytes(5 * 1099511627776), "5.00 TiB");
    assert_eq!(SystemInfo::format_bytes(u64::MAX), "16777216.00 TiB");
}

#[test]
fn halfway_quotients_go_to_the_even_hundredth() {
    // 1152 / 1024 = 1.125 and 1408 / 1024 = 1.375, both exactly halfway.
    assert_eq!(SystemInfo::format_bytes(1152), "1.12 KiB");
    assert_eq!(SystemInfo::format_bytes(1408), "1.38 KiB");
    assert_eq!(SystemInfo::format_bytes(1152), with_floats(1152));
    assert_eq!(SystemInfo::format_bytes(1408), with_floats(1408));
}

#[test]
fn agrees_with_floating_point_formatting_on_small_counts() {
    let mut bytes: u64 = 0;
    while bytes < 70000 {
        assert_eq!(SystemInfo::format_bytes(bytes), with_floats(bytes), "{}", bytes);
        bytes += 1;
    }
}

#[test]
fn agrees_with_floating_point_formatting_across_the_range() {
    let mut state: u64 = 0x9E3779B97F4A7C15;
    let mut round = 0;
    while round < 20000 {
        state ^= state << 13;
        state ^= state >> 7;
        state ^= state << 17;
        let shift = (round % 64) as u32;
        let bytes = state >> shift;
        assert_eq!(SystemInfo::format_bytes(bytes), with_floats(bytes), "{}", bytes);
        round += 1;
    }
}

#[test]
fn agrees_with_floating_point_formatting_near_powers_of_two() {
    let mut bit = 10;
    while bit < 64 {
        let base: u64 = 1u64 << bit;
        let mut delta: u64 = 0;
        while delta < 3000 {
            let below = base - 1 - delta;
            let above = base.wrapping_add(delta);
            assert_eq!(SystemInfo::format_bytes(below), with_floats(below), "{}", below);
            if above >= base {
                assert_eq!(SystemInfo::format_bytes(above), with_floats(above), "{}", above);
            }
            delta += 1;
        }
        bit += 1;
    }
    let mut delta: u64 = 0;
    while delta < 5000 {
        let bytes = u64::MAX - delta;
        assert_eq!(SystemInfo::format_bytes(bytes), with_floats(bytes), "{}", bytes);
        delta += 1;
    }
}
