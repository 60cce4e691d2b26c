//! The disks of the panel: the rows that the report of the file systems
//! gives, and the order in which they are shown.

use crate::facts::{fs_type_of, fs_type_text_of, opt_text};
use crate::logo::{lines_of, split_lines, texts_of};
use crate::order::{place, precedes, Place};
use crate::sysinfo::{bytes_text, SystemInfo};
use crate::text::{chars_of, push_str, same_chars, string_of};
use crate::words::{
    has_prefix, parse_number, parsed_number, split_words, starts_with, texts, without_trailing,
    words,
};
use vstd::prelude::*;

verus! {

/// What the row of a disk holds: where it is mounted, how much of it is
/// used, and the percentage used.
pub struct DiskRow {
    pub mount: Seq<char>,
    pub usage: Seq<char>,
    pub percent: u32,
}

/// What a row holds.
pub open spec fn row_of(disk: (String, String, u32)) -> DiskRow {
    DiskRow { mount: disk.0@, usage: disk.1@, percent: disk.2 }
}

/// What the rows of a list hold.
pub open spec fn rows_of(disks: Seq<(String, String, u32)>) -> Seq<DiskRow> {
    Seq::new(disks.len(), |i: int| row_of(disks[i]))
}

/// Whether a file system is left out for being none of a disk: one of the
/// system's own trees, a boot partition, or a device that is no disk.
pub open spec fn is_special(device: Seq<char>, mount: Seq<char>) -> bool {
    ||| starts_with(mount, "/dev"@)
    ||| starts_with(mount, "/proc"@)
    ||| starts_with(mount, "/sys"@)
    ||| starts_with(mount, "/run"@)
    ||| starts_with(mount, "/tmp"@)
    ||| mount == "/boot"@
    ||| mount == "/boot/efi"@
    ||| starts_with(device, "tmpfs"@)
    ||| starts_with(device, "devtmpfs"@)
    ||| starts_with(device, "overlay"@)
    ||| device == "efivarfs"@
    ||| device == "none"@
}

/// Whether a file system is shown: it is not special, and it is on a
/// device or is the root.
pub open spec fn is_shown(device: Seq<char>, mount: Seq<char>) -> bool {
    !is_special(device, mount) && (starts_with(device, "/dev/"@) || mount == "/"@)
}

/// The number that `word` writes, 0 if it writes none.
pub open spec fn number_or_zero(word: Seq<char>) -> u64 {
    match parsed_number(word) {
        Some(v) => v,
        None => 0,
    }
}

/// The percentage that `word` writes before its percent signs, 0 if it
/// writes none that fits in 32 bits.
pub open spec fn percent_in(word: Seq<char>) -> u32 {
    match parsed_number(without_trailing(word, '%')) {
        Some(v) => if v <= u32::MAX {
            v as u32
        } else {
            0
        },
        None => 0,
    }
}

/// The usage of a disk: bytes used and bytes in all, for people, and the
/// kind of file system.
pub open spec fn usage_text(used: u64, total: u64, kind: Seq<char>) -> Seq<char> {
    bytes_text(used as nat) + " / "@ + bytes_text(total as nat) + " - "@ + kind
}

/// The row that a line of the report gives, where `parts` are its words
/// and `kind` is the kind of its file system.
pub open spec fn row_in(parts: Seq<Seq<char>>, kind: Seq<char>) -> DiskRow {
    DiskRow {
        mount: parts[5],
        usage: usage_text(number_or_zero(parts[2]), number_or_zero(parts[1]), kind),
        percent: percent_in(parts[4]),
    }
}

/// The rows that the lines from line `i` on give, where `seen` are the
/// devices with a btrfs file system that gave a row before. A line gives a
/// row if it has six words or more and its file system is shown; a device
/// with a btrfs file system gives one row only.
pub open spec fn scan_disks(
    lines: Seq<Seq<char>>,
    mounts: Option<Seq<char>>,
    i: int,
    seen: Seq<Seq<char>>,
) -> Seq<DiskRow>
    decreases lines.len() - i,
{
    if i < 0 || i >= lines.len() {
        Seq::empty()
    } else {
        let parts = words(lines[i]);
        if parts.len() >= 6 && is_shown(parts[0], parts[5]) {
            let kind = fs_type_text_of(mounts, parts[5]);
            if kind == "btrfs"@ && seen.contains(parts[0]) {
                scan_disks(lines, mounts, i + 1, seen)
            } else {
                let seen_now = if kind == "btrfs"@ {
                    seen.push(parts[0])
                } else {
                    seen
                };
                seq![row_in(parts, kind)] + scan_disks(lines, mounts, i + 1, seen_now)
            }
        } else {
            scan_disks(lines, mounts, i + 1, seen)
        }
    }
}

/// Whether a disk mounted at `a` is shown before one mounted at `b`: the
/// root before all others, the others in the order of their mount points.
pub open spec fn comes_before(a: Seq<char>, b: Seq<char>) -> bool {
    if a == "/"@ {
        b != "/"@
    } else {
        b != "/"@ && precedes(a, b)
    }
}

/// The first position from `from` on whose row is shown behind a disk
/// mounted at `mount`; the number of rows if there is none.
pub open spec fn place_from(rows: Seq<DiskRow>, mount: Seq<char>, from: int) -> int
    decreases rows.len() - from,
{
    if from < 0 || from >= rows.len() {
        rows.len() as int
    } else if comes_before(mount, rows[from].mount) {
        from
    } else {
        place_from(rows, mount, from + 1)
    }
}

/// `place_from` stays within the rows.
pub proof fn lemma_place_from(rows: Seq<DiskRow>, mount: Seq<char>, from: int)
    requires
        0 <= from <= rows.len(),
    ensures
        from <= place_from(rows, mount, from) <= rows.len(),
    decreases rows.len() - from,
{
    if from < rows.len() && !comes_before(mount, rows[from].mount) {
        lemma_place_from(rows, mount, from + 1);
    }
}

/// The rows in the order in which they are shown: each row behind the
/// rows that are not shown behind it, so that of two disks with the same
/// place the one reported first stays first.
pub open spec fn arranged(rows: Seq<DiskRow>) -> Seq<DiskRow>
    decreases rows.len(),
{
    if rows.len() == 0 {
        Seq::empty()
    } else {
        let sorted = arranged(rows.drop_last());
        sorted.insert(place_from(sorted, rows.last().mount, 0), rows.last())
    }
}

/// Arranging keeps the number of rows.
pub proof fn lemma_arranged_len(rows: Seq<DiskRow>)
    ensures
        arranged(rows).len() == rows.len(),
    decreases rows.len(),
{
    if rows.len() > 0 {
        lemma_arranged_len(rows.drop_last());
        lemma_place_from(arranged(rows.drop_last()), rows.last().mount, 0);
    }
}

/// The row that stands for all disks where none is reported.
pub open spec fn unknown_row() -> DiskRow {
    DiskRow { mount: "/"@, usage: "Unknown"@, percent: 0 }
}

/// The rows of the disks for the panel, from the report of the file
/// systems, whose first line is a heading, and the table of mounts: the
/// rows that the report gives, in the order in which they are shown; one
/// row for an unknown root where it gives none, or where there is no
/// report.
pub open spec fn disk_rows_of(report: Option<Seq<char>>, mounts: Option<Seq<char>>) -> Seq<
    DiskRow,
> {
    let found = match report {
        Some(r) => arranged(scan_disks(lines_of(r), mounts, 1, Seq::empty())),
        None => Seq::empty(),
    };
    if found.len() == 0 {
        seq![unknown_row()]
    } else {
        found
    }
}

/// Tests whether a file system is shown.
fn shown(device: &Vec<char>, mount: &Vec<char>) -> (yes: bool)
    ensures
        yes == is_shown(device@, mount@),
{
    if has_prefix(mount, &chars_of("/dev")) || has_prefix(mount, &chars_of("/proc"))
        || has_prefix(mount, &chars_of("/sys")) || has_prefix(mount, &chars_of("/run"))
        || has_prefix(mount, &chars_of("/tmp")) {
        return false;
    }
    if same_chars(mount, &chars_of("/boot")) || same_chars(mount, &chars_of("/boot/efi")) {
        return false;
    }
    if has_prefix(device, &chars_of("tmpfs")) || has_prefix(device, &chars_of("devtmpfs"))
        || has_prefix(device, &chars_of("overlay")) {
        return false;
    }
    if same_chars(device, &chars_of("efivarfs")) || same_chars(device, &chars_of("none")) {
        return false;
    }
    has_prefix(device, &chars_of("/dev/")) || same_chars(mount, &chars_of("/"))
}

/// The number that `word` writes, 0 if it writes none.
fn number_of(word: &Vec<char>) -> (value: u64)
    ensures
        value == number_or_zero(word@),
{
    match parse_number(word) {
        Some(v) => v,
        None => 0,
    }
}

/// The percentage that `word` writes before its percent signs.
fn percent_of(word: &Vec<char>) -> (value: u32)
    ensures
        value == percent_in(word@),
{
    let n = word.len();
    let mut end: usize = n;
    proof {
        assert(word@.subrange(0, n as int) =~= word@);
    }
    while end > 0 && word[end - 1] == '%'
        invariant
            end <= n,
            n == word@.len(),
            without_trailing(word@, '%') == without_trailing(word@.subrange(0, end as int), '%'),
        decreases end,
    {
        proof {
            let part = word@.subrange(0, end as int);
            assert(part.drop_last() =~= word@.subrange(0, end - 1));
        }
        end -= 1;
    }
    proof {
        let part = word@.subrange(0, end as int);
        if end > 0 {
            assert(part.last() == word@[end - 1]);
        }
    }
    let bare = crate::text::slice_of(word, 0, end);
    match parse_number(&bare) {
        Some(v) => if v <= 0xffff_ffff {
            v as u32
        } else {
            0
        },
        None => 0,
    }
}

/// The row that a line of the report gives.
fn row_from(parts: &Vec<Vec<char>>, kind: &str) -> (disk: (String, String, u32))
    requires
        parts@.len() >= 6,
    ensures
        row_of(disk) == row_in(texts(parts@), kind@),
{
    let used = SystemInfo::format_bytes(number_of(&parts[2]));
    let total = SystemInfo::format_bytes(number_of(&parts[1]));
    let mut usage = chars_of(used.as_str());
    push_str(&mut usage, " / ");
    push_str(&mut usage, total.as_str());
    push_str(&mut usage, " - ");
    push_str(&mut usage, kind);
    let percent = percent_of(&parts[4]);
    proof {
        let all = texts(parts@);
        assert(all[1] == parts@[1]@ && all[2] == parts@[2]@ && all[4] == parts@[4]@ && all[5]
            == parts@[5]@);
        assert(usage@ =~= row_in(all, kind@).usage);
    }
    (string_of(&parts[5]), string_of(&usage), percent)
}

/// Tests whether `device` is among `seen`.
fn seen_before(seen: &Vec<Vec<char>>, device: &Vec<char>) -> (found: bool)
    ensures
        found == texts(seen@).contains(device@),
{
    let ghost all = texts(seen@);
    let mut i: usize = 0;
    while i < seen.len()
        invariant
            i <= seen@.len(),
            all == texts(seen@),
            forall|j: int| 0 <= j < i ==> all[j] != device@,
        decreases seen@.len() - i,
    {
        assert(all[i as int] == seen@[i as int]@);
        if same_chars(&seen[i], device) {
            return true;
        }
        i += 1;
    }
    proof {
        if all.contains(device@) {
            let k = choose|k: int| 0 <= k < all.len() && all[k] == device@;
            assert(all[k] != device@);
        }
    }
    false
}

/// Tests whether a disk mounted at `a` is shown before one mounted at `b`.
fn shown_before(a: &Vec<char>, b: &Vec<char>) -> (yes: bool)
    ensures
        yes == comes_before(a@, b@),
{
    let root = chars_of("/");
    if same_chars(a, &root) {
        !same_chars(b, &root)
    } else if same_chars(b, &root) {
        false
    } else {
        match place(a, b) {
            Place::Before => true,
            _ => false,
        }
    }
}

/// Puts `disk` into the arranged rows `sorted`, behind the rows that are
/// not shown behind it.
fn insert_row(sorted: &mut Vec<(String, String, u32)>, disk: (String, String, u32))
    ensures
        rows_of(final(sorted)@) == rows_of(old(sorted)@).insert(
            place_from(rows_of(old(sorted)@), disk.0@, 0),
            row_of(disk),
        ),
{
    let ghost rows = rows_of(sorted@);
    let mount = chars_of(disk.0.as_str());
    let n = sorted.len();
    let mut p: usize = 0;
    let mut stop = false;
    while p < n && !stop
        invariant
            p <= n,
            n == sorted@.len(),
            sorted@ == old(sorted)@,
            rows == rows_of(sorted@),
            mount@ == disk.0@,
            place_from(rows, mount@, 0) == place_from(rows, mount@, p as int),
            stop ==> p < n && comes_before(mount@, rows[p as int].mount),
        decreases n - p, (if stop { 0int } else { 1int }),
    {
        let other = chars_of(sorted[p].0.as_str());
        assert(rows[p as int].mount == other@);
        if shown_before(&mount, &other) {
            stop = true;
        } else {
            p += 1;
        }
    }
    sorted.insert(p, disk);
    proof {
        assert(rows_of(sorted@) =~= rows.insert(p as int, row_of(disk)));
    }
}

/// The rows in the order in which they are shown.
fn arrange(disks: Vec<(String, String, u32)>) -> (sorted: Vec<(String, String, u32)>)
    ensures
        rows_of(sorted@) == arranged(rows_of(disks@)),
{
    let ghost given = rows_of(disks@);
    let total = disks.len();
    let mut sorted: Vec<(String, String, u32)> = Vec::new();
    let mut rest = disks;
    let mut taken: Vec<(String, String, u32)> = Vec::new();
    // The rows are taken from the end, so they are first turned round.
    while rest.len() > 0
        invariant
            rows_of(taken@).len() + rows_of(rest@).len() == given.len(),
            forall|k: int|
                0 <= k < rest@.len() ==> (#[trigger] rows_of(rest@)[k]) == given[k],
            forall|k: int|
                0 <= k < taken@.len() ==> (#[trigger] rows_of(taken@)[k]) == given[given.len() - 1
                    - k],
        decreases rest@.len(),
    {
        let ghost before_rest = rows_of(rest@);
        let ghost before_taken = rows_of(taken@);
        let n = rest.len();
        let disk = rest.remove(n - 1);
        proof {
            assert(row_of(disk) == before_rest[n - 1]);
            assert forall|k: int| 0 <= k < rest@.len() implies (#[trigger] rows_of(rest@)[k])
                == given[k] by {
                assert(rows_of(rest@)[k] == before_rest[k]);
            }
        }
        taken.push(disk);
        proof {
            assert forall|k: int| 0 <= k < taken@.len() implies (#[trigger] rows_of(taken@)[k])
                == given[given.len() - 1 - k] by {
                if k < taken@.len() - 1 {
                    assert(rows_of(taken@)[k] == before_taken[k]);
                }
            }
        }
    }
    proof {
        assert(rows_of(sorted@) =~= Seq::<DiskRow>::empty());
        assert(given.subrange(0, 0) =~= Seq::<DiskRow>::empty());
    }
    let mut done: usize = 0;
    while taken.len() > 0
        invariant
            done + taken@.len() == total,
            total == given.len(),
            rows_of(sorted@) == arranged(given.subrange(0, done as int)),
            forall|k: int|
                0 <= k < taken@.len() ==> (#[trigger] rows_of(taken@)[k]) == given[given.len() - 1
                    - k],
        decreases taken@.len(),
    {
        let ghost before_taken = rows_of(taken@);
        let n = taken.len();
        let disk = taken.remove(n - 1);
        proof {
            assert(row_of(disk) == before_taken[n - 1]);
            assert(row_of(disk) == given[done as int]);
            assert forall|k: int| 0 <= k < taken@.len() implies (#[trigger] rows_of(taken@)[k])
                == given[given.len() - 1 - k] by {
                assert(rows_of(taken@)[k] == before_taken[k]);
            }
            let part = given.subrange(0, done + 1);
            assert(part.drop_last() =~= given.subrange(0, done as int));
            assert(part.last() == given[done as int]);
        }
        insert_row(&mut sorted, disk);
        done += 1;
    }
    proof {
        assert(given.subrange(0, done as int) =~= given);
    }
    sorted
}

/// The rows that the lines of the report give, in the order of the
/// report.
fn collect_rows(lines: &Vec<String>, mounts: Option<&str>) -> (disks: Vec<(String, String, u32)>)
    ensures
        rows_of(disks@) == scan_disks(texts_of(lines@), opt_text(mounts), 1, Seq::empty()),
{
    let ghost all = texts_of(lines@);
    let mut disks: Vec<(String, String, u32)> = Vec::new();
    let mut seen: Vec<Vec<char>> = Vec::new();
    let btrfs = chars_of("btrfs");
    let mut i: usize = 1;
    proof {
        assert(rows_of(disks@) =~= Seq::<DiskRow>::empty());
        assert(texts(seen@) =~= Seq::<Seq<char>>::empty());
    }
    while i < lines.len()
        invariant
            1 <= i,
            all == texts_of(lines@),
            btrfs@ == "btrfs"@,
            rows_of(disks@) + scan_disks(all, opt_text(mounts), i as int, texts(seen@))
                == scan_disks(all, opt_text(mounts), 1, Seq::empty()),
        decreases lines@.len() - i,
    {
        let ghost before = rows_of(disks@);
        let ghost seen_before_now = texts(seen@);
        let line = chars_of(lines[i].as_str());
        assert(all[i as int] == line@);
        let parts = split_words(&line);
        proof {
            assert(parts@.len() == texts(parts@).len());
        }
        if parts.len() >= 6 {
            assert(texts(parts@)[0] == parts@[0]@ && texts(parts@)[5] == parts@[5]@);
            if shown(&parts[0], &parts[5]) {
                let mount = string_of(&parts[5]);
                let kind = fs_type_of(mounts, mount.as_str());
                let is_btrfs = same_chars(&chars_of(kind.as_str()), &btrfs);
                if !(is_btrfs && seen_before(&seen, &parts[0])) {
                    if is_btrfs {
                        let device = crate::text::slice_of(&parts[0], 0, parts[0].len());
                        proof {
                            assert(device@ =~= parts@[0]@);
                        }
                        seen.push(device);
                        proof {
                            assert(texts(seen@) =~= seen_before_now.push(parts@[0]@));
                        }
                    }
                    let disk = row_from(&parts, kind.as_str());
                    disks.push(disk);
                    proof {
                        let row = row_in(texts(parts@), kind@);
                        let rest = scan_disks(all, opt_text(mounts), i + 1, texts(seen@));
                        assert(rows_of(disks@) =~= before.push(row));
                        assert(before.push(row) + rest =~= before + (seq![row] + rest));
                    }
                }
            }
        }
        i += 1;
    }
    proof {
        assert(rows_of(disks@) + Seq::<DiskRow>::empty() =~= rows_of(disks@));
    }
    disks
}

/// The rows of the disks for the panel.
pub fn disk_rows(report: Option<&str>, mounts: Option<&str>) -> (disks: Vec<(String, String, u32)>)
    ensures
        rows_of(disks@) == disk_rows_of(opt_text(report), opt_text(mounts)),
{
    let mut disks: Vec<(String, String, u32)> = match report {
        Some(r) => {
            let lines = split_lines(&chars_of(r));
            arrange(collect_rows(&lines, mounts))
        },
        None => Vec::new(),
    };
    proof {
        assert(rows_of(disks@).len() == disks@.len());
        match report {
            Some(r) => {},
            None => {
                assert(rows_of(disks@) =~= Seq::<DiskRow>::empty());
            },
        }
    }
    if disks.len() == 0 {
        disks.push((string_of(&chars_of("/")), string_of(&chars_of("Unknown")), 0));
        proof {
            assert(rows_of(disks@) =~= seq![unknown_row()]);
        }
    }
    disks
}

} // verus!
