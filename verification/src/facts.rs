//! The facts of the panel as texts: what the files and commands of the
//! system report is read here into the texts that the panel shows.

use crate::logo::{lines_of, split_lines, texts_of};
use crate::resolve::{lowercase, lowercase_of};
use crate::sysinfo::{
    bytes_text, push_scaled, round_count, rounded_count, scaled_text, SystemInfo, MIB,
};
use crate::text::{
    chars_of, contains, decimal, find_char_from, has_substring, next_index_of, push_all,
    push_decimal, push_str, same_chars, slice_of, string_of,
};
use crate::words::{
    has_prefix, parse_number, parsed_number, split_words, starts_with, strip_both,
    strip_prefixes, texts, trim, trimmed, without_both, without_prefixes, words,
};
use vstd::prelude::*;
use vstd::utf8::encode_utf8;

verus! {

broadcast use vstd::slice::group_slice_axioms;

/// The text of an optional string.
pub open spec fn opt_text(s: Option<&str>) -> Option<Seq<char>> {
    match s {
        Some(t) => Some(t@),
        None => None,
    }
}

/// The text of an optional owned string.
pub open spec fn owned_text(s: Option<String>) -> Option<Seq<char>> {
    match s {
        Some(t) => Some(t@),
        None => None,
    }
}

/// Whether `i` is the position of the first of `lines` that starts with
/// `key`.
pub open spec fn is_first_with(lines: Seq<Seq<char>>, key: Seq<char>, i: int) -> bool {
    0 <= i < lines.len() && starts_with(lines[i], key) && forall|j: int|
        0 <= j < i ==> !starts_with(#[trigger] lines[j], key)
}

/// Whether one of `lines` starts with `key`.
pub open spec fn has_line_with(lines: Seq<Seq<char>>, key: Seq<char>) -> bool {
    exists|i: int| 0 <= i < lines.len() && starts_with(#[trigger] lines[i], key)
}

/// The first of `lines` that starts with `key`, if there is one.
pub open spec fn first_line_with(lines: Seq<Seq<char>>, key: Seq<char>) -> Option<Seq<char>> {
    if has_line_with(lines, key) {
        Some(lines[choose|i: int| is_first_with(lines, key, i)])
    } else {
        None
    }
}

/// The first line that starts with the key is the one that
/// `first_line_with` names.
pub proof fn lemma_first_line_with(lines: Seq<Seq<char>>, key: Seq<char>, i: int)
    requires
        is_first_with(lines, key, i),
    ensures
        first_line_with(lines, key) == Some(lines[i]),
{
    let c = choose|k: int| is_first_with(lines, key, k);
    assert(is_first_with(lines, key, c));
    if c < i {
        assert(!starts_with(lines[c], key));
    }
    if i < c {
        assert(!starts_with(lines[i], key));
    }
}

/// The value that a file of `KEY=value` lines gives under `key`, which
/// ends with the `=`: the first line that starts with the key, without the
/// key and without the quotation marks around the value.
pub open spec fn release_value_of(content: Seq<char>, key: Seq<char>) -> Option<Seq<char>> {
    match first_line_with(lines_of(content), key) {
        Some(line) => Some(without_both(without_prefixes(line, key), '"')),
        None => None,
    }
}

/// Finds the first of `lines` that starts with `key`.
pub fn find_line_with(lines: &Vec<String>, key: &str) -> (found: Option<Vec<char>>)
    ensures
        match found {
            Some(line) => first_line_with(texts_of(lines@), key@) == Some(line@),
            None => first_line_with(texts_of(lines@), key@) is None,
        },
{
    let head = chars_of(key);
    let ghost all = texts_of(lines@);
    let mut i: usize = 0;
    while i < lines.len()
        invariant
            i <= lines@.len(),
            head@ == key@,
            all == texts_of(lines@),
            forall|j: int| 0 <= j < i ==> !starts_with(#[trigger] all[j], key@),
        decreases lines@.len() - i,
    {
        let line = chars_of(lines[i].as_str());
        assert(all[i as int] == line@);
        if has_prefix(&line, &head) {
            proof {
                lemma_first_line_with(all, key@, i as int);
            }
            return Some(line);
        }
        i += 1;
    }
    proof {
        if has_line_with(all, key@) {
            let k = choose|k: int| 0 <= k < all.len() && starts_with(#[trigger] all[k], key@);
            assert(!starts_with(all[k], key@));
        }
    }
    None
}

/// The value that a file of `KEY=value` lines gives under `key`.
pub fn release_value(content: &str, key: &str) -> (value: Option<String>)
    ensures
        owned_text(value) == release_value_of(content@, key@),
{
    let lines = split_lines(&chars_of(content));
    match find_line_with(&lines, key) {
        Some(line) => {
            let bare = strip_prefixes(&line, &chars_of(key));
            let value = strip_both(&bare, '"');
            Some(string_of(&value))
        },
        None => None,
    }
}

/// The name of the system for the panel: the pretty name that the release
/// file gives and the machine type, trimmed, or `unknown` in its place;
/// `Unknown OS` without a release file or without a pretty name in it.
pub open spec fn os_text_of(os_release: Option<Seq<char>>, machine: Option<Seq<char>>) -> Seq<
    char,
> {
    let name = match os_release {
        Some(content) => release_value_of(content, "PRETTY_NAME="@),
        None => None,
    };
    match name {
        Some(n) => n + " "@ + (match machine {
            Some(m) => trimmed(m),
            None => "unknown"@,
        }),
        None => "Unknown OS"@,
    }
}

/// The name of the system for the panel.
pub fn os_text(os_release: Option<&str>, machine: Option<&str>) -> (text: String)
    ensures
        text@ == os_text_of(opt_text(os_release), opt_text(machine)),
{
    let name = match os_release {
        Some(content) => release_value(content, "PRETTY_NAME="),
        None => None,
    };
    match name {
        Some(n) => {
            let mut out = chars_of(n.as_str());
            push_str(&mut out, " ");
            match machine {
                Some(m) => {
                    let kept = trim(&chars_of(m));
                    push_all(&mut out, &kept);
                },
                None => {
                    push_str(&mut out, "unknown");
                },
            }
            string_of(&out)
        },
        None => string_of(&chars_of("Unknown OS")),
    }
}

/// The identifier of the system: the lowercase form of what the release
/// file gives under `ID=`; `unknown` without a release file or without an
/// identifier in it.
pub open spec fn os_id_of(os_release: Option<Seq<char>>) -> Seq<char> {
    let id = match os_release {
        Some(content) => release_value_of(content, "ID="@),
        None => None,
    };
    match id {
        Some(value) => lowercase_of(value),
        None => "unknown"@,
    }
}

/// The identifier of the system.
pub fn os_id(os_release: Option<&str>) -> (id: String)
    ensures
        id@ == os_id_of(opt_text(os_release)),
{
    let value = match os_release {
        Some(content) => release_value(content, "ID="),
        None => None,
    };
    match value {
        Some(v) => lowercase(v.as_str()),
        None => string_of(&chars_of("unknown")),
    }
}

/// The board or machine for the panel: vendor and name, each trimmed and
/// `Unknown` where it could not be read, and the version in brackets
/// unless it is empty or `None`.
pub open spec fn host_text_of(
    vendor: Option<Seq<char>>,
    name: Option<Seq<char>>,
    version: Option<Seq<char>>,
) -> Seq<char> {
    let vendor_text = match vendor {
        Some(v) => trimmed(v),
        None => "Unknown"@,
    };
    let name_text = match name {
        Some(n) => trimmed(n),
        None => "Unknown"@,
    };
    let version_text = match version {
        Some(v) => trimmed(v),
        None => Seq::empty(),
    };
    if version_text.len() > 0 && version_text != "None"@ {
        vendor_text + " "@ + name_text + " ("@ + version_text + ")"@
    } else {
        vendor_text + " "@ + name_text
    }
}

/// The text that was read, trimmed, or `missing` in its place.
fn trimmed_or(read: Option<&str>, missing: &str) -> (text: Vec<char>)
    ensures
        text@ == (match read {
            Some(r) => trimmed(r@),
            None => missing@,
        }),
{
    match read {
        Some(r) => trim(&chars_of(r)),
        None => chars_of(missing),
    }
}

/// The board or machine for the panel.
pub fn host_text(vendor: Option<&str>, name: Option<&str>, version: Option<&str>) -> (text: String)
    ensures
        text@ == host_text_of(opt_text(vendor), opt_text(name), opt_text(version)),
{
    let vendor_text = trimmed_or(vendor, "Unknown");
    let name_text = trimmed_or(name, "Unknown");
    let version_text = match version {
        Some(v) => trim(&chars_of(v)),
        None => Vec::new(),
    };
    let mut out: Vec<char> = Vec::new();
    push_all(&mut out, &vendor_text);
    push_str(&mut out, " ");
    push_all(&mut out, &name_text);
    if version_text.len() > 0 && !same_chars(&version_text, &chars_of("None")) {
        push_str(&mut out, " (");
        push_all(&mut out, &version_text);
        push_str(&mut out, ")");
    }
    proof {
        assert(out@ =~= host_text_of(opt_text(vendor), opt_text(name), opt_text(version)));
    }
    string_of(&out)
}

/// The kernel for the panel: `Linux` and the release, trimmed; `Unknown`
/// where the release could not be had.
pub open spec fn kernel_text_of(release: Option<Seq<char>>) -> Seq<char> {
    match release {
        Some(r) => "Linux "@ + trimmed(r),
        None => "Unknown"@,
    }
}

/// The kernel for the panel.
pub fn kernel_text(release: Option<&str>) -> (text: String)
    ensures
        text@ == kernel_text_of(opt_text(release)),
{
    match release {
        Some(r) => {
            let mut out = chars_of("Linux ");
            push_all(&mut out, &trim(&chars_of(r)));
            string_of(&out)
        },
        None => string_of(&chars_of("Unknown")),
    }
}

/// A count with its unit: `1` and the unit for one, the count and the unit
/// in the plural for more.
pub open spec fn counted(n: nat, one: Seq<char>, many: Seq<char>) -> Seq<char> {
    if n == 1 {
        "1"@ + one
    } else {
        decimal(n) + many
    }
}

/// The parts of an uptime: the days, the hours and the minutes, each only
/// if it is not zero.
pub open spec fn uptime_parts(total_secs: nat) -> Seq<Seq<char>> {
    let days = total_secs / 86400;
    let hours = (total_secs % 86400) / 3600;
    let minutes = (total_secs % 3600) / 60;
    (if days > 0 {
        seq![counted(days, " day"@, " days"@)]
    } else {
        Seq::empty()
    }) + (if hours > 0 {
        seq![counted(hours, " hour"@, " hours"@)]
    } else {
        Seq::empty()
    }) + (if minutes > 0 {
        seq![counted(minutes, " min"@, " mins"@)]
    } else {
        Seq::empty()
    })
}

/// The texts of `parts` with `, ` between them.
pub open spec fn joined(parts: Seq<Seq<char>>) -> Seq<char>
    decreases parts.len(),
{
    if parts.len() == 0 {
        Seq::empty()
    } else if parts.len() == 1 {
        parts[0]
    } else {
        joined(parts.drop_last()) + ", "@ + parts.last()
    }
}

/// An uptime for people: days, hours and minutes, or `less than a minute`.
pub open spec fn uptime_text_of(total_secs: nat) -> Seq<char> {
    if uptime_parts(total_secs).len() == 0 {
        "less than a minute"@
    } else {
        joined(uptime_parts(total_secs))
    }
}

/// Appends a count with its unit to `out`, behind `, ` unless it is the
/// first part.
fn push_counted(out: &mut Vec<char>, first: bool, n: u64, one: &str, many: &str)
    ensures
        final(out)@ == old(out)@ + (if first {
            Seq::<char>::empty()
        } else {
            ", "@
        }) + counted(n as nat, one@, many@),
{
    if !first {
        push_str(out, ", ");
    }
    if n == 1 {
        push_str(out, "1");
        push_str(out, one);
    } else {
        push_decimal(out, n);
        push_str(out, many);
    }
    proof {
        assert(out@ =~= old(out)@ + (if first {
            Seq::<char>::empty()
        } else {
            ", "@
        }) + counted(n as nat, one@, many@));
    }
}

/// Formats an uptime for people.
pub fn format_uptime(total_secs: u64) -> (text: String)
    ensures
        text@ == uptime_text_of(total_secs as nat),
{
    let days = total_secs / 86400;
    let hours = (total_secs % 86400) / 3600;
    let minutes = (total_secs % 3600) / 60;
    let mut out: Vec<char> = Vec::new();
    let mut first = true;
    let ghost mut parts: Seq<Seq<char>> = Seq::empty();
    if days > 0 {
        push_counted(&mut out, first, days, " day", " days");
        first = false;
        proof {
            parts = parts.push(counted(days as nat, " day"@, " days"@));
            assert(out@ =~= joined(parts));
        }
    }
    if hours > 0 {
        let ghost before = parts;
        push_counted(&mut out, first, hours, " hour", " hours");
        first = false;
        proof {
            parts = parts.push(counted(hours as nat, " hour"@, " hours"@));
            assert(parts.drop_last() =~= before);
            assert(out@ =~= joined(parts));
        }
    }
    if minutes > 0 {
        let ghost before = parts;
        push_counted(&mut out, first, minutes, " min", " mins");
        first = false;
        proof {
            parts = parts.push(counted(minutes as nat, " min"@, " mins"@));
            assert(parts.drop_last() =~= before);
            assert(out@ =~= joined(parts));
        }
    }
    proof {
        assert(parts =~= uptime_parts(total_secs as nat));
    }
    if first {
        return string_of(&chars_of("less than a minute"));
    }
    string_of(&out)
}

/// The uptime for the panel: `unknown` where it could not be had.
pub fn uptime_text(total_secs: Option<u64>) -> (text: String)
    ensures
        text@ == (match total_secs {
            Some(s) => uptime_text_of(s as nat),
            None => "unknown"@,
        }),
{
    match total_secs {
        Some(s) => format_uptime(s),
        None => string_of(&chars_of("unknown")),
    }
}

/// The packages for the panel: the number of lines of the listing of the
/// store, or `unknown` without a listing.
pub open spec fn packages_text_of(listing: Option<Seq<char>>) -> Seq<char> {
    match listing {
        Some(l) => decimal(lines_of(l).len()) + " (nix-system)"@,
        None => "unknown"@,
    }
}

/// The packages for the panel.
pub fn packages_text(listing: Option<&str>) -> (text: String)
    ensures
        text@ == packages_text_of(opt_text(listing)),
{
    match listing {
        Some(l) => {
            let lines = split_lines(&chars_of(l));
            proof {
                assert(lines@.len() == texts_of(lines@).len());
            }
            let mut out: Vec<char> = Vec::new();
            push_decimal(&mut out, lines.len() as u64);
            push_str(&mut out, " (nix-system)");
            proof {
                assert(out@ =~= packages_text_of(opt_text(listing)));
            }
            string_of(&out)
        },
        None => string_of(&chars_of("unknown")),
    }
}

/// What the first group of `pattern` holds in the leftmost match of the
/// pattern in `text`, as the `regex` crate finds it.
pub uninterp spec fn first_group_of(pattern: Seq<char>, text: Seq<char>) -> Option<Seq<char>>;

/// `regex::Regex::new`, `Regex::captures` and `Captures::get(1)`: the
/// pattern is compiled and searched for in the text, and the first group
/// of the leftmost match is handed out. There is nothing to hand out where
/// the pattern does not compile, where it does not match, or where the
/// group took no part in the match. The result depends on pattern and text
/// alone; the contract gives it the name `first_group_of` and says no
/// more.
#[verifier::external_body]
pub(crate) fn first_group(pattern: &str, text: &str) -> (found: Option<String>)
    ensures
        owned_text(found) == first_group_of(pattern@, text@),
{
    let re = regex::Regex::new(pattern).ok()?;
    re.captures(text).and_then(|cap| cap.get(1)).map(|m| m.as_str().to_string())
}

/// The pattern of a version number: two or three numbers with dots between
/// them.
pub open spec fn version_pattern() -> Seq<char> {
    "(\\d+\\.\\d+(?:\\.\\d+)?)"@
}

/// The first version number in `text`.
pub fn extract_version(text: &str) -> (version: Option<String>)
    ensures
        owned_text(version) == first_group_of(version_pattern(), text@),
{
    first_group("(\\d+\\.\\d+(?:\\.\\d+)?)", text)
}

/// The shell for the panel: its name and, where one was found, its
/// version; `unknown` without a shell.
pub open spec fn shell_text_of(shell: Option<Seq<char>>, version: Option<Seq<char>>) -> Seq<
    char,
> {
    match shell {
        Some(name) => match version {
            Some(v) => name + " "@ + v,
            None => name,
        },
        None => "unknown"@,
    }
}

/// The shell for the panel, from its name and its version.
pub fn shell_with_version(shell: Option<&str>, version: Option<&str>) -> (text: String)
    ensures
        text@ == shell_text_of(opt_text(shell), opt_text(version)),
{
    match shell {
        Some(name) => {
            let mut out = chars_of(name);
            match version {
                Some(v) => {
                    push_str(&mut out, " ");
                    push_str(&mut out, v);
                },
                None => {},
            }
            string_of(&out)
        },
        None => string_of(&chars_of("unknown")),
    }
}

/// The version that the shell reports, if it reported anything.
pub open spec fn reported_version(version_output: Option<Seq<char>>) -> Option<Seq<char>> {
    match version_output {
        Some(o) => first_group_of(version_pattern(), o),
        None => None,
    }
}

/// The shell for the panel, from its name and from what it printed when
/// asked for its version.
pub fn shell_text(shell: Option<&str>, version_output: Option<&str>) -> (text: String)
    ensures
        text@ == shell_text_of(opt_text(shell), reported_version(opt_text(version_output))),
{
    let version = match version_output {
        Some(o) => extract_version(o),
        None => None,
    };
    match version {
        Some(v) => shell_with_version(shell, Some(v.as_str())),
        None => shell_with_version(shell, None),
    }
}

/// The pattern of an address with its prefix length behind `inet`.
pub open spec fn address_pattern() -> Seq<char> {
    "inet\\s+(\\d+\\.\\d+\\.\\d+\\.\\d+/\\d+)"@
}

/// The interface in force behind `line`, where `current` was in force
/// before it. A line with a colon among its first ten bytes, though not at
/// its start, names an interface between that colon and the next: the text
/// there, trimmed, up to its first `@`.
pub open spec fn interface_behind(line: Seq<char>, current: Seq<char>) -> Seq<char> {
    let colon = next_index_of(line, ':', 0);
    if colon < line.len() && 0 < colon && encode_utf8(line.subrange(0, colon)).len() < 10 {
        let end = next_index_of(line, ':', colon + 1);
        let field = trimmed(line.subrange(colon + 1, end));
        field.subrange(0, next_index_of(field, '@', 0))
    } else {
        current
    }
}

/// The local address that a line gives, where `capture` is the address
/// found in it and `interface` the interface in force: the address and, in
/// brackets, the interface. A loopback address gives nothing, nor does an
/// address without an interface.
pub open spec fn address_found(capture: Option<Seq<char>>, interface: Seq<char>) -> Option<
    Seq<char>,
> {
    match capture {
        Some(ip) => if !starts_with(ip, "127."@) && interface.len() > 0 {
            Some(ip + " ("@ + interface + ")"@)
        } else {
            None
        },
        None => None,
    }
}

/// The local address that the lines from line `i` on give, where
/// `current` is the interface in force: the first that any line gives, or
/// `Unknown`.
pub open spec fn scan_addresses(lines: Seq<Seq<char>>, i: int, current: Seq<char>) -> Seq<char>
    decreases lines.len() - i,
{
    if i < 0 || i >= lines.len() {
        "Unknown"@
    } else {
        let interface = interface_behind(lines[i], current);
        match address_found(first_group_of(address_pattern(), lines[i]), interface) {
            Some(text) => text,
            None => scan_addresses(lines, i + 1, interface),
        }
    }
}

/// The local address for the panel, from the listing of the addresses of
/// the interfaces; `Unknown` without a listing.
pub open spec fn local_ip_text_of(listing: Option<Seq<char>>) -> Seq<char> {
    match listing {
        Some(l) => scan_addresses(lines_of(l), 0, Seq::empty()),
        None => "Unknown"@,
    }
}

/// The interface in force behind `line`.
pub fn interface_after(line: &str, current: &str) -> (interface: String)
    ensures
        interface@ == interface_behind(line@, current@),
{
    let text = chars_of(line);
    let n = text.len();
    let colon = find_char_from(&text, ':', 0);
    if colon < n && 0 < colon {
        let before = string_of(&slice_of(&text, 0, colon));
        if before.as_str().as_bytes().len() < 10 {
            let end = find_char_from(&text, ':', colon + 1);
            let field = trim(&slice_of(&text, colon + 1, end));
            let at = find_char_from(&field, '@', 0);
            return string_of(&slice_of(&field, 0, at));
        }
    }
    string_of(&chars_of(current))
}

/// The local address that a line gives, from the address found in it and
/// the interface in force.
pub fn address_from(capture: Option<&str>, interface: &str) -> (found: Option<String>)
    ensures
        owned_text(found) == address_found(opt_text(capture), interface@),
{
    match capture {
        Some(ip) => {
            let address = chars_of(ip);
            let name = chars_of(interface);
            if !has_prefix(&address, &chars_of("127.")) && name.len() > 0 {
                let mut out: Vec<char> = Vec::new();
                push_all(&mut out, &address);
                push_str(&mut out, " (");
                push_all(&mut out, &name);
                push_str(&mut out, ")");
                proof {
                    assert(out@ =~= ip@ + " ("@ + interface@ + ")"@);
                }
                Some(string_of(&out))
            } else {
                None
            }
        },
        None => None,
    }
}

/// The local address for the panel.
pub fn local_ip_text(listing: Option<&str>) -> (text: String)
    ensures
        text@ == local_ip_text_of(opt_text(listing)),
{
    match listing {
        Some(l) => {
            let lines = split_lines(&chars_of(l));
            let ghost all = texts_of(lines@);
            let mut current = String::new();
            let mut i: usize = 0;
            while i < lines.len()
                invariant
                    i <= lines@.len(),
                    opt_text(listing) == Some(l@),
                    all == texts_of(lines@),
                    all == lines_of(l@),
                    scan_addresses(all, i as int, current@) == scan_addresses(
                        all,
                        0,
                        Seq::empty(),
                    ),
                decreases lines@.len() - i,
            {
                assert(all[i as int] == lines@[i as int]@);
                let interface = interface_after(lines[i].as_str(), current.as_str());
                let capture = first_group(
                    "inet\\s+(\\d+\\.\\d+\\.\\d+\\.\\d+/\\d+)",
                    lines[i].as_str(),
                );
                let found = match capture {
                    Some(ip) => address_from(Some(ip.as_str()), interface.as_str()),
                    None => address_from(None, interface.as_str()),
                };
                proof {
                    let line = all[i as int];
                    assert(interface@ == interface_behind(line, current@));
                    assert(owned_text(capture) == first_group_of(address_pattern(), line));
                    assert(owned_text(found) == address_found(
                        first_group_of(address_pattern(), line),
                        interface@,
                    ));
                }
                match found {
                    Some(text) => {
                        return text;
                    },
                    None => {},
                }
                current = interface;
                i += 1;
            }
            string_of(&chars_of("Unknown"))
        },
        None => string_of(&chars_of("Unknown")),
    }
}

/// The field with the number `k`, counted from zero, among the fields
/// that the character `c` parts `s` into, if there are that many.
pub open spec fn nth_field(s: Seq<char>, c: char, k: nat) -> Option<Seq<char>>
    decreases k,
{
    let end = next_index_of(s, c, 0);
    if k == 0 {
        Some(s.subrange(0, end))
    } else if end < s.len() {
        nth_field(s.subrange(end + 1, s.len() as int), c, (k - 1) as nat)
    } else {
        None
    }
}

/// Finds the field with the number `k` among the fields that `c` parts
/// `v` into.
pub fn field_of(v: &Vec<char>, c: char, k: usize) -> (field: Option<Vec<char>>)
    ensures
        match field {
            Some(f) => nth_field(v@, c, k as nat) == Some(f@),
            None => nth_field(v@, c, k as nat) is None,
        },
{
    let n = v.len();
    let mut from: usize = 0;
    let mut left: usize = k;
    proof {
        assert(v@.subrange(0, n as int) =~= v@);
    }
    loop
        invariant
            from <= n,
            n == v@.len(),
            nth_field(v@, c, k as nat) == nth_field(
                v@.subrange(from as int, n as int),
                c,
                left as nat,
            ),
        decreases left,
    {
        let end = find_char_from(v, c, from);
        proof {
            let rest = v@.subrange(from as int, n as int);
            lemma_next_index_shift(v@, c, from as int);
            assert(next_index_of(rest, c, 0) == end - from);
            assert(rest.subrange(0, end - from) =~= v@.subrange(from as int, end as int));
            if end < n {
                assert(rest.subrange(end - from + 1, rest.len() as int) =~= v@.subrange(
                    end + 1,
                    n as int,
                ));
            }
        }
        if left == 0 {
            return Some(slice_of(v, from, end));
        }
        if end >= n {
            return None;
        }
        from = end + 1;
        left -= 1;
    }
}

/// Searching the rest of a text from its start finds what searching the
/// text from there finds.
pub proof fn lemma_next_index_shift(s: Seq<char>, c: char, from: int)
    requires
        0 <= from <= s.len(),
    ensures
        next_index_of(s.subrange(from, s.len() as int), c, 0) == next_index_of(s, c, from) - from,
{
    lemma_next_index_within(s, c, from, from);
}

/// Searching a text from position `at` on and searching its rest from
/// `from` on at the same place find the same character.
pub proof fn lemma_next_index_within(s: Seq<char>, c: char, from: int, at: int)
    requires
        0 <= from <= at <= s.len(),
    ensures
        next_index_of(s.subrange(from, s.len() as int), c, at - from) == next_index_of(s, c, at)
            - from,
    decreases s.len() - at,
{
    let rest = s.subrange(from, s.len() as int);
    if at < s.len() {
        assert(rest[at - from] == s[at]);
        if s[at] != c {
            lemma_next_index_within(s, c, from, at + 1);
        }
    }
}

/// Whether a line of the listing of devices is about a graphics device.
pub open spec fn is_graphics(line: Seq<char>) -> bool {
    contains(line, "VGA"@) || contains(line, "3D"@) || contains(line, "Display"@)
}

/// The graphics device that a line names: behind its second colon, up to
/// the next, trimmed.
pub open spec fn graphics_in(line: Seq<char>) -> Option<Seq<char>> {
    if is_graphics(line) {
        match nth_field(line, ':', 2) {
            Some(f) => Some(trimmed(f)),
            None => None,
        }
    } else {
        None
    }
}

/// The graphics device that the lines from line `i` on name first.
pub open spec fn scan_graphics(lines: Seq<Seq<char>>, i: int) -> Seq<char>
    decreases lines.len() - i,
{
    if i < 0 || i >= lines.len() {
        "Unknown GPU"@
    } else {
        match graphics_in(lines[i]) {
            Some(name) => name,
            None => scan_graphics(lines, i + 1),
        }
    }
}

/// The graphics device for the panel, from the listing of the devices;
/// `Unknown GPU` without a listing.
pub open spec fn gpu_text_of(listing: Option<Seq<char>>) -> Seq<char> {
    match listing {
        Some(l) => scan_graphics(lines_of(l), 0),
        None => "Unknown GPU"@,
    }
}

/// The graphics device that a line names.
fn graphics_of(line: &Vec<char>) -> (found: Option<Vec<char>>)
    ensures
        match found {
            Some(f) => graphics_in(line@) == Some(f@),
            None => graphics_in(line@) is None,
        },
{
    if has_substring(line, &chars_of("VGA")) || has_substring(line, &chars_of("3D"))
        || has_substring(line, &chars_of("Display")) {
        match field_of(line, ':', 2) {
            Some(f) => Some(trim(&f)),
            None => None,
        }
    } else {
        None
    }
}

/// The graphics device for the panel.
pub fn gpu_text(listing: Option<&str>) -> (text: String)
    ensures
        text@ == gpu_text_of(opt_text(listing)),
{
    match listing {
        Some(l) => {
            let lines = split_lines(&chars_of(l));
            let ghost all = texts_of(lines@);
            let mut i: usize = 0;
            while i < lines.len()
                invariant
                    i <= lines@.len(),
                    opt_text(listing) == Some(l@),
                    all == texts_of(lines@),
                    all == lines_of(l@),
                    scan_graphics(all, i as int) == scan_graphics(all, 0),
                decreases lines@.len() - i,
            {
                let line = chars_of(lines[i].as_str());
                assert(all[i as int] == line@);
                match graphics_of(&line) {
                    Some(name) => {
                        return string_of(&name);
                    },
                    None => {},
                }
                i += 1;
            }
            string_of(&chars_of("Unknown GPU"))
        },
        None => string_of(&chars_of("Unknown GPU")),
    }
}

/// The count that a line reports: its second word read as a number, 0 if
/// that is no number; nothing if the line has no second word.
pub open spec fn reading_of(line: Seq<char>) -> Option<u64> {
    if words(line).len() >= 2 {
        Some(
            match parsed_number(words(line)[1]) {
                Some(v) => v,
                None => 0,
            },
        )
    } else {
        None
    }
}

/// The count that a line reports.
pub fn reading(line: &Vec<char>) -> (count: Option<u64>)
    ensures
        count == reading_of(line@),
{
    let found = split_words(line);
    proof {
        assert(found@.len() == texts(found@).len());
    }
    if found.len() >= 2 {
        assert(texts(found@)[1] == found@[1]@);
        match parse_number(&found[1]) {
            Some(v) => Some(v),
            None => Some(0),
        }
    } else {
        None
    }
}

/// The swap space for the panel: `Disabled` where the memory report has a
/// first line for the swap total that reports nothing or zero, or has no
/// such line; `Unknown` else, and without a report.
pub open spec fn swap_text_of(meminfo: Option<Seq<char>>) -> Seq<char> {
    match meminfo {
        Some(m) => {
            let total: u64 = match first_line_with(lines_of(m), "SwapTotal:"@) {
                Some(line) => match reading_of(line) {
                    Some(v) => v,
                    None => 0,
                },
                None => 0,
            };
            if total == 0 {
                "Disabled"@
            } else {
                "Unknown"@
            }
        },
        None => "Unknown"@,
    }
}

/// The swap space for the panel.
pub fn swap_text(meminfo: Option<&str>) -> (text: String)
    ensures
        text@ == swap_text_of(opt_text(meminfo)),
{
    match meminfo {
        Some(m) => {
            let lines = split_lines(&chars_of(m));
            let total: u64 = match find_line_with(&lines, "SwapTotal:") {
                Some(line) => match reading(&line) {
                    Some(v) => v,
                    None => 0,
                },
                None => 0,
            };
            if total == 0 {
                string_of(&chars_of("Disabled"))
            } else {
                string_of(&chars_of("Unknown"))
            }
        },
        None => string_of(&chars_of("Unknown")),
    }
}

/// Whether a line of the table of mounts is about `mount_point`: it has
/// three words or more, and the second is the mount point.
pub open spec fn mounts_at(line: Seq<char>, mount_point: Seq<char>) -> bool {
    words(line).len() >= 3 && words(line)[1] == mount_point
}

/// The kind of file system that the lines from line `i` on give for
/// `mount_point`: the third word of the first line about it.
pub open spec fn scan_mounts(lines: Seq<Seq<char>>, mount_point: Seq<char>, i: int) -> Seq<char>
    decreases lines.len() - i,
{
    if i < 0 || i >= lines.len() {
        "unknown"@
    } else if mounts_at(lines[i], mount_point) {
        words(lines[i])[2]
    } else {
        scan_mounts(lines, mount_point, i + 1)
    }
}

/// The kind of file system at `mount_point`, from the table of mounts;
/// `unknown` without a table.
pub open spec fn fs_type_text_of(mounts: Option<Seq<char>>, mount_point: Seq<char>) -> Seq<char> {
    match mounts {
        Some(m) => scan_mounts(lines_of(m), mount_point, 0),
        None => "unknown"@,
    }
}

/// The kind of file system at `mount_point`.
pub fn fs_type_of(mounts: Option<&str>, mount_point: &str) -> (kind: String)
    ensures
        kind@ == fs_type_text_of(opt_text(mounts), mount_point@),
{
    match mounts {
        Some(m) => {
            let wanted = chars_of(mount_point);
            let lines = split_lines(&chars_of(m));
            let ghost all = texts_of(lines@);
            let mut i: usize = 0;
            while i < lines.len()
                invariant
                    i <= lines@.len(),
                    opt_text(mounts) == Some(m@),
                    wanted@ == mount_point@,
                    all == texts_of(lines@),
                    all == lines_of(m@),
                    scan_mounts(all, mount_point@, i as int) == scan_mounts(
                        all,
                        mount_point@,
                        0,
                    ),
                decreases lines@.len() - i,
            {
                let line = chars_of(lines[i].as_str());
                assert(all[i as int] == line@);
                let found = split_words(&line);
                proof {
                    assert(found@.len() == texts(found@).len());
                }
                if found.len() >= 3 {
                    assert(texts(found@)[1] == found@[1]@);
                    assert(texts(found@)[2] == found@[2]@);
                    if same_chars(&found[1], &wanted) {
                        return string_of(&found[2]);
                    }
                }
                i += 1;
            }
            string_of(&chars_of("unknown"))
        },
        None => string_of(&chars_of("unknown")),
    }
}

/// The count that the first `n` of `lines` report under `key`: the count
/// of the last line that starts with the key and reports one, 0 if there
/// is none.
pub open spec fn last_reading(lines: Seq<Seq<char>>, key: Seq<char>, n: int) -> u64
    decreases n,
{
    if n <= 0 || n > lines.len() {
        0
    } else {
        let before = last_reading(lines, key, n - 1);
        if starts_with(lines[n - 1], key) {
            match reading_of(lines[n - 1]) {
                Some(v) => v,
                None => before,
            }
        } else {
            before
        }
    }
}

/// The total and the available memory that the memory report gives, in
/// kibibytes.
pub open spec fn memory_counts_of(meminfo: Seq<char>) -> (u64, u64) {
    let lines = lines_of(meminfo);
    (
        last_reading(lines, "MemTotal:"@, lines.len() as int),
        last_reading(lines, "MemAvailable:"@, lines.len() as int),
    )
}

/// The total and the available memory that the memory report gives.
pub fn memory_counts(meminfo: &str) -> (counts: (u64, u64))
    ensures
        counts == memory_counts_of(meminfo@),
{
    let lines = split_lines(&chars_of(meminfo));
    let total_key = chars_of("MemTotal:");
    let available_key = chars_of("MemAvailable:");
    let ghost all = texts_of(lines@);
    let mut total: u64 = 0;
    let mut available: u64 = 0;
    let mut i: usize = 0;
    while i < lines.len()
        invariant
            i <= lines@.len(),
            all == texts_of(lines@),
            all == lines_of(meminfo@),
            total_key@ == "MemTotal:"@,
            available_key@ == "MemAvailable:"@,
            total == last_reading(all, "MemTotal:"@, i as int),
            available == last_reading(all, "MemAvailable:"@, i as int),
        decreases lines@.len() - i,
    {
        let line = chars_of(lines[i].as_str());
        assert(all[i as int] == line@);
        if has_prefix(&line, &total_key) {
            match reading(&line) {
                Some(v) => {
                    total = v;
                },
                None => {},
            }
        }
        if has_prefix(&line, &available_key) {
            match reading(&line) {
                Some(v) => {
                    available = v;
                },
                None => {},
            }
        }
        i += 1;
    }
    proof {
        assert(all.len() == lines@.len());
    }
    (total, available)
}

/// Whether the memory in use can be told from these counts: both are
/// known, the available memory is not more than the total, and the memory
/// in use has a number of bytes that fits in 64 bits.
pub open spec fn usage_known(total_kb: u64, available_kb: u64) -> bool {
    0 < available_kb <= total_kb && (total_kb - available_kb) * 1024 <= u64::MAX
}

/// The memory for the panel: the memory in use as a byte count for people,
/// and the total in gibibytes with two decimals.
pub open spec fn memory_text_of(total_kb: u64, available_kb: u64) -> Seq<char> {
    bytes_text(((total_kb - available_kb) * 1024) as nat) + " / "@ + scaled_text(
        rounded_count(total_kb as nat),
        MIB as nat,
        " GiB"@,
    )
}

/// The memory for the panel, where it can be told; nothing else.
pub fn memory_usage_text(total_kb: u64, available_kb: u64) -> (text: Option<String>)
    ensures
        match text {
            Some(t) => usage_known(total_kb, available_kb) && t@ == memory_text_of(
                total_kb,
                available_kb,
            ),
            None => !usage_known(total_kb, available_kb),
        },
{
    if available_kb == 0 || available_kb > total_kb {
        return None;
    }
    let used_kb = total_kb - available_kb;
    if used_kb > u64::MAX / 1024 {
        return None;
    }
    let used = SystemInfo::format_bytes(used_kb * 1024);
    let mut out = chars_of(used.as_str());
    push_str(&mut out, " / ");
    push_scaled(&mut out, round_count(total_kb), MIB, " GiB");
    proof {
        assert(out@ =~= memory_text_of(total_kb, available_kb));
    }
    Some(string_of(&out))
}

} // verus!
