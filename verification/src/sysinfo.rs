//! The host facts that the information panel shows, and the formatting of
//! byte counts.

use crate::color::{ansi, Color};
use crate::compose::{bold, label_color, panel_of, picture, render, InfoLine, PanelLine};
use crate::logo::Logo;
use crate::template::key_of;
use crate::text::{
    chars_of, decimal, digit_char, digit_of, find, first_occurrence, last_occurrence,
    push_all, push_decimal, push_repeated, push_str, repeated, rfind, slice_of, string_of,
};
use vstd::prelude::*;
use vstd::utf8::encode_utf8;

verus! {

broadcast use vstd::slice::group_slice_axioms;

/// The facts about the host, each already formatted as text.
#[derive(Clone, Debug)]
pub struct SystemInfo {
    pub username: String,
    pub hostname: String,
    pub os: String,
    pub host: String,
    pub kernel: String,
    pub uptime: String,
    pub packages: String,
    pub shell: String,
    pub display: String,
    pub terminal: String,
    pub cpu: String,
    pub gpu: String,
    pub memory: String,
    pub memory_percent: u32,
    pub swap: String,
    /// Mount point, usage text and percentage used of each disk.
    pub disks: Vec<(String, String, u32)>,
    pub local_ip: String,
    pub locale: String,
}

/// Bytes in a kibibyte.
pub const KIB: u64 = 1024;

/// Bytes in a mebibyte.
pub const MIB: u64 = 1048576;

/// Bytes in a gibibyte.
pub const GIB: u64 = 1073741824;

/// Bytes in a tebibyte.
pub const TIB: u64 = 1099511627776;

/// The least count that no longer fits in 53 binary digits.
pub const MANTISSA_LIMIT: u64 = 9007199254740992;

/// The quotient `num / den` rounded to the nearest whole number; a quotient
/// that lies halfway between two goes to the even one.
pub open spec fn nearest_even(num: nat, den: nat) -> nat
    recommends
        den > 0,
{
    let q = num / den;
    let r = num % den;
    if 2 * r > den || (2 * r == den && q % 2 == 1) {
        q + 1
    } else {
        q
    }
}

/// The spacing of the 53-digit binary numbers around `n`: 1 below
/// `MANTISSA_LIMIT`, and twice as much for each further binary digit.
pub open spec fn spacing(n: nat) -> nat
    decreases n,
{
    if n < MANTISSA_LIMIT {
        1
    } else {
        2 * spacing(n / 2)
    }
}

/// `n` rounded to 53 significant binary digits, ties to even: the value
/// with which a byte count enters the division by the unit.
pub open spec fn rounded_count(n: nat) -> nat {
    nearest_even(n, spacing(n)) * spacing(n)
}

/// `value / den` with two decimals, ties to even, followed by `suffix`.
pub open spec fn scaled_text(value: nat, den: nat, suffix: Seq<char>) -> Seq<char>
    recommends
        den > 0,
{
    let h = nearest_even(value * 100, den);
    decimal(h / 100) + seq!['.', digit_char((h % 100) / 10), digit_char(h % 10)] + suffix
}

/// A byte count for people: in the largest binary unit that it reaches,
/// with two decimals, or in plain bytes below one kibibyte.
pub open spec fn bytes_text(bytes: nat) -> Seq<char> {
    if bytes >= TIB {
        scaled_text(rounded_count(bytes), TIB as nat, " TiB"@)
    } else if bytes >= GIB {
        scaled_text(rounded_count(bytes), GIB as nat, " GiB"@)
    } else if bytes >= MIB {
        scaled_text(rounded_count(bytes), MIB as nat, " MiB"@)
    } else if bytes >= KIB {
        scaled_text(rounded_count(bytes), KIB as nat, " KiB"@)
    } else {
        decimal(bytes) + " B"@
    }
}

proof fn lemma_spacing_bounds(n: nat)
    ensures
        1 <= spacing(n),
        n <= u64::MAX ==> spacing(n) <= 2048,
        n < MANTISSA_LIMIT ==> spacing(n) == 1,
    decreases n,
{
    if n >= MANTISSA_LIMIT {
        lemma_spacing_bounds(n / 2);
        if n <= u64::MAX {
            lemma_spacing_u64(n);
        }
    }
}

proof fn lemma_spacing_u64(n: nat)
    requires
        n <= u64::MAX,
    ensures
        spacing(n) <= 2048,
{
    reveal_with_fuel(spacing, 13);
}

/// `num / den` rounded to the nearest whole number, ties to even.
fn divide_nearest_even(num: u128, den: u128) -> (q: u128)
    requires
        den > 0,
        num < 0x1_0000_0000_0000_0000_0000u128,
    ensures
        q == nearest_even(num as nat, den as nat),
{
    let q = num / den;
    let r = num % den;
    if r > den - r || (r == den - r && q % 2 == 1) {
        q + 1
    } else {
        q
    }
}

/// The spacing of the 53-digit binary numbers around `n`.
fn spacing_of(n: u64) -> (unit: u64)
    ensures
        unit == spacing(n as nat),
        1 <= unit <= 2048,
{
    proof {
        lemma_spacing_bounds(n as nat);
    }
    let mut unit: u64 = 1;
    let mut rest: u64 = n;
    while rest >= MANTISSA_LIMIT
        invariant
            1 <= unit,
            unit * spacing(rest as nat) == spacing(n as nat),
            spacing(n as nat) <= 2048,
        decreases rest,
    {
        proof {
            lemma_spacing_bounds((rest / 2) as nat);
            assert(unit * (2 * spacing((rest / 2) as nat)) == (unit * 2) * spacing(
                (rest / 2) as nat,
            )) by (nonlinear_arith);
            assert(unit * 2 <= (unit * 2) * spacing((rest / 2) as nat)) by (nonlinear_arith)
                requires
                    1 <= spacing((rest / 2) as nat),
            ;
        }
        unit = unit * 2;
        rest = rest / 2;
    }
    proof {
        lemma_spacing_bounds(rest as nat);
        assert(unit * 1 == unit);
    }
    unit
}

/// Appends `value / den` with two decimals and `suffix` to `out`.
pub(crate) fn push_scaled(out: &mut Vec<char>, value: u128, den: u64, suffix: &str)
    requires
        den >= KIB,
        value <= 0x1_0000_0000_0000_0000u128,
    ensures
        final(out)@ == old(out)@ + scaled_text(value as nat, den as nat, suffix@),
{
    let ghost before = out@;
    let h = divide_nearest_even(value * 100, den as u128);
    proof {
        let num = (value * 100) as int;
        let d = den as int;
        assert(num / d <= num / 1024) by (nonlinear_arith)
            requires
                d >= 1024,
                num >= 0,
        ;
        assert(h <= (value * 100) / 1024 + 1);
    }
    let whole = h / 100;
    let part = h % 100;
    assert(whole <= u64::MAX);
    push_decimal(out, whole as u64);
    out.push('.');
    out.push(digit_of((part / 10) as u64));
    out.push(digit_of((part % 10) as u64));
    push_str(out, suffix);
    proof {
        assert(h % 10 == (h % 100) % 10);
        assert(out@ =~= before + scaled_text(value as nat, den as nat, suffix@));
    }
}

/// `n` rounded to 53 significant binary digits, ties to even.
pub fn round_count(n: u64) -> (value: u128)
    ensures
        value == rounded_count(n as nat),
        value <= 0x1_0000_0000_0000_0000u128,
{
    let unit = spacing_of(n);
    let steps = divide_nearest_even(n as u128, unit as u128);
    proof {
        lemma_rounded_fits(n as nat);
        assert(steps * unit <= 0x1_0000_0000_0000_0000u128);
    }
    steps * (unit as u128)
}

impl SystemInfo {
    /// Formats a byte count for people: in the largest of TiB, GiB, MiB and
    /// KiB that it reaches, with two decimals, else in plain bytes.
    pub fn format_bytes(bytes: u64) -> (text: String)
        ensures
            text@ == bytes_text(bytes as nat),
    {
        let mut out: Vec<char> = Vec::new();
        if bytes >= KIB {
            let value = round_count(bytes);
            if bytes >= TIB {
                push_scaled(&mut out, value, TIB, " TiB");
            } else if bytes >= GIB {
                push_scaled(&mut out, value, GIB, " GiB");
            } else if bytes >= MIB {
                push_scaled(&mut out, value, MIB, " MiB");
            } else {
                push_scaled(&mut out, value, KIB, " KiB");
            }
        } else {
            push_decimal(&mut out, bytes);
            push_str(&mut out, " B");
        }
        proof {
            assert(out@ =~= bytes_text(bytes as nat));
        }
        string_of(&out)
    }
}

/// Rounding a 64-bit count to 53 binary digits gives at most two to the 64.
proof fn lemma_rounded_fits(n: nat)
    requires
        n <= u64::MAX,
    ensures
        rounded_count(n) <= 0x1_0000_0000_0000_0000nat,
{
    lemma_spacing_bounds(n);
    lemma_spacing_divides_limit(n);
    let u = spacing(n) as int;
    let q = (n / spacing(n)) as int;
    let top = 0x1_0000_0000_0000_0000int;
    let k = top / u;
    assert(q * u <= n) by (nonlinear_arith)
        requires
            q == (n as int) / u,
            u > 0,
    ;
    if nearest_even(n, spacing(n)) == q + 1 {
        assert(q < k) by (nonlinear_arith)
            requires
                q * u <= n,
                n < k * u,
                u > 0,
        ;
        assert((q + 1) * u <= k * u) by (nonlinear_arith)
            requires
                q + 1 <= k,
                u > 0,
        ;
    }
}

/// The spacing around a 64-bit count divides two to the 64.
proof fn lemma_spacing_divides_limit(n: nat)
    requires
        n <= u64::MAX,
    ensures
        (0x1_0000_0000_0000_0000int / (spacing(n) as int)) * (spacing(n) as int)
            == 0x1_0000_0000_0000_0000int,
{
    lemma_spacing_is_power(n);
}

/// The spacing around a 64-bit count is one of the first twelve powers of
/// two.
proof fn lemma_spacing_is_power(n: nat)
    requires
        n <= u64::MAX,
    ensures
        spacing(n) == 1 || spacing(n) == 2 || spacing(n) == 4 || spacing(n) == 8 || spacing(n)
            == 16 || spacing(n) == 32 || spacing(n) == 64 || spacing(n) == 128 || spacing(n)
            == 256 || spacing(n) == 512 || spacing(n) == 1024 || spacing(n) == 2048,
{
    reveal_with_fuel(spacing, 13);
}

/// A line of the panel without a percentage.
pub open spec fn plain_line(text: Seq<char>) -> PanelLine {
    PanelLine { text, is_percent: false, percent: 0 }
}

/// A fact under its label: the label in the label colour and in bold, a
/// colon, and the fact.
pub open spec fn fact_text(label: Seq<char>, name: Seq<char>, value: Seq<char>) -> Seq<char> {
    label + bold() + name + "\x1b[0m: "@ + value
}

/// The title of the panel: user, `@` and host, each in the label colour and
/// in bold.
pub open spec fn title_text(label: Seq<char>, username: Seq<char>, hostname: Seq<char>) -> Seq<
    char,
> {
    label + bold() + username + "\x1b[0m"@ + label + "\x1b[1m@\x1b[0m"@ + label + bold()
        + hostname + "\x1b[0m"@
}

/// The rule below the title: as many dashes as the user, an `@` and the
/// host take in bytes.
pub open spec fn rule_text(label: Seq<char>, username: Seq<char>, hostname: Seq<char>) -> Seq<
    char,
> {
    label + repeated('-', encode_utf8(username).len() + encode_utf8(hostname).len() + 1)
        + "\x1b[0m"@
}

/// The line for the memory: usage and, in brackets, the percentage used.
pub open spec fn memory_line(label: Seq<char>, memory: Seq<char>, percent: u32) -> PanelLine {
    PanelLine {
        text: fact_text(label, "Memory"@, memory + " ("@ + decimal(percent as nat) + "%)"@),
        is_percent: true,
        percent,
    }
}

/// The sizes in the usage text of a disk: what stands before its last
/// ` - `, or all of it.
pub open spec fn disk_sizes(usage: Seq<char>) -> Seq<char> {
    match last_occurrence(usage, " - "@) {
        Some(at) => usage.subrange(0, at),
        None => usage,
    }
}

/// The kind of file system in the usage text of a disk: what stands behind
/// its last ` - `, or `unknown`.
pub open spec fn disk_kind(usage: Seq<char>) -> Seq<char> {
    match last_occurrence(usage, " - "@) {
        Some(at) => usage.subrange(at + 3, usage.len() as int),
        None => "unknown"@,
    }
}

/// The line for a disk: its mount point in the label, then sizes,
/// percentage used and kind of file system.
pub open spec fn disk_line(label: Seq<char>, mount: Seq<char>, usage: Seq<char>, percent: u32) -> PanelLine {
    PanelLine {
        text: label + bold() + "Disk ("@ + mount + ")"@ + "\x1b[0m: "@ + disk_sizes(usage) + " ("@
            + decimal(percent as nat) + "%) - "@ + disk_kind(usage),
        is_percent: true,
        percent,
    }
}

/// The lines for the disks, in their order.
pub open spec fn disk_lines(label: Seq<char>, disks: Seq<(String, String, u32)>) -> Seq<
    PanelLine,
> {
    Seq::new(disks.len(), |i: int| disk_line(label, disks[i].0@, disks[i].1@, disks[i].2))
}

/// `s` without the run of `c` at its end.
pub open spec fn trimmed_end(s: Seq<char>, c: char) -> Seq<char>
    decreases s.len(),
{
    if s.len() > 0 && s.last() == c {
        trimmed_end(s.drop_last(), c)
    } else {
        s
    }
}

/// Whether ` (` stands in `text` exactly once.
pub open spec fn has_one_bracket(text: Seq<char>) -> bool {
    first_occurrence(text, " ("@) is Some && first_occurrence(text, " ("@) == last_occurrence(
        text,
        " ("@,
    )
}

/// The line for the local address. An address that is followed by its
/// interface in brackets has the interface moved into the label.
pub open spec fn address_text(label: Seq<char>, local_ip: Seq<char>) -> Seq<char> {
    if has_one_bracket(local_ip) {
        let at = first_occurrence(local_ip, " ("@).unwrap();
        let interface = trimmed_end(local_ip.subrange(at + 2, local_ip.len() as int), ')');
        label + bold() + "Local IP ("@ + interface + ")"@ + "\x1b[0m: "@ + local_ip.subrange(0, at)
    } else {
        fact_text(label, "Local IP"@, local_ip)
    }
}

/// The lines of the panel up to the disks.
pub open spec fn leading_lines(info: SystemInfo, label: Seq<char>) -> Seq<PanelLine> {
    seq![
        plain_line(title_text(label, info.username@, info.hostname@)),
        plain_line(rule_text(label, info.username@, info.hostname@)),
        plain_line(fact_text(label, "OS"@, info.os@)),
        plain_line(fact_text(label, "Host"@, info.host@)),
        plain_line(fact_text(label, "Kernel"@, info.kernel@)),
        plain_line(fact_text(label, "Uptime"@, info.uptime@)),
        plain_line(fact_text(label, "Packages"@, info.packages@)),
        plain_line(fact_text(label, "Shell"@, info.shell@)),
        plain_line(fact_text(label, "Display"@, info.display@)),
        plain_line(fact_text(label, "Terminal"@, info.terminal@)),
        plain_line(fact_text(label, "CPU"@, info.cpu@)),
        plain_line(fact_text(label, "GPU"@, info.gpu@)),
        memory_line(label, info.memory@, info.memory_percent),
        plain_line(fact_text(label, "Swap"@, info.swap@)),
    ]
}

/// The lines of the panel behind the disks.
pub open spec fn trailing_lines(info: SystemInfo, label: Seq<char>) -> Seq<PanelLine> {
    seq![
        plain_line(address_text(label, info.local_ip@)),
        plain_line(fact_text(label, "Locale"@, info.locale@)),
    ]
}

/// The lines of the panel, where `label` is the escape sequence of the
/// label colour: title and rule, the facts from the system to the swap
/// space, one line for each disk, the local address and the locale.
pub open spec fn panel_lines(info: SystemInfo, label: Seq<char>) -> Seq<PanelLine> {
    leading_lines(info, label) + disk_lines(label, info.disks@) + trailing_lines(info, label)
}

fn plain(text: &Vec<char>) -> (line: InfoLine)
    ensures
        line@ == plain_line(text@),
{
    InfoLine { text: string_of(text), is_percent: false, percent: 0 }
}

fn fact_line(label: &Vec<char>, name: &str, value: &str) -> (line: InfoLine)
    ensures
        line@ == plain_line(fact_text(label@, name@, value@)),
{
    let mut out: Vec<char> = Vec::new();
    push_all(&mut out, label);
    push_str(&mut out, "\x1b[1m");
    push_str(&mut out, name);
    push_str(&mut out, "\x1b[0m: ");
    push_str(&mut out, value);
    proof {
        assert(out@ =~= fact_text(label@, name@, value@));
    }
    plain(&out)
}

fn title_line(label: &Vec<char>, username: &str, hostname: &str) -> (line: InfoLine)
    ensures
        line@ == plain_line(title_text(label@, username@, hostname@)),
{
    let mut out: Vec<char> = Vec::new();
    push_all(&mut out, label);
    push_str(&mut out, "\x1b[1m");
    push_str(&mut out, username);
    push_str(&mut out, "\x1b[0m");
    push_all(&mut out, label);
    push_str(&mut out, "\x1b[1m@\x1b[0m");
    push_all(&mut out, label);
    push_str(&mut out, "\x1b[1m");
    push_str(&mut out, hostname);
    push_str(&mut out, "\x1b[0m");
    proof {
        assert(out@ =~= title_text(label@, username@, hostname@));
    }
    plain(&out)
}

fn rule_line(label: &Vec<char>, username: &str, hostname: &str) -> (line: InfoLine)
    ensures
        line@ == plain_line(rule_text(label@, username@, hostname@)),
{
    let mut out: Vec<char> = Vec::new();
    push_all(&mut out, label);
    push_repeated(&mut out, '-', username.as_bytes().len());
    push_repeated(&mut out, '-', hostname.as_bytes().len());
    out.push('-');
    push_str(&mut out, "\x1b[0m");
    proof {
        let a = encode_utf8(username@).len();
        let b = encode_utf8(hostname@).len();
        assert(repeated('-', a) + repeated('-', b) + seq!['-'] =~= repeated('-', a + b + 1));
        assert(out@ =~= rule_text(label@, username@, hostname@));
    }
    plain(&out)
}

fn memory_line_of(label: &Vec<char>, memory: &str, percent: u32) -> (line: InfoLine)
    ensures
        line@ == memory_line(label@, memory@, percent),
{
    let mut out: Vec<char> = Vec::new();
    push_all(&mut out, label);
    push_str(&mut out, "\x1b[1m");
    push_str(&mut out, "Memory");
    push_str(&mut out, "\x1b[0m: ");
    push_str(&mut out, memory);
    push_str(&mut out, " (");
    push_decimal(&mut out, percent as u64);
    push_str(&mut out, "%)");
    proof {
        assert(out@ =~= memory_line(label@, memory@, percent).text);
    }
    InfoLine { text: string_of(&out), is_percent: true, percent }
}

fn disk_line_of(label: &Vec<char>, mount: &str, usage: &str, percent: u32) -> (line: InfoLine)
    ensures
        line@ == disk_line(label@, mount@, usage@, percent),
{
    let text = chars_of(usage);
    let dash = chars_of(" - ");
    let mut out: Vec<char> = Vec::new();
    push_all(&mut out, label);
    push_str(&mut out, "\x1b[1m");
    push_str(&mut out, "Disk (");
    push_str(&mut out, mount);
    push_str(&mut out, ")");
    push_str(&mut out, "\x1b[0m: ");
    let ghost head = out@;
    match rfind(&text, &dash) {
        Some(at) => {
            proof {
                reveal_strlit(" - ");
                assert(dash@.len() == 3);
                assert(crate::text::occurs_at(text@, dash@, at as int));
            }
            let n = text.len();
            let sizes = slice_of(&text, 0, at);
            let kind = slice_of(&text, at + 3, n);
            push_all(&mut out, &sizes);
            push_str(&mut out, " (");
            push_decimal(&mut out, percent as u64);
            push_str(&mut out, "%) - ");
            push_all(&mut out, &kind);
        },
        None => {
            push_all(&mut out, &text);
            push_str(&mut out, " (");
            push_decimal(&mut out, percent as u64);
            push_str(&mut out, "%) - ");
            push_str(&mut out, "unknown");
        },
    }
    proof {
        assert(out@ =~= disk_line(label@, mount@, usage@, percent).text);
    }
    InfoLine { text: string_of(&out), is_percent: true, percent }
}

/// `v` without the run of `c` at its end.
fn trim_end(v: &Vec<char>, c: char) -> (kept: Vec<char>)
    ensures
        kept@ == trimmed_end(v@, c),
{
    let mut n: usize = v.len();
    proof {
        assert(v@.subrange(0, n as int) =~= v@);
    }
    while n > 0 && v[n - 1] == c
        invariant
            n <= v@.len(),
            trimmed_end(v@, c) == trimmed_end(v@.subrange(0, n as int), c),
        decreases n,
    {
        proof {
            let part = v@.subrange(0, n as int);
            assert(part.drop_last() =~= v@.subrange(0, n - 1));
        }
        n -= 1;
    }
    slice_of(v, 0, n)
}

fn address_line(label: &Vec<char>, local_ip: &str) -> (line: InfoLine)
    ensures
        line@ == plain_line(address_text(label@, local_ip@)),
{
    let text = chars_of(local_ip);
    let bracket = chars_of(" (");
    let first = find(&text, &bracket);
    let last = rfind(&text, &bracket);
    match (first, last) {
        (Some(at), Some(end)) => {
            if at == end {
                proof {
                    reveal_strlit(" (");
                    assert(bracket@.len() == 2);
                    assert(crate::text::occurs_at(text@, bracket@, at as int));
                }
                let n = text.len();
                let ip = slice_of(&text, 0, at);
                let rest = slice_of(&text, at + 2, n);
                let interface = trim_end(&rest, ')');
                let mut out: Vec<char> = Vec::new();
                push_all(&mut out, label);
                push_str(&mut out, "\x1b[1m");
                push_str(&mut out, "Local IP (");
                push_all(&mut out, &interface);
                push_str(&mut out, ")");
                push_str(&mut out, "\x1b[0m: ");
                push_all(&mut out, &ip);
                proof {
                    assert(out@ =~= address_text(label@, local_ip@));
                }
                return plain(&out);
            }
        },
        _ => {},
    }
    fact_line(label, "Local IP", local_ip)
}

impl SystemInfo {
    /// The escape sequence that makes `color` the foreground colour.
    pub fn color_to_ansi_for_label(&self, color: &Color) -> (text: String)
        ensures
            text@ == ansi(*color),
    {
        color.to_ansi()
    }

    /// The lines of the panel, where `label` is the escape sequence of the
    /// label colour.
    pub fn info_lines(&self, label: &str) -> (lines: Vec<InfoLine>)
        ensures
            panel_of(lines@) == panel_lines(*self, label@),
    {
        let mark = chars_of(label);
        let mut lines: Vec<InfoLine> = Vec::new();
        lines.push(title_line(&mark, self.username.as_str(), self.hostname.as_str()));
        lines.push(rule_line(&mark, self.username.as_str(), self.hostname.as_str()));
        lines.push(fact_line(&mark, "OS", self.os.as_str()));
        lines.push(fact_line(&mark, "Host", self.host.as_str()));
        lines.push(fact_line(&mark, "Kernel", self.kernel.as_str()));
        lines.push(fact_line(&mark, "Uptime", self.uptime.as_str()));
        lines.push(fact_line(&mark, "Packages", self.packages.as_str()));
        lines.push(fact_line(&mark, "Shell", self.shell.as_str()));
        lines.push(fact_line(&mark, "Display", self.display.as_str()));
        lines.push(fact_line(&mark, "Terminal", self.terminal.as_str()));
        lines.push(fact_line(&mark, "CPU", self.cpu.as_str()));
        lines.push(fact_line(&mark, "GPU", self.gpu.as_str()));
        lines.push(memory_line_of(&mark, self.memory.as_str(), self.memory_percent));
        lines.push(fact_line(&mark, "Swap", self.swap.as_str()));
        proof {
            assert(panel_of(lines@) =~= leading_lines(*self, label@));
        }
        let mut i: usize = 0;
        while i < self.disks.len()
            invariant
                i <= self.disks@.len(),
                mark@ == label@,
                panel_of(lines@) == leading_lines(*self, label@) + disk_lines(
                    label@,
                    self.disks@.subrange(0, i as int),
                ),
            decreases self.disks@.len() - i,
        {
            let ghost before = panel_of(lines@);
            let disk = &self.disks[i];
            let line = disk_line_of(&mark, disk.0.as_str(), disk.1.as_str(), disk.2);
            lines.push(line);
            proof {
                let part = disk_lines(label@, self.disks@.subrange(0, i as int));
                let more = disk_lines(label@, self.disks@.subrange(0, i + 1));
                assert(more =~= part.push(line@));
                assert(panel_of(lines@) =~= before.push(line@));
                assert(leading_lines(*self, label@) + more =~= (leading_lines(*self, label@)
                    + part).push(line@));
            }
            i += 1;
        }
        proof {
            assert(self.disks@.subrange(0, i as int) =~= self.disks@);
        }
        let ghost before = panel_of(lines@);
        let address = address_line(&mark, self.local_ip.as_str());
        let locale = fact_line(&mark, "Locale", self.locale.as_str());
        lines.push(address);
        lines.push(locale);
        proof {
            assert(panel_of(lines@) =~= before + trailing_lines(*self, label@));
        }
        lines
    }

    /// The picture of these facts beside `logo`: the labels in the label
    /// colour of the logo's palette, the lines of the logo in its colours,
    /// and the footer.
    pub fn display(&self, logo: &Logo) -> (text: String)
        ensures
            text@ == picture(
                logo.colors@,
                logo.line_texts(),
                panel_lines(*self, ansi(label_color(logo.colors@))),
            ),
    {
        let mut key: Vec<char> = Vec::new();
        key.push('$');
        key.push('2');
        assert(key@ =~= key_of('2'));
        let color = match logo.colors.get_chars(&key) {
            Some(c) => c,
            None => {
                key.set(1, '1');
                assert(key@ =~= key_of('1'));
                match logo.colors.get_chars(&key) {
                    Some(c) => c,
                    None => Color::Cyan,
                }
            },
        };
        let label = self.color_to_ansi_for_label(&color);
        let lines = self.info_lines(label.as_str());
        render(&logo.colors, &logo.lines, &lines)
    }
}

} // verus!
