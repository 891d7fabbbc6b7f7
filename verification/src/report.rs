//! The system snapshot model and its text rendering.
//!
//! Measurements that the collector obtains as floating-point numbers are
//! carried here as the decimal text it rendered for them (`{:.1}` or
//! `{:.2}`), and gauges carry the number of filled cells the collector
//! computed for them; everything else, and all the layout, is computed here.

use vstd::prelude::*;
use crate::text::{decimal, has_prefix, pad_left, pad_right, repeat_char, push_decimal, push_text, push_repeat, push_pad_left, push_pad_right};
use crate::uptime::{uptime_text, format_uptime};

verus! {

/// A percentage as shown on a bar: its rendering with one decimal and the
/// number of filled cells.
#[derive(Clone, Debug, PartialEq, Eq)]
pub struct Gauge {
    pub filled: usize,
    pub pct_text: String,
}

/// Processor summary.
#[derive(Clone, Debug, PartialEq, Eq)]
pub struct CpuInfo {
    /// Global usage (percent).
    pub usage: Gauge,
    pub core_count: usize,
    pub model: String,
    pub frequency_mhz: u64,
}

/// Memory summary, in mebibytes, with the usage gauges of RAM and swap.
#[derive(Clone, Debug, PartialEq, Eq)]
pub struct MemInfo {
    pub total_mb: u64,
    pub used_mb: u64,
    pub free_mb: u64,
    pub swap_total_mb: u64,
    pub swap_used_mb: u64,
    pub ram: Gauge,
    pub swap: Gauge,
}

/// One mounted partition; sizes in gigabytes, rendered with one decimal.
#[derive(Clone, Debug, PartialEq, Eq)]
pub struct DiskInfo {
    pub name: String,
    pub mount: String,
    pub total_gb: String,
    pub used_gb: String,
    pub free_gb: String,
    pub usage: Gauge,
    pub fs_type: String,
}

/// Traffic of one network interface; megabytes rendered with two decimals.
#[derive(Clone, Debug, PartialEq, Eq)]
pub struct NetworkInfo {
    pub iface: String,
    pub received_mb: String,
    pub sent_mb: String,
}

/// Identity of the host.
#[derive(Clone, Debug, PartialEq, Eq)]
pub struct HostInfo {
    pub hostname: String,
    pub os_name: String,
    pub os_version: String,
    pub kernel: String,
    pub uptime_sec: u64,
    pub local_ip: String,
    pub username: String,
    pub cpu_arch: String,
}

/// One process; `cpu_usage` is rendered with one decimal and `load` orders
/// processes as their CPU usage does.
#[derive(Clone, Debug, PartialEq, Eq)]
pub struct ProcessInfo {
    pub pid: u32,
    pub name: String,
    pub cpu_usage: String,
    pub load: u32,
    pub memory_mb: u64,
    pub status: String,
    pub user: String,
}

/// Everything the server reports about the machine at one moment.
#[derive(Clone, Debug, PartialEq, Eq)]
pub struct SystemSnapshot {
    pub timestamp: String,
    pub host: HostInfo,
    pub cpu: CpuInfo,
    pub memory: MemInfo,
    pub disks: Vec<DiskInfo>,
    pub networks: Vec<NetworkInfo>,
    pub top_processes: Vec<ProcessInfo>,
}

// ---------------------------------------------------------------------
// Bars
// ---------------------------------------------------------------------

/// `width - filled`, or 0 when the bar is overfull.
pub open spec fn empty_cells(width: nat, filled: nat) -> nat {
    if width > filled {
        (width - filled) as nat
    } else {
        0
    }
}

/// `[<filled full cells><empty cells up to width>] <pct>%`.
pub open spec fn bar_text(g: Gauge, width: nat) -> Seq<char> {
    "["@ + repeat_char('█', g.filled as nat) + repeat_char('░', empty_cells(width, g.filled as nat))
        + "] "@ + g.pct_text@ + "%"@
}

/// Appends the bar of `g` drawn `width` cells wide.
pub fn push_ascii_bar(s: &mut String, g: &Gauge, width: usize)
    ensures
        final(s)@ == old(s)@ + bar_text(*g, width as nat),
{
    push_text(s, "[");
    push_repeat(s, '█', g.filled);
    let empty: usize = if width > g.filled { width - g.filled } else { 0 };
    push_repeat(s, '░', empty);
    push_text(s, "] ");
    push_text(s, g.pct_text.as_str());
    push_text(s, "%");
    assert(s@ =~= old(s)@ + bar_text(*g, width as nat));
}

/// The bar of `g` drawn `width` cells wide.
pub fn ascii_bar(g: &Gauge, width: usize) -> (r: String)
    ensures
        r@ == bar_text(*g, width as nat),
{
    let mut s = String::new();
    push_ascii_bar(&mut s, g, width);
    s
}

// ---------------------------------------------------------------------
// One-line renderings
// ---------------------------------------------------------------------

pub open spec fn cpu_text(c: CpuInfo) -> Seq<char> {
    "CPU : "@ + c.usage.pct_text@ + "%  |  "@ + decimal(c.core_count as nat) + " cœurs  |  "@
        + decimal(c.frequency_mhz as nat) + " MHz  |  Modèle: "@ + c.model@
}

pub open spec fn mem_text(m: MemInfo) -> Seq<char> {
    "RAM : "@ + decimal(m.used_mb as nat) + "MB / "@ + decimal(m.total_mb as nat)
        + "MB utilisés ("@ + decimal(m.free_mb as nat) + " MB libres) | SWAP: "@ + decimal(
        m.swap_used_mb as nat,
    ) + "MB / "@ + decimal(m.swap_total_mb as nat) + "MB"@
}

pub open spec fn disk_text(d: DiskInfo) -> Seq<char> {
    "  "@ + pad_left(d.name@, 10) + "  "@ + d.mount@ + "  "@ + d.used_gb@ + "GB / "@ + d.total_gb@
        + "GB  ("@ + d.usage.pct_text@ + "%)  "@ + d.free_gb@ + "GB libres  ["@ + d.fs_type@ + "]"@
}

pub open spec fn net_text(n: NetworkInfo) -> Seq<char> {
    "  "@ + pad_left(n.iface@, 12) + "  ↓ "@ + n.received_mb@ + " MB reçus  ↑ "@ + n.sent_mb@
        + " MB envoyés"@
}

pub open spec fn host_text(h: HostInfo) -> Seq<char> {
    "Hôte: "@ + h.hostname@ + "  |  OS: "@ + h.os_name@ + " "@ + h.os_version@ + "  |  Kernel: "@
        + h.kernel@ + "\nIP: "@ + h.local_ip@ + "  |  User: "@ + h.username@ + "  |  Arch: "@
        + h.cpu_arch@ + "  |  Uptime: "@ + uptime_text(h.uptime_sec as nat)
}

pub open spec fn process_text(p: ProcessInfo) -> Seq<char> {
    "  ["@ + pad_left(decimal(p.pid as nat), 6) + "] "@ + pad_right(p.name@, 25) + " CPU:"@
        + pad_left(p.cpu_usage@, 5) + "%  MEM:"@ + pad_left(decimal(p.memory_mb as nat), 5)
        + "MB  État:"@ + pad_right(p.status@, 8) + "  User:"@ + p.user@
}

impl CpuInfo {
    /// Appends `CPU : <usage>%  |  <n> cœurs  |  <f> MHz  |  Modèle: <model>`.
    pub fn push_render(&self, s: &mut String)
        ensures
            final(s)@ == old(s)@ + cpu_text(*self),
    {
        push_text(s, "CPU : ");
        push_text(s, self.usage.pct_text.as_str());
        push_text(s, "%  |  ");
        push_decimal(s, self.core_count as u64);
        push_text(s, " cœurs  |  ");
        push_decimal(s, self.frequency_mhz);
        push_text(s, " MHz  |  Modèle: ");
        push_text(s, self.model.as_str());
        assert(s@ =~= old(s)@ + cpu_text(*self));
    }

    /// The one-line summary of the processor.
    pub fn render(&self) -> (r: String)
        ensures
            r@ == cpu_text(*self),
    {
        let mut s = String::new();
        self.push_render(&mut s);
        s
    }
}

impl MemInfo {
    /// Appends `RAM : <used>MB / <total>MB utilisés (<free> MB libres) | SWAP: <u>MB / <t>MB`.
    pub fn push_render(&self, s: &mut String)
        ensures
            final(s)@ == old(s)@ + mem_text(*self),
    {
        push_text(s, "RAM : ");
        push_decimal(s, self.used_mb);
        push_text(s, "MB / ");
        push_decimal(s, self.total_mb);
        push_text(s, "MB utilisés (");
        push_decimal(s, self.free_mb);
        push_text(s, " MB libres) | SWAP: ");
        push_decimal(s, self.swap_used_mb);
        push_text(s, "MB / ");
        push_decimal(s, self.swap_total_mb);
        push_text(s, "MB");
        assert(s@ =~= old(s)@ + mem_text(*self));
    }

    /// The one-line summary of memory.
    pub fn render(&self) -> (r: String)
        ensures
            r@ == mem_text(*self),
    {
        let mut s = String::new();
        self.push_render(&mut s);
        s
    }
}

impl DiskInfo {
    /// Appends the partition line: name right-aligned on 10 characters, mount
    /// point, used and total size, usage, free size and file system.
    pub fn push_render(&self, s: &mut String)
        ensures
            final(s)@ == old(s)@ + disk_text(*self),
    {
        push_text(s, "  ");
        push_pad_left(s, self.name.as_str(), 10);
        push_text(s, "  ");
        push_text(s, self.mount.as_str());
        push_text(s, "  ");
        push_text(s, self.used_gb.as_str());
        push_text(s, "GB / ");
        push_text(s, self.total_gb.as_str());
        push_text(s, "GB  (");
        push_text(s, self.usage.pct_text.as_str());
        push_text(s, "%)  ");
        push_text(s, self.free_gb.as_str());
        push_text(s, "GB libres  [");
        push_text(s, self.fs_type.as_str());
        push_text(s, "]");
        assert(s@ =~= old(s)@ + disk_text(*self));
    }

    /// The one-line summary of the partition.
    pub fn render(&self) -> (r: String)
        ensures
            r@ == disk_text(*self),
    {
        let mut s = String::new();
        self.push_render(&mut s);
        s
    }
}

impl NetworkInfo {
    /// Appends the interface line: name right-aligned on 12 characters, then
    /// received and sent megabytes.
    pub fn push_render(&self, s: &mut String)
        ensures
            final(s)@ == old(s)@ + net_text(*self),
    {
        push_text(s, "  ");
        push_pad_left(s, self.iface.as_str(), 12);
        push_text(s, "  ↓ ");
        push_text(s, self.received_mb.as_str());
        push_text(s, " MB reçus  ↑ ");
        push_text(s, self.sent_mb.as_str());
        push_text(s, " MB envoyés");
        assert(s@ =~= old(s)@ + net_text(*self));
    }

    /// The one-line summary of the interface.
    pub fn render(&self) -> (r: String)
        ensures
            r@ == net_text(*self),
    {
        let mut s = String::new();
        self.push_render(&mut s);
        s
    }
}

impl HostInfo {
    /// Appends the two host lines (name, OS, kernel; IP, user, architecture,
    /// uptime).
    pub fn push_render(&self, s: &mut String)
        ensures
            final(s)@ == old(s)@ + host_text(*self),
    {
        push_text(s, "Hôte: ");
        push_text(s, self.hostname.as_str());
        push_text(s, "  |  OS: ");
        push_text(s, self.os_name.as_str());
        push_text(s, " ");
        push_text(s, self.os_version.as_str());
        push_text(s, "  |  Kernel: ");
        push_text(s, self.kernel.as_str());
        push_text(s, "\nIP: ");
        push_text(s, self.local_ip.as_str());
        push_text(s, "  |  User: ");
        push_text(s, self.username.as_str());
        push_text(s, "  |  Arch: ");
        push_text(s, self.cpu_arch.as_str());
        push_text(s, "  |  Uptime: ");
        let up = format_uptime(self.uptime_sec);
        push_text(s, up.as_str());
        assert(s@ =~= old(s)@ + host_text(*self));
    }

    /// The host summary.
    pub fn render(&self) -> (r: String)
        ensures
            r@ == host_text(*self),
    {
        let mut s = String::new();
        self.push_render(&mut s);
        s
    }
}

impl ProcessInfo {
    /// Appends the process line: PID right-aligned on 6, name left-aligned
    /// on 25, CPU on 5, memory on 5, state left-aligned on 8, then the user.
    pub fn push_render(&self, s: &mut String)
        ensures
            final(s)@ == old(s)@ + process_text(*self),
    {
        push_text(s, "  [");
        let pid = crate::text::decimal_text(self.pid as u64);
        push_pad_left(s, pid.as_str(), 6);
        push_text(s, "] ");
        push_pad_right(s, self.name.as_str(), 25);
        push_text(s, " CPU:");
        push_pad_left(s, self.cpu_usage.as_str(), 5);
        push_text(s, "%  MEM:");
        let mem = crate::text::decimal_text(self.memory_mb);
        push_pad_left(s, mem.as_str(), 5);
        push_text(s, "MB  État:");
        push_pad_right(s, self.status.as_str(), 8);
        push_text(s, "  User:");
        push_text(s, self.user.as_str());
        assert(s@ =~= old(s)@ + process_text(*self));
    }

    /// The one-line summary of the process.
    pub fn render(&self) -> (r: String)
        ensures
            r@ == process_text(*self),
    {
        let mut s = String::new();
        self.push_render(&mut s);
        s
    }
}

// ---------------------------------------------------------------------
// Lists
// ---------------------------------------------------------------------

/// One line per partition.
pub open spec fn disk_lines(ds: Seq<DiskInfo>) -> Seq<char>
    decreases ds.len(),
{
    if ds.len() == 0 {
        Seq::empty()
    } else {
        disk_lines(ds.drop_last()) + disk_text(ds.last()) + "\n"@
    }
}

/// One line per interface.
pub open spec fn net_lines(ns: Seq<NetworkInfo>) -> Seq<char>
    decreases ns.len(),
{
    if ns.len() == 0 {
        Seq::empty()
    } else {
        net_lines(ns.drop_last()) + net_text(ns.last()) + "\n"@
    }
}

/// One line per process.
pub open spec fn process_lines(ps: Seq<ProcessInfo>) -> Seq<char>
    decreases ps.len(),
{
    if ps.len() == 0 {
        Seq::empty()
    } else {
        process_lines(ps.drop_last()) + process_text(ps.last()) + "\n"@
    }
}

/// Appends one line per partition.
pub fn push_disk_lines(s: &mut String, ds: &Vec<DiskInfo>)
    ensures
        final(s)@ == old(s)@ + disk_lines(ds@),
{
    let ghost start = s@;
    let mut i: usize = 0;
    assert(ds@.take(0) =~= Seq::<DiskInfo>::empty());
    while i < ds.len()
        invariant
            i <= ds@.len(),
            s@ == start + disk_lines(ds@.take(i as int)),
        decreases ds@.len() - i,
    {
        ds[i].push_render(s);
        push_text(s, "\n");
        assert(ds@.take(i + 1).drop_last() =~= ds@.take(i as int));
        i = i + 1;
        assert(s@ =~= start + disk_lines(ds@.take(i as int)));
    }
    assert(ds@.take(ds@.len() as int) =~= ds@);
}

/// Appends one line per interface.
pub fn push_net_lines(s: &mut String, ns: &Vec<NetworkInfo>)
    ensures
        final(s)@ == old(s)@ + net_lines(ns@),
{
    let ghost start = s@;
    let mut i: usize = 0;
    assert(ns@.take(0) =~= Seq::<NetworkInfo>::empty());
    while i < ns.len()
        invariant
            i <= ns@.len(),
            s@ == start + net_lines(ns@.take(i as int)),
        decreases ns@.len() - i,
    {
        ns[i].push_render(s);
        push_text(s, "\n");
        assert(ns@.take(i + 1).drop_last() =~= ns@.take(i as int));
        i = i + 1;
        assert(s@ =~= start + net_lines(ns@.take(i as int)));
    }
    assert(ns@.take(ns@.len() as int) =~= ns@);
}

/// Appends one line per process.
pub fn push_process_lines(s: &mut String, ps: &Vec<ProcessInfo>)
    ensures
        final(s)@ == old(s)@ + process_lines(ps@),
{
    let ghost start = s@;
    let mut i: usize = 0;
    assert(ps@.take(0) =~= Seq::<ProcessInfo>::empty());
    while i < ps.len()
        invariant
            i <= ps@.len(),
            s@ == start + process_lines(ps@.take(i as int)),
        decreases ps@.len() - i,
    {
        ps[i].push_render(s);
        push_text(s, "\n");
        assert(ps@.take(i + 1).drop_last() =~= ps@.take(i as int));
        i = i + 1;
        assert(s@ =~= start + process_lines(ps@.take(i as int)));
    }
    assert(ps@.take(ps@.len() as int) =~= ps@);
}

// ---------------------------------------------------------------------
// The full view
// ---------------------------------------------------------------------

/// The framed header with the timestamp.
pub open spec fn snapshot_header(ts: Seq<char>) -> Seq<char> {
    "╔══════════════════════════════════════════════╗\n"@ + "║         SysWatch v2.0 — Vue complète         ║\n"@ + "║  "@ + ts + "  ║\n"@ + "╚══════════════════════════════════════════════╝\n"@
}

/// The host, CPU and memory sections.
pub open spec fn summary_sections(s: SystemSnapshot) -> Seq<char> {
    "\n[HÔTE]\n"@ + host_text(s.host) + "\n"@ + "\n[CPU]\n"@ + cpu_text(s.cpu) + "\n"@
        + "\n[MÉMOIRE]\n"@ + mem_text(s.memory) + "\n"@
}

/// The partition, interface and process sections.
pub open spec fn list_sections(s: SystemSnapshot) -> Seq<char> {
    "\n[DISQUES]\n"@ + disk_lines(s.disks@) + "\n[RÉSEAU]\n"@ + net_lines(s.networks@)
        + "\n[TOP PROCESSUS]\n"@ + process_lines(s.top_processes@)
}

/// The complete report: header, host, CPU, memory, partitions, interfaces,
/// top processes, closing rule.
pub open spec fn snapshot_text(s: SystemSnapshot) -> Seq<char> {
    snapshot_header(s.timestamp@) + summary_sections(s) + list_sections(s) + "══════════════════════════════════════════════════"@
}

impl SystemSnapshot {
    fn push_header(&self, s: &mut String)
        ensures
            final(s)@ == old(s)@ + snapshot_header(self.timestamp@),
    {
        push_text(s, "╔══════════════════════════════════════════════╗\n");
        push_text(s, "║         SysWatch v2.0 — Vue complète         ║\n");
        push_text(s, "║  ");
        push_text(s, self.timestamp.as_str());
        push_text(s, "  ║\n");
        push_text(s, "╚══════════════════════════════════════════════╝\n");
        assert(s@ =~= old(s)@ + snapshot_header(self.timestamp@));
    }

    fn push_summary(&self, s: &mut String)
        ensures
            final(s)@ == old(s)@ + summary_sections(*self),
    {
        push_text(s, "\n[HÔTE]\n");
        self.host.push_render(s);
        push_text(s, "\n");
        push_text(s, "\n[CPU]\n");
        self.cpu.push_render(s);
        push_text(s, "\n");
        push_text(s, "\n[MÉMOIRE]\n");
        self.memory.push_render(s);
        push_text(s, "\n");
        assert(s@ =~= old(s)@ + summary_sections(*self));
    }

    fn push_lists(&self, s: &mut String)
        ensures
            final(s)@ == old(s)@ + list_sections(*self),
    {
        push_text(s, "\n[DISQUES]\n");
        push_disk_lines(s, &self.disks);
        push_text(s, "\n[RÉSEAU]\n");
        push_net_lines(s, &self.networks);
        push_text(s, "\n[TOP PROCESSUS]\n");
        push_process_lines(s, &self.top_processes);
        assert(s@ =~= old(s)@ + list_sections(*self));
    }

    /// Appends the complete report.
    pub fn push_render(&self, s: &mut String)
        ensures
            final(s)@ == old(s)@ + snapshot_text(*self),
    {
        self.push_header(s);
        self.push_summary(s);
        self.push_lists(s);
        push_text(s, "══════════════════════════════════════════════════");
        assert(s@ =~= old(s)@ + snapshot_text(*self));
    }

    /// The complete report.
    pub fn render(&self) -> (r: String)
        ensures
            r@ == snapshot_text(*self),
    {
        let mut s = String::new();
        self.push_render(&mut s);
        s
    }
}

// ---------------------------------------------------------------------
// Laws of the renderings
// ---------------------------------------------------------------------

/// `s` ends with `t`.
pub open spec fn has_suffix(s: Seq<char>, t: Seq<char>) -> bool {
    t.len() <= s.len() && s.skip(s.len() - t.len()) == t
}

/// `t` occurs in `s` at position `p`.
pub open spec fn occurs_at(s: Seq<char>, t: Seq<char>, p: int) -> bool {
    0 <= p && p + t.len() <= s.len() && s.subrange(p, p + t.len()) == t
}

proof fn lemma_prefix_of_concat(a: Seq<char>, b: Seq<char>)
    ensures
        has_prefix(a + b, a),
{
    assert((a + b).take(a.len() as int) =~= a);
}

proof fn lemma_suffix_of_concat(a: Seq<char>, b: Seq<char>)
    ensures
        has_suffix(a + b, b),
{
    assert((a + b).skip((a + b).len() - b.len()) =~= b);
}

proof fn lemma_occurs_in_concat(a: Seq<char>, t: Seq<char>, b: Seq<char>)
    ensures
        occurs_at(a + t + b, t, a.len() as int),
{
    assert((a + t + b).subrange(a.len() as int, (a.len() + t.len()) as int) =~= t);
}

/// The memory line starts with the used mebibytes, then the total, then the
/// free mebibytes in parentheses before ` MB libres)`; it ends with the swap
/// figures, used before total.
pub proof fn lemma_memory_line_fields(m: MemInfo)
    ensures
        has_prefix(
            mem_text(m),
            "RAM : "@ + decimal(m.used_mb as nat) + "MB / "@ + decimal(m.total_mb as nat)
                + "MB utilisés ("@ + decimal(m.free_mb as nat) + " MB libres) | SWAP: "@,
        ),
        has_suffix(mem_text(m), decimal(m.swap_used_mb as nat) + "MB / "@ + decimal(m.swap_total_mb as nat) + "MB"@),
{
    let pre = "RAM : "@ + decimal(m.used_mb as nat) + "MB / "@ + decimal(m.total_mb as nat)
        + "MB utilisés ("@ + decimal(m.free_mb as nat) + " MB libres) | SWAP: "@;
    let suf = decimal(m.swap_used_mb as nat) + "MB / "@ + decimal(m.swap_total_mb as nat) + "MB"@;
    assert(mem_text(m) =~= pre + suf);
    lemma_prefix_of_concat(pre, suf);
    lemma_suffix_of_concat(pre, suf);
}

/// The processor line gives the usage, the number of cores and the
/// frequency, in that order, and ends with the model.
pub proof fn lemma_cpu_line_fields(c: CpuInfo)
    ensures
        has_prefix(
            cpu_text(c),
            "CPU : "@ + c.usage.pct_text@ + "%  |  "@ + decimal(c.core_count as nat) + " cœurs  |  "@
                + decimal(c.frequency_mhz as nat) + " MHz  |  Modèle: "@,
        ),
        has_suffix(cpu_text(c), c.model@),
{
    let pre = "CPU : "@ + c.usage.pct_text@ + "%  |  "@ + decimal(c.core_count as nat)
        + " cœurs  |  "@ + decimal(c.frequency_mhz as nat) + " MHz  |  Modèle: "@;
    assert(cpu_text(c) =~= pre + c.model@);
    lemma_prefix_of_concat(pre, c.model@);
    lemma_suffix_of_concat(pre, c.model@);
}

/// The partition line gives the name right-aligned on 10 characters, the
/// mount point, the used then total size and the usage, then the free size,
/// and ends with the file system in brackets.
pub proof fn lemma_disk_line_fields(d: DiskInfo)
    ensures
        has_prefix(
            disk_text(d),
            "  "@ + pad_left(d.name@, 10) + "  "@ + d.mount@ + "  "@ + d.used_gb@ + "GB / "@
                + d.total_gb@ + "GB  ("@ + d.usage.pct_text@ + "%)  "@ + d.free_gb@ + "GB libres  ["@,
        ),
        has_suffix(disk_text(d), "["@ + d.fs_type@ + "]"@),
{
    let pre = "  "@ + pad_left(d.name@, 10) + "  "@ + d.mount@ + "  "@ + d.used_gb@ + "GB / "@
        + d.total_gb@ + "GB  ("@ + d.usage.pct_text@ + "%)  "@ + d.free_gb@ + "GB libres  ["@;
    let rest = d.fs_type@ + "]"@;
    assert(disk_text(d) =~= pre + rest);
    lemma_prefix_of_concat(pre, rest);
    let front = "  "@ + pad_left(d.name@, 10) + "  "@ + d.mount@ + "  "@ + d.used_gb@ + "GB / "@
        + d.total_gb@ + "GB  ("@ + d.usage.pct_text@ + "%)  "@ + d.free_gb@ + "GB libres  "@;
    reveal_strlit("GB libres  [");
    reveal_strlit("GB libres  ");
    reveal_strlit("[");
    assert(disk_text(d) =~= front + ("["@ + d.fs_type@ + "]"@));
    lemma_suffix_of_concat(front, "["@ + d.fs_type@ + "]"@);
}

/// The interface line gives the name right-aligned on 12 characters, then
/// the received megabytes, then the sent ones.
pub proof fn lemma_net_line_fields(n: NetworkInfo)
    ensures
        net_text(n) == "  "@ + pad_left(n.iface@, 12) + "  ↓ "@ + n.received_mb@ + " MB reçus  ↑ "@
            + n.sent_mb@ + " MB envoyés"@,
        has_prefix(net_text(n), "  "@ + pad_left(n.iface@, 12) + "  ↓ "@ + n.received_mb@),
{
    let pre = "  "@ + pad_left(n.iface@, 12) + "  ↓ "@ + n.received_mb@;
    assert(net_text(n) =~= pre + (" MB reçus  ↑ "@ + n.sent_mb@ + " MB envoyés"@));
    lemma_prefix_of_concat(pre, " MB reçus  ↑ "@ + n.sent_mb@ + " MB envoyés"@);
}

/// The host lines give name, OS name and version, kernel; then IP, user,
/// architecture and the uptime of the host.
pub proof fn lemma_host_line_fields(h: HostInfo)
    ensures
        has_prefix(
            host_text(h),
            "Hôte: "@ + h.hostname@ + "  |  OS: "@ + h.os_name@ + " "@ + h.os_version@
                + "  |  Kernel: "@ + h.kernel@ + "\nIP: "@ + h.local_ip@ + "  |  User: "@ + h.username@
                + "  |  Arch: "@ + h.cpu_arch@ + "  |  Uptime: "@,
        ),
        has_suffix(host_text(h), crate::uptime::uptime_text(h.uptime_sec as nat)),
{
    let pre = "Hôte: "@ + h.hostname@ + "  |  OS: "@ + h.os_name@ + " "@ + h.os_version@
        + "  |  Kernel: "@ + h.kernel@ + "\nIP: "@ + h.local_ip@ + "  |  User: "@ + h.username@
        + "  |  Arch: "@ + h.cpu_arch@ + "  |  Uptime: "@;
    assert(host_text(h) =~= pre + uptime_text(h.uptime_sec as nat));
    lemma_prefix_of_concat(pre, uptime_text(h.uptime_sec as nat));
    lemma_suffix_of_concat(pre, uptime_text(h.uptime_sec as nat));
}

/// The process line gives the PID right-aligned on 6, the name left-aligned
/// on 25, the CPU usage on 5, the memory on 5 and the state left-aligned on
/// 8, and ends with the user.
pub proof fn lemma_process_line_fields(p: ProcessInfo)
    ensures
        has_prefix(
            process_text(p),
            "  ["@ + pad_left(decimal(p.pid as nat), 6) + "] "@ + pad_right(p.name@, 25) + " CPU:"@
                + pad_left(p.cpu_usage@, 5) + "%  MEM:"@ + pad_left(decimal(p.memory_mb as nat), 5)
                + "MB  État:"@ + pad_right(p.status@, 8) + "  User:"@,
        ),
        has_suffix(process_text(p), p.user@),
{
    let pre = "  ["@ + pad_left(decimal(p.pid as nat), 6) + "] "@ + pad_right(p.name@, 25) + " CPU:"@
        + pad_left(p.cpu_usage@, 5) + "%  MEM:"@ + pad_left(decimal(p.memory_mb as nat), 5)
        + "MB  État:"@ + pad_right(p.status@, 8) + "  User:"@;
    assert(process_text(p) =~= pre + p.user@);
    lemma_prefix_of_concat(pre, p.user@);
    lemma_suffix_of_concat(pre, p.user@);
}

/// A bar has `filled` full cells, then empty cells up to the width, and
/// ends with the percentage.
pub proof fn lemma_bar_cells(g: Gauge, width: nat)
    ensures
        has_prefix(
            bar_text(g, width),
            "["@ + repeat_char('█', g.filled as nat) + repeat_char(
                '░',
                if width > g.filled { (width - g.filled) as nat } else { 0 },
            ) + "] "@,
        ),
        has_suffix(bar_text(g, width), g.pct_text@ + "%"@),
{
    let pre = "["@ + repeat_char('█', g.filled as nat) + repeat_char(
        '░',
        if width > g.filled { (width - g.filled) as nat } else { 0 },
    ) + "] "@;
    assert(bar_text(g, width) =~= pre + (g.pct_text@ + "%"@));
    lemma_prefix_of_concat(pre, g.pct_text@ + "%"@);
    lemma_suffix_of_concat(pre, g.pct_text@ + "%"@);
}

/// The partition lines of a list are those of its parts, in order.
pub proof fn lemma_disk_lines_concat(a: Seq<DiskInfo>, b: Seq<DiskInfo>)
    ensures
        disk_lines(a + b) == disk_lines(a) + disk_lines(b),
    decreases b.len(),
{
    if b.len() == 0 {
        assert(a + b =~= a);
        assert(disk_lines(a) + disk_lines(b) =~= disk_lines(a));
    } else {
        lemma_disk_lines_concat(a, b.drop_last());
        assert((a + b).drop_last() =~= a + b.drop_last());
        assert((a + b).last() == b.last());
        assert(disk_lines(a + b) =~= disk_lines(a) + disk_lines(b));
    }
}

/// One partition gives its own line.
pub proof fn lemma_disk_lines_single(x: DiskInfo)
    ensures
        disk_lines(seq![x]) == disk_text(x) + "\n"@,
{
    assert(seq![x].drop_last() =~= Seq::<DiskInfo>::empty());
    assert(seq![x].last() == x);
    assert(disk_lines(Seq::<DiskInfo>::empty()) =~= Seq::<char>::empty());
    assert(disk_lines(seq![x]) == disk_lines(seq![x].drop_last()) + disk_text(seq![x].last()) + "\n"@);
    assert(disk_lines(seq![x]) =~= disk_text(x) + "\n"@);
}

/// Line `k` of the partition section is the rendering of item `k`: the section
/// is the lines before it, that line, and the lines after it.
pub proof fn lemma_disk_lines_at(xs: Seq<DiskInfo>, k: int)
    requires
        0 <= k < xs.len(),
    ensures
        disk_lines(xs) == disk_lines(xs.take(k)) + disk_text(xs[k]) + "\n"@ + disk_lines(xs.skip(k + 1)),
{
    assert(xs =~= xs.take(k) + (seq![xs[k]] + xs.skip(k + 1)));
    lemma_disk_lines_concat(xs.take(k), seq![xs[k]] + xs.skip(k + 1));
    lemma_disk_lines_concat(seq![xs[k]], xs.skip(k + 1));
    lemma_disk_lines_single(xs[k]);
    assert(disk_lines(xs) =~= disk_lines(xs.take(k)) + disk_text(xs[k]) + "\n"@ + disk_lines(xs.skip(k + 1)));
}

/// The interface lines of a list are those of its parts, in order.
pub proof fn lemma_net_lines_concat(a: Seq<NetworkInfo>, b: Seq<NetworkInfo>)
    ensures
        net_lines(a + b) == net_lines(a) + net_lines(b),
    decreases b.len(),
{
    if b.len() == 0 {
        assert(a + b =~= a);
        assert(net_lines(a) + net_lines(b) =~= net_lines(a));
    } else {
        lemma_net_lines_concat(a, b.drop_last());
        assert((a + b).drop_last() =~= a + b.drop_last());
        assert((a + b).last() == b.last());
        assert(net_lines(a + b) =~= net_lines(a) + net_lines(b));
    }
}

/// One interface gives its own line.
pub proof fn lemma_net_lines_single(x: NetworkInfo)
    ensures
        net_lines(seq![x]) == net_text(x) + "\n"@,
{
    assert(seq![x].drop_last() =~= Seq::<NetworkInfo>::empty());
    assert(seq![x].last() == x);
    assert(net_lines(Seq::<NetworkInfo>::empty()) =~= Seq::<char>::empty());
    assert(net_lines(seq![x]) == net_lines(seq![x].drop_last()) + net_text(seq![x].last()) + "\n"@);
    assert(net_lines(seq![x]) =~= net_text(x) + "\n"@);
}

/// Line `k` of the interface section is the rendering of item `k`: the section
/// is the lines before it, that line, and the lines after it.
pub proof fn lemma_net_lines_at(xs: Seq<NetworkInfo>, k: int)
    requires
        0 <= k < xs.len(),
    ensures
        net_lines(xs) == net_lines(xs.take(k)) + net_text(xs[k]) + "\n"@ + net_lines(xs.skip(k + 1)),
{
    assert(xs =~= xs.take(k) + (seq![xs[k]] + xs.skip(k + 1)));
    lemma_net_lines_concat(xs.take(k), seq![xs[k]] + xs.skip(k + 1));
    lemma_net_lines_concat(seq![xs[k]], xs.skip(k + 1));
    lemma_net_lines_single(xs[k]);
    assert(net_lines(xs) =~= net_lines(xs.take(k)) + net_text(xs[k]) + "\n"@ + net_lines(xs.skip(k + 1)));
}

/// The process lines of a list are those of its parts, in order.
pub proof fn lemma_process_lines_concat(a: Seq<ProcessInfo>, b: Seq<ProcessInfo>)
    ensures
        process_lines(a + b) == process_lines(a) + process_lines(b),
    decreases b.len(),
{
    if b.len() == 0 {
        assert(a + b =~= a);
        assert(process_lines(a) + process_lines(b) =~= process_lines(a));
    } else {
        lemma_process_lines_concat(a, b.drop_last());
        assert((a + b).drop_last() =~= a + b.drop_last());
        assert((a + b).last() == b.last());
        assert(process_lines(a + b) =~= process_lines(a) + process_lines(b));
    }
}

/// One process gives its own line.
pub proof fn lemma_process_lines_single(x: ProcessInfo)
    ensures
        process_lines(seq![x]) == process_text(x) + "\n"@,
{
    assert(seq![x].drop_last() =~= Seq::<ProcessInfo>::empty());
    assert(seq![x].last() == x);
    assert(process_lines(Seq::<ProcessInfo>::empty()) =~= Seq::<char>::empty());
    assert(process_lines(seq![x]) == process_lines(seq![x].drop_last()) + process_text(seq![x].last()) + "\n"@);
    assert(process_lines(seq![x]) =~= process_text(x) + "\n"@);
}

/// Line `k` of the process section is the rendering of item `k`: the section
/// is the lines before it, that line, and the lines after it.
pub proof fn lemma_process_lines_at(xs: Seq<ProcessInfo>, k: int)
    requires
        0 <= k < xs.len(),
    ensures
        process_lines(xs) == process_lines(xs.take(k)) + process_text(xs[k]) + "\n"@ + process_lines(xs.skip(k + 1)),
{
    assert(xs =~= xs.take(k) + (seq![xs[k]] + xs.skip(k + 1)));
    lemma_process_lines_concat(xs.take(k), seq![xs[k]] + xs.skip(k + 1));
    lemma_process_lines_concat(seq![xs[k]], xs.skip(k + 1));
    lemma_process_lines_single(xs[k]);
    assert(process_lines(xs) =~= process_lines(xs.take(k)) + process_text(xs[k]) + "\n"@ + process_lines(xs.skip(k + 1)));
}

/// The full view is the header with the timestamp, then the host, CPU and
/// memory sections, then the partition, interface and process lines, then
/// the closing rule, in that order.
pub proof fn lemma_snapshot_sections(s: SystemSnapshot)
    ensures
        snapshot_text(s) == snapshot_header(s.timestamp@) + summary_sections(s) + list_sections(s)
            + "══════════════════════════════════════════════════"@,
        snapshot_header(s.timestamp@) == "╔══════════════════════════════════════════════╗\n"@ + "║         SysWatch v2.0 — Vue complète         ║\n"@ + "║  "@ + s.timestamp@ + "  ║\n"@
            + "╚══════════════════════════════════════════════╝\n"@,
        summary_sections(s) == "\n[HÔTE]\n"@ + host_text(s.host) + "\n"@ + "\n[CPU]\n"@ + cpu_text(s.cpu)
            + "\n"@ + "\n[MÉMOIRE]\n"@ + mem_text(s.memory) + "\n"@,
        list_sections(s) == "\n[DISQUES]\n"@ + disk_lines(s.disks@) + "\n[RÉSEAU]\n"@ + net_lines(
            s.networks@,
        ) + "\n[TOP PROCESSUS]\n"@ + process_lines(s.top_processes@),
{
}

} // verus!
