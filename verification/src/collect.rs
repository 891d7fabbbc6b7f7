//! Assembly of a snapshot from the raw readings of the machine: unit
//! conversions, fallbacks for missing readings, the interface filter and the
//! ranking of processes by CPU load.

use vstd::prelude::*;
use crate::report::{CpuInfo, DiskInfo, Gauge, HostInfo, MemInfo, NetworkInfo, ProcessInfo, SystemSnapshot};
use crate::text::{has_prefix, push_text, starts_with_text, trim, trim_text};

verus! {

/// Whole mebibytes in `bytes`.
pub fn bytes_to_mb(bytes: u64) -> (mb: u64)
    ensures
        mb == bytes / 1048576,
{
    bytes / 1024 / 1024
}

/// The reading, or `N/A` when there is none.
pub fn or_unavailable(reading: Option<String>) -> (r: String)
    ensures
        r@ == (match reading {
            Some(s) => s@,
            None => "N/A"@,
        }),
{
    match reading {
        Some(s) => s,
        None => "N/A".to_owned(),
    }
}

/// The owner's name of a process, or `-` when it has none.
pub fn user_label(name: Option<String>) -> (r: String)
    ensures
        r@ == (match name {
            Some(s) => s@,
            None => "-"@,
        }),
{
    match name {
        Some(s) => s,
        None => "-".to_owned(),
    }
}

/// Interfaces whose name starts with `lo` are loopback interfaces.
pub open spec fn is_loopback(iface: Seq<char>) -> bool {
    has_prefix(iface, "lo"@)
}

/// The interfaces that are not loopback ones, in their order.
pub open spec fn external_interfaces(ns: Seq<NetworkInfo>) -> Seq<NetworkInfo>
    decreases ns.len(),
{
    if ns.len() == 0 {
        Seq::empty()
    } else if is_loopback(ns.last().iface@) {
        external_interfaces(ns.drop_last())
    } else {
        external_interfaces(ns.drop_last()).push(ns.last())
    }
}

/// Drops the loopback interfaces, keeping the others in order.
pub fn drop_loopback(networks: Vec<NetworkInfo>) -> (r: Vec<NetworkInfo>)
    ensures
        r@ == external_interfaces(networks@),
{
    let ghost orig = networks@;
    let mut rest = networks;
    let mut kept: Vec<NetworkInfo> = Vec::new();
    let ghost mut i: int = 0;
    assert(orig.take(0) =~= Seq::<NetworkInfo>::empty());
    assert(orig.skip(0) =~= orig);
    while rest.len() > 0
        invariant
            0 <= i <= orig.len(),
            rest@ == orig.skip(i),
            kept@ == external_interfaces(orig.take(i)),
        decreases rest@.len(),
    {
        let n = rest.remove(0);
        proof {
            assert(orig.take(i + 1).drop_last() =~= orig.take(i));
            assert(orig.take(i + 1).last() == n);
            assert(orig.skip(i).remove(0) =~= orig.skip(i + 1));
        }
        if !starts_with_text(n.iface.as_str(), "lo") {
            kept.push(n);
        }
        proof {
            i = i + 1;
        }
    }
    assert(orig.take(i) =~= orig);
    kept
}

/// Dropping loopback interfaces keeps exactly the interfaces whose name does
/// not start with `lo`, in their order: it is the filter of the list by that
/// test. In particular every such interface is kept and every one whose name
/// starts with `lo` is dropped.
pub proof fn lemma_external_interfaces_filter(ns: Seq<NetworkInfo>)
    ensures
        external_interfaces(ns) == ns.filter(|n: NetworkInfo| !has_prefix(n.iface@, "lo"@)),
        forall|k: int|
            0 <= k < ns.len() && !has_prefix(ns[k].iface@, "lo"@) ==> external_interfaces(ns).contains(
                #[trigger] ns[k],
            ),
        forall|n: NetworkInfo| #[trigger] external_interfaces(ns).contains(n) ==> !has_prefix(n.iface@, "lo"@)
            && ns.contains(n),
    decreases ns.len(),
{
    let pred = |n: NetworkInfo| !has_prefix(n.iface@, "lo"@);
    if ns.len() == 0 {
        assert(ns.filter(pred) =~= Seq::<NetworkInfo>::empty());
    } else {
        let init = ns.drop_last();
        let last = ns.last();
        lemma_external_interfaces_filter(init);
        reveal_with_fuel(Seq::filter, 1);
        assert(ns.filter(pred) == (if pred(last) { init.filter(pred).push(last) } else { init.filter(pred) }));
        let e = external_interfaces(ns);
        let ei = external_interfaces(init);
        assert forall|k: int|
            0 <= k < ns.len() && !has_prefix(ns[k].iface@, "lo"@) implies e.contains(#[trigger] ns[k]) by {
            if k == ns.len() - 1 {
                assert(e.last() == ns[k]);
                assert(e[e.len() - 1] == ns[k]);
            } else {
                assert(ns[k] == init[k]);
                assert(ei.contains(init[k]));
                let j = choose|j: int| 0 <= j < ei.len() && ei[j] == init[k];
                if !is_loopback(last.iface@) {
                    assert(e[j] == ei[j]);
                }
            }
        }
        assert forall|n: NetworkInfo| #[trigger] e.contains(n) implies !has_prefix(n.iface@, "lo"@) && ns.contains(
            n,
        ) by {
            let j = choose|j: int| 0 <= j < e.len() && e[j] == n;
            if !is_loopback(last.iface@) && j == e.len() - 1 {
                assert(n == last);
                assert(ns[ns.len() - 1] == n);
            } else {
                assert(e[j] == ei[j]);
                assert(ei.contains(n));
                assert(init.contains(n));
                let i = choose|i: int| 0 <= i < init.len() && init[i] == n;
                assert(ns[i] == n);
            }
        }
    }
}

// ---------------------------------------------------------------------
// Ranking processes by load
// ---------------------------------------------------------------------

/// The load keys of the processes.
pub open spec fn loads(ps: Seq<ProcessInfo>) -> Seq<u32> {
    ps.map_values(|p: ProcessInfo| p.load)
}

/// Position `a` comes before position `b`: a higher load, or the same load
/// and an earlier position.
pub open spec fn ranks_before(keys: Seq<u32>, a: int, b: int) -> bool {
    keys[a] > keys[b] || (keys[a] == keys[b] && a < b)
}

/// Position `m` appears in `ord`.
pub open spec fn listed(ord: Seq<int>, m: int) -> bool {
    exists|k: int| 0 <= k < ord.len() && ord[k] == m
}

/// `ord` lists every position of `keys` once, by decreasing load, ties in
/// their original order.
pub open spec fn is_load_ranking(keys: Seq<u32>, ord: Seq<int>) -> bool {
    &&& ord.len() == keys.len()
    &&& forall|k: int| 0 <= k < ord.len() ==> 0 <= #[trigger] ord[k] < keys.len()
    &&& forall|m: int| 0 <= m < keys.len() ==> #[trigger] listed(ord, m)
    &&& forall|a: int, b: int|
        0 <= a < b < ord.len() ==> ranks_before(keys, #[trigger] ord[a], #[trigger] ord[b])
}

/// At most this many processes are reported.
pub open spec fn top_count(n: nat) -> nat {
    if n < 10 {
        n
    } else {
        10
    }
}

/// The processes at the first `top_count` positions of `ord`.
pub open spec fn pick(ps: Seq<ProcessInfo>, ord: Seq<int>) -> Seq<ProcessInfo> {
    ord.take(top_count(ps.len()) as int).map_values(|i: int| ps[i])
}

/// The (at most) ten processes with the highest load, highest first; among
/// equal loads the earlier one first.
pub fn top_processes(procs: Vec<ProcessInfo>) -> (r: Vec<ProcessInfo>)
    ensures
        exists|ord: Seq<int>| is_load_ranking(loads(procs@), ord) && r@ == pick(procs@, ord),
{
    let ghost orig = procs@;
    let ghost keys = loads(orig);
    let total = procs.len();
    let mut rest = procs;
    let mut ranked: Vec<ProcessInfo> = Vec::new();
    let ghost mut ord: Seq<int> = Seq::empty();
    let mut i: usize = 0;
    assert(orig.skip(0) =~= orig);
    while rest.len() > 0
        invariant
            i <= orig.len(),
            total == orig.len(),
            keys == loads(orig),
            rest@ == orig.skip(i as int),
            ranked@.len() == i,
            ord.len() == i,
            forall|k: int| 0 <= k < i ==> 0 <= #[trigger] ord[k] < i,
            forall|m: int| 0 <= m < i ==> #[trigger] listed(ord, m),
            forall|a: int, b: int|
                0 <= a < b < i ==> ranks_before(keys, #[trigger] ord[a], #[trigger] ord[b]),
            forall|k: int| 0 <= k < i ==> #[trigger] ranked@[k] == orig[ord[k]],
        decreases rest@.len(),
    {
        assert(i < total);
        let p = rest.remove(0);
        assert(p == orig[i as int]);
        assert(orig.skip(i as int).remove(0) =~= orig.skip(i + 1));
        let load = p.load;
        assert(keys[i as int] == load);
        let mut pos: usize = 0;
        while pos < ranked.len() && ranked[pos].load >= load
            invariant
                pos <= ranked@.len(),
                i <= orig.len(),
                ranked@.len() == i,
                ord.len() == i,
                keys == loads(orig),
                forall|k: int| 0 <= k < i ==> 0 <= #[trigger] ord[k] < i,
                forall|k: int| 0 <= k < i ==> #[trigger] ranked@[k] == orig[ord[k]],
                forall|k: int| 0 <= k < pos ==> keys[#[trigger] ord[k]] >= load,
            decreases ranked@.len() - pos,
        {
            assert(ranked@[pos as int] == orig[ord[pos as int]]);
            assert(keys[ord[pos as int]] == ranked@[pos as int].load);
            pos = pos + 1;
        }
        proof {
            if pos < i {
                assert(ranked@[pos as int] == orig[ord[pos as int]]);
                assert(keys[ord[pos as int]] == ranked@[pos as int].load);
                assert(keys[ord[pos as int]] < load);
                assert forall|k: int| pos <= k < i implies keys[#[trigger] ord[k]] < load by {
                    if k > pos {
                        assert(ranks_before(keys, ord[pos as int], ord[k]));
                    }
                }
            }
        }
        ranked.insert(pos, p);
        let ghost old_ord = ord;
        proof {
            ord = ord.insert(pos as int, i as int);
            assert forall|k: int| 0 <= k < i + 1 implies 0 <= #[trigger] ord[k] < i + 1 by {
                if k < pos {
                    assert(ord[k] == old_ord[k]);
                } else if k > pos {
                    assert(ord[k] == old_ord[k - 1]);
                }
            }
            assert forall|m: int| 0 <= m < i + 1 implies #[trigger] listed(ord, m) by {
                if m == i {
                    assert(ord[pos as int] == m);
                } else {
                    assert(listed(old_ord, m));
                    let k0 = choose|k: int| 0 <= k < old_ord.len() && old_ord[k] == m;
                    if k0 < pos {
                        assert(ord[k0] == m);
                    } else {
                        assert(ord[k0 + 1] == m);
                    }
                }
            }
            assert forall|a: int, b: int| 0 <= a < b < i + 1 implies ranks_before(
                keys,
                #[trigger] ord[a],
                #[trigger] ord[b],
            ) by {
                if a < pos && b < pos {
                    assert(ord[a] == old_ord[a] && ord[b] == old_ord[b]);
                } else if a < pos && b == pos {
                    assert(ord[a] == old_ord[a]);
                    assert(keys[old_ord[a]] >= load);
                } else if a < pos && b > pos {
                    assert(ord[a] == old_ord[a] && ord[b] == old_ord[b - 1]);
                } else if a == pos {
                    assert(ord[b] == old_ord[b - 1]);
                    assert(keys[old_ord[b - 1]] < load);
                } else {
                    assert(ord[a] == old_ord[a - 1] && ord[b] == old_ord[b - 1]);
                }
            }
            assert forall|k: int| 0 <= k < i + 1 implies #[trigger] ranked@[k] == orig[ord[k]] by {
                if k < pos {
                    assert(ord[k] == old_ord[k]);
                } else if k > pos {
                    assert(ord[k] == old_ord[k - 1]);
                }
            }
        }
        i = i + 1;
    }
    assert(orig.skip(i as int).len() == 0);
    assert(i == orig.len());
    let ghost full = ranked@;
    ranked.truncate(10);
    assert(ranked@ =~= pick(orig, ord)) by {
        assert(ranked@.len() == top_count(orig.len()));
        assert forall|k: int| 0 <= k < ranked@.len() implies #[trigger] ranked@[k] == pick(
            orig,
            ord,
        )[k] by {
            assert(ranked@[k] == full[k]);
        }
    }
    assert(is_load_ranking(keys, ord));
    ranked
}

/// Two rankings of the same loads are the same: the order of the reported
/// processes is fully determined by their loads and positions.
pub proof fn lemma_load_ranking_unique(keys: Seq<u32>, o1: Seq<int>, o2: Seq<int>)
    requires
        is_load_ranking(keys, o1),
        is_load_ranking(keys, o2),
    ensures
        o1 == o2,
{
    assert forall|p: int| 0 <= p < o1.len() implies o1[p] == o2[p] by {
        lemma_ranking_position(keys, o1, o2, p);
    }
    assert(o1 =~= o2);
}

proof fn lemma_ranking_position(keys: Seq<u32>, o1: Seq<int>, o2: Seq<int>, p: int)
    requires
        is_load_ranking(keys, o1),
        is_load_ranking(keys, o2),
        0 <= p < o1.len(),
    ensures
        o1[p] == o2[p],
    decreases p,
{
    if p > 0 {
        lemma_ranking_position(keys, o1, o2, p - 1);
    }
    assert forall|q: int| 0 <= q < p implies o1[q] == o2[q] by {
        lemma_ranking_position(keys, o1, o2, q);
    }
    let a = o1[p];
    let b = o2[p];
    if a != b {
        // `a` sits in `o2` at some position after `p`, `b` in `o1` likewise.
        assert(listed(o2, a));
        assert(listed(o1, b));
        let qa = choose|k: int| 0 <= k < o2.len() && o2[k] == a;
        let qb = choose|k: int| 0 <= k < o1.len() && o1[k] == b;
        if qa < p {
            assert(o1[qa] == a);
            assert(ranks_before(keys, o1[qa], o1[p]));
        }
        if qb < p {
            assert(o2[qb] == b);
            assert(ranks_before(keys, o2[qb], o2[p]));
        }
        assert(qa != p);
        assert(qb != p);
        assert(ranks_before(keys, o2[p], o2[qa]));
        assert(ranks_before(keys, o1[p], o1[qb]));
    }
}

// ---------------------------------------------------------------------
// Snapshot parts
// ---------------------------------------------------------------------

impl CpuInfo {
    /// The processor summary from its readings: the brand is trimmed, and a
    /// missing frequency counts as 0.
    pub fn from_readings(core_count: usize, usage: Gauge, brand: &str, frequency: Option<u64>) -> (c: CpuInfo)
        ensures
            c.core_count == core_count,
            c.usage == usage,
            c.model@ == trim(brand@),
            c.frequency_mhz == (match frequency {
                Some(f) => f,
                None => 0,
            }),
    {
        let model = trim_text(brand);
        let frequency_mhz = match frequency {
            Some(f) => f,
            None => 0,
        };
        CpuInfo { usage, core_count, model, frequency_mhz }
    }
}

impl MemInfo {
    /// The memory summary from byte counts, converted to whole mebibytes.
    pub fn from_bytes(
        total: u64,
        used: u64,
        free: u64,
        swap_total: u64,
        swap_used: u64,
        ram: Gauge,
        swap: Gauge,
    ) -> (m: MemInfo)
        ensures
            m.total_mb == total / 1048576,
            m.used_mb == used / 1048576,
            m.free_mb == free / 1048576,
            m.swap_total_mb == swap_total / 1048576,
            m.swap_used_mb == swap_used / 1048576,
            m.ram == ram,
            m.swap == swap,
    {
        MemInfo {
            total_mb: bytes_to_mb(total),
            used_mb: bytes_to_mb(used),
            free_mb: bytes_to_mb(free),
            swap_total_mb: bytes_to_mb(swap_total),
            swap_used_mb: bytes_to_mb(swap_used),
            ram,
            swap,
        }
    }
}

/// Why a snapshot could not be taken.
#[derive(Clone, Debug, PartialEq, Eq)]
pub enum SysWatchError {
    CollectionFailed(String),
}

/// `Erreur collecte: <reason>`.
pub open spec fn error_message(e: SysWatchError) -> Seq<char> {
    match e {
        SysWatchError::CollectionFailed(m) => "Erreur collecte: "@ + m@,
    }
}

impl SysWatchError {
    /// `Erreur collecte: <reason>`.
    pub fn message(&self) -> (r: String)
        ensures
            r@ == error_message(*self),
    {
        match self {
            SysWatchError::CollectionFailed(m) => {
                let mut s = "Erreur collecte: ".to_owned();
                push_text(&mut s, m.as_str());
                s
            },
        }
    }
}

/// Assembles a snapshot: fails when no processor was detected; otherwise
/// keeps the non-loopback interfaces and the ten busiest processes.
pub fn build_snapshot(
    timestamp: String,
    host: HostInfo,
    cpu: CpuInfo,
    memory: MemInfo,
    disks: Vec<DiskInfo>,
    networks: Vec<NetworkInfo>,
    processes: Vec<ProcessInfo>,
) -> (r: Result<SystemSnapshot, SysWatchError>)
    ensures
        cpu.core_count == 0 <==> r is Err,
        r matches Err(SysWatchError::CollectionFailed(m)) ==> m@ == "Aucun CPU détecté"@,
        r matches Ok(s) ==> {
            &&& s.timestamp == timestamp
            &&& s.host == host
            &&& s.cpu == cpu
            &&& s.memory == memory
            &&& s.disks@ == disks@
            &&& s.networks@ == external_interfaces(networks@)
            &&& exists|ord: Seq<int>|
                is_load_ranking(loads(processes@), ord) && s.top_processes@ == pick(
                    processes@,
                    ord,
                )
        },
{
    if cpu.core_count == 0 {
        return Err(SysWatchError::CollectionFailed("Aucun CPU détecté".to_owned()));
    }
    let networks = drop_loopback(networks);
    let top_processes = top_processes(processes);
    Ok(SystemSnapshot { timestamp, host, cpu, memory, disks, networks, top_processes })
}

} // verus!
