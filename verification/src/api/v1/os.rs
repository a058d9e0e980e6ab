use vstd::prelude::*;
use crate::common::text::{contains, has_infix};

verus! {

/// What the system reports of a disk.
pub struct DiskReading {
    /// The mount point, if it is valid UTF-8.
    pub mount_point: Option<String>,
    pub total_space: u64,
    pub available_space: u64,
}

/// A disk as the dashboard shows it, sizes in MiB.
pub struct DiskSummary {
    pub mount_point: String,
    pub total: u64,
    pub available: u64,
}

/// What the system reports of a network interface.
pub struct NetworkReading {
    pub name: String,
    pub total_received: u64,
    pub total_transmitted: u64,
    pub received: u64,
    pub transmitted: u64,
}

/// An interface as the dashboard shows it, totals in KiB.
pub struct NetworkSummary {
    pub name: String,
    pub total_received: u64,
    pub total_transmitted: u64,
    pub received: u64,
    pub transmitted: u64,
}

/// Memory as the dashboard shows it, in MiB.
pub struct MemorySummary {
    pub swap_total: u64,
    pub swap_used: u64,
    pub total: u64,
    pub used: u64,
}

/// Bytes in MiB, rounded down.
pub open spec fn mib(bytes: u64) -> u64 {
    bytes / 1048576
}

/// Whether the dashboard shows a disk: it has a readable mount point that
/// is not a Docker mount.
pub open spec fn disk_shown(d: DiskReading) -> bool {
    d.mount_point matches Some(m) && !has_infix(m@, "docker"@)
}

/// The view of a disk summary: mount point, total and available MiB.
pub open spec fn disk_summary_view(s: DiskSummary) -> (Seq<char>, u64, u64) {
    (s.mount_point@, s.total, s.available)
}

/// The disks that the dashboard shows, in order, with sizes in MiB.
pub open spec fn disk_summaries(ds: Seq<DiskReading>) -> Seq<(Seq<char>, u64, u64)>
    decreases ds.len(),
{
    if ds.len() == 0 {
        Seq::empty()
    } else {
        let d = ds.last();
        disk_summaries(ds.drop_last()) + if disk_shown(d) {
            seq![(d.mount_point->0@, mib(d.total_space), mib(d.available_space))]
        } else {
            Seq::empty()
        }
    }
}

/// The disks that the dashboard shows.
pub fn summarize_disks(disks: &Vec<DiskReading>) -> (r: Vec<DiskSummary>)
    ensures
        r@.map_values(|s: DiskSummary| disk_summary_view(s)) == disk_summaries(disks@),
{
    let mut out: Vec<DiskSummary> = Vec::new();
    let mut i: usize = 0;
    while i < disks.len()
        invariant
            i <= disks@.len(),
            out@.map_values(|s: DiskSummary| disk_summary_view(s)) == disk_summaries(disks@.take(i as int)),
        decreases disks@.len() - i,
    {
        let d = &disks[i];
        let ghost before = out@;
        assert(disks@.take(i + 1).drop_last() =~= disks@.take(i as int));
        match &d.mount_point {
            Some(m) => {
                if !contains(m.as_str(), "docker") {
                    out.push(DiskSummary {
                        mount_point: m.clone(),
                        total: d.total_space / 1048576,
                        available: d.available_space / 1048576,
                    });
                }
            },
            None => {},
        }
        assert(out@.map_values(|s: DiskSummary| disk_summary_view(s)) =~= disk_summaries(disks@.take(i + 1)));
        i = i + 1;
    }
    assert(disks@.take(i as int) =~= disks@);
    out
}

/// Whether the dashboard shows an interface: its name does not mention NPCAP.
pub open spec fn network_shown(n: NetworkReading) -> bool {
    !has_infix(n.name@, "NPCAP"@)
}

/// The view of an interface summary.
pub open spec fn network_summary_view(s: NetworkSummary) -> (Seq<char>, u64, u64, u64, u64) {
    (s.name@, s.total_received, s.total_transmitted, s.received, s.transmitted)
}

/// The interfaces that the dashboard shows, in order, totals in KiB.
pub open spec fn network_summaries(ns: Seq<NetworkReading>) -> Seq<(Seq<char>, u64, u64, u64, u64)>
    decreases ns.len(),
{
    if ns.len() == 0 {
        Seq::empty()
    } else {
        let n = ns.last();
        network_summaries(ns.drop_last()) + if network_shown(n) {
            seq![(n.name@, n.total_received / 1024, n.total_transmitted / 1024, n.received, n.transmitted)]
        } else {
            Seq::empty()
        }
    }
}

/// The interfaces that the dashboard shows.
pub fn summarize_networks(networks: &Vec<NetworkReading>) -> (r: Vec<NetworkSummary>)
    ensures
        r@.map_values(|s: NetworkSummary| network_summary_view(s)) == network_summaries(networks@),
{
    let mut out: Vec<NetworkSummary> = Vec::new();
    let mut i: usize = 0;
    while i < networks.len()
        invariant
            i <= networks@.len(),
            out@.map_values(|s: NetworkSummary| network_summary_view(s)) == network_summaries(networks@.take(i as int)),
        decreases networks@.len() - i,
    {
        let n = &networks[i];
        assert(networks@.take(i + 1).drop_last() =~= networks@.take(i as int));
        if !contains(n.name.as_str(), "NPCAP") {
            out.push(NetworkSummary {
                name: n.name.clone(),
                total_received: n.total_received / 1024,
                total_transmitted: n.total_transmitted / 1024,
                received: n.received,
                transmitted: n.transmitted,
            });
        }
        assert(out@.map_values(|s: NetworkSummary| network_summary_view(s)) =~= network_summaries(networks@.take(i + 1)));
        i = i + 1;
    }
    assert(networks@.take(i as int) =~= networks@);
    out
}

/// Swap and memory sizes in MiB.
pub fn memory_summary(swap_total: u64, swap_used: u64, total: u64, used: u64) -> (r: MemorySummary)
    ensures
        r.swap_total == mib(swap_total),
        r.swap_used == mib(swap_used),
        r.total == mib(total),
        r.used == mib(used),
{
    MemorySummary {
        swap_total: swap_total / 1048576,
        swap_used: swap_used / 1048576,
        total: total / 1048576,
        used: used / 1048576,
    }
}

/// Whether a disk has a readable mount point that is not a Docker mount.
pub open spec fn is_shown_disk() -> spec_fn(DiskReading) -> bool {
    |d: DiskReading| d.mount_point is Some && !has_infix(d.mount_point->0@, "docker"@)
}

/// A disk as summarized: its mount point, and its total and available bytes in whole MiB.
pub open spec fn disk_row() -> spec_fn(DiskReading) -> (Seq<char>, u64, u64) {
    |d: DiskReading| (d.mount_point->0@, d.total_space / 1048576, d.available_space / 1048576)
}

/// The dashboard summarizes every disk it shows and no other: the
/// summaries are exactly the disks with a readable mount point that is not
/// a Docker mount, in the order read, so there are as many as such disks.
pub proof fn lemma_every_shown_disk_summarized(ds: Seq<DiskReading>)
    ensures
        disk_summaries(ds) == ds.filter(is_shown_disk()).map_values(disk_row()),
        disk_summaries(ds).len() == ds.filter(is_shown_disk()).len(),
    decreases ds.len(),
{
    reveal(Seq::filter);
    if ds.len() == 0 {
        assert(ds.filter(is_shown_disk()).map_values(disk_row()) =~= disk_summaries(ds));
    } else {
        lemma_every_shown_disk_summarized(ds.drop_last());
        let d = ds.last();
        let kept = ds.drop_last().filter(is_shown_disk());
        if is_shown_disk()(d) {
            assert(ds.filter(is_shown_disk()) == kept.push(d));
            assert(kept.push(d).map_values(disk_row()) =~= kept.map_values(disk_row()) + seq![disk_row()(d)]);
        } else {
            assert(ds.filter(is_shown_disk()) == kept);
            assert(kept.map_values(disk_row()) + Seq::empty() =~= kept.map_values(disk_row()));
        }
        assert(ds.filter(is_shown_disk()).map_values(disk_row()) =~= disk_summaries(ds));
    }
}

/// Whether an interface's name does not mention NPCAP.
pub open spec fn is_shown_network() -> spec_fn(NetworkReading) -> bool {
    |n: NetworkReading| !has_infix(n.name@, "NPCAP"@)
}

/// An interface as summarized: its name, its totals in whole KiB, and its
/// latest counts as read.
pub open spec fn network_row() -> spec_fn(NetworkReading) -> (Seq<char>, u64, u64, u64, u64) {
    |n: NetworkReading| (n.name@, n.total_received / 1024, n.total_transmitted / 1024, n.received, n.transmitted)
}

/// The dashboard summarizes every interface it shows and no other: the
/// summaries are exactly the interfaces whose names do not mention NPCAP,
/// in the order read.
pub proof fn lemma_every_shown_network_summarized(ns: Seq<NetworkReading>)
    ensures
        network_summaries(ns) == ns.filter(is_shown_network()).map_values(network_row()),
        network_summaries(ns).len() == ns.filter(is_shown_network()).len(),
    decreases ns.len(),
{
    reveal(Seq::filter);
    if ns.len() == 0 {
        assert(ns.filter(is_shown_network()).map_values(network_row()) =~= network_summaries(ns));
    } else {
        lemma_every_shown_network_summarized(ns.drop_last());
        let n = ns.last();
        let kept = ns.drop_last().filter(is_shown_network());
        if is_shown_network()(n) {
            assert(ns.filter(is_shown_network()) == kept.push(n));
            assert(kept.push(n).map_values(network_row()) =~= kept.map_values(network_row()) + seq![network_row()(n)]);
        } else {
            assert(ns.filter(is_shown_network()) == kept);
            assert(kept.map_values(network_row()) + Seq::empty() =~= kept.map_values(network_row()));
        }
        assert(ns.filter(is_shown_network()).map_values(network_row()) =~= network_summaries(ns));
    }
}

/// A size in MiB is the number of whole mebibytes in the bytes: it is at
/// most the bytes over 1048576, and one more mebibyte would exceed them.
pub proof fn lemma_mib_rounds_down(bytes: u64)
    ensures
        mib(bytes) * 1048576 <= bytes < (mib(bytes) + 1) * 1048576,
{
    assert(mib(bytes) * 1048576 <= bytes < (mib(bytes) + 1) * 1048576) by (nonlinear_arith)
        requires
            mib(bytes) == bytes / 1048576,
    ;
}

} // verus!
