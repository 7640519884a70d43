//! System resource monitoring.
//!
//! The monitor keeps a snapshot of the host's metrics and the contribution
//! computed from it: what the node offers, bounded by its configured ceilings.

use crate::resource::gpu::{find_gpu, gpu_line};
use crate::types::ResourceContribution;
use sysinfo::{DiskExt, System, SystemExt};
use vstd::prelude::*;

verus! {

/// Seconds between two samples of the host's metrics.
pub const SAMPLE_INTERVAL_SECS: u64 = 5;

/// The bandwidth that every sample reports: a fixed figure, since nothing measures it.
pub const PLACEHOLDER_BANDWIDTH_KBPS: u64 = 10000;

/// The core count as the contribution holds it: the count's low eight bits.
pub open spec fn core_figure(cpus: usize) -> u8 {
    (cpus % 256) as u8
}

/// The memory offered, in megabytes: the ceiling's share of the total memory,
/// which is given in kilobytes. Each division rounds down.
pub open spec fn memory_offer_mb(total_memory_kb: u64, max_memory_pct: u8) -> int {
    (total_memory_kb * max_memory_pct / 100) / 1024
}

/// The free bytes of a list of volumes, added up.
pub open spec fn total_free_bytes(free_bytes: Seq<u64>) -> int
    decreases free_bytes.len(),
{
    if free_bytes.len() == 0 {
        0
    } else {
        total_free_bytes(free_bytes.drop_last()) + free_bytes.last() as int
    }
}

/// The space available on a list of volumes, in megabytes: the free bytes of
/// all volumes together, in whole megabytes.
pub open spec fn available_mb(free_bytes: Seq<u64>) -> int {
    total_free_bytes(free_bytes) / 1048576
}

/// The storage offered, in megabytes: what is available, up to the ceiling.
pub open spec fn storage_offer_mb(free_bytes: Seq<u64>, max_storage_mb: u64) -> int {
    if available_mb(free_bytes) <= max_storage_mb {
        available_mb(free_bytes)
    } else {
        max_storage_mb as int
    }
}

/// The contribution computed from one reading of the host.
pub open spec fn offer(
    cpus: usize,
    total_memory_kb: u64,
    free_bytes: Seq<u64>,
    max_memory_pct: u8,
    max_storage_mb: u64,
) -> ResourceContribution {
    ResourceContribution {
        cpu_cores: core_figure(cpus),
        memory_mb: memory_offer_mb(total_memory_kb, max_memory_pct) as u64,
        storage_mb: storage_offer_mb(free_bytes, max_storage_mb) as u64,
        bandwidth_kbps: PLACEHOLDER_BANDWIDTH_KBPS,
    }
}

/// The memory offered never exceeds the ceiling's share of the total, and
/// with a ceiling of at most 100 percent never the total itself.
pub proof fn memory_offer_within_ceiling(total_memory_kb: u64, max_memory_pct: u8)
    ensures
        0 <= memory_offer_mb(total_memory_kb, max_memory_pct) <= u64::MAX,
        memory_offer_mb(total_memory_kb, max_memory_pct) <= total_memory_kb * max_memory_pct / 100
            / 1024,
        max_memory_pct <= 100 ==> memory_offer_mb(total_memory_kb, max_memory_pct)
            <= total_memory_kb / 1024,
{
    assert(0 <= total_memory_kb * max_memory_pct <= total_memory_kb * 255) by (nonlinear_arith)
        requires
            0 <= max_memory_pct <= 255,
            0 <= total_memory_kb,
    ;
    if max_memory_pct <= 100 {
        assert(total_memory_kb * max_memory_pct <= total_memory_kb * 100) by (nonlinear_arith)
            requires
                0 <= max_memory_pct <= 100,
                0 <= total_memory_kb,
        ;
    }
}

/// The storage offered never exceeds the ceiling, whatever is available.
pub proof fn storage_offer_within_ceiling(free_bytes: Seq<u64>, max_storage_mb: u64)
    ensures
        0 <= storage_offer_mb(free_bytes, max_storage_mb) <= max_storage_mb,
        storage_offer_mb(free_bytes, max_storage_mb) <= available_mb(free_bytes),
{
    available_mb_is_natural(free_bytes);
}

/// The free bytes of a list of volumes are never negative, and neither is
/// the space available.
pub proof fn available_mb_is_natural(free_bytes: Seq<u64>)
    ensures
        0 <= total_free_bytes(free_bytes),
        0 <= available_mb(free_bytes),
    decreases free_bytes.len(),
{
    if free_bytes.len() > 0 {
        available_mb_is_natural(free_bytes.drop_last());
    }
}

/// The contribution computed from one reading of the host: the core count,
/// the memory ceiling's share of the total memory, the available storage up
/// to the storage ceiling, and the placeholder bandwidth.
pub fn compute_contribution(
    cpus: usize,
    total_memory_kb: u64,
    free_bytes: &[u64],
    max_memory_usage: u8,
    max_storage_usage: u64,
) -> (contribution: ResourceContribution)
    ensures
        contribution == offer(
            cpus,
            total_memory_kb,
            free_bytes@,
            max_memory_usage,
            max_storage_usage,
        ),
        contribution.storage_mb <= max_storage_usage,
        contribution.memory_mb == total_memory_kb * max_memory_usage / 100 / 1024,
{
    proof {
        memory_offer_within_ceiling(total_memory_kb, max_memory_usage);
        storage_offer_within_ceiling(free_bytes@, max_storage_usage);
    }
    let cpu_cores: u8 = (cpus % 256) as u8;
    assert(total_memory_kb * max_memory_usage <= u64::MAX * 255) by (nonlinear_arith)
        requires
            0 <= max_memory_usage <= 255,
            0 <= total_memory_kb <= u64::MAX,
    ;
    let share_kb: u128 = (total_memory_kb as u128) * (max_memory_usage as u128) / 100;
    let memory_mb: u64 = (share_kb / 1024) as u64;
    // Whole megabytes and the bytes left over are added up apart, with a
    // carry from the one to the other. The megabytes are cut at the ceiling
    // as they grow, which leaves the smaller of the two unchanged and keeps
    // every step within range.
    let mut storage_mb: u64 = 0;
    let mut rest_bytes: u64 = 0;
    let mut i: usize = 0;
    while i < free_bytes.len()
        invariant
            i <= free_bytes.len(),
            0 <= total_free_bytes(free_bytes@.take(i as int)),
            rest_bytes == total_free_bytes(free_bytes@.take(i as int)) % 1048576,
            storage_mb == storage_offer_mb(free_bytes@.take(i as int), max_storage_usage),
        decreases free_bytes.len() - i,
    {
        let volume: u64 = free_bytes[i];
        let ghost before = total_free_bytes(free_bytes@.take(i as int));
        proof {
            let shorter = free_bytes@.take(i as int);
            let longer = free_bytes@.take(i as int + 1);
            assert(longer.drop_last() =~= shorter);
            assert(longer.last() == volume);
            assert(total_free_bytes(longer) == before + volume);
        }
        let with_rest: u64 = rest_bytes + volume % 1048576;
        let added_mb: u64 = volume / 1048576 + with_rest / 1048576;
        assert((before + volume) / 1048576 == before / 1048576 + added_mb);
        assert((before + volume) % 1048576 == with_rest % 1048576);
        rest_bytes = with_rest % 1048576;
        if added_mb >= max_storage_usage - storage_mb {
            storage_mb = max_storage_usage;
        } else {
            storage_mb = storage_mb + added_mb;
        }
        i = i + 1;
    }
    assert(free_bytes@.take(free_bytes.len() as int) =~= free_bytes@);
    ResourceContribution {
        cpu_cores,
        memory_mb,
        storage_mb,
        bandwidth_kbps: PLACEHOLDER_BANDWIDTH_KBPS,
    }
}

/// The host's metrics as the metrics source last read them.
#[verifier::external_type_specification]
#[verifier::external_body]
pub struct ExSystem(sysinfo::System);

/// The number of logical cores that a snapshot of the host lists.
pub uninterp spec fn snapshot_cpus(system: System) -> usize;

/// The total memory that a snapshot of the host holds, in bytes.
pub uninterp spec fn snapshot_total_memory(system: System) -> u64;

/// The free space of each volume that a snapshot of the host lists, in bytes.
pub uninterp spec fn snapshot_free_bytes(system: System) -> Seq<u64>;

/// `sysinfo::System::new_all`: a snapshot of the host with everything
/// loaded. What it holds depends on the machine, so nothing is claimed of it.
#[verifier::external_body]
fn read_host() -> (system: System) {
    System::new_all()
}

/// `sysinfo::System::refresh_all`: reads the host's metrics again. What the
/// snapshot holds afterwards depends on the machine, so nothing is claimed of it.
#[verifier::external_body]
fn refresh_host(system: &mut System) {
    system.refresh_all()
}

/// `sysinfo::System::cpus`, counted: the number of cores that the snapshot
/// lists. It reads the snapshot and nothing else.
#[verifier::external_body]
fn host_cpus(system: &System) -> (cpus: usize)
    ensures
        cpus == snapshot_cpus(*system),
{
    system.cpus().len()
}

/// `sysinfo::System::total_memory`: the total memory that the snapshot
/// holds, in bytes. It reads the snapshot and nothing else.
#[verifier::external_body]
fn host_total_memory(system: &System) -> (bytes: u64)
    ensures
        bytes == snapshot_total_memory(*system),
{
    system.total_memory()
}

/// `sysinfo::System::disks`, each volume taken by its
/// `sysinfo::Disk::available_space`: the free bytes of the volumes that the
/// snapshot lists, in its order. It reads the snapshot and nothing else.
#[verifier::external_body]
fn host_free_bytes(system: &System) -> (free_bytes: Vec<u64>)
    ensures
        free_bytes@ == snapshot_free_bytes(*system),
{
    system.disks().iter().map(|disk| disk.available_space()).collect()
}

/// Monitors system resources.
pub struct ResourceMonitor {
    system: System,
    contribution: ResourceContribution,
    max_cpu_usage: u8,
    max_memory_usage: u8,
    max_storage_usage: u64,
}

impl ResourceMonitor {
    /// The snapshot of the host that the monitor holds.
    pub closed spec fn host(&self) -> System {
        self.system
    }

    /// The contribution computed last.
    pub closed spec fn latest(&self) -> ResourceContribution {
        self.contribution
    }

    /// The ceiling on CPU use, in percent.
    pub closed spec fn cpu_ceiling(&self) -> u8 {
        self.max_cpu_usage
    }

    /// The ceiling on memory use, in percent.
    pub closed spec fn memory_ceiling(&self) -> u8 {
        self.max_memory_usage
    }

    /// The ceiling on storage use, in megabytes.
    pub closed spec fn storage_ceiling(&self) -> u64 {
        self.max_storage_usage
    }

    /// The contribution that the monitor's snapshot and ceilings give. The
    /// metrics source reports memory in bytes; the formula takes kilobytes.
    pub open spec fn sampled(&self) -> ResourceContribution {
        offer(
            snapshot_cpus(self.host()),
            (snapshot_total_memory(self.host()) / 1024) as u64,
            snapshot_free_bytes(self.host()),
            self.memory_ceiling(),
            self.storage_ceiling(),
        )
    }

    /// Create a new resource monitor.
    ///
    /// The ceilings are taken as they are given. Until the first sample the
    /// contribution holds the detected core count and zero everywhere else.
    pub fn new(max_cpu_usage: u8, max_memory_usage: u8, max_storage_usage: u64) -> (monitor: Self)
        ensures
            monitor.cpu_ceiling() == max_cpu_usage,
            monitor.memory_ceiling() == max_memory_usage,
            monitor.storage_ceiling() == max_storage_usage,
            monitor.latest() == (ResourceContribution {
                cpu_cores: core_figure(snapshot_cpus(monitor.host())),
                memory_mb: 0,
                storage_mb: 0,
                bandwidth_kbps: 0,
            }),
    {
        let mut system = read_host();
        refresh_host(&mut system);
        let cpus = host_cpus(&system);
        let contribution = ResourceContribution {
            cpu_cores: (cpus % 256) as u8,
            memory_mb: 0,
            storage_mb: 0,
            bandwidth_kbps: 0,
        };
        ResourceMonitor { system, contribution, max_cpu_usage, max_memory_usage, max_storage_usage }
    }

    /// Get current resource contribution: a copy of the latest figure, which
    /// is the one of construction until a sample has been taken.
    pub fn get_contribution(&self) -> (contribution: ResourceContribution)
        ensures
            contribution == self.latest(),
    {
        self.contribution
    }

    /// Update contribution metrics from the snapshot that the monitor holds.
    /// All four figures are replaced together.
    pub fn update_contribution(&mut self)
        ensures
            final(self).host() == old(self).host(),
            final(self).cpu_ceiling() == old(self).cpu_ceiling(),
            final(self).memory_ceiling() == old(self).memory_ceiling(),
            final(self).storage_ceiling() == old(self).storage_ceiling(),
            final(self).latest() == old(self).sampled(),
            final(self).latest().storage_mb <= old(self).storage_ceiling(),
    {
        let cpus = host_cpus(&self.system);
        let total_memory_kb = host_total_memory(&self.system) / 1024;
        let free_bytes = host_free_bytes(&self.system);
        self.contribution = compute_contribution(
            cpus,
            total_memory_kb,
            free_bytes.as_slice(),
            self.max_memory_usage,
            self.max_storage_usage,
        );
    }

    /// One sample: reads the host's metrics again, computes the contribution
    /// from them and returns it. This is what the sampling loop does every
    /// `SAMPLE_INTERVAL_SECS` seconds.
    pub fn tick(&mut self) -> (contribution: ResourceContribution)
        ensures
            final(self).cpu_ceiling() == old(self).cpu_ceiling(),
            final(self).memory_ceiling() == old(self).memory_ceiling(),
            final(self).storage_ceiling() == old(self).storage_ceiling(),
            final(self).latest() == final(self).sampled(),
            contribution == final(self).latest(),
            contribution.storage_mb <= old(self).storage_ceiling(),
            contribution.bandwidth_kbps == PLACEHOLDER_BANDWIDTH_KBPS,
    {
        refresh_host(&mut self.system);
        self.update_contribution();
        self.contribution
    }

    /// Check for GPU information in a listing of the host's devices, as the
    /// platform's probe prints it: the first line that names a display
    /// controller, trimmed. The figure is advisory and no part of the
    /// contribution.
    pub fn check_gpu(&self, listing: &str) -> (description: Option<String>)
        ensures
            match description {
                Some(line) => gpu_line(listing@) == Some(line@),
                None => gpu_line(listing@) is None,
            },
    {
        find_gpu(listing)
    }
}

} // verus!
