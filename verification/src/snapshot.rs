//! The system snapshot: one immutable reading of host counters. The
//! unverified shell reads the OS metrics provider twice (with a settle
//! pause, so that the rate-based CPU percentages mean something) and
//! hands the raw readings here; this module assembles the snapshot record
//! and owns its arithmetic. CPU usage is carried in hundredths of a
//! percent, so the aggregate mean is exact integer arithmetic.

use vstd::arithmetic::div_mod::{lemma_div_is_ordered, lemma_div_multiples_vanish};
use vstd::prelude::*;

use crate::gpu::GpuInfo;

verus! {

/// One logical core as the snapshot reports it.
#[derive(Clone, Debug, PartialEq, Eq)]
pub struct CpuCore {
    pub name: String,
    pub usage_centi: u32,
    pub frequency: u64,
}

/// One logical core as the OS metrics provider reports it: its name, the
/// brand string of the package it belongs to, its usage in hundredths of
/// a percent, and its frequency.
#[derive(Clone, Debug, PartialEq, Eq)]
pub struct CpuReading {
    pub name: String,
    pub brand: String,
    pub usage_centi: u32,
    pub frequency: u64,
}

/// One network interface's byte counters.
#[derive(Clone, Debug, PartialEq, Eq)]
pub struct NetworkIface {
    pub name: String,
    pub received: u64,
    pub transmitted: u64,
}

/// The host's identity strings; every one best-effort.
#[derive(Clone, Debug, PartialEq, Eq)]
pub struct HostIdentity {
    pub os_name: Option<String>,
    pub hostname: Option<String>,
    pub kernel_version: Option<String>,
    pub os_version: Option<String>,
    pub cpu_arch: String,
}

/// Memory, swap and uptime counters, all in bytes and seconds.
#[derive(Clone, Copy, Debug, PartialEq, Eq, Structural)]
pub struct MemoryCounters {
    pub total_memory: u64,
    pub used_memory: u64,
    pub total_swap: u64,
    pub used_swap: u64,
    pub uptime: u64,
}

/// A point-in-time reading of the host: identity, CPU, memory, network
/// interfaces and GPUs. Every field unavailable on the host is absent
/// rather than an error.
#[derive(Clone, Debug, PartialEq, Eq)]
pub struct SystemSnapshot {
    pub os_name: Option<String>,
    pub hostname: Option<String>,
    pub kernel_version: Option<String>,
    pub os_version: Option<String>,
    pub cpu_brand: String,
    pub cpu_physical_cores: Option<usize>,
    pub cpu_logical_cores: usize,
    pub cpu_arch: String,
    pub cpu_usage_centi: u32,
    pub cpu_cores: Vec<CpuCore>,
    pub total_memory: u64,
    pub used_memory: u64,
    pub total_swap: u64,
    pub used_swap: u64,
    pub uptime: u64,
    pub network_ifaces: Vec<NetworkIface>,
    pub gpus: Vec<GpuInfo>,
}

/// The sum of the cores' usages, in hundredths of a percent.
pub open spec fn usage_sum(cores: Seq<CpuReading>) -> int
    decreases cores.len(),
{
    if cores.len() == 0 {
        0
    } else {
        usage_sum(cores.drop_last()) + cores.last().usage_centi
    }
}

/// The aggregate CPU usage: the integer mean of all logical core usages,
/// and zero when no cores are reported.
pub open spec fn mean_usage_centi(cores: Seq<CpuReading>) -> int {
    if cores.len() == 0 {
        0
    } else {
        usage_sum(cores) / (cores.len() as int)
    }
}

proof fn lemma_usage_sum_bounds(cores: Seq<CpuReading>)
    ensures
        0 <= usage_sum(cores) <= cores.len() * (u32::MAX as int),
    decreases cores.len(),
{
    if cores.len() > 0 {
        lemma_usage_sum_bounds(cores.drop_last());
        assert((cores.len() - 1) * (u32::MAX as int) + (u32::MAX as int) == cores.len() * (
        u32::MAX as int)) by (nonlinear_arith);
    }
}

/// The mean usage never exceeds the largest value a core can report.
proof fn lemma_mean_usage_fits(cores: Seq<CpuReading>)
    ensures
        0 <= mean_usage_centi(cores) <= u32::MAX as int,
{
    lemma_usage_sum_bounds(cores);
    if cores.len() > 0 {
        let n = cores.len() as int;
        lemma_div_is_ordered(usage_sum(cores), n * (u32::MAX as int), n);
        lemma_div_multiples_vanish(u32::MAX as int, n);
        assert(n * (u32::MAX as int) == (u32::MAX as int) * n) by (nonlinear_arith);
    }
}

/// Assemble a snapshot from the shell's raw readings. The core list is
/// carried over one to one, the logical core count is its length, the
/// aggregate usage is the integer mean of the cores' usages (zero for no
/// cores), the brand string is the first core's (a literal placeholder
/// for no cores), and every other field passes through unchanged.
pub fn build_system_snapshot(
    ident: HostIdentity,
    cpus: Vec<CpuReading>,
    physical_cores: Option<usize>,
    mem: MemoryCounters,
    ifaces: Vec<NetworkIface>,
    gpus: Vec<GpuInfo>,
) -> (r: SystemSnapshot)
    ensures
        r.cpu_logical_cores == cpus@.len(),
        r.cpu_usage_centi as int == mean_usage_centi(cpus@),
        r.cpu_cores@.len() == cpus@.len(),
        forall|i: int|
            0 <= i < cpus@.len() ==> #[trigger] r.cpu_cores@[i] == (CpuCore {
                name: cpus@[i].name,
                usage_centi: cpus@[i].usage_centi,
                frequency: cpus@[i].frequency,
            }),
        cpus@.len() == 0 ==> r.cpu_brand@ == "Unknown"@,
        cpus@.len() > 0 ==> r.cpu_brand == cpus@[0].brand,
        r.os_name == ident.os_name,
        r.hostname == ident.hostname,
        r.kernel_version == ident.kernel_version,
        r.os_version == ident.os_version,
        r.cpu_arch == ident.cpu_arch,
        r.cpu_physical_cores == physical_cores,
        r.total_memory == mem.total_memory,
        r.used_memory == mem.used_memory,
        r.total_swap == mem.total_swap,
        r.used_swap == mem.used_swap,
        r.uptime == mem.uptime,
        r.network_ifaces == ifaces,
        r.gpus == gpus,
{
    let n = cpus.len();
    let cpu_brand: String = if n > 0 {
        cpus[0].brand.clone()
    } else {
        String::from_str("Unknown")
    };

    let mut sum: u128 = 0;
    let mut cores: Vec<CpuCore> = Vec::new();
    let mut i: usize = 0;
    while i < n
        invariant
            0 <= i <= n,
            n == cpus@.len(),
            sum as int == usage_sum(cpus@.take(i as int)),
            cores@.len() == i,
            forall|j: int|
                0 <= j < i ==> #[trigger] cores@[j] == (CpuCore {
                    name: cpus@[j].name,
                    usage_centi: cpus@[j].usage_centi,
                    frequency: cpus@[j].frequency,
                }),
        decreases n - i,
    {
        proof {
            lemma_usage_sum_bounds(cpus@.take(i as int));
            assert(cpus@.take(i as int).len() * (u32::MAX as int) <= (usize::MAX as int) * (
            u32::MAX as int)) by (nonlinear_arith)
                requires
                    0 <= cpus@.take(i as int).len() <= usize::MAX as int,
            ;
            assert(cpus@.take(i as int + 1).drop_last() =~= cpus@.take(i as int));
        }
        let reading = &cpus[i];
        sum = sum + reading.usage_centi as u128;
        cores.push(
            CpuCore {
                name: reading.name.clone(),
                usage_centi: reading.usage_centi,
                frequency: reading.frequency,
            },
        );
        i = i + 1;
    }
    proof {
        assert(cpus@.take(n as int) =~= cpus@);
    }
    let cpu_usage_centi: u32 = if n == 0 {
        0
    } else {
        proof {
            lemma_mean_usage_fits(cpus@);
        }
        (sum / (n as u128)) as u32
    };

    SystemSnapshot {
        os_name: ident.os_name,
        hostname: ident.hostname,
        kernel_version: ident.kernel_version,
        os_version: ident.os_version,
        cpu_brand,
        cpu_physical_cores: physical_cores,
        cpu_logical_cores: n,
        cpu_arch: ident.cpu_arch,
        cpu_usage_centi,
        cpu_cores: cores,
        total_memory: mem.total_memory,
        used_memory: mem.used_memory,
        total_swap: mem.total_swap,
        used_swap: mem.used_swap,
        uptime: mem.uptime,
        network_ifaces: ifaces,
        gpus,
    }
}

} // verus!
