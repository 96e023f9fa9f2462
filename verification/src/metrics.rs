//! The metrics record and the engine that builds one record out of two
//! time-separated raw readings.  Fractional quantities are carried as
//! integer hundredths (of a percent, of a GiB, of a MiB, of a load
//! unit), which keeps every field a plain value.

use vstd::prelude::*;
use crate::digits::centi_of;
use crate::fmtmem::{format_mem, round_centi, spec_format_mem, BYTES_PER_GIB, BYTES_PER_MIB};
use crate::fmtmem::scale_centi;
use crate::net::{clamp_u64, net_totals, rate, rate_of, sat_add, sum_rx, sum_tx};
use crate::osrelease::{os_name_of, os_name_spec};

verus! {

/// One point-in-time metrics record; constructed fresh on every
/// sampling cycle and never mutated afterwards.
pub struct Metrics {
    pub os_name: String,
    pub uptime_days: u64,
    /// One-, five- and fifteen-minute load averages, in hundredths.
    pub load_one_centi: u64,
    pub load_five_centi: u64,
    pub load_fifteen_centi: u64,
    /// Instantaneous CPU usage, in hundredths of a percent.
    pub cpu_centi: u32,
    pub mem_used: String,
    pub mem_total: String,
    /// Disk usage, in hundredths of a GiB.
    pub disk_used_gib_centi: u64,
    pub disk_total_gib_centi: u64,
    /// Network throughput over the sampling second, in bytes per second.
    pub rx_rate: u64,
    pub tx_rate: u64,
    /// Cumulative traffic at the second reading, in hundredths of a GiB.
    pub rx_total_gib_centi: u64,
    pub tx_total_gib_centi: u64,
    /// Swap usage, in hundredths of a MiB.
    pub swap_used_mib_centi: u64,
    pub swap_total_mib_centi: u64,
    pub tcp: u64,
    pub udp: u64,
    pub processes: u64,
    pub threads: u64,
}

impl Metrics {
    /// A well-formed record keeps the CPU percentage inside [0, 100].
    pub open spec fn wf(self) -> bool {
        self.cpu_centi <= 10000
    }
}

/// An error from the raw OS metrics provider; it carries the provider's
/// message for the caller.
pub struct CollectionError {
    pub message: String,
}

impl CollectionError {
    /// The body served for a failed point-in-time request.
    pub fn error_body(&self) -> (r: String)
        ensures
            r@ == "error: "@ + self.message@,
    {
        let mut s = String::from_str("error: ");
        s.append(self.message.as_str());
        s
    }
}

/// The raw values read at the first sampling point.
pub struct FirstReading {
    /// Cumulative (received, transmitted) byte counters, one pair per
    /// network interface.
    pub net: Vec<(u64, u64)>,
    /// (total space, available space) in bytes, one pair per mounted
    /// disk; the layout is assumed stable across the sampling second.
    pub disks: Vec<(u64, u64)>,
    pub mem_used: u64,
    pub mem_total: u64,
    pub swap_used: u64,
    pub swap_total: u64,
}

/// The raw values read at the second sampling point, one second later.
pub struct SecondReading {
    /// Cumulative (received, transmitted) byte counters, one pair per
    /// network interface.
    pub net: Vec<(u64, u64)>,
    /// CPU usage in hundredths of a percent, clamped by the builder.
    pub cpu_centi: u32,
    pub uptime_secs: u64,
    pub load_one_centi: u64,
    pub load_five_centi: u64,
    pub load_fifteen_centi: u64,
    /// Content of the OS release descriptor, when readable.
    pub os_release: Option<String>,
    pub tcp4: u64,
    pub tcp6: u64,
    pub udp4: u64,
    pub udp6: u64,
    pub processes: u64,
    /// For each process, the number of additional tasks beside its main
    /// thread, when enumerable.
    pub tasks: Vec<Option<u64>>,
}

/// The exact total thread count: every process contributes its main
/// thread plus its enumerable additional tasks.
pub open spec fn sum_threads(tasks: Seq<Option<u64>>) -> nat
    decreases tasks.len(),
{
    if tasks.len() == 0 {
        0
    } else {
        sum_threads(tasks.drop_last()) + (match tasks.last() {
            Option::Some(k) => 1 + k as nat,
            Option::None => 1nat,
        })
    }
}

/// The exact total of used bytes over (total, available) disk pairs,
/// a disk never counting negatively.
pub open spec fn sum_disk_used(disks: Seq<(u64, u64)>) -> nat
    decreases disks.len(),
{
    if disks.len() == 0 {
        0
    } else {
        sum_disk_used(disks.drop_last()) + rate_of(
            disks.last().1 as nat,
            disks.last().0 as nat,
        )
    }
}

/// The exact total of disk space over (total, available) disk pairs.
pub open spec fn sum_disk_total(disks: Seq<(u64, u64)>) -> nat
    decreases disks.len(),
{
    if disks.len() == 0 {
        0
    } else {
        sum_disk_total(disks.drop_last()) + disks.last().0 as nat
    }
}

/// Totals used and total disk space across all mounted disks, each sum
/// clamped at the top of the `u64` range.
pub fn disk_totals(disks: &Vec<(u64, u64)>) -> (r: (u64, u64))
    ensures
        r.0 as nat == clamp_u64(sum_disk_used(disks@)),
        r.1 as nat == clamp_u64(sum_disk_total(disks@)),
{
    let mut used: u64 = 0;
    let mut total: u64 = 0;
    let mut i: usize = 0;
    while i < disks.len()
        invariant
            i <= disks.len(),
            used as nat == clamp_u64(sum_disk_used(disks@.take(i as int))),
            total as nat == clamp_u64(sum_disk_total(disks@.take(i as int))),
        decreases disks.len() - i,
    {
        proof {
            assert(disks@.take(i + 1).drop_last() =~= disks@.take(i as int));
            assert(disks@.take(i + 1).last() == disks@[i as int]);
        }
        used = sat_add(used, rate(disks[i].1, disks[i].0));
        total = sat_add(total, disks[i].0);
        i = i + 1;
    }
    proof {
        assert(disks@.take(disks@.len() as int) =~= disks@);
    }
    (used, total)
}

/// Totals the thread count across all processes, clamped at the top of
/// the `u64` range.
pub fn thread_total(tasks: &Vec<Option<u64>>) -> (r: u64)
    ensures
        r as nat == clamp_u64(sum_threads(tasks@)),
{
    let mut threads: u64 = 0;
    let mut i: usize = 0;
    while i < tasks.len()
        invariant
            i <= tasks.len(),
            threads as nat == clamp_u64(sum_threads(tasks@.take(i as int))),
        decreases tasks.len() - i,
    {
        proof {
            assert(tasks@.take(i + 1).drop_last() =~= tasks@.take(i as int));
            assert(tasks@.take(i + 1).last() == tasks@[i as int]);
        }
        let add = match tasks[i] {
            Option::Some(k) => sat_add(k, 1),
            Option::None => 1,
        };
        threads = sat_add(threads, add);
        i = i + 1;
    }
    proof {
        assert(tasks@.take(tasks@.len() as int) =~= tasks@);
    }
    threads
}

/// Builds one metrics record out of the two raw readings.  Network
/// rates are the saturating difference of the two cumulative totals;
/// every other field is an absolute read.  Never fails: an unreadable
/// OS release descriptor only reads as "Unknown", and the CPU value is
/// clamped into range.
pub fn build_metrics(first: &FirstReading, second: &SecondReading) -> (m: Metrics)
    ensures
        m.wf(),
        m.os_name@ == os_name_spec(
            match second.os_release {
                Option::Some(c) => Option::Some(c@),
                Option::None => Option::None,
            },
        ),
        m.uptime_days == second.uptime_secs / 86400,
        m.load_one_centi == second.load_one_centi,
        m.load_five_centi == second.load_five_centi,
        m.load_fifteen_centi == second.load_fifteen_centi,
        m.cpu_centi == if second.cpu_centi <= 10000 {
            second.cpu_centi
        } else {
            10000u32
        },
        m.mem_used@ == spec_format_mem(first.mem_used),
        m.mem_total@ == spec_format_mem(first.mem_total),
        m.disk_used_gib_centi as nat == round_centi(
            clamp_u64(sum_disk_used(first.disks@)),
            BYTES_PER_GIB as nat,
        ),
        m.disk_total_gib_centi as nat == round_centi(
            clamp_u64(sum_disk_total(first.disks@)),
            BYTES_PER_GIB as nat,
        ),
        m.rx_rate as nat == rate_of(clamp_u64(sum_rx(first.net@)), clamp_u64(sum_rx(second.net@))),
        m.tx_rate as nat == rate_of(clamp_u64(sum_tx(first.net@)), clamp_u64(sum_tx(second.net@))),
        m.rx_total_gib_centi as nat == round_centi(
            clamp_u64(sum_rx(second.net@)),
            BYTES_PER_GIB as nat,
        ),
        m.tx_total_gib_centi as nat == round_centi(
            clamp_u64(sum_tx(second.net@)),
            BYTES_PER_GIB as nat,
        ),
        m.swap_used_mib_centi as nat == round_centi(first.swap_used as nat, BYTES_PER_MIB as nat),
        m.swap_total_mib_centi as nat == round_centi(first.swap_total as nat, BYTES_PER_MIB as nat),
        m.tcp as nat == clamp_u64(second.tcp4 as nat + second.tcp6 as nat),
        m.udp as nat == clamp_u64(second.udp4 as nat + second.udp6 as nat),
        m.processes == second.processes,
        m.threads as nat == clamp_u64(sum_threads(second.tasks@)),
{
    let (rx0, tx0) = net_totals(&first.net);
    let (rx1, tx1) = net_totals(&second.net);
    let (disk_used, disk_total) = disk_totals(&first.disks);
    let threads = thread_total(&second.tasks);
    Metrics {
        os_name: os_name_of(&second.os_release),
        uptime_days: second.uptime_secs / 86400,
        load_one_centi: second.load_one_centi,
        load_five_centi: second.load_five_centi,
        load_fifteen_centi: second.load_fifteen_centi,
        cpu_centi: if second.cpu_centi <= 10000 {
            second.cpu_centi
        } else {
            10000
        },
        mem_used: format_mem(first.mem_used),
        mem_total: format_mem(first.mem_total),
        disk_used_gib_centi: scale_centi(disk_used, BYTES_PER_GIB),
        disk_total_gib_centi: scale_centi(disk_total, BYTES_PER_GIB),
        rx_rate: rate(rx0, rx1),
        tx_rate: rate(tx0, tx1),
        rx_total_gib_centi: scale_centi(rx1, BYTES_PER_GIB),
        tx_total_gib_centi: scale_centi(tx1, BYTES_PER_GIB),
        swap_used_mib_centi: scale_centi(first.swap_used, BYTES_PER_MIB),
        swap_total_mib_centi: scale_centi(first.swap_total, BYTES_PER_MIB),
        tcp: sat_add(second.tcp4, second.tcp6),
        udp: sat_add(second.udp4, second.udp6),
        processes: second.processes,
        threads,
    }
}

} // verus!
