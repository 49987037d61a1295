//! System snapshot engine: derive the two report shapes from raw host
//! samples.
//!
//! The live host is sampled outside this module (the sampler must refresh
//! twice with a settling delay, because CPU percentages are delta-based);
//! what arrives here is a plain-value sample.  `None` in place of a sample
//! means the sampler could not acquire its internal lock.  This module owns
//! every decision over the sample: clamping CPU utilization, summing disk
//! capacities, selecting the single most CPU-intense process with a
//! deterministic tie-break, and falling back to an "unknown" owner when the
//! owning user of that process cannot be resolved.

use vstd::prelude::*;

use crate::identity::copy_bytes;
use crate::message::{CattleInitialConnect, CattleUpdate, UpdateView, CPU_UTILIZATION_MAX, ID_LEN};

verus! {

/// Snapshot failures; both are recoverable (skip the tick, retry the next).
#[derive(Clone, Copy, Debug, PartialEq, Eq, Structural)]
pub enum SnapshotError {
    /// The sampler could not acquire its lock on the system handle.
    SnapshotUnavailable,
    /// The top process disappeared between selection and user-name
    /// resolution.  Tolerated inside update snapshots: the owner falls back
    /// to "unknown" rather than aborting the snapshot.
    ProcessLookupFailed,
}

/// One process as sampled from the live process table.
pub struct ProcessSample {
    /// Instantaneous CPU usage in hundredths of a percent.
    pub cpu_centi: u64,

    /// Process name.
    pub name: Vec<u8>,

    /// Owning user's name; `None` when the lookup failed because the
    /// process disappeared under the sampler.
    pub owner: Option<Vec<u8>>,
}

/// A raw sample for a periodic update, in table iteration order.
pub struct UpdateSample {
    /// Global CPU utilization in hundredths of a percent, as sampled; may
    /// exceed 100 percent on a misbehaving sampler and is clamped here.
    pub cpu_total_centi: u64,

    /// Unused RAM in bytes.
    pub available_memory_bytes: u64,

    /// Unused disk space in bytes.
    pub available_disk_bytes: u64,

    /// The live process table, in iteration order.
    pub processes: Vec<ProcessSample>,
}

/// A raw sample for the initial-connect report.
pub struct InitialSample {
    /// Host name of the system.
    pub name: Vec<u8>,

    /// Operating system name.
    pub os_name: Vec<u8>,

    /// Operating system version.
    pub os_version: Vec<u8>,

    /// More detailed operating system version.
    pub os_version_long: Vec<u8>,

    /// Total RAM in bytes.
    pub ram_bytes: u64,

    /// Total capacity of each mounted disk, in bytes.
    pub disk_totals: Vec<u64>,

    /// Number of logical processors.
    pub cpu_count: u64,

    /// CPU brand string.
    pub cpu_brand: Vec<u8>,

    /// Name of the CPU.
    pub cpu_name: Vec<u8>,

    /// OS-reported system uptime in whole seconds.
    pub uptime_seconds: u64,
}

/// The owner name reported when the owning user cannot be resolved.
pub open spec fn unknown_owner() -> Seq<u8> {
    seq![117u8, 110u8, 107u8, 110u8, 111u8, 119u8, 110u8]
}

/// The bytes of "unknown".
pub fn unknown_owner_bytes() -> (r: Vec<u8>)
    ensures
        r@ == unknown_owner(),
{
    let mut out: Vec<u8> = Vec::new();
    out.push(117u8);
    out.push(110u8);
    out.push(107u8);
    out.push(110u8);
    out.push(111u8);
    out.push(119u8);
    out.push(110u8);
    assert(out@ =~= unknown_owner());
    out
}

/// Mathematical sum of a sequence of byte counts.
pub open spec fn sum64(s: Seq<u64>) -> int
    decreases s.len(),
{
    if s.len() == 0 {
        0
    } else {
        sum64(s.drop_last()) + s.last()
    }
}

/// CPU utilization clamped into the reportable range.
pub open spec fn clamp_cpu(c: u64) -> u64 {
    if c > CPU_UTILIZATION_MAX {
        CPU_UTILIZATION_MAX
    } else {
        c
    }
}

/// Index of the process the engine selects: the first table entry attaining
/// the maximum CPU usage.
pub open spec fn top_index(s: Seq<ProcessSample>) -> int
    decreases s.len(),
{
    if s.len() <= 1 {
        0
    } else {
        let t = top_index(s.drop_last());
        if s.last().cpu_centi > s[t].cpu_centi {
            s.len() - 1
        } else {
            t
        }
    }
}

/// The selected process is in range, attains the maximum, and every earlier
/// entry is strictly below it: ties break to the first entry in table
/// order, so selection is reproducible on an unchanged table.
pub proof fn lemma_top_index_first_max(s: Seq<ProcessSample>)
    requires
        s.len() > 0,
    ensures
        0 <= top_index(s) < s.len(),
        forall|j: int| 0 <= j < s.len() ==> #[trigger] s[j].cpu_centi <= s[top_index(s)].cpu_centi,
        forall|j: int| 0 <= j < top_index(s) ==> #[trigger] s[j].cpu_centi < s[top_index(s)].cpu_centi,
    decreases s.len(),
{
    if s.len() > 1 {
        lemma_top_index_first_max(s.drop_last());
        assert(forall|j: int| 0 <= j < s.len() - 1 ==> s[j] == s.drop_last()[j]);
    }
}

/// Tie-break determinism: if entry `i` attains the maximum and a later
/// entry `j` ties with it, the engine's choice is no later than `i` — the
/// first-encountered of the tied entries wins.
pub proof fn lemma_tie_breaks_to_first(s: Seq<ProcessSample>, i: int, j: int)
    requires
        0 <= i < j < s.len(),
        s[i].cpu_centi == s[j].cpu_centi,
        forall|k: int| 0 <= k < s.len() ==> #[trigger] s[k].cpu_centi <= s[i].cpu_centi,
    ensures
        top_index(s) <= i,
        s[top_index(s)].cpu_centi == s[i].cpu_centi,
{
    lemma_top_index_first_max(s);
}

/// Sum the capacities of all mounted disks, saturating at `u64::MAX`.
pub fn total_disk_bytes(disks: &Vec<u64>) -> (r: u64)
    ensures
        sum64(disks@) <= u64::MAX ==> r == sum64(disks@),
        sum64(disks@) > u64::MAX ==> r == u64::MAX,
{
    let n: usize = disks.len();
    let mut acc: u64 = 0;
    let mut i: usize = 0;
    while i < n
        invariant
            i <= n,
            n == disks@.len(),
            sum64(disks@.take(i as int)) <= u64::MAX ==> acc == sum64(disks@.take(i as int)),
            sum64(disks@.take(i as int)) > u64::MAX ==> acc == u64::MAX,
        decreases n - i,
    {
        let d = disks[i];
        proof {
            assert(disks@.take(i as int + 1).drop_last() =~= disks@.take(i as int));
            assert(disks@.take(i as int + 1).last() == disks@[i as int]);
        }
        if u64::MAX - acc < d {
            acc = u64::MAX;
        } else {
            acc = acc + d;
        }
        i = i + 1;
    }
    proof {
        assert(disks@.take(n as int) =~= disks@);
    }
    acc
}

/// What a periodic update must hold for the sample it was computed from.
pub open spec fn update_post(s: UpdateSample, u: UpdateView) -> bool {
    &&& u.cpu_utilization == clamp_cpu(s.cpu_total_centi)
    &&& u.cpu_utilization <= CPU_UTILIZATION_MAX
    &&& u.available_memory_bytes == s.available_memory_bytes
    &&& u.available_disk_bytes == s.available_disk_bytes
    &&& u.running_processes == s.processes@.len()
    &&& if s.processes@.len() == 0 {
        &&& u.most_intense_process_name == Seq::<u8>::empty()
        &&& u.most_intense_process_owner == unknown_owner()
    } else {
        let top = s.processes@[top_index(s.processes@)];
        &&& u.most_intense_process_name == top.name@
        &&& u.most_intense_process_owner == match top.owner {
            Some(o) => o@,
            None => unknown_owner(),
        }
    }
}

/// Produce a periodic-update report from a raw sample.
///
/// `sample` is `None` when the sampler could not acquire its lock; that is
/// `SnapshotUnavailable`, and the tick is skipped.  Otherwise the report is
/// owed: CPU utilization is clamped into `0..=10_000` hundredths of a
/// percent, the most CPU-intense process is the first table entry attaining
/// the maximum, and an unresolvable owner becomes "unknown" rather than an
/// error.
pub fn snapshot_update(sample: Option<&UpdateSample>) -> (r: Result<CattleUpdate, SnapshotError>)
    ensures
        sample is None ==> r == Err::<CattleUpdate, SnapshotError>(
            SnapshotError::SnapshotUnavailable,
        ),
        sample matches Some(s) ==> r matches Ok(u) && update_post(*s, u@),
{
    let s = match sample {
        Some(s) => s,
        None => {
            return Err(SnapshotError::SnapshotUnavailable);
        },
    };
    let cpu = if s.cpu_total_centi > CPU_UTILIZATION_MAX {
        CPU_UTILIZATION_MAX
    } else {
        s.cpu_total_centi
    };
    let n: usize = s.processes.len();
    let (name, owner) = if n == 0 {
        (Vec::new(), unknown_owner_bytes())
    } else {
        let mut best: usize = 0;
        let mut i: usize = 1;
        while i < n
            invariant
                1 <= i <= n,
                n == s.processes@.len(),
                best < i,
                best as int == top_index(s.processes@.take(i as int)),
            decreases n - i,
        {
            proof {
                assert(s.processes@.take(i as int + 1).drop_last() =~= s.processes@.take(
                    i as int,
                ));
                assert(s.processes@.take(i as int + 1).last() == s.processes@[i as int]);
            }
            if s.processes[i].cpu_centi > s.processes[best].cpu_centi {
                best = i;
            }
            i = i + 1;
        }
        proof {
            assert(s.processes@.take(n as int) =~= s.processes@);
        }
        let top = &s.processes[best];
        let name = copy_bytes(&top.name);
        let owner = match &top.owner {
            Some(o) => copy_bytes(o),
            None => unknown_owner_bytes(),
        };
        (name, owner)
    };
    Ok(CattleUpdate {
        cpu_utilization: cpu,
        available_memory_bytes: s.available_memory_bytes,
        available_disk_bytes: s.available_disk_bytes,
        running_processes: n as u64,
        most_intense_process_name: name,
        most_intense_process_owner: owner,
    })
}

/// Produce the initial-connect report from a raw sample and the device id.
///
/// `sample` is `None` when the sampler could not acquire its lock; that is
/// `SnapshotUnavailable`.  Otherwise the report is owed: host facts are
/// carried over unchanged, and the disk capacities are summed over all
/// mounted disks, saturating at `u64::MAX`.
pub fn snapshot_initial(sample: Option<InitialSample>, id: &Vec<u8>) -> (r: Result<
    CattleInitialConnect,
    SnapshotError,
>)
    requires
        id@.len() == ID_LEN as int,
    ensures
        sample is None ==> r == Err::<CattleInitialConnect, SnapshotError>(
            SnapshotError::SnapshotUnavailable,
        ),
        sample matches Some(s) ==> r matches Ok(i) && {
            &&& i@.name == s.name@
            &&& i@.id == id@
            &&& i@.os_name == s.os_name@
            &&& i@.os_version == s.os_version@
            &&& i@.os_version_long == s.os_version_long@
            &&& i@.ram_bytes == s.ram_bytes
            &&& sum64(s.disk_totals@) <= u64::MAX ==> i@.disk_bytes == sum64(s.disk_totals@)
            &&& sum64(s.disk_totals@) > u64::MAX ==> i@.disk_bytes == u64::MAX
            &&& i@.cpu_count == s.cpu_count
            &&& i@.cpu_brand == s.cpu_brand@
            &&& i@.cpu_name == s.cpu_name@
            &&& i@.uptime_seconds == s.uptime_seconds
        },
{
    let s = match sample {
        Some(s) => s,
        None => {
            return Err(SnapshotError::SnapshotUnavailable);
        },
    };
    let disk_bytes = total_disk_bytes(&s.disk_totals);
    Ok(CattleInitialConnect {
        name: s.name,
        id: copy_bytes(id),
        os_name: s.os_name,
        os_version: s.os_version,
        os_version_long: s.os_version_long,
        ram_bytes: s.ram_bytes,
        disk_bytes: disk_bytes,
        cpu_count: s.cpu_count,
        cpu_brand: s.cpu_brand,
        cpu_name: s.cpu_name,
        uptime_seconds: s.uptime_seconds,
    })
}

} // verus!
