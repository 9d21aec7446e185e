//! The host's disks, summed up.

use crate::text::same;
use vstd::prelude::*;

verus! {

/// The room of one mounted disk, in bytes.
#[derive(Clone, Debug)]
pub struct DiskSpace {
    pub mount_point: String,
    pub total_space: u64,
    pub available_space: u64,
}

/// The room in use and the room in all, in bytes.
#[derive(Clone, Copy, Debug, PartialEq, Eq, Structural)]
pub struct DiskTotals {
    pub used: u64,
    pub total: u64,
}

/// The bytes in use on a disk; none where it reports more room free than
/// it has.
pub open spec fn used_on(total: u64, available: u64) -> nat {
    if total >= available {
        (total - available) as nat
    } else {
        0
    }
}

/// A count of bytes held to what 64 bits can say.
pub open spec fn capped(bytes: nat) -> u64 {
    if bytes > u64::MAX {
        u64::MAX
    } else {
        bytes as u64
    }
}

/// The position of the first disk that is mounted at `/`.
pub open spec fn root_disk(disks: Seq<DiskSpace>) -> Option<int> {
    if exists|i: int| 0 <= i < disks.len() && (#[trigger] disks[i]).mount_point@ == "/"@ {
        Some(
            choose|i: int|
                0 <= i < disks.len() && (#[trigger] disks[i]).mount_point@ == "/"@ && forall|
                    j: int,
                |
                    0 <= j < i ==> (#[trigger] disks[j]).mount_point@ != "/"@,
        )
    } else {
        None
    }
}

/// The bytes that the disks have together.
pub open spec fn sum_total(disks: Seq<DiskSpace>) -> nat
    decreases disks.len(),
{
    if disks.len() == 0 {
        0
    } else {
        sum_total(disks.drop_last()) + disks.last().total_space as nat
    }
}

/// The bytes in use on the disks together.
pub open spec fn sum_used(disks: Seq<DiskSpace>) -> nat
    decreases disks.len(),
{
    if disks.len() == 0 {
        0
    } else {
        sum_used(disks.drop_last()) + used_on(disks.last().total_space, disks.last().available_space)
    }
}

/// The host's disk usage: that of the disk mounted at `/` where there is
/// one, else that of all disks together, held to what 64 bits can say.
pub open spec fn usage_of(disks: Seq<DiskSpace>) -> DiskTotals {
    match root_disk(disks) {
        Some(i) => DiskTotals {
            used: capped(used_on(disks[i].total_space, disks[i].available_space)),
            total: disks[i].total_space,
        },
        None => DiskTotals { used: capped(sum_used(disks)), total: capped(sum_total(disks)) },
    }
}

/// The position of the first disk that is mounted at `/`.
pub fn find_root(disks: &Vec<DiskSpace>) -> (at: Option<usize>)
    ensures
        match at {
            Some(i) => root_disk(disks@) == Some(i as int) && i < disks.len(),
            None => root_disk(disks@) is None,
        },
{
    let mut i: usize = 0;
    while i < disks.len()
        invariant
            i <= disks.len(),
            forall|j: int| 0 <= j < i ==> (#[trigger] disks@[j]).mount_point@ != "/"@,
        decreases disks.len() - i,
    {
        if same(disks[i].mount_point.as_str(), "/") {
            proof {
                let chosen = choose|k: int|
                    0 <= k < disks@.len() && (#[trigger] disks@[k]).mount_point@ == "/"@
                        && forall|j: int|
                        0 <= j < k ==> (#[trigger] disks@[j]).mount_point@ != "/"@;
                assert(disks@[i as int].mount_point@ == "/"@);
                assert(chosen == i);
            }
            return Some(i);
        }
        i += 1;
    }
    None
}

/// The host's disk usage.
pub fn disk_usage(disks: &Vec<DiskSpace>) -> (totals: DiskTotals)
    ensures
        totals == usage_of(disks@),
{
    match find_root(disks) {
        Some(i) => DiskTotals {
            used: disks[i].total_space.saturating_sub(disks[i].available_space),
            total: disks[i].total_space,
        },
        None => {
            let mut used: u64 = 0;
            let mut total: u64 = 0;
            let mut i: usize = 0;
            assert(disks@.take(0) =~= Seq::<DiskSpace>::empty());
            while i < disks.len()
                invariant
                    i <= disks.len(),
                    used == capped(sum_used(disks@.take(i as int))),
                    total == capped(sum_total(disks@.take(i as int))),
                decreases disks.len() - i,
            {
                let ghost next = disks@.take(i + 1);
                assert(next.drop_last() =~= disks@.take(i as int));
                assert(next.last() == disks@[i as int]);
                let here = disks[i].total_space.saturating_sub(disks[i].available_space);
                used = used.saturating_add(here);
                total = total.saturating_add(disks[i].total_space);
                i += 1;
            }
            assert(disks@.take(disks.len() as int) =~= disks@);
            DiskTotals { used, total }
        },
    }
}

} // verus!
