//! Host disk usage, summed over the host's disks.
use vstd::prelude::*;

verus! {

pub open spec fn sat_add(a: u64, b: u64) -> u64 {
    if a + b > u64::MAX {
        u64::MAX
    } else {
        (a + b) as u64
    }
}

pub open spec fn sat_sub(a: u64, b: u64) -> u64 {
    if a < b {
        0
    } else {
        (a - b) as u64
    }
}

/// A disk as its total and available space, in bytes.
pub open spec fn disk_totals_of(disks: Seq<(u64, u64)>) -> (u64, u64)
    decreases disks.len(),
{
    if disks.len() == 0 {
        (0, 0)
    } else {
        let (total, used) = disk_totals_of(disks.drop_last());
        let d = disks.last();
        (sat_add(total, d.0), sat_add(used, sat_sub(d.0, d.1)))
    }
}

fn saturating_add(a: u64, b: u64) -> (r: u64)
    ensures
        r == sat_add(a, b),
{
    if a > u64::MAX - b {
        u64::MAX
    } else {
        a + b
    }
}

/// The disks' total and used space (total less available), each sum
/// saturating at `u64::MAX`, as the host statistics report them.
pub fn disk_totals(disks: &Vec<(u64, u64)>) -> (r: (u64, u64))
    ensures
        r == disk_totals_of(disks@),
{
    let mut total: u64 = 0;
    let mut used: u64 = 0;
    let mut i: usize = 0;
    while i < disks.len()
        invariant
            i <= disks@.len(),
            (total, used) == disk_totals_of(disks@.take(i as int)),
        decreases disks.len() - i,
    {
        let (t, a) = disks[i];
        assert(disks@.take(i + 1).drop_last() =~= disks@.take(i as int));
        let free_less: u64 = if t < a {
            0
        } else {
            t - a
        };
        total = saturating_add(total, t);
        used = saturating_add(used, free_less);
        i = i + 1;
    }
    assert(disks@.take(disks@.len() as int) =~= disks@);
    (total, used)
}

} // verus!
