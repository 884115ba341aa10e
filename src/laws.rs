//! Properties of the allocator over sequences of calls.

use vstd::prelude::*;
use crate::align::{aligned, round_up};
use crate::config::{taken_below, MK66Config, APP_MEMORY_INDEX, NUM_REGIONS};
use crate::error::MpuError;
use crate::mpu::{allocate_region_post, region_fits, stored_at, update_app_memory_post};
use crate::region::{Permissions, Region};

verus! {

/// A region handed out by `allocate_region` starts on a 32-byte boundary
/// and has a size that is a multiple of 32.
pub proof fn lemma_allocated_region_aligned(
    old: MK66Config,
    new: MK66Config,
    start: u32,
    size: u32,
    min_size: u32,
    permissions: Permissions,
    r: Result<(u32, u32), MpuError>,
)
    requires
        allocate_region_post(old, new, start, size, min_size, permissions, r),
    ensures
        r matches Ok((s, sz)) ==> aligned(s as int) && aligned(sz as int),
{
    crate::align::lemma_round_up(start as int, 32);
    crate::align::lemma_round_up(min_size as int, 32);
}

/// `allocate_region` reports exhausted capacity exactly when the rounded
/// region would end past the unrounded end of the unallocated span; an
/// exact fit succeeds.
pub proof fn lemma_capacity_exhausted_exactly(
    old: MK66Config,
    new: MK66Config,
    start: u32,
    size: u32,
    min_size: u32,
    permissions: Permissions,
    r: Result<(u32, u32), MpuError>,
)
    requires
        allocate_region_post(old, new, start, size, min_size, permissions, r),
    ensures
        r == Err::<(u32, u32), MpuError>(MpuError::CapacityExhausted) <==> round_up(start as int, 32)
            + round_up(min_size as int, 32) > start + size,
{
}

/// On a table whose ordinary slots are all taken, `allocate_region` fails
/// with a full table whenever the region fits its span, however large the
/// span, and leaves the table as it was.
pub proof fn lemma_full_table_fails(
    old: MK66Config,
    new: MK66Config,
    start: u32,
    size: u32,
    min_size: u32,
    permissions: Permissions,
    r: Result<(u32, u32), MpuError>,
)
    requires
        allocate_region_post(old, new, start, size, min_size, permissions, r),
        old.is_full(),
        region_fits(start, size, min_size),
    ensures
        r == Err::<(u32, u32), MpuError>(MpuError::TableFull),
        new.spec_regions() == old.spec_regions(),
        new.spec_memory() == old.spec_memory(),
{
}

/// At most ten ordinary slots below `n` can be taken, and where as many are
/// taken as there are ordinary slots below `n`, all of them are.
proof fn lemma_taken_bound(s: Seq<Option<Region>>, n: int)
    requires
        s.len() == NUM_REGIONS,
        0 <= n <= NUM_REGIONS,
    ensures
        taken_below(s, n) <= n - (if n > APP_MEMORY_INDEX { 1int } else { 0int }),
        taken_below(s, n) == n - (if n > APP_MEMORY_INDEX { 1int } else { 0int }) ==> forall|j: int|
            0 <= j < n && j != APP_MEMORY_INDEX ==> (#[trigger] s[j]) is Some,
    decreases n,
{
    if n > 0 {
        lemma_taken_bound(s, n - 1);
    }
}

/// Storing a region in an empty ordinary slot `i` adds one to the count of
/// taken slots below any `n` above `i`.
proof fn lemma_taken_store(
    old: Seq<Option<Region>>,
    new: Seq<Option<Region>>,
    i: int,
    start: int,
    end: int,
    bits: u32,
    n: int,
)
    requires
        stored_at(old, new, i, start, end, bits),
        old[i] is None,
        i != APP_MEMORY_INDEX,
        0 <= n <= old.len(),
    ensures
        taken_below(new, n) == taken_below(old, n) + (if i < n { 1nat } else { 0nat }),
    decreases n,
{
    if n > 0 {
        lemma_taken_store(old, new, i, start, end, bits, n - 1);
    }
}

/// After `k` successful calls of `allocate_region` from a table whose
/// ordinary slots are empty, `k` ordinary slots are taken.
proof fn lemma_taken_after(
    configs: Seq<MK66Config>,
    starts: Seq<u32>,
    sizes: Seq<u32>,
    mins: Seq<u32>,
    perms: Seq<Permissions>,
    results: Seq<Result<(u32, u32), MpuError>>,
    k: int,
)
    requires
        0 <= k < configs.len(),
        k <= results.len(),
        configs[0].wf(),
        taken_below(configs[0].spec_regions(), NUM_REGIONS as int) == 0,
        forall|m: int|
            0 <= m < k ==> allocate_region_post(
                #[trigger] configs[m],
                configs[m + 1],
                starts[m],
                sizes[m],
                mins[m],
                perms[m],
                results[m],
            ),
        forall|m: int| 0 <= m < k ==> (#[trigger] results[m]) is Ok,
    ensures
        taken_below(configs[k].spec_regions(), NUM_REGIONS as int) == k,
        configs[k].wf(),
    decreases k,
{
    if k > 0 {
        lemma_taken_after(configs, starts, sizes, mins, perms, results, k - 1);
        let old = configs[k - 1];
        let new = configs[k];
        assert(allocate_region_post(
            old,
            new,
            starts[k - 1],
            sizes[k - 1],
            mins[k - 1],
            perms[k - 1],
            results[k - 1],
        ));
        assert(results[k - 1] is Ok);
        let (s, sz) = results[k - 1].unwrap();
        let i = choose|i: int|
            #[trigger] old.is_first_free(i) && stored_at(
                old.spec_regions(),
                new.spec_regions(),
                i,
                s as int,
                s + sz,
                crate::region::permission_bits(perms[k - 1]),
            );
        lemma_taken_store(
            old.spec_regions(),
            new.spec_regions(),
            i,
            s as int,
            s + sz,
            crate::region::permission_bits(perms[k - 1]),
            NUM_REGIONS as int,
        );
    }
}

/// Calling `allocate_region` on a table whose ordinary slots are empty: once
/// ten calls have succeeded and filled the ten ordinary slots, an eleventh
/// call whose region fits its span fails with a full table.
pub proof fn lemma_eleventh_allocation_fails(
    configs: Seq<MK66Config>,
    starts: Seq<u32>,
    sizes: Seq<u32>,
    mins: Seq<u32>,
    perms: Seq<Permissions>,
    results: Seq<Result<(u32, u32), MpuError>>,
)
    requires
        configs.len() == 12,
        results.len() == 11,
        configs[0].wf(),
        forall|j: int|
            0 <= j < NUM_REGIONS && j != APP_MEMORY_INDEX ==> (#[trigger] configs[0].spec_regions()[j])
                is None,
        forall|m: int|
            0 <= m < 11 ==> allocate_region_post(
                #[trigger] configs[m],
                configs[m + 1],
                starts[m],
                sizes[m],
                mins[m],
                perms[m],
                results[m],
            ),
        forall|m: int| 0 <= m < 10 ==> (#[trigger] results[m]) is Ok,
        region_fits(starts[10], sizes[10], mins[10]),
    ensures
        results[10] == Err::<(u32, u32), MpuError>(MpuError::TableFull),
{
    let s0 = configs[0].spec_regions();
    assert(taken_below(s0, NUM_REGIONS as int) == 0) by {
        lemma_taken_zero(s0, NUM_REGIONS as int);
    }
    lemma_taken_after(configs, starts, sizes, mins, perms, results, 10);
    lemma_taken_bound(configs[10].spec_regions(), NUM_REGIONS as int);
    assert(allocate_region_post(
        configs[10],
        configs[11],
        starts[10],
        sizes[10],
        mins[10],
        perms[10],
        results[10],
    ));
}

/// No ordinary slot below `n` is counted where all ordinary slots are empty.
proof fn lemma_taken_zero(s: Seq<Option<Region>>, n: int)
    requires
        0 <= n <= s.len(),
        forall|j: int| 0 <= j < s.len() && j != APP_MEMORY_INDEX ==> (#[trigger] s[j]) is None,
    ensures
        taken_below(s, n) == 0,
    decreases n,
{
    if n > 0 {
        lemma_taken_zero(s, n - 1);
    }
}

/// Growing the application memory region twice to the same breaks gives
/// the same result and leaves the same table as growing it once.
pub proof fn lemma_update_idempotent(
    c0: MK66Config,
    c1: MK66Config,
    c2: MK66Config,
    app_memory_break: u32,
    kernel_memory_break: u32,
    permissions: Permissions,
    r1: Result<(), MpuError>,
    r2: Result<(), MpuError>,
)
    requires
        c0.wf(),
        update_app_memory_post(c0, c1, app_memory_break, kernel_memory_break, permissions, r1),
        update_app_memory_post(c1, c2, app_memory_break, kernel_memory_break, permissions, r2),
    ensures
        r2 == r1,
        c2.spec_regions() == c1.spec_regions(),
        c2.spec_memory() == c1.spec_memory(),
{
    let s1 = c1.spec_regions();
    let s2 = c2.spec_regions();
    if r1 is Ok {
        assert(s1[APP_MEMORY_INDEX as int] is Some);
        assert(r2 is Ok);
        Region::lemma_eq(s1[APP_MEMORY_INDEX as int].unwrap(), s2[APP_MEMORY_INDEX as int].unwrap());
        assert(s2 =~= s1);
    }
}

/// Growing the application memory region fails whenever the rounded
/// application break lies past the kernel break.
pub proof fn lemma_update_past_kernel_break_fails(
    old: MK66Config,
    new: MK66Config,
    app_memory_break: u32,
    kernel_memory_break: u32,
    permissions: Permissions,
    r: Result<(), MpuError>,
)
    requires
        update_app_memory_post(old, new, app_memory_break, kernel_memory_break, permissions, r),
        round_up(app_memory_break as int, 32) > kernel_memory_break,
    ensures
        r is Err,
        new.spec_regions() == old.spec_regions(),
{
}

} // verus!
