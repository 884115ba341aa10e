//! The driver: the register block it owns, and the allocator that fills a
//! process's region table and flushes it into the block.

use vstd::prelude::*;
use crate::align::{aligned, lemma_round_up, round_up, round_up_to_nearest_multiple, REGION_ALIGN};
use crate::config::{MK66Config, APP_MEMORY_INDEX, NUM_REGIONS};
use crate::error::MpuError;
use crate::region::{permission_bits, Permissions, Region};
use crate::registers::{
    access_word, supervisor_field, user_field, lemma_access_word_fields, cesr_with_valid, descriptor_count, lemma_address_word_aligned, nrgd_code,
    without_user_access, MpuRegisters, ADDR_MASK, ADDR_SHIFT, CESR_NRGD_MASK, CESR_NRGD_SHIFT,
    CESR_VLD, M0SM_MASK, M0SM_READ_WRITE_EXECUTE, M0SM_SHIFT, M0UM_MASK,
    NRGD_EIGHT, NRGD_SIXTEEN, NRGD_TWELVE, RGD_VLD,
};

verus! {

/// `new` differs from `old` only in slot `i`, which now holds the region
/// `[start, end)` with permission bits `bits`.
pub open spec fn stored_at(
    old: Seq<Option<Region>>,
    new: Seq<Option<Region>>,
    i: int,
    start: int,
    end: int,
    bits: u32,
) -> bool {
    &&& new.len() == old.len()
    &&& 0 <= i < new.len()
    &&& new[i] is Some
    &&& new[i].unwrap().start() == start
    &&& new[i].unwrap().end() == end
    &&& new[i].unwrap().permissions() == bits
    &&& forall|j: int| 0 <= j < new.len() && j != i ==> new[j] == old[j]
}

/// Whether a region of at least `min_size` bytes, its start and size rounded
/// up to 32 bytes, fits in `[start, start + size)`.
pub open spec fn region_fits(start: u32, size: u32, min_size: u32) -> bool {
    round_up(start as int, 32) + round_up(min_size as int, 32) <= start + size
}

/// The arguments of `allocate_region` stay within the 32-bit address space.
pub open spec fn allocate_region_in_range(start: u32, size: u32, min_size: u32) -> bool {
    &&& round_up(start as int, 32) + round_up(min_size as int, 32) <= u32::MAX
    &&& start + size <= u32::MAX
}

/// What `allocate_region` does to a table `old`, leaving `new` and
/// returning `r`.
pub open spec fn allocate_region_post(
    old: MK66Config,
    new: MK66Config,
    start: u32,
    size: u32,
    min_size: u32,
    permissions: Permissions,
    r: Result<(u32, u32), MpuError>,
) -> bool {
    &&& new.wf()
    &&& new.spec_memory() == old.spec_memory()
    &&& (r is Ok <==> region_fits(start, size, min_size) && !old.is_full())
    &&& (r == Err::<(u32, u32), MpuError>(MpuError::CapacityExhausted) <==> !region_fits(
        start,
        size,
        min_size,
    ))
    &&& (r == Err::<(u32, u32), MpuError>(MpuError::TableFull) <==> region_fits(start, size, min_size)
        && old.is_full())
    &&& match r {
        Ok((s, sz)) => {
            &&& s == round_up(start as int, 32)
            &&& sz == round_up(min_size as int, 32)
            &&& exists|i: int|
                #[trigger] old.is_first_free(i) && stored_at(
                    old.spec_regions(),
                    new.spec_regions(),
                    i,
                    s as int,
                    s + sz,
                    permission_bits(permissions),
                )
        },
        Err(_) => new.spec_regions() == old.spec_regions(),
    }
}

/// The larger of two sizes.
pub open spec fn max_size(a: int, b: int) -> int {
    if a < b {
        b
    } else {
        a
    }
}

/// The total span reserved for application memory: the larger of the
/// minimum and the initial application plus kernel sizes, rounded up to
/// 32 bytes, and one more 32-byte unit where the rounded application part
/// and the kernel part would otherwise not both fit.
pub open spec fn app_memory_size(min_memory_size: u32, app_size: u32, kernel_size: u32) -> int {
    let total = round_up(max_size(min_memory_size as int, app_size + kernel_size), 32);
    if round_up(app_size as int, 32) + kernel_size > total {
        total + 32
    } else {
        total
    }
}

/// Whether the application memory span fits in `[start, start + size)`.
pub open spec fn app_memory_fits(
    start: u32,
    size: u32,
    min_memory_size: u32,
    app_size: u32,
    kernel_size: u32,
) -> bool {
    round_up(start as int, 32) + app_memory_size(min_memory_size, app_size, kernel_size)
        <= start + size
}

/// The arguments of `allocate_app_memory_region` stay within the 32-bit
/// address space.
pub open spec fn app_memory_in_range(
    start: u32,
    size: u32,
    min_memory_size: u32,
    app_size: u32,
    kernel_size: u32,
) -> bool {
    &&& app_size + kernel_size <= u32::MAX
    &&& round_up(app_size as int, 32) + kernel_size <= u32::MAX
    &&& round_up(start as int, 32) + app_memory_size(min_memory_size, app_size, kernel_size)
        <= u32::MAX
    &&& start + size <= u32::MAX
}

/// What `allocate_app_memory_region` does to a table `old`, leaving `new`
/// and returning `r`.
pub open spec fn allocate_app_memory_post(
    old: MK66Config,
    new: MK66Config,
    start: u32,
    size: u32,
    min_memory_size: u32,
    app_size: u32,
    kernel_size: u32,
    permissions: Permissions,
    r: Result<(u32, u32), MpuError>,
) -> bool {
    let memory_start = round_up(start as int, 32);
    let memory_size = app_memory_size(min_memory_size, app_size, kernel_size);
    &&& new.wf()
    &&& if app_memory_fits(start, size, min_memory_size, app_size, kernel_size) {
        &&& r == Ok::<(u32, u32), MpuError>((memory_start as u32, memory_size as u32))
        &&& new.spec_memory() == Some((memory_start as u32, memory_size as u32))
        &&& stored_at(
            old.spec_regions(),
            new.spec_regions(),
            APP_MEMORY_INDEX as int,
            memory_start,
            memory_start + round_up(app_size as int, 32),
            permission_bits(permissions),
        )
    } else {
        &&& r == Err::<(u32, u32), MpuError>(MpuError::CapacityExhausted)
        &&& new.spec_memory() == old.spec_memory()
        &&& new.spec_regions() == old.spec_regions()
    }
}

/// What `update_app_memory_region` does to a table `old`, leaving `new` and
/// returning `r`.
pub open spec fn update_app_memory_post(
    old: MK66Config,
    new: MK66Config,
    app_memory_break: u32,
    kernel_memory_break: u32,
    permissions: Permissions,
    r: Result<(), MpuError>,
) -> bool {
    let region_end = round_up(app_memory_break as int, 32);
    &&& new.wf()
    &&& new.spec_memory() == old.spec_memory()
    &&& if old.spec_regions()[APP_MEMORY_INDEX as int] is None || old.spec_memory() is None {
        r == Err::<(), MpuError>(MpuError::NoActiveAppRegion)
    } else if !aligned(old.spec_memory().unwrap().0 as int) || !aligned(
        old.spec_memory().unwrap().1 as int,
    ) {
        r == Err::<(), MpuError>(MpuError::MisalignedBookkeeping)
    } else if region_end > kernel_memory_break {
        r == Err::<(), MpuError>(MpuError::GrowthExceedsKernelReserve)
    } else {
        r == Ok::<(), MpuError>(())
    }
    &&& match r {
        Ok(_) => stored_at(
            old.spec_regions(),
            new.spec_regions(),
            APP_MEMORY_INDEX as int,
            old.spec_memory().unwrap().0 as int,
            region_end,
            permission_bits(permissions),
        ),
        Err(_) => new.spec_regions() == old.spec_regions(),
    }
}

/// The four words of descriptor `d` are the same in `old` and `new`.
pub open spec fn descriptor_kept(old: MpuRegisters, new: MpuRegisters, d: int) -> bool {
    &&& new.rgd_word0@[d] == old.rgd_word0@[d]
    &&& new.rgd_word1@[d] == old.rgd_word1@[d]
    &&& new.rgd_word2@[d] == old.rgd_word2@[d]
    &&& new.rgd_word3@[d] == old.rgd_word3@[d]
}

/// Descriptor `d` of `new` as the flush leaves it for the slot content
/// `region`: a region's boundaries, its access word and the valid bit; for
/// an empty slot, the valid bit cleared and the other words as in `old`.
pub open spec fn descriptor_written(
    old: MpuRegisters,
    new: MpuRegisters,
    d: int,
    region: Option<Region>,
) -> bool {
    match region {
        Some(r) => {
            &&& new.rgd_word0@[d] == r.start()
            &&& new.rgd_word1@[d] == r.end()
            &&& new.rgd_word2@[d] == access_word(r.permissions())
            &&& user_field(new.rgd_word2@[d]) == r.permissions()
            &&& supervisor_field(new.rgd_word2@[d]) == M0SM_READ_WRITE_EXECUTE
            &&& new.rgd_word3@[d] == RGD_VLD
        },
        None => {
            &&& new.rgd_word0@[d] == old.rgd_word0@[d]
            &&& new.rgd_word1@[d] == old.rgd_word1@[d]
            &&& new.rgd_word2@[d] == old.rgd_word2@[d]
            &&& new.rgd_word3@[d] == 0
        },
    }
}

/// What `configure_mpu` does to the register block `old`, leaving `new`:
/// user access through descriptor 0 is withdrawn, and slot `i` of the table
/// is written to descriptor `i + 1`.
pub open spec fn configure_post(old: MpuRegisters, new: MpuRegisters, config: MK66Config) -> bool {
    &&& new.wf()
    &&& new.cesr == old.cesr
    &&& new.ear@ == old.ear@
    &&& new.edr@ == old.edr@
    &&& new.rgdaac@ == old.rgdaac@.update(0, without_user_access(old.rgdaac@[0]))
    &&& descriptor_kept(old, new, 0)
    &&& forall|i: int|
        0 <= i < NUM_REGIONS ==> #[trigger] descriptor_written(
            old,
            new,
            i + 1,
            config.spec_regions()[i],
        )
}

/// Everything of the block but the control/error-status word is the same.
pub open spec fn same_but_cesr(old: MpuRegisters, new: MpuRegisters) -> bool {
    &&& new.ear@ == old.ear@
    &&& new.edr@ == old.edr@
    &&& new.rgd_word0@ == old.rgd_word0@
    &&& new.rgd_word1@ == old.rgd_word1@
    &&& new.rgd_word2@ == old.rgd_word2@
    &&& new.rgd_word3@ == old.rgd_word3@
    &&& new.rgdaac@ == old.rgdaac@
}

/// Rounding up to 32 bytes keeps order.
proof fn lemma_round_up_monotone(a: int, b: int)
    requires
        0 <= a <= b,
    ensures
        round_up(a, 32) <= round_up(b, 32),
{
    lemma_round_up(a, 32);
    lemma_round_up(b, 32);
}

/// The protection unit, through the register block that it owns.
pub struct Mpu {
    pub registers: MpuRegisters,
}

impl Mpu {
    /// A driver over the given register block.
    pub fn new(registers: MpuRegisters) -> (r: Mpu)
        ensures
            r.registers == registers,
    {
        Mpu { registers }
    }

    /// Sets the global valid bit.
    pub fn enable_mpu(&mut self)
        ensures
            final(self).registers.cesr == cesr_with_valid(old(self).registers.cesr, true),
            same_but_cesr(old(self).registers, final(self).registers),
    {
        self.registers.cesr = self.registers.cesr | CESR_VLD;
    }

    /// Clears the global valid bit.
    pub fn disable_mpu(&mut self)
        ensures
            final(self).registers.cesr == cesr_with_valid(old(self).registers.cesr, false),
            same_but_cesr(old(self).registers, final(self).registers),
    {
        proof {
            let c = old(self).registers.cesr;
            assert(c & !1u32 == c & 0xffff_fffeu32) by (bit_vector);
        }
        self.registers.cesr = self.registers.cesr & !CESR_VLD;
    }

    /// The number of region descriptors that the hardware reports: 8, 12 or
    /// 16 by the region-count code, and an error for any other code.
    pub fn number_total_regions(&self) -> (r: Result<usize, MpuError>)
        ensures
            match descriptor_count(nrgd_code(self.registers.cesr)) {
                Some(n) => r == Ok::<usize, MpuError>(n),
                None => r == Err::<usize, MpuError>(MpuError::UnknownRegionCountEncoding),
            },
    {
        let code = (self.registers.cesr >> CESR_NRGD_SHIFT) & CESR_NRGD_MASK;
        if code == NRGD_EIGHT {
            Ok(8)
        } else if code == NRGD_TWELVE {
            Ok(12)
        } else if code == NRGD_SIXTEEN {
            Ok(16)
        } else {
            Err(MpuError::UnknownRegionCountEncoding)
        }
    }

    /// Writes the whole table `config` into the register block. Descriptor 0,
    /// which the reset default opens to every access, keeps supervisor access
    /// and loses user access through its alternate access control word. Slot
    /// `i` goes to descriptor `i + 1`: a region is written with its
    /// boundaries, full supervisor access, user access exactly its
    /// permission bits, and the valid bit; an empty slot has its valid bit
    /// cleared.
    pub fn configure_mpu(&mut self, config: &MK66Config)
        requires
            old(self).registers.wf(),
            config.wf(),
        ensures
            configure_post(old(self).registers, final(self).registers, *config),
    {
        let w = self.registers.rgdaac[0];
        let w = (w & !(M0SM_MASK << M0SM_SHIFT)) | (M0SM_READ_WRITE_EXECUTE << M0SM_SHIFT);
        let w = w & !M0UM_MASK;
        proof {
            let w0 = old(self).registers.rgdaac@[0];
            assert(((w0 & !(3u32 << 3u32)) | (0u32 << 3u32)) & !7u32 == w0 & 0xffff_ffe0u32)
                by (bit_vector);
        }
        self.registers.rgdaac[0] = w;

        let ghost base = self.registers;
        let mut index: usize = 0;
        while index < NUM_REGIONS
            invariant
                config.wf(),
                index <= NUM_REGIONS,
                base.wf(),
                base.cesr == old(self).registers.cesr,
                base.ear@ == old(self).registers.ear@,
                base.edr@ == old(self).registers.edr@,
                base.rgdaac@ == old(self).registers.rgdaac@.update(
                    0,
                    without_user_access(old(self).registers.rgdaac@[0]),
                ),
                base.rgd_word0@ == old(self).registers.rgd_word0@,
                base.rgd_word1@ == old(self).registers.rgd_word1@,
                base.rgd_word2@ == old(self).registers.rgd_word2@,
                base.rgd_word3@ == old(self).registers.rgd_word3@,
                self.registers.wf(),
                self.registers.cesr == base.cesr,
                self.registers.ear@ == base.ear@,
                self.registers.edr@ == base.edr@,
                self.registers.rgdaac@ == base.rgdaac@,
                descriptor_kept(base, self.registers, 0),
                forall|i: int|
                    0 <= i < index ==> #[trigger] descriptor_written(
                        base,
                        self.registers,
                        i + 1,
                        config.spec_regions()[i],
                    ),
                forall|d: int|
                    index + 1 <= d < 12 ==> #[trigger] descriptor_kept(base, self.registers, d),
            decreases NUM_REGIONS - index,
        {
            let ghost prev = self.registers;
            let region_num = index + 1;
            match config.region(index) {
                Some(region) => {
                    let start = region.start();
                    let end = region.end();
                    let user = region.permissions();
                    proof {
                        lemma_address_word_aligned(start);
                        lemma_address_word_aligned(end);
                        lemma_access_word_fields(user);
                    }
                    self.registers.rgd_word0[region_num] = ((start >> ADDR_SHIFT) & ADDR_MASK)
                        << ADDR_SHIFT;
                    self.registers.rgd_word1[region_num] = ((end >> ADDR_SHIFT) & ADDR_MASK)
                        << ADDR_SHIFT;
                    self.registers.rgd_word2[region_num] = (M0SM_READ_WRITE_EXECUTE << M0SM_SHIFT)
                        | (user & M0UM_MASK);
                    self.registers.rgd_word3[region_num] = RGD_VLD;
                },
                None => {
                    self.registers.rgd_word3[region_num] = 0;
                },
            }
            proof {
                assert forall|d: int| index + 2 <= d < 12 implies #[trigger] descriptor_kept(
                    base,
                    self.registers,
                    d,
                ) by {
                    assert(descriptor_kept(base, prev, d));
                }
                assert forall|i: int| 0 <= i < index + 1 implies #[trigger] descriptor_written(
                    base,
                    self.registers,
                    i + 1,
                    config.spec_regions()[i],
                ) by {
                    if i < index {
                        assert(descriptor_written(base, prev, i + 1, config.spec_regions()[i]));
                    } else {
                        assert(descriptor_kept(base, prev, i + 1));
                    }
                }
            }
            index = index + 1;
        }
        proof {
            assert forall|i: int| 0 <= i < NUM_REGIONS implies #[trigger] descriptor_written(
                old(self).registers,
                self.registers,
                i + 1,
                config.spec_regions()[i],
            ) by {
                assert(descriptor_written(base, self.registers, i + 1, config.spec_regions()[i]));
            }
        }
    }

    /// Places a region of at least `min_region_size` bytes in the unallocated
    /// span `[unallocated_memory_start, unallocated_memory_start +
    /// unallocated_memory_size)` and stores it in the first free ordinary slot
    /// of `config`. Start and size are rounded up to 32 bytes; the rounded
    /// `(start, size)` is returned.
    pub fn allocate_region(
        &self,
        unallocated_memory_start: u32,
        unallocated_memory_size: u32,
        min_region_size: u32,
        permissions: Permissions,
        config: &mut MK66Config,
    ) -> (r: Result<(u32, u32), MpuError>)
        requires
            old(config).wf(),
            allocate_region_in_range(
                unallocated_memory_start,
                unallocated_memory_size,
                min_region_size,
            ),
        ensures
            allocate_region_post(
                *old(config),
                *final(config),
                unallocated_memory_start,
                unallocated_memory_size,
                min_region_size,
                permissions,
                r,
            ),
    {
        proof {
            lemma_round_up(unallocated_memory_start as int, 32);
            lemma_round_up(min_region_size as int, 32);
        }
        let region_start = round_up_to_nearest_multiple(unallocated_memory_start, REGION_ALIGN);
        let region_size = round_up_to_nearest_multiple(min_region_size, REGION_ALIGN);

        let region_end = region_start + region_size;
        let unallocated_memory_end = unallocated_memory_start + unallocated_memory_size;

        if region_end > unallocated_memory_end {
            return Err(MpuError::CapacityExhausted);
        }
        let region = Region::new(region_start, region_end, permissions);

        let index = match config.available_region_index() {
            Some(index) => index,
            None => return Err(MpuError::TableFull),
        };
        config.set_region(index, region);
        proof {
            assert(old(config).is_first_free(index as int));
        }
        Ok((region_start, region_size))
    }

    /// Reserves the span of a process's application memory in the
    /// unallocated span `[unallocated_memory_start, unallocated_memory_start +
    /// unallocated_memory_size)` and fences its application-owned prefix with
    /// the region in the application memory slot, replacing what was there.
    /// The kernel-reserved tail stays outside the region. Returns the total
    /// span reserved, as `(start, size)`.
    pub fn allocate_app_memory_region(
        &self,
        unallocated_memory_start: u32,
        unallocated_memory_size: u32,
        min_memory_size: u32,
        initial_app_memory_size: u32,
        initial_kernel_memory_size: u32,
        permissions: Permissions,
        config: &mut MK66Config,
    ) -> (r: Result<(u32, u32), MpuError>)
        requires
            old(config).wf(),
            app_memory_in_range(
                unallocated_memory_start,
                unallocated_memory_size,
                min_memory_size,
                initial_app_memory_size,
                initial_kernel_memory_size,
            ),
        ensures
            allocate_app_memory_post(
                *old(config),
                *final(config),
                unallocated_memory_start,
                unallocated_memory_size,
                min_memory_size,
                initial_app_memory_size,
                initial_kernel_memory_size,
                permissions,
                r,
            ),
    {
        let ghost total = max_size(
            min_memory_size as int,
            initial_app_memory_size + initial_kernel_memory_size,
        );
        proof {
            lemma_round_up(unallocated_memory_start as int, 32);
            lemma_round_up(initial_app_memory_size as int, 32);
            lemma_round_up(total, 32);
            lemma_round_up_monotone(initial_app_memory_size as int, total);
        }
        let mut memory_size: u32 = if min_memory_size < initial_app_memory_size
            + initial_kernel_memory_size {
            initial_app_memory_size + initial_kernel_memory_size
        } else {
            min_memory_size
        };
        memory_size = round_up_to_nearest_multiple(memory_size, REGION_ALIGN);

        let memory_start = round_up_to_nearest_multiple(unallocated_memory_start, REGION_ALIGN);

        // The fenced part: the application-owned prefix.
        let region_start = memory_start;
        let region_size = round_up_to_nearest_multiple(initial_app_memory_size, REGION_ALIGN);
        let region_end = region_start + region_size;

        // Leave a gap between the fenced part and the kernel-reserved tail.
        if region_size + initial_kernel_memory_size > memory_size {
            memory_size = memory_size + REGION_ALIGN;
        }

        let memory_end = memory_start + memory_size;
        let unallocated_memory_end = unallocated_memory_start + unallocated_memory_size;

        if memory_end > unallocated_memory_end {
            return Err(MpuError::CapacityExhausted);
        }
        let region = Region::new(region_start, region_end, permissions);
        config.set_region(APP_MEMORY_INDEX, region);
        config.set_memory(memory_start, memory_size);
        Ok((memory_start, memory_size))
    }

    /// Moves the end of the application memory region to
    /// `app_memory_break` rounded up to 32 bytes; the region keeps the start
    /// of the recorded application memory span. Fails when no application
    /// memory region exists, when the recorded span is not aligned, or when
    /// the new end would pass `kernel_memory_break`.
    pub fn update_app_memory_region(
        &self,
        app_memory_break: u32,
        kernel_memory_break: u32,
        permissions: Permissions,
        config: &mut MK66Config,
    ) -> (r: Result<(), MpuError>)
        requires
            old(config).wf(),
        ensures
            update_app_memory_post(
                *old(config),
                *final(config),
                app_memory_break,
                kernel_memory_break,
                permissions,
                r,
            ),
    {
        if config.region(APP_MEMORY_INDEX).is_none() {
            return Err(MpuError::NoActiveAppRegion);
        }
        let (memory_start, memory_size) = match config.memory() {
            Some((start, size)) => (start, size),
            None => return Err(MpuError::NoActiveAppRegion),
        };
        if memory_start % REGION_ALIGN != 0 || memory_size % REGION_ALIGN != 0 {
            return Err(MpuError::MisalignedBookkeeping);
        }
        proof {
            lemma_round_up(app_memory_break as int, 32);
        }
        // A break that rounds past the address space lies past any kernel
        // break.
        if app_memory_break > 0xffff_ffe0 {
            return Err(MpuError::GrowthExceedsKernelReserve);
        }
        let region_start = memory_start;
        let region_end = round_up_to_nearest_multiple(app_memory_break, REGION_ALIGN);

        if region_end > kernel_memory_break {
            return Err(MpuError::GrowthExceedsKernelReserve);
        }
        let region = Region::new(region_start, region_end, permissions);
        config.set_region(APP_MEMORY_INDEX, region);
        Ok(())
    }
}

} // verus!
