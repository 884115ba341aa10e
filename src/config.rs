//! The per-process region table: eleven optional regions, one of them kept
//! for the growable application memory region, and the span recorded for
//! application memory.

use vstd::prelude::*;
use crate::region::Region;

verus! {

/// The number of logical region slots; slot `i` is written to hardware
/// descriptor `i + 1`, since descriptor 0 is held by the reset default.
pub const NUM_REGIONS: usize = 11;

/// The slot kept for the application memory region.
pub const APP_MEMORY_INDEX: usize = 1;

/// What a logical slot is for.
#[derive(Clone, Copy, Debug, PartialEq, Eq, Structural)]
pub enum RegionClass {
    Ordinary,
    ApplicationMemory,
}

/// The class of slot `index`.
pub fn region_class(index: usize) -> (r: RegionClass)
    ensures
        r == (if index == APP_MEMORY_INDEX {
            RegionClass::ApplicationMemory
        } else {
            RegionClass::Ordinary
        }),
{
    if index == APP_MEMORY_INDEX {
        RegionClass::ApplicationMemory
    } else {
        RegionClass::Ordinary
    }
}

/// The number of ordinary slots below `n` that hold a region.
pub open spec fn taken_below(s: Seq<Option<Region>>, n: int) -> nat
    decreases n,
{
    if n <= 0 {
        0
    } else {
        taken_below(s, n - 1) + if n - 1 != APP_MEMORY_INDEX && s[n - 1] is Some {
            1nat
        } else {
            0nat
        }
    }
}

/// The region table of one process.
pub struct MK66Config {
    memory: Option<(u32, u32)>,
    regions: Vec<Option<Region>>,
}

impl MK66Config {
    /// The slots, in order.
    pub closed spec fn spec_regions(&self) -> Seq<Option<Region>> {
        self.regions@
    }

    /// The recorded application memory span, as `(start, size)`.
    pub closed spec fn spec_memory(&self) -> Option<(u32, u32)> {
        self.memory
    }

    /// The table has its eleven slots and every region in it is aligned and
    /// carries the code of a permission.
    pub open spec fn wf(&self) -> bool {
        &&& self.spec_regions().len() == NUM_REGIONS
        &&& forall|i: int|
            0 <= i < NUM_REGIONS && (#[trigger] self.spec_regions()[i]) is Some
                ==> self.spec_regions()[i].unwrap().wf()
    }

    /// Whether `index` is the slot that the first-free search returns: an
    /// empty ordinary slot with every ordinary slot below it taken.
    pub open spec fn is_first_free(&self, index: int) -> bool {
        &&& 0 <= index < NUM_REGIONS
        &&& index != APP_MEMORY_INDEX
        &&& self.spec_regions()[index] is None
        &&& forall|j: int|
            0 <= j < index && j != APP_MEMORY_INDEX ==> (#[trigger] self.spec_regions()[j]) is Some
    }

    /// Every ordinary slot holds a region.
    pub open spec fn is_full(&self) -> bool {
        forall|j: int|
            0 <= j < NUM_REGIONS && j != APP_MEMORY_INDEX ==> (#[trigger] self.spec_regions()[j]) is Some
    }

    /// The first empty ordinary slot, lowest index first, or `None` when all
    /// ordinary slots are taken. The application memory slot is never
    /// returned.
    pub fn available_region_index(&self) -> (r: Option<usize>)
        requires
            self.wf(),
        ensures
            match r {
                Some(i) => self.is_first_free(i as int),
                None => self.is_full(),
            },
    {
        let mut index: usize = 0;
        while index < NUM_REGIONS
            invariant
                self.wf(),
                index <= NUM_REGIONS,
                forall|j: int|
                    0 <= j < index && j != APP_MEMORY_INDEX ==> (#[trigger] self.spec_regions()[j]) is Some,
            decreases NUM_REGIONS - index,
        {
            if index != APP_MEMORY_INDEX && self.regions[index].is_none() {
                return Some(index);
            }
            index = index + 1;
        }
        None
    }

    /// The region in slot `index`, if any.
    pub fn region(&self, index: usize) -> (r: Option<Region>)
        requires
            self.wf(),
            index < NUM_REGIONS,
        ensures
            r == self.spec_regions()[index as int],
    {
        self.regions[index]
    }

    /// The recorded application memory span, as `(start, size)`.
    pub fn memory(&self) -> (r: Option<(u32, u32)>)
        ensures
            r == self.spec_memory(),
    {
        self.memory
    }

    /// Stores `region` in slot `index`, replacing what was there.
    pub fn set_region(&mut self, index: usize, region: Region)
        requires
            old(self).wf(),
            index < NUM_REGIONS,
            region.wf(),
        ensures
            final(self).wf(),
            final(self).spec_regions() == old(self).spec_regions().update(index as int, Some(region)),
            final(self).spec_memory() == old(self).spec_memory(),
    {
        self.regions[index] = Some(region);
    }

    /// Empties slot `index`.
    pub fn clear_region(&mut self, index: usize)
        requires
            old(self).wf(),
            index < NUM_REGIONS,
        ensures
            final(self).wf(),
            final(self).spec_regions() == old(self).spec_regions().update(index as int, None),
            final(self).spec_memory() == old(self).spec_memory(),
    {
        self.regions[index] = None;
    }

    /// Records the application memory span.
    pub(crate) fn set_memory(&mut self, start: u32, size: u32)
        requires
            old(self).wf(),
        ensures
            final(self).wf(),
            final(self).spec_regions() == old(self).spec_regions(),
            final(self).spec_memory() == Some((start, size)),
    {
        self.memory = Some((start, size));
    }
}

impl Default for MK66Config {
    /// An empty table with no application memory recorded.
    fn default() -> (r: MK66Config)
        ensures
            r.wf(),
            r.spec_memory() is None,
            r.spec_regions() == Seq::new(NUM_REGIONS as nat, |i: int| None::<Region>),
    {
        let mut regions: Vec<Option<Region>> = Vec::new();
        let mut i: usize = 0;
        while i < NUM_REGIONS
            invariant
                i <= NUM_REGIONS,
                regions@ == Seq::new(i as nat, |j: int| None::<Region>),
            decreases NUM_REGIONS - i,
        {
            regions.push(None);
            i = i + 1;
        }
        MK66Config { memory: None, regions }
    }
}

} // verus!
