//! Why a request to the driver failed.

use vstd::prelude::*;

verus! {

#[derive(Clone, Copy, Debug, PartialEq, Eq, Structural)]
pub enum MpuError {
    /// The requested span does not fit in the unallocated memory.
    CapacityExhausted,
    /// No free region slot is left in the configuration.
    TableFull,
    /// Growth was requested before an application memory region existed.
    NoActiveAppRegion,
    /// The recorded application memory span is not 32-byte aligned.
    MisalignedBookkeeping,
    /// The application break would run into the kernel-reserved tail.
    GrowthExceedsKernelReserve,
    /// The hardware reports a region-count code outside the known ones.
    UnknownRegionCountEncoding,
}

} // verus!
