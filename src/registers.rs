//! The memory-mapped control block of the protection unit, held as plain
//! words: one control/error-status word, the region descriptors (four words
//! each) and the alternate access control words. The bit layouts of the
//! fields that the driver touches are given here as spec functions.

use vstd::prelude::*;

verus! {

/// The number of region descriptors in the block.
pub const NUM_DESCRIPTORS: usize = 12;

/// The number of error address and error detail register pairs.
pub const NUM_ERROR_PAIRS: usize = 5;

/// The valid bit of the control/error-status word (bit 0).
pub const CESR_VLD: u32 = 0x1;

/// The region-count field of the control/error-status word: bits 8 to 11.
pub const CESR_NRGD_SHIFT: u32 = 8;
pub const CESR_NRGD_MASK: u32 = 0xf;

/// Region-count codes.
pub const NRGD_EIGHT: u32 = 0;
pub const NRGD_TWELVE: u32 = 1;
pub const NRGD_SIXTEEN: u32 = 2;

/// Address fields of descriptor words 0 and 1: 27 bits at offset 5.
pub const ADDR_SHIFT: u32 = 5;
pub const ADDR_MASK: u32 = 0x07ff_ffff;

/// Bus master 0 fields of descriptor word 2: user mode access at bits 0 to 2,
/// supervisor mode access at bits 3 and 4.
pub const M0UM_MASK: u32 = 0x7;
pub const M0SM_SHIFT: u32 = 3;
pub const M0SM_MASK: u32 = 0x3;
/// Supervisor mode code: read, write and execute.
pub const M0SM_READ_WRITE_EXECUTE: u32 = 0;

/// The valid bit of descriptor word 3 (bit 0).
pub const RGD_VLD: u32 = 0x1;

/// The control/error-status word with its valid bit set or cleared.
pub open spec fn cesr_with_valid(cesr: u32, enable: bool) -> u32 {
    if enable {
        cesr | 1u32
    } else {
        cesr & 0xffff_fffeu32
    }
}

/// The region-count code held in a control/error-status word.
pub open spec fn nrgd_code(cesr: u32) -> u32 {
    (cesr >> 8u32) & 0xfu32
}

/// The number of descriptors that a region-count code stands for.
pub open spec fn descriptor_count(code: u32) -> Option<usize> {
    if code == 0 {
        Some(8usize)
    } else if code == 1 {
        Some(12usize)
    } else if code == 2 {
        Some(16usize)
    } else {
        None
    }
}

/// Descriptor word 0 or 1 as written for a boundary address: the address
/// with its low five bits dropped, in the 27-bit field at offset 5.
pub open spec fn address_word(addr: u32) -> u32 {
    ((addr >> 5u32) & 0x07ff_ffffu32) << 5u32
}

/// Descriptor word 2 as written for a region: supervisor mode gets full
/// access, and user mode gets the region's permission bits.
pub open spec fn access_word(user: u32) -> u32 {
    (0u32 << 3u32) | (user & 7u32)
}

/// Bus master 0's user mode field of an access control word.
pub open spec fn user_field(w: u32) -> u32 {
    w & 7u32
}

/// Bus master 0's supervisor mode field of an access control word.
pub open spec fn supervisor_field(w: u32) -> u32 {
    (w >> 3u32) & 3u32
}

/// The access word of a 3-bit user code holds that code in the user field
/// and full access in the supervisor field.
pub proof fn lemma_access_word_fields(user: u32)
    requires
        user < 8,
    ensures
        user_field(access_word(user)) == user,
        supervisor_field(access_word(user)) == M0SM_READ_WRITE_EXECUTE,
{
    assert(user < 8 ==> ((0u32 << 3u32) | (user & 7u32)) & 7u32 == user) by (bit_vector);
    assert((((0u32 << 3u32) | (user & 7u32)) >> 3u32) & 3u32 == 0) by (bit_vector);
}

/// An access control word with bus master 0's supervisor field set to full
/// access and its user field cleared; the other masters keep theirs.
pub open spec fn without_user_access(w: u32) -> u32 {
    w & 0xffff_ffe0u32
}

/// An aligned boundary address is encoded without loss.
pub proof fn lemma_address_word_aligned(addr: u32)
    requires
        addr % 32 == 0,
    ensures
        address_word(addr) == addr,
{
    assert(addr % 32 == 0 ==> ((addr >> 5u32) & 0x07ff_ffffu32) << 5u32 == addr) by (bit_vector);
}

/// The register block.
pub struct MpuRegisters {
    /// Control/error-status word.
    pub cesr: u32,
    /// Error address of each slave port: the faulting address.
    pub ear: Vec<u32>,
    /// Error detail of each slave port: access control detail, process
    /// identifier, master number, access attributes and direction.
    pub edr: Vec<u32>,
    /// Word 0 of each region descriptor: start address.
    pub rgd_word0: Vec<u32>,
    /// Word 1 of each region descriptor: end address.
    pub rgd_word1: Vec<u32>,
    /// Word 2 of each region descriptor: access control.
    pub rgd_word2: Vec<u32>,
    /// Word 3 of each region descriptor: process identifier and valid bit.
    pub rgd_word3: Vec<u32>,
    /// Alternate access control words, one for each descriptor.
    pub rgdaac: Vec<u32>,
}

impl MpuRegisters {
    /// Every array of the block has one word for each descriptor.
    pub open spec fn wf(&self) -> bool {
        &&& self.ear@.len() == NUM_ERROR_PAIRS
        &&& self.edr@.len() == NUM_ERROR_PAIRS
        &&& self.rgd_word0@.len() == NUM_DESCRIPTORS
        &&& self.rgd_word1@.len() == NUM_DESCRIPTORS
        &&& self.rgd_word2@.len() == NUM_DESCRIPTORS
        &&& self.rgd_word3@.len() == NUM_DESCRIPTORS
        &&& self.rgdaac@.len() == NUM_DESCRIPTORS
    }

    /// A block with the given control/error-status word and every other
    /// word zero.
    pub fn new(cesr: u32) -> (r: MpuRegisters)
        ensures
            r.wf(),
            r.cesr == cesr,
            r.ear@ == Seq::new(5, |i: int| 0u32),
            r.edr@ == Seq::new(5, |i: int| 0u32),
            r.rgd_word0@ == Seq::new(12, |i: int| 0u32),
            r.rgd_word1@ == Seq::new(12, |i: int| 0u32),
            r.rgd_word2@ == Seq::new(12, |i: int| 0u32),
            r.rgd_word3@ == Seq::new(12, |i: int| 0u32),
            r.rgdaac@ == Seq::new(12, |i: int| 0u32),
    {
        let r = MpuRegisters {
            cesr,
            ear: zero_words(NUM_ERROR_PAIRS),
            edr: zero_words(NUM_ERROR_PAIRS),
            rgd_word0: zero_words(NUM_DESCRIPTORS),
            rgd_word1: zero_words(NUM_DESCRIPTORS),
            rgd_word2: zero_words(NUM_DESCRIPTORS),
            rgd_word3: zero_words(NUM_DESCRIPTORS),
            rgdaac: zero_words(NUM_DESCRIPTORS),
        };
        r
    }
}

/// `n` zero words.
fn zero_words(n: usize) -> (r: Vec<u32>)
    ensures
        r@ == Seq::new(n as nat, |i: int| 0u32),
{
    let mut v: Vec<u32> = Vec::new();
    let mut i: usize = 0;
    while i < n
        invariant
            i <= n,
            v@ == Seq::new(i as nat, |j: int| 0u32),
        decreases n - i,
    {
        v.push(0);
        i = i + 1;
    }
    v
}

} // verus!
