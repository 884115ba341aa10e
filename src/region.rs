//! One protection region: an address span and the permission bits that user
//! mode gets on it.

use vstd::prelude::*;

verus! {

/// The access that a region grants to user mode.
#[derive(Clone, Copy, Debug, PartialEq, Eq, Structural)]
pub enum Permissions {
    ReadWriteExecute,
    ReadWriteOnly,
    ReadExecuteOnly,
    ReadOnly,
    ExecuteOnly,
}

/// The 3-bit hardware code of a permission: read, write and execute enable
/// from the high bit down.
pub open spec fn permission_bits(p: Permissions) -> u32 {
    match p {
        Permissions::ReadWriteExecute => 0b111,
        Permissions::ReadWriteOnly => 0b110,
        Permissions::ReadExecuteOnly => 0b101,
        Permissions::ReadOnly => 0b100,
        Permissions::ExecuteOnly => 0b001,
    }
}

/// Whether `b` is the hardware code of some permission.
pub open spec fn is_permission_code(b: u32) -> bool {
    b == 0b111 || b == 0b110 || b == 0b101 || b == 0b100 || b == 0b001
}

/// A protection region: `[start, end)` with encoded user permission bits.
#[derive(Clone, Copy, Debug, PartialEq, Eq, Structural)]
pub struct Region {
    start: u32,
    end: u32,
    permissions: u32,
}

impl Region {
    pub closed spec fn spec_start(&self) -> u32 {
        self.start
    }

    pub closed spec fn spec_end(&self) -> u32 {
        self.end
    }

    pub closed spec fn spec_permissions(&self) -> u32 {
        self.permissions
    }

    /// Both boundaries are multiples of the region granularity.
    pub open spec fn aligned(&self) -> bool {
        self.start() % 32 == 0 && self.end() % 32 == 0
    }

    /// Both boundaries are aligned and the permission bits are the code of
    /// some permission.
    pub open spec fn wf(&self) -> bool {
        self.aligned() && is_permission_code(self.permissions())
    }

    /// Two regions with the same boundaries and permission bits are equal.
    pub proof fn lemma_eq(a: Region, b: Region)
        requires
            a.start() == b.start(),
            a.end() == b.end(),
            a.permissions() == b.permissions(),
        ensures
            a == b,
    {
    }

    /// A region over `[start, end)` with the hardware code of `permissions`.
    /// The boundaries are taken as given.
    pub fn new(start: u32, end: u32, permissions: Permissions) -> (r: Region)
        ensures
            r.start() == start,
            r.end() == end,
            r.permissions() == permission_bits(permissions),
    {
        let permissions: u32 = match permissions {
            Permissions::ReadWriteExecute => 0b111,
            Permissions::ReadWriteOnly => 0b110,
            Permissions::ReadExecuteOnly => 0b101,
            Permissions::ReadOnly => 0b100,
            Permissions::ExecuteOnly => 0b001,
        };
        Region { start, end, permissions }
    }

    #[verifier::when_used_as_spec(spec_start)]
    pub fn start(&self) -> (r: u32)
        ensures
            r == self.start(),
    {
        self.start
    }

    #[verifier::when_used_as_spec(spec_end)]
    pub fn end(&self) -> (r: u32)
        ensures
            r == self.end(),
    {
        self.end
    }

    #[verifier::when_used_as_spec(spec_permissions)]
    pub fn permissions(&self) -> (r: u32)
        ensures
            r == self.permissions(),
    {
        self.permissions
    }
}

} // verus!
