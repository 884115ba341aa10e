//! The console writer's own state: its transmitter is enabled once, before
//! the first write.

use vstd::prelude::*;

verus! {

/// The console writer.
pub struct Writer {
    initialized: bool,
}

impl Writer {
    pub closed spec fn spec_initialized(&self) -> bool {
        self.initialized
    }

    /// A writer whose transmitter has not been enabled yet.
    pub fn new() -> (r: Writer)
        ensures
            !r.spec_initialized(),
    {
        Writer { initialized: false }
    }

    /// Whether the transmitter has been enabled.
    pub fn is_initialized(&self) -> (r: bool)
        ensures
            r == self.spec_initialized(),
    {
        self.initialized
    }

    /// Starts a write. Returns whether the transmitter must be enabled
    /// first, which is the case for the first write only.
    pub fn begin_write(&mut self) -> (enable_tx: bool)
        ensures
            enable_tx == !old(self).spec_initialized(),
            final(self).spec_initialized(),
    {
        if !self.initialized {
            self.initialized = true;
            true
        } else {
            false
        }
    }
}

} // verus!
