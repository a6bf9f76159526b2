//! The capability a port-mapped device offers to its bus.

use vstd::prelude::*;

verus! {

/// A device behind one I/O port, modelled by the value it presents:
/// a write latches a new value, a read yields the present one.
pub trait PortBusDevice: Sized {
    /// The value the device currently presents. An implementation the
    /// verifier never sees inherits the zero model.
    open spec fn val(&self) -> u64 {
        0
    }

    /// Deliver `value` to the device.
    fn write(&mut self, value: u64)
        ensures
            final(self).val() == value,
    ;

    /// Ask the device for its value.
    fn read(&mut self) -> (r: u64)
        ensures
            r == old(self).val(),
            final(self).val() == old(self).val(),
    ;
}

/// The plainest port device: a 64-bit latch.
pub struct Latch {
    value: u64,
}

impl Latch {
    /// A latch presenting `value`.
    pub fn new(value: u64) -> (r: Latch)
        ensures
            r.val() == value,
    {
        Latch { value }
    }
}

impl PortBusDevice for Latch {
    closed spec fn val(&self) -> u64 {
        self.value
    }

    fn write(&mut self, value: u64) {
        self.value = value;
    }

    fn read(&mut self) -> u64 {
        self.value
    }
}

} // verus!
