//! The capability an address-mapped device offers to its bus.

use vstd::prelude::*;

verus! {

/// A device bound to a range of the address space.
///
/// A device is modelled as an array of bytes, its `contents`. The bus
/// clips every transfer to the device's range, so `offset` plus the
/// transfer length never exceeds the contents. `address` is the absolute
/// address of the whole transfer, handed through for devices that care.
pub trait AddressBusDevice: Sized {
    /// The bytes the device currently holds, indexed from the start of
    /// its mapped range. An implementation the verifier never sees
    /// inherits the empty model.
    open spec fn contents(&self) -> Seq<u8> {
        Seq::empty()
    }

    /// Store `src` into the device at `offset`.
    fn write(&mut self, src: &[u8], address: u64, offset: u64)
        requires
            offset + src@.len() <= old(self).contents().len(),
        ensures
            final(self).contents().len() == old(self).contents().len(),
            forall|i: int|
                0 <= i < final(self).contents().len() ==> final(self).contents()[i] == (
                if offset <= i < offset + src@.len() {
                    src@[i - offset]
                } else {
                    old(self).contents()[i]
                }),
    ;

    /// Fill all of `dst` from the device, starting at `offset`.
    fn read(&mut self, dst: &mut Vec<u8>, address: u64, offset: u64)
        requires
            offset + old(dst)@.len() <= old(self).contents().len(),
        ensures
            final(self).contents() == old(self).contents(),
            final(dst)@.len() == old(dst)@.len(),
            forall|i: int|
                0 <= i < final(dst)@.len() ==> final(dst)@[i] == old(self).contents()[offset + i],
    ;
}

} // verus!
