//! Plain random-access memory: the byte-array device.

use vstd::prelude::*;

use crate::address_bus_device::AddressBusDevice;

verus! {

/// A contiguous, zero-initialized byte vector backing one address range.
pub struct Memory {
    memory: Vec<u8>,
}

impl Memory {
    /// A fresh memory of `length` zero bytes.
    pub fn new(length: u64) -> (m: Memory)
        requires
            length <= usize::MAX,
        ensures
            m.contents() == Seq::new(length as nat, |i: int| 0u8),
    {
        let n: usize = length as usize;
        let mut memory: Vec<u8> = Vec::new();
        let mut i: usize = 0;
        while i < n
            invariant
                i <= n,
                memory@ == Seq::new(i as nat, |j: int| 0u8),
            decreases n - i,
        {
            memory.push(0);
            proof {
                assert(memory@ =~= Seq::new((i + 1) as nat, |j: int| 0u8));
            }
            i = i + 1;
        }
        Memory { memory }
    }
}

impl AddressBusDevice for Memory {
    closed spec fn contents(&self) -> Seq<u8> {
        self.memory@
    }

    fn write(&mut self, src: &[u8], address: u64, offset: u64) {
        let n: usize = src.len();
        let cap: usize = self.memory.len();
        let start: usize = offset as usize;
        let mut i: usize = 0;
        while i < n
            invariant
                i <= n,
                n == src@.len(),
                cap == self.memory@.len(),
                start == offset,
                start + n <= cap,
                self.memory@.len() == old(self).memory@.len(),
                forall|j: int|
                    0 <= j < self.memory@.len() ==> self.memory@[j] == (
                    if start <= j < start + i {
                        src@[j - start]
                    } else {
                        old(self).memory@[j]
                    }),
            decreases n - i,
        {
            let b = src[i];
            self.memory[start + i] = b;
            i = i + 1;
        }
    }

    fn read(&mut self, dst: &mut Vec<u8>, address: u64, offset: u64) {
        let n: usize = dst.len();
        let cap: usize = self.memory.len();
        let start: usize = offset as usize;
        let mut i: usize = 0;
        while i < n
            invariant
                i <= n,
                n == dst@.len(),
                cap == self.memory@.len(),
                start == offset,
                start + n <= cap,
                self == old(self),
                forall|j: int| 0 <= j < i ==> dst@[j] == self.memory@[start + j],
            decreases n - i,
        {
            let b = self.memory[start + i];
            dst[i] = b;
            i = i + 1;
        }
    }
}

} // verus!
