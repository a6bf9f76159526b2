//! The port bus: 65 535 independent I/O slots, each optionally owning one
//! device. Unmapped ports drop writes and read as all-ones, the "floating
//! port" sentinel.

use vstd::prelude::*;

use crate::port_bus_device::PortBusDevice;

verus! {

/// How many slots the bus has: ports `0` up to, not including, `0xffff`.
pub const PORT_COUNT: u16 = 0xffff;

/// The all-ones word an unmapped port reads as.
pub const FLOATING_PORT: u64 = 0xffff_ffff_ffff_ffff;

/// The discrete I/O fabric of the machine. Occupied slots are held as
/// port-device pairs with pairwise distinct ports.
pub struct PortBus<P: PortBusDevice> {
    entries: Vec<(u16, P)>,
}

/// Whether `entries` binds the port `p`.
pub open spec fn port_bound<P: PortBusDevice>(entries: Seq<(u16, P)>, p: u16) -> bool {
    exists|j: int| 0 <= j < entries.len() && (#[trigger] entries[j]).0 == p
}

/// The value presented at the port `p` of `entries`.
pub open spec fn port_value<P: PortBusDevice>(entries: Seq<(u16, P)>, p: u16) -> u64 {
    let j = choose|j: int| 0 <= j < entries.len() && (#[trigger] entries[j]).0 == p;
    entries[j].1.val()
}

impl<P: PortBusDevice> View for PortBus<P> {
    type V = Map<u16, u64>;

    /// Every mapped port and the value its device presents.
    closed spec fn view(&self) -> Map<u16, u64> {
        Map::new(|p: u16| port_bound(self.entries@, p), |p: u16| port_value(self.entries@, p))
    }
}

/// With distinct ports, an entry binding `p` settles the bus's value there.
proof fn lemma_port_entry<P: PortBusDevice>(entries: Seq<(u16, P)>, j: int, p: u16)
    requires
        forall|j1: int, j2: int|
            0 <= j1 < j2 < entries.len() ==> (#[trigger] entries[j1]).0 != (
            #[trigger] entries[j2]).0,
        0 <= j < entries.len(),
        entries[j].0 == p,
    ensures
        port_bound(entries, p),
        port_value(entries, p) == entries[j].1.val(),
{
    assert(port_bound(entries, p));
    let j2 = choose|j2: int| 0 <= j2 < entries.len() && (#[trigger] entries[j2]).0 == p;
    if j2 != j {
        assert(false);
    }
}

impl<P: PortBusDevice> PortBus<P> {
    #[verifier::type_invariant]
    spec fn wf(&self) -> bool {
        &&& forall|j1: int, j2: int|
            0 <= j1 < j2 < self.entries@.len() ==> (#[trigger] self.entries@[j1]).0 != (
            #[trigger] self.entries@[j2]).0
        &&& forall|j: int|
            0 <= j < self.entries@.len() ==> (#[trigger] self.entries@[j]).0 < PORT_COUNT
    }

    /// A bus with every slot empty.
    pub fn new() -> (r: PortBus<P>)
        ensures
            r@ == Map::<u16, u64>::empty(),
    {
        let r = PortBus { entries: Vec::new() };
        proof {
            assert(r@ =~= Map::<u16, u64>::empty());
        }
        r
    }

    /// The index of the slot bound to `port`, if any.
    fn find(&self, port: u16) -> (r: Option<usize>)
        ensures
            match r {
                Some(j) => {
                    &&& j < self.entries@.len()
                    &&& self.entries@[j as int].0 == port
                },
                None => !port_bound(self.entries@, port),
            },
    {
        let mut j: usize = 0;
        while j < self.entries.len()
            invariant
                j <= self.entries@.len(),
                forall|i: int| 0 <= i < j ==> (#[trigger] self.entries@[i]).0 != port,
            decreases self.entries@.len() - j,
        {
            if self.entries[j].0 == port {
                return Some(j);
            }
            j = j + 1;
        }
        None
    }

    /// Put `device` behind `port`. Succeeds if and only if the slot exists
    /// and is empty; on failure the bus is left as it was.
    pub fn add_device(&mut self, port: u16, device: P) -> (r: Result<(), ()>)
        ensures
            r is Ok <==> port < PORT_COUNT && !old(self)@.dom().contains(port),
            r is Ok ==> final(self)@ == old(self)@.insert(port, device.val()),
            r is Err ==> final(self)@ == old(self)@,
    {
        proof {
            use_type_invariant(&*self);
        }
        if port >= PORT_COUNT {
            return Err(());
        }
        match self.find(port) {
            Some(_) => Err(()),
            None => {
                let ghost entries0 = self.entries@;
                let mut entries: Vec<(u16, P)> = Vec::new();
                std::mem::swap(&mut entries, &mut self.entries);
                entries.push((port, device));
                self.entries = entries;
                proof {
                    assert forall|p: u16| #[trigger]
                        self@.dom().contains(p) == old(self)@.insert(
                            port,
                            device.val(),
                        ).dom().contains(p) && (self@.dom().contains(p) ==> self@[p] == old(
                            self,
                        )@.insert(port, device.val())[p]) by {
                        if p == port {
                            lemma_port_entry(self.entries@, entries0.len() as int, p);
                        } else {
                            if port_bound(entries0, p) {
                                let j = choose|j: int|
                                    0 <= j < entries0.len() && (#[trigger] entries0[j]).0 == p;
                                lemma_port_entry(entries0, j, p);
                                lemma_port_entry(self.entries@, j, p);
                            } else {
                                if port_bound(self.entries@, p) {
                                    let j = choose|j: int|
                                        0 <= j < self.entries@.len() && (
                                        #[trigger] self.entries@[j]).0 == p;
                                    assert(0 <= j < entries0.len());
                                    assert(false);
                                }
                            }
                        }
                    }
                    assert(self@ =~= old(self)@.insert(port, device.val()));
                }
                Ok(())
            },
        }
    }

    /// Empty the slot at `port`.
    pub fn remove_device(&mut self, port: u16)
        ensures
            final(self)@ == old(self)@.remove(port),
    {
        proof {
            use_type_invariant(&*self);
        }
        let found = self.find(port);
        match found {
            Some(j) => {
                let ghost entries0 = self.entries@;
                let mut entries: Vec<(u16, P)> = Vec::new();
                std::mem::swap(&mut entries, &mut self.entries);
                entries.remove(j);
                self.entries = entries;
                proof {
                    lemma_view_after_remove(entries0, self.entries@, j as int, port);
                    assert(self@ =~= old(self)@.remove(port));
                }
            },
            None => {
                proof {
                    assert(self@ =~= old(self)@.remove(port));
                }
            },
        }
    }

    /// Deliver `value` to the device at `port`; a no-op if the port is
    /// unmapped.
    pub fn write(&mut self, port: u16, value: u64)
        ensures
            old(self)@.dom().contains(port) ==> final(self)@ == old(self)@.insert(port, value),
            !old(self)@.dom().contains(port) ==> final(self)@ == old(self)@,
    {
        proof {
            use_type_invariant(&*self);
        }
        let found = self.find(port);
        match found {
            Some(j) => {
                let ghost entries0 = self.entries@;
                let mut entries: Vec<(u16, P)> = Vec::new();
                std::mem::swap(&mut entries, &mut self.entries);
                let slot = &mut entries[j];
                slot.1.write(value);
                proof {
                    assert(entries@ =~= entries0.update(j as int, (port, entries@[j as int].1)));
                }
                self.entries = entries;
                proof {
                    lemma_port_entry(entries0, j as int, port);
                    assert forall|p: u16|
                        p != port && #[trigger] port_bound(entries0, p) implies port_value(
                        self.entries@,
                        p,
                    ) == port_value(entries0, p) && port_bound(self.entries@, p) by {
                        let i = choose|i: int|
                            0 <= i < entries0.len() && (#[trigger] entries0[i]).0 == p;
                        lemma_port_entry(entries0, i, p);
                        lemma_port_entry(self.entries@, i, p);
                    }
                    lemma_port_entry(self.entries@, j as int, port);
                    assert(self@ =~= old(self)@.insert(port, value));
                }
            },
            None => {},
        }
    }

    /// The value of the device at `port`, or all-ones if the port is
    /// unmapped.
    pub fn read(&mut self, port: u16) -> (r: u64)
        ensures
            final(self)@ == old(self)@,
            old(self)@.dom().contains(port) ==> r == old(self)@[port],
            !old(self)@.dom().contains(port) ==> r == FLOATING_PORT,
    {
        proof {
            use_type_invariant(&*self);
        }
        let found = self.find(port);
        match found {
            Some(j) => {
                let ghost entries0 = self.entries@;
                let mut entries: Vec<(u16, P)> = Vec::new();
                std::mem::swap(&mut entries, &mut self.entries);
                let slot = &mut entries[j];
                let r = slot.1.read();
                proof {
                    assert(entries@ =~= entries0.update(j as int, (port, entries@[j as int].1)));
                }
                self.entries = entries;
                proof {
                    lemma_port_entry(entries0, j as int, port);
                    assert forall|p: u16| #[trigger]
                        port_bound(entries0, p) implies port_value(self.entries@, p) == port_value(
                        entries0,
                        p,
                    ) && port_bound(self.entries@, p) by {
                        let i = choose|i: int|
                            0 <= i < entries0.len() && (#[trigger] entries0[i]).0 == p;
                        lemma_port_entry(entries0, i, p);
                        lemma_port_entry(self.entries@, i, p);
                    }
                    assert forall|p: u16| #[trigger]
                        port_bound(self.entries@, p) implies port_bound(entries0, p) by {
                        let i = choose|i: int|
                            0 <= i < self.entries@.len() && (#[trigger] self.entries@[i]).0 == p;
                        assert(entries0[i].0 == p);
                    }
                    assert(self@ =~= old(self)@);
                }
                r
            },
            None => FLOATING_PORT,
        }
    }
}

/// Removing one slot takes exactly its port out of the view.
proof fn lemma_view_after_remove<P: PortBusDevice>(
    entries0: Seq<(u16, P)>,
    entries: Seq<(u16, P)>,
    j: int,
    port: u16,
)
    requires
        forall|j1: int, j2: int|
            0 <= j1 < j2 < entries0.len() ==> (#[trigger] entries0[j1]).0 != (
            #[trigger] entries0[j2]).0,
        0 <= j < entries0.len(),
        entries0[j].0 == port,
        entries == entries0.remove(j),
    ensures
        forall|j1: int, j2: int|
            0 <= j1 < j2 < entries.len() ==> (#[trigger] entries[j1]).0 != (
            #[trigger] entries[j2]).0,
        forall|p: u16| #[trigger] port_bound(entries, p) <==> port_bound(entries0, p) && p != port,
        forall|p: u16|
            #[trigger] port_bound(entries, p) ==> port_value(entries, p) == port_value(entries0, p),
{
    assert forall|p: u16| #[trigger]
        port_bound(entries, p) implies port_bound(entries0, p) && p != port by {
        let i = choose|i: int| 0 <= i < entries.len() && (#[trigger] entries[i]).0 == p;
        let i0 = if i < j {
            i
        } else {
            i + 1
        };
        assert(entries0[i0].0 == p);
        if p == port {
            assert(entries0[i0].0 == entries0[j].0 && i0 != j);
            assert(false);
        }
    }
    assert forall|p: u16|
        port_bound(entries0, p) && p != port implies #[trigger] port_bound(entries, p) by {
        let i0 = choose|i0: int| 0 <= i0 < entries0.len() && (#[trigger] entries0[i0]).0 == p;
        let i = if i0 < j {
            i0
        } else {
            i0 - 1
        };
        assert(i0 != j);
        assert(entries[i].0 == p);
    }
    assert forall|p: u16| #[trigger] port_bound(entries, p) implies port_value(entries, p)
        == port_value(entries0, p) by {
        let i = choose|i: int| 0 <= i < entries.len() && (#[trigger] entries[i]).0 == p;
        let i0 = if i < j {
            i
        } else {
            i + 1
        };
        assert(entries0[i0].0 == p);
        lemma_port_entry(entries0, i0, p);
        lemma_port_entry(entries, i, p);
    }
}

} // verus!
