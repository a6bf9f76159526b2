//! The address bus: disjoint half-open intervals of the 64-bit address
//! space, each owning one device. Reads and writes are clipped per device;
//! unmapped addresses drop writes and leave read buffers untouched.

use vstd::prelude::*;

use crate::address_bus_device::AddressBusDevice;
use crate::interval_map::{
    interval_entries, interval_intersects, no_entries, some_entry_intersects, IntervalStore,
};

verus! {

/// Whether the intervals of `es` are pairwise disjoint.
pub open spec fn entries_disjoint(es: Map<(u64, u64), usize>) -> bool {
    forall|k1: (u64, u64), k2: (u64, u64)|
        #[trigger] es.dom().contains(k1) && #[trigger] es.dom().contains(k2) && k1 != k2
            ==> k1.1 <= k2.0 || k2.1 <= k1.0
}

/// Whether some interval of `es` holds the address `a`.
pub open spec fn addr_mapped(es: Map<(u64, u64), usize>, a: u64) -> bool {
    exists|k: (u64, u64)| #[trigger] es.dom().contains(k) && k.0 <= a && a < k.1
}

/// The byte visible at address `a`, given the devices the entries point into.
pub open spec fn addr_byte<D: AddressBusDevice>(
    es: Map<(u64, u64), usize>,
    devs: Seq<D>,
    a: u64,
) -> u8 {
    let k = choose|k: (u64, u64)| #[trigger] es.dom().contains(k) && k.0 <= a && a < k.1;
    devs[es[k] as int].contents()[a - k.0]
}

/// Every mapped address and the byte its device holds for it.
pub open spec fn bus_bytes<D: AddressBusDevice>(
    es: Map<(u64, u64), usize>,
    devs: Seq<D>,
) -> Map<u64, u8> {
    Map::new(|a: u64| addr_mapped(es, a), |a: u64| addr_byte(es, devs, a))
}

/// The bytes seen after writing `data` at `address`: every mapped address
/// inside the transfer takes its byte of `data`, every other mapped
/// address keeps its byte. Addresses past the top of the address space
/// hold nothing, so a transfer that would run past it is cut there.
pub open spec fn write_bytes(m: Map<u64, u8>, address: u64, data: Seq<u8>) -> Map<u64, u8> {
    Map::new(
        |a: u64| m.dom().contains(a),
        |a: u64|
            if address <= a && a - address < data.len() {
                data[a - address]
            } else {
                m[a]
            },
    )
}

/// The interval-mapped routing fabric of the machine's memory space.
pub struct AddressBus<D: AddressBusDevice> {
    intervals: IntervalStore,
    devices: Vec<D>,
}

impl<D: AddressBusDevice> View for AddressBus<D> {
    type V = Map<u64, u8>;

    /// The bus as sparse memory: every mapped address and its byte.
    closed spec fn view(&self) -> Map<u64, u8> {
        bus_bytes(interval_entries(self.intervals), self.devices@)
    }
}

impl<D: AddressBusDevice> AddressBus<D> {
    /// The intervals the bus routes, each with the index of its device.
    pub closed spec fn entries(&self) -> Map<(u64, u64), usize> {
        interval_entries(self.intervals)
    }

    #[verifier::type_invariant]
    spec fn wf(&self) -> bool {
        let es = interval_entries(self.intervals);
        &&& forall|k: (u64, u64)| #[trigger] es.dom().contains(k) ==> k.0 < k.1
        &&& forall|k: (u64, u64)| #[trigger] es.dom().contains(k) ==> es[k] < self.devices@.len()
        &&& forall|k: (u64, u64)| #[trigger]
            es.dom().contains(k) ==> self.devices@[es[k] as int].contents().len() == k.1 - k.0
        &&& entries_disjoint(es)
        &&& forall|k1: (u64, u64), k2: (u64, u64)|
            #[trigger] es.dom().contains(k1) && #[trigger] es.dom().contains(k2) && k1 != k2
                ==> es[k1] != es[k2]
    }

    /// A bus with nothing mapped.
    pub fn new() -> (r: AddressBus<D>)
        ensures
            r.entries() == no_entries(),
            r@ == Map::<u64, u8>::empty(),
    {
        let r = AddressBus { intervals: IntervalStore::new(), devices: Vec::new() };
        proof {
            assert(r@ =~= Map::<u64, u8>::empty());
        }
        r
    }

    /// Bind `[address, address + length)` to `device`. Succeeds if and only
    /// if the interval is disjoint from every existing one; on failure the
    /// bus is left as it was.
    pub fn add_entry(&mut self, address: u64, length: u64, device: D) -> (r: Result<(), ()>)
        requires
            0 < length,
            address + length <= u64::MAX,
            device.contents().len() == length,
        ensures
            r is Ok <==> !some_entry_intersects_spec(
                old(self).entries(),
                address,
                (address + length) as u64,
            ),
            r is Ok ==> final(self).entries() == old(self).entries().insert(
                (address, (address + length) as u64),
                final(self).entries()[(address, (address + length) as u64)],
            ),
            r is Ok ==> final(self)@.dom() =~= old(self)@.dom().union(
                Set::new(|a: u64| address <= a < address + length),
            ),
            r is Ok ==> forall|a: u64|
                old(self)@.dom().contains(a) && !(address <= a < address + length)
                    ==> final(self)@[a] == old(self)@[a],
            r is Ok ==> forall|i: int|
                0 <= i < length ==> final(self)@[(address + i) as u64] == device.contents()[i],
            r is Err ==> *final(self) == *old(self),
            entries_disjoint(final(self).entries()),
    {
        proof {
            use_type_invariant(&*self);
        }
        let end: u64 = address + length;
        if self.intervals.has_overlap(address, end) {
            proof {
                use_type_invariant(&*self);
            }
            Err(())
        } else {
            let mut ivs = IntervalStore::new();
            std::mem::swap(&mut ivs, &mut self.intervals);
            let mut devs: Vec<D> = Vec::new();
            std::mem::swap(&mut devs, &mut self.devices);
            let idx = devs.len();
            devs.push(device);
            ivs.insert(address, end, idx);
            self.devices = devs;
            let ghost old_es = old(self).entries();
            let ghost old_devs = old(self).devices@;
            proof {
                assert forall|k: (u64, u64)|
                    #[trigger] interval_entries(ivs).dom().contains(k) implies k.0 < k.1
                    && interval_entries(ivs)[k] < self.devices@.len() && self.devices@[
                    interval_entries(ivs)[k] as int].contents().len() == k.1 - k.0 by {
                    if k != (address, end) {
                        assert(old_es.dom().contains(k));
                        assert(old_devs[old_es[k] as int] == self.devices@[old_es[k] as int]);
                    }
                }
                assert(entries_disjoint(interval_entries(ivs))) by {
                    assert forall|k1: (u64, u64), k2: (u64, u64)|
                        #[trigger] interval_entries(ivs).dom().contains(k1)
                            && #[trigger] interval_entries(ivs).dom().contains(k2) && k1
                            != k2 implies k1.1 <= k2.0 || k2.1 <= k1.0 by {
                        if k1 != (address, end) && k2 != (address, end) {
                            assert(old_es.dom().contains(k1) && old_es.dom().contains(k2));
                        } else if k1 == (address, end) {
                            assert(old_es.dom().contains(k2));
                            assert(!interval_intersects(k2, address, end));
                        } else {
                            assert(old_es.dom().contains(k1));
                            assert(!interval_intersects(k1, address, end));
                        }
                    }
                }
            }
            self.intervals = ivs;
            proof {
                lemma_view_after_add(old_es, old_devs, self.entries(), self.devices@, address, end);
                assert(self.entries()[(address, end)] == idx);
                assert(self.devices@[idx as int] == device);
                assert forall|i: int| 0 <= i < length implies self@[(address + i) as u64]
                    == device.contents()[i] by {
                    assert(self@[(address + i) as u64] == self.devices@[self.entries()[(
                        address,
                        end,
                    )] as int].contents()[i]);
                }
            }
            Ok(())
        }
    }
}

/// Whether one of the first `upto` overlap entries points at device `j`.
spec fn device_touched(ov: Seq<(u64, u64, usize)>, upto: int, j: int) -> bool {
    exists|p: int| 0 <= p < upto && #[trigger] ov[p].2 == j
}

/// A device's bytes after the part of a bus-wide write that falls on its
/// interval: position `q` sits at absolute address `s + q`, and takes its
/// byte of `data` when that address lies in the transfer.
spec fn device_after_write(dev0: Seq<u8>, s: u64, address: u64, data: Seq<u8>) -> Seq<u8> {
    Seq::new(
        dev0.len(),
        |q: int|
            if address <= s + q && s + q - address < data.len() {
                data[s + q - address]
            } else {
                dev0[q]
            },
    )
}

impl<D: AddressBusDevice> AddressBus<D> {
    /// Deliver `src` to every device whose interval meets
    /// `[address, address + src.len())`, each receiving its clipped part;
    /// bytes aimed at unmapped addresses are dropped.
    pub fn write(&mut self, src: &[u8], address: u64)
        ensures
            final(self).entries() == old(self).entries(),
            entries_disjoint(final(self).entries()),
            final(self)@ == write_bytes(old(self)@, address, src@),
    {
        proof {
            use_type_invariant(&*self);
        }
        let n: usize = src.len();
        if n == 0 || address == u64::MAX {
            proof {
                assert(self@ =~= write_bytes(self@, address, src@));
            }
            return ;
        }
        let len64: u64 = n as u64;
        let end: u64 = if len64 <= u64::MAX - address {
            address + len64
        } else {
            u64::MAX
        };
        let overlaps = self.intervals.overlapping(address, end);
        let ghost es = interval_entries(self.intervals);
        let mut ivs = IntervalStore::new();
        std::mem::swap(&mut ivs, &mut self.intervals);
        let mut devs: Vec<D> = Vec::new();
        std::mem::swap(&mut devs, &mut self.devices);
        let ghost devs0 = devs@;
        let mut p: usize = 0;
        while p < overlaps.len()
            invariant
                es == interval_entries(ivs),
                n == src@.len(),
                0 < n,
                address < end,
                end <= address + n,
                n <= end - address || end == u64::MAX,
                p <= overlaps@.len(),
                devs@.len() == devs0.len(),
                forall|j: int|
                    0 <= j < devs@.len() ==> (#[trigger] devs@[j]).contents().len()
                        == devs0[j].contents().len(),
                forall|j: int|
                    0 <= j < devs@.len() && !device_touched(overlaps@, p as int, j)
                        ==> (#[trigger] devs@[j]).contents() == devs0[j].contents(),
                forall|q: int|
                    0 <= q < p ==> (#[trigger] devs@[overlaps@[q].2 as int]).contents()
                        == device_after_write(
                        devs0[overlaps@[q].2 as int].contents(),
                        overlaps@[q].0,
                        address,
                        src@,
                    ),
                forall|j: int|
                    0 <= j < overlaps@.len() ==> {
                        &&& es.dom().contains(((#[trigger] overlaps@[j]).0, overlaps@[j].1))
                        &&& es[(overlaps@[j].0, overlaps@[j].1)] == overlaps@[j].2
                        &&& interval_intersects((overlaps@[j].0, overlaps@[j].1), address, end)
                    },
                forall|j1: int, j2: int|
                    0 <= j1 < j2 < overlaps@.len() ==> ((#[trigger] overlaps@[j1]).0,
                    overlaps@[j1].1) != ((#[trigger] overlaps@[j2]).0, overlaps@[j2].1),
                forall|k: (u64, u64)| #[trigger] es.dom().contains(k) ==> k.0 < k.1,
                forall|k: (u64, u64)| #[trigger] es.dom().contains(k) ==> es[k] < devs0.len(),
                forall|k: (u64, u64)| #[trigger]
                    es.dom().contains(k) ==> devs0[es[k] as int].contents().len() == k.1 - k.0,
                entries_disjoint(es),
                forall|k1: (u64, u64), k2: (u64, u64)|
                    #[trigger] es.dom().contains(k1) && #[trigger] es.dom().contains(k2) && k1 != k2
                        ==> es[k1] != es[k2],
            decreases overlaps@.len() - p,
        {
            let (s, e, di) = overlaps[p];
            proof {
                assert(es.dom().contains((s, e)) && es[(s, e)] == di);
                assert(!device_touched(overlaps@, p as int, di as int)) by {
                    if device_touched(overlaps@, p as int, di as int) {
                        let q = choose|q: int|
                            0 <= q < p && #[trigger] overlaps@[q].2 == di as int;
                        assert(es.dom().contains((overlaps@[q].0, overlaps@[q].1)));
                        assert((overlaps@[q].0, overlaps@[q].1) != (s, e));
                    }
                }
            }
            let clip_start: u64 = if s > address {
                s
            } else {
                address
            };
            let clip_end: u64 = if e < end {
                e
            } else {
                end
            };
            let off: u64 = clip_start - s;
            let src_lo: usize = (clip_start - address) as usize;
            let src_hi: usize = (clip_end - address) as usize;
            let chunk = vstd::slice::slice_subrange(src, src_lo, src_hi);
            let dev = &mut devs[di];
            dev.write(chunk, address, off);
            proof {
                assert(devs@[di as int].contents() =~= device_after_write(
                    devs0[di as int].contents(),
                    s,
                    address,
                    src@,
                ));
                assert forall|q: int| 0 <= q <= p implies (#[trigger] devs@[overlaps@[q].2 as int]).contents()
                    == device_after_write(
                    devs0[overlaps@[q].2 as int].contents(),
                    overlaps@[q].0,
                    address,
                    src@,
                ) by {
                    if q < p {
                        assert(overlaps@[q].2 != di as int);
                    }
                }
            }
            p = p + 1;
        }
        self.devices = devs;
        self.intervals = ivs;
        proof {
            assert forall|a: u64| #[trigger] self@.dom().contains(a) implies self@[a]
                == write_bytes(bus_bytes(es, devs0), address, src@)[a] by {
                let k = choose|k: (u64, u64)| #[trigger] es.dom().contains(k) && k.0 <= a && a < k.1;
                lemma_byte_at_entry(es, self.devices@, k, a);
                lemma_byte_at_entry(es, devs0, k, a);
                if interval_intersects(k, address, end) {
                    let q = choose|q: int|
                        0 <= q < overlaps@.len() && overlaps@[q] == (k.0, k.1, es[k]);
                    assert(self.devices@[es[k] as int].contents() == device_after_write(
                        devs0[es[k] as int].contents(),
                        k.0,
                        address,
                        src@,
                    ));
                } else {
                    assert(!device_touched(overlaps@, overlaps@.len() as int, es[k] as int)) by {
                        if device_touched(overlaps@, overlaps@.len() as int, es[k] as int) {
                            let q = choose|q: int|
                                0 <= q < overlaps@.len() && #[trigger] overlaps@[q].2 == es[
                                k] as int;
                            assert(es.dom().contains((overlaps@[q].0, overlaps@[q].1)));
                            assert((overlaps@[q].0, overlaps@[q].1) == k);
                        }
                    }
                    assert(!(address <= a && a - address < src@.len()));
                }
            }
            assert(self@ =~= write_bytes(bus_bytes(es, devs0), address, src@));
        }
    }
}

/// Whether the byte index `i` of a transfer at `address` falls in one of
/// the first `upto` overlap entries.
spec fn pos_covered(ov: Seq<(u64, u64, usize)>, upto: int, address: u64, i: int) -> bool {
    exists|p: int| 0 <= p < upto && (#[trigger] ov[p]).0 <= address + i < ov[p].1
}

impl<D: AddressBusDevice> AddressBus<D> {
    /// Ask every device whose interval meets `[address, address + dst.len())`
    /// to fill its clipped part of `dst`; bytes at unmapped addresses are
    /// left exactly as `dst` held them.
    pub fn read(&mut self, dst: &mut Vec<u8>, address: u64)
        ensures
            final(self).entries() == old(self).entries(),
            entries_disjoint(final(self).entries()),
            final(self)@ == old(self)@,
            final(dst)@.len() == old(dst)@.len(),
            forall|i: int|
                0 <= i < old(dst)@.len() ==> final(dst)@[i] == (
                if address + i <= u64::MAX && old(self)@.dom().contains((address + i) as u64) {
                    old(self)@[(address + i) as u64]
                } else {
                    old(dst)@[i]
                }),
    {
        proof {
            use_type_invariant(&*self);
        }
        let n: usize = dst.len();
        if n == 0 || address == u64::MAX {
            proof {
                if addr_mapped(interval_entries(self.intervals), u64::MAX) {
                    let k = choose|k: (u64, u64)|
                        #[trigger] interval_entries(self.intervals).dom().contains(k) && k.0
                            <= u64::MAX && u64::MAX < k.1;
                    assert(false);
                }
            }
            return ;
        }
        let len64: u64 = n as u64;
        let end: u64 = if len64 <= u64::MAX - address {
            address + len64
        } else {
            u64::MAX
        };
        let overlaps = self.intervals.overlapping(address, end);
        let ghost es = interval_entries(self.intervals);
        let mut ivs = IntervalStore::new();
        std::mem::swap(&mut ivs, &mut self.intervals);
        let mut devs: Vec<D> = Vec::new();
        std::mem::swap(&mut devs, &mut self.devices);
        let ghost devs0 = devs@;
        let ghost dst0 = old(dst)@;
        let mut p: usize = 0;
        while p < overlaps.len()
            invariant
                es == interval_entries(ivs),
                n == dst@.len(),
                dst0.len() == n,
                0 < n,
                address < end,
                end <= address + n,
                n <= end - address || end == u64::MAX,
                p <= overlaps@.len(),
                devs@.len() == devs0.len(),
                forall|j: int|
                    0 <= j < devs@.len() ==> (#[trigger] devs@[j]).contents()
                        == devs0[j].contents(),
                forall|i: int|
                    0 <= i < n ==> dst@[i] == (
                    if pos_covered(overlaps@, p as int, address, i) {
                        addr_byte(es, devs0, (address + i) as u64)
                    } else {
                        dst0[i]
                    }),
                forall|j: int|
                    0 <= j < overlaps@.len() ==> {
                        &&& es.dom().contains(((#[trigger] overlaps@[j]).0, overlaps@[j].1))
                        &&& es[(overlaps@[j].0, overlaps@[j].1)] == overlaps@[j].2
                        &&& interval_intersects((overlaps@[j].0, overlaps@[j].1), address, end)
                    },
                forall|k: (u64, u64)| #[trigger] es.dom().contains(k) ==> k.0 < k.1,
                forall|k: (u64, u64)| #[trigger] es.dom().contains(k) ==> es[k] < devs0.len(),
                forall|k: (u64, u64)| #[trigger]
                    es.dom().contains(k) ==> devs0[es[k] as int].contents().len() == k.1 - k.0,
                entries_disjoint(es),
            decreases overlaps@.len() - p,
        {
            let (s, e, di) = overlaps[p];
            proof {
                assert(es.dom().contains((s, e)) && es[(s, e)] == di);
            }
            let clip_start: u64 = if s > address {
                s
            } else {
                address
            };
            let clip_end: u64 = if e < end {
                e
            } else {
                end
            };
            let off: u64 = clip_start - s;
            let dst_lo: usize = (clip_start - address) as usize;
            let dst_hi: usize = (clip_end - address) as usize;
            let m: usize = dst_hi - dst_lo;
            let mut chunk: Vec<u8> = Vec::new();
            while chunk.len() < m
                invariant
                    chunk@.len() <= m,
                decreases m - chunk@.len(),
            {
                chunk.push(0);
            }
            let dev = &mut devs[di];
            dev.read(&mut chunk, address, off);
            let ghost dst_prev = dst@;
            let mut t: usize = 0;
            while t < m
                invariant
                    t <= m,
                    dst_lo + m <= n,
                    n == dst@.len(),
                    dst_prev.len() == n,
                    chunk@.len() == m,
                    forall|i: int|
                        0 <= i < n && !(dst_lo <= i < dst_lo + t) ==> dst@[i] == dst_prev[i],
                    forall|i: int|
                        dst_lo <= i < dst_lo + t ==> dst@[i] == chunk@[i - dst_lo],
                decreases m - t,
            {
                let b = chunk[t];
                dst[dst_lo + t] = b;
                t = t + 1;
            }
            proof {
                assert forall|i: int| 0 <= i < n implies dst@[i] == (
                    if pos_covered(overlaps@, p as int + 1, address, i) {
                        addr_byte(es, devs0, (address + i) as u64)
                    } else {
                        dst0[i]
                    }) by {
                    if dst_lo <= i < dst_lo + m {
                        assert(dst@[i] == chunk@[i - dst_lo]);
                        assert(chunk@[i - dst_lo] == devs0[di as int].contents()[off + (i
                            - dst_lo)]);
                        lemma_byte_at_entry(es, devs0, (s, e), (address + i) as u64);
                        assert((overlaps@[p as int]).0 <= address + i < overlaps@[p as int].1);
                        assert(pos_covered(overlaps@, p as int + 1, address, i));
                    } else {
                        assert(dst@[i] == dst_prev[i]);
                        if pos_covered(overlaps@, p as int + 1, address, i) {
                            let q = choose|q: int|
                                0 <= q < p as int + 1 && (#[trigger] overlaps@[q]).0 <= address + i
                                    < overlaps@[q].1;
                            if q == p as int {
                                assert(false);
                            }
                            assert(pos_covered(overlaps@, p as int, address, i));
                        } else {
                            assert(!pos_covered(overlaps@, p as int, address, i));
                        }
                    }
                }
            }
            p = p + 1;
        }
        self.devices = devs;
        self.intervals = ivs;
        proof {
            assert(self@ =~= bus_bytes(es, devs0));
            assert forall|i: int| 0 <= i < dst0.len() implies dst@[i] == (
                if address + i <= u64::MAX && bus_bytes(es, devs0).dom().contains(
                    (address + i) as u64,
                ) {
                    bus_bytes(es, devs0)[(address + i) as u64]
                } else {
                    dst0[i]
                }) by {
                if address + i <= u64::MAX && addr_mapped(es, (address + i) as u64) {
                    let a = (address + i) as u64;
                    let k = choose|k: (u64, u64)|
                        #[trigger] es.dom().contains(k) && k.0 <= a && a < k.1;
                    assert(interval_intersects(k, address, end));
                    let q = choose|q: int|
                        0 <= q < overlaps@.len() && overlaps@[q] == (k.0, k.1, es[k]);
                    assert((overlaps@[q]).0 <= address + i < overlaps@[q].1);
                    assert(pos_covered(overlaps@, overlaps@.len() as int, address, i));
                } else {
                    if pos_covered(overlaps@, overlaps@.len() as int, address, i) {
                        let q = choose|q: int|
                            0 <= q < overlaps@.len() && (#[trigger] overlaps@[q]).0 <= address + i
                                < overlaps@[q].1;
                        assert(es.dom().contains((overlaps@[q].0, overlaps@[q].1)));
                        assert(addr_mapped(es, (address + i) as u64));
                        assert(false);
                    }
                }
            }
        }
    }
}

/// Whether some entry of `es` intersects the half-open query `[lo, hi)`.
pub open spec fn some_entry_intersects_spec(
    es: Map<(u64, u64), usize>,
    lo: u64,
    hi: u64,
) -> bool {
    exists|k: (u64, u64)| #[trigger] es.dom().contains(k) && interval_intersects(k, lo, hi)
}

/// Law: writing a buffer over fully mapped addresses and reading the same
/// range back yields the buffer, byte for byte.
pub proof fn lemma_write_read_round_trip(m: Map<u64, u8>, address: u64, data: Seq<u8>)
    requires
        forall|i: int| #![trigger data[i]]
            0 <= i < data.len() ==> address + i <= u64::MAX && m.dom().contains(
                (address + i) as u64,
            ),
    ensures
        forall|i: int|
            0 <= i < data.len() ==> write_bytes(m, address, data)[(address + i) as u64] == data[i],
{
}

/// Law: a write that spans the boundary between two adjacent mapped
/// regions is split there. The bytes from the boundary on take the tail
/// of the buffer, starting at the boundary's own offset 0; the bytes
/// before it take the head.
pub proof fn lemma_split_write_at_boundary(
    m: Map<u64, u8>,
    address: u64,
    data: Seq<u8>,
    boundary: u64,
)
    requires
        address <= boundary,
        boundary - address <= data.len(),
    ensures
        forall|j: int| #![trigger data[boundary - address + j]]
            0 <= j < data.len() - (boundary - address) && boundary + j <= u64::MAX
                && m.dom().contains((boundary + j) as u64) ==> write_bytes(m, address, data)[(
            boundary + j) as u64] == data[boundary - address + j],
        forall|i: int|
            0 <= i < boundary - address && m.dom().contains((address + i) as u64) ==> write_bytes(
                m,
                address,
                data,
            )[(address + i) as u64] == data[i],
{
}

/// With disjoint entries, an entry holding `a` settles what the bus shows
/// at `a`.
proof fn lemma_byte_at_entry<D: AddressBusDevice>(
    es: Map<(u64, u64), usize>,
    devs: Seq<D>,
    k: (u64, u64),
    a: u64,
)
    requires
        entries_disjoint(es),
        es.dom().contains(k),
        k.0 <= a < k.1,
    ensures
        addr_mapped(es, a),
        addr_byte(es, devs, a) == devs[es[k] as int].contents()[a - k.0],
{
    assert(addr_mapped(es, a));
    let k2 = choose|k2: (u64, u64)| #[trigger] es.dom().contains(k2) && k2.0 <= a && a < k2.1;
    if k2 != k {
        assert(k.1 <= k2.0 || k2.1 <= k.0);
        assert(false);
    }
}

/// After a fresh entry is added, the view grows by exactly that entry's
/// range, showing the new device's bytes there and the old bytes elsewhere.
proof fn lemma_view_after_add<D: AddressBusDevice>(
    old_es: Map<(u64, u64), usize>,
    old_devs: Seq<D>,
    es: Map<(u64, u64), usize>,
    devs: Seq<D>,
    address: u64,
    end: u64,
)
    requires
        address < end,
        entries_disjoint(es),
        entries_disjoint(old_es),
        es.dom() =~= old_es.dom().insert((address, end)),
        !old_es.dom().contains((address, end)),
        forall|k: (u64, u64)| #[trigger] old_es.dom().contains(k) ==> es[k] == old_es[k],
        forall|k: (u64, u64)| #[trigger]
            old_es.dom().contains(k) ==> 0 <= old_es[k] < old_devs.len(),
        forall|k: (u64, u64)| #[trigger]
            old_es.dom().contains(k) ==> devs[old_es[k] as int] == old_devs[old_es[k] as int],
        es[(address, end)] < devs.len(),
        devs[es[(address, end)] as int].contents().len() == end - address,
    ensures
        bus_bytes(es, devs).dom() =~= bus_bytes(old_es, old_devs).dom().union(
            Set::new(|a: u64| address <= a < end),
        ),
        forall|a: u64|
            bus_bytes(old_es, old_devs).dom().contains(a) && !(address <= a < end)
                ==> bus_bytes(es, devs)[a] == bus_bytes(old_es, old_devs)[a],
        forall|i: int|
            0 <= i < end - address ==> bus_bytes(es, devs)[(address + i) as u64] == devs[es[(
                address,
                end,
            )] as int].contents()[i],
{
    let new_k = (address, end);
    assert forall|a: u64| #[trigger]
        bus_bytes(es, devs).dom().contains(a) implies bus_bytes(old_es, old_devs).dom().contains(a)
        || (address <= a < end) by {
        let k = choose|k: (u64, u64)| #[trigger] es.dom().contains(k) && k.0 <= a && a < k.1;
        if k != new_k {
            assert(old_es.dom().contains(k));
            assert(addr_mapped(old_es, a));
        }
    }
    assert forall|a: u64| addr_mapped(old_es, a) || (address <= a < end) implies #[trigger]
        bus_bytes(es, devs).dom().contains(a) by {
        if addr_mapped(old_es, a) {
            let k = choose|k: (u64, u64)|
                #[trigger] old_es.dom().contains(k) && k.0 <= a && a < k.1;
            assert(es.dom().contains(k));
            assert(addr_mapped(es, a));
        } else {
            assert(es.dom().contains(new_k) && new_k.0 <= a && a < new_k.1);
            assert(addr_mapped(es, a));
        }
    }
    assert forall|a: u64|
        bus_bytes(old_es, old_devs).dom().contains(a) && !(address <= a
            < end) implies bus_bytes(es, devs)[a] == bus_bytes(old_es, old_devs)[a] by {
        let k = choose|k: (u64, u64)| #[trigger] old_es.dom().contains(k) && k.0 <= a && a < k.1;
        lemma_byte_at_entry(old_es, old_devs, k, a);
        lemma_byte_at_entry(es, devs, k, a);
    }
    assert forall|i: int| 0 <= i < end - address implies bus_bytes(es, devs)[(address + i) as u64]
        == devs[es[new_k] as int].contents()[i] by {
        lemma_byte_at_entry(es, devs, new_k, (address + i) as u64);
    }
}

} // verus!
