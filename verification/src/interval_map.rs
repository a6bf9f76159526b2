//! Trusted view of `iset`'s interval map, the store behind the address bus.
//!
//! The store binds half-open `u64` intervals to device indices. Its
//! contents are modelled as a `Map` from the interval's bounds to the bound
//! value; the wrappers below state, over that model, what the `iset` calls
//! do.

use vstd::prelude::*;

verus! {

/// Half-open `u64` intervals, each bound to a device index. A thin
/// shell around `iset::IntervalMap`, which Verus does not look into.
#[verifier::external_body]
pub struct IntervalStore {
    map: iset::IntervalMap<u64, usize>,
}

/// What an interval store holds: each stored half-open interval
/// `[k.0, k.1)`, bound to its value.
pub uninterp spec fn interval_entries(m: IntervalStore) -> Map<(u64, u64), usize>;

/// Whether `[k.0, k.1)` intersects the half-open query `[lo, hi)`.
pub open spec fn interval_intersects(k: (u64, u64), lo: u64, hi: u64) -> bool {
    k.0 < hi && lo < k.1
}

/// The model of a store with nothing in it.
pub open spec fn no_entries() -> Map<(u64, u64), usize> {
    Map::empty()
}

/// Whether some entry of `m` intersects the half-open query `[lo, hi)`.
pub open spec fn some_entry_intersects(m: IntervalStore, lo: u64, hi: u64) -> bool {
    exists|k: (u64, u64)|
        #[trigger] interval_entries(m).dom().contains(k) && interval_intersects(k, lo, hi)
}

impl IntervalStore {
    /// Relies on `iset::IntervalMap::new`: creates an empty map.
    #[verifier::external_body]
    pub(crate) fn new() -> (m: IntervalStore)
        ensures
            interval_entries(m) == no_entries(),
    {
        IntervalStore { map: iset::IntervalMap::new() }
    }

    /// Relies on `iset::IntervalMap::has_overlap`: whether any stored
    /// interval intersects the half-open query `lo..hi`.
    #[verifier::external_body]
    pub(crate) fn has_overlap(&self, lo: u64, hi: u64) -> (r: bool)
        requires
            lo < hi,
        ensures
            r == some_entry_intersects(*self, lo, hi),
    {
        self.map.has_overlap(lo..hi)
    }

    /// Relies on `iset::IntervalMap::insert`: binds `lo..hi` to `v`,
    /// replacing the binding of an equal interval if there was one.
    #[verifier::external_body]
    pub(crate) fn insert(&mut self, lo: u64, hi: u64, v: usize)
        requires
            lo < hi,
        ensures
            interval_entries(*final(self)) == interval_entries(*old(self)).insert((lo, hi), v),
    {
        self.map.insert(lo..hi, v);
    }

    /// Relies on `iset::IntervalMap::iter`: yields exactly the entries
    /// whose interval intersects the half-open query `lo..hi`. Each
    /// interval appears once: plain `insert` replaces the binding of an
    /// equal interval, so the store never holds two.
    #[verifier::external_body]
    pub(crate) fn overlapping(&self, lo: u64, hi: u64) -> (r: Vec<(u64, u64, usize)>)
        requires
            lo < hi,
        ensures
            forall|j: int|
                0 <= j < r@.len() ==> {
                    &&& interval_entries(*self).dom().contains(((#[trigger] r@[j]).0, r@[j].1))
                    &&& interval_entries(*self)[(r@[j].0, r@[j].1)] == r@[j].2
                    &&& interval_intersects((r@[j].0, r@[j].1), lo, hi)
                },
            forall|k: (u64, u64)|
                #[trigger] interval_entries(*self).dom().contains(k) && interval_intersects(
                    k,
                    lo,
                    hi,
                ) ==> exists|j: int|
                    0 <= j < r@.len() && r@[j] == (k.0, k.1, interval_entries(*self)[k]),
            forall|j1: int, j2: int|
                0 <= j1 < j2 < r@.len() ==> ((#[trigger] r@[j1]).0, r@[j1].1) != ((
                #[trigger] r@[j2]).0,
                r@[j2].1,
                ),
    {
        self.map.iter(lo..hi).map(|(range, v)| (range.start, range.end, *v)).collect()
    }
}

} // verus!
