//! The format-inventory cache: a single slot holding the last computed
//! record list, valid for a fixed time window. Eviction is purely
//! time-based; there is no per-key dimension.

use vstd::prelude::*;
use crate::types::{ClipboardFormat, FormatView};

verus! {

/// Seconds a cached inventory stays valid.
pub const CACHE_TTL_SECS: u64 = 5;

/// A deep copy of a record list; callers of the cache can never mutate the
/// stored one.
pub fn clone_formats(v: &Vec<ClipboardFormat>) -> (r: Vec<ClipboardFormat>)
    ensures
        r.deep_view() == v.deep_view(),
{
    let r = v.clone();
    proof {
        assert forall|i: int| 0 <= i < v@.len() implies r.deep_view()[i] == v.deep_view()[i] by {
            assert(cloned::<ClipboardFormat>(v@[i], r@[i]));
        }
        assert(r.deep_view() =~= v.deep_view());
    }
    r
}

/// At most one cached `(records, computed_at)` pair.
pub struct FormatCache {
    slot: Option<(Vec<ClipboardFormat>, u64)>,
}

impl FormatCache {
    /// The slot's mathematical shadow: the cached record views and their
    /// computation time, if any.
    pub closed spec fn entry(self) -> Option<(Seq<FormatView>, u64)> {
        match self.slot {
            Some((v, t)) => Some((v.deep_view(), t)),
            None => None,
        }
    }

    /// The cached value is present and still within its time window at
    /// `now`.
    pub open spec fn fresh_at(self, now: u64) -> bool {
        match self.entry() {
            Some((_, t)) => t <= now && now - t < CACHE_TTL_SECS,
            None => false,
        }
    }

    pub fn new() -> (c: Self)
        ensures
            c.entry() is None,
    {
        FormatCache { slot: None }
    }

    /// Return the cached record list while it is fresh; otherwise invoke
    /// `compute`, store its result stamped with `now`, and return it.
    pub fn get_or_compute<F: FnOnce() -> Vec<ClipboardFormat>>(
        &mut self,
        now: u64,
        compute: F,
    ) -> (r: Vec<ClipboardFormat>)
        requires
            call_requires(compute, ()),
        ensures
            old(self).fresh_at(now) ==> {
                &&& *final(self) == *old(self)
                &&& r.deep_view() == old(self).entry().unwrap().0
            },
            !old(self).fresh_at(now) ==> {
                &&& call_ensures(compute, (), r)
                &&& final(self).entry() == Some((r.deep_view(), now))
            },
    {
        match &self.slot {
            Some(pair) => {
                let t = pair.1;
                if t <= now && now - t < CACHE_TTL_SECS {
                    return clone_formats(&pair.0);
                }
            },
            None => {},
        }
        let computed = compute();
        let copy = clone_formats(&computed);
        self.slot = Some((copy, now));
        computed
    }
}

} // verus!
