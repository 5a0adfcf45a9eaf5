//! The process-lifetime registry: one metrics aggregate per destination
//! key, created lazily on first use and never removed.

use vstd::prelude::*;

use crate::dst::DstAddr;
use crate::metrics::{Metrics, empty_metrics};

verus! {

/// Maps destination keys to their aggregates. Every exchange bound to the
/// same key shares the one entry.
pub struct Registry {
    pub entries: Vec<(DstAddr, Metrics)>,
}

impl Registry {
    /// Well-formed: no destination key appears twice.
    pub open spec fn wf(self) -> bool {
        forall|i: int, j: int|
            0 <= i < j < self.entries@.len()
                ==> (#[trigger] self.entries@[i]).0.key() != (#[trigger] self.entries@[j]).0.key()
    }

    pub fn new() -> (r: Registry)
        ensures
            r.wf(),
            r.entries@.len() == 0,
    {
        Registry { entries: Vec::new() }
    }

    /// The entry for a destination, created empty on first use. The same
    /// key always lands on the same entry: an existing entry is returned
    /// untouched, never duplicated.
    pub fn get_or_create(&mut self, target: &DstAddr) -> (i: usize)
        requires
            old(self).wf(),
        ensures
            final(self).wf(),
            i < final(self).entries@.len(),
            final(self).entries@[i as int].0.key() == target.key(),
            (exists|j: int|
                0 <= j < old(self).entries@.len()
                    && (#[trigger] old(self).entries@[j]).0.key() == target.key()) ==> {
                &&& final(self).entries@ == old(self).entries@
                &&& old(self).entries@[i as int].0.key() == target.key()
            },
            !(exists|j: int|
                0 <= j < old(self).entries@.len()
                    && (#[trigger] old(self).entries@[j]).0.key() == target.key()) ==> {
                &&& i == old(self).entries@.len()
                &&& final(self).entries@.len() == old(self).entries@.len() + 1
                &&& final(self).entries@.take(i as int) == old(self).entries@
                &&& final(self).entries@[i as int].1@ == empty_metrics()
            },
    {
        let mut i: usize = 0;
        while i < self.entries.len()
            invariant
                self.entries@ == old(self).entries@,
                old(self).wf(),
                i <= self.entries.len(),
                forall|j: int|
                    0 <= j < i ==> (#[trigger] self.entries@[j]).0.key() != target.key(),
            decreases self.entries.len() - i,
        {
            let entry = &self.entries[i];
            if entry.0.same_target(target) {
                return i;
            }
            i = i + 1;
        }
        let i: usize = self.entries.len();
        self.entries.push((target.duplicate(), Metrics::new()));
        proof {
            assert(self.entries@.take(i as int) =~= old(self).entries@);
        }
        i
    }
}

} // verus!
