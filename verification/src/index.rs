//! The shared symbol cache: the most recently extracted symbol set for the
//! document, replaced wholesale after each pass that produced a tree and read
//! whole by the completion provider.
//!
//! The surrounding service shares one `SymbolIndex` per open document across
//! concurrent tasks, behind a reader/writer lock; this type itself is the
//! single-owner state those tasks take turns with.

use vstd::prelude::*;

use crate::walker::clone_bytes;
use crate::walker::views_of;
use crate::walker::SymbolDescriptor;
use crate::walker::SymbolView;

verus! {

impl SymbolDescriptor {
    /// A copy that describes the same symbol.
    pub fn duplicate(&self) -> (d: SymbolDescriptor)
        ensures
            d@ == self@,
    {
        let d = SymbolDescriptor {
            name: clone_bytes(&self.name),
            kind: self.kind,
            detail: match &self.detail {
                Some(v) => Some(clone_bytes(v)),
                None => None,
            },
            insert: match &self.insert {
                Some(v) => Some(clone_bytes(v)),
                None => None,
            },
        };
        proof {
            assert(d@ =~= self@);
        }
        d
    }
}

/// Ordered cache of the last successfully extracted symbol descriptors.
pub struct SymbolIndex {
    entries: Vec<SymbolDescriptor>,
}

impl View for SymbolIndex {
    type V = Seq<SymbolView>;

    closed spec fn view(&self) -> Seq<SymbolView> {
        views_of(self.entries@)
    }
}

impl SymbolIndex {
    /// An index with no symbols yet.
    pub fn new() -> (index: SymbolIndex)
        ensures
            index@ == Seq::<SymbolView>::empty(),
    {
        let index = SymbolIndex { entries: Vec::new() };
        proof {
            assert(index@ =~= Seq::<SymbolView>::empty());
        }
        index
    }

    /// Wholesale replacement: afterwards the index holds exactly `entries`,
    /// whatever it held before.
    pub fn replace(&mut self, entries: Vec<SymbolDescriptor>)
        ensures
            final(self)@ == views_of(entries@),
    {
        self.entries = entries;
    }

    /// A copy of the current contents, in extraction order.
    pub fn snapshot(&self) -> (out: Vec<SymbolDescriptor>)
        ensures
            views_of(out@) == self@,
    {
        let mut out: Vec<SymbolDescriptor> = Vec::new();
        let n = self.entries.len();
        let mut i: usize = 0;
        while i < n
            invariant
                0 <= i <= n,
                n == self.entries@.len(),
                out@.len() == i,
                forall|k: int| 0 <= k < i ==> out@[k]@ == self.entries@[k]@,
            decreases n - i,
        {
            out.push(self.entries[i].duplicate());
            i += 1;
        }
        proof {
            assert(views_of(out@) =~= views_of(self.entries@));
        }
        out
    }

    /// How many symbols the index currently holds.
    pub fn len(&self) -> (n: usize)
        ensures
            n == self@.len(),
    {
        self.entries.len()
    }
}

} // verus!
