//! The shared result collector: a mapping from module name to record,
//! append-only, with each name inserted at most once across the run.
use vstd::prelude::*;

use crate::records::ModuleRecord;
use crate::text::str_eq;

verus! {

/// All finished records, keyed by module name.
#[derive(Debug)]
pub struct ResultCollector {
    pub records: Vec<ModuleRecord>,
}

impl ResultCollector {
    /// The names held, in insertion order.
    pub open spec fn names(self) -> Seq<Seq<char>> {
        Seq::new(self.records@.len() as nat, |i: int| self.records@[i].name@)
    }

    /// No name is held twice.
    pub open spec fn wf(self) -> bool {
        forall|i: int, j: int|
            0 <= i < j < self.names().len() ==> self.names()[i] != self.names()[j]
    }

    /// Some record carries this name.
    pub open spec fn has_name(self, name: Seq<char>) -> bool {
        exists|i: int| 0 <= i < self.names().len() && self.names()[i] == name
    }

    /// An empty collector.
    pub fn new() -> (c: Self)
        ensures
            c.records@.len() == 0,
            c.wf(),
    {
        ResultCollector { records: Vec::new() }
    }

    /// How many records are held.
    pub fn len(&self) -> (n: usize)
        ensures
            n == self.records@.len(),
    {
        self.records.len()
    }

    /// Is this module's record already held?
    pub fn contains_name(&self, name: &str) -> (b: bool)
        ensures
            b == self.has_name(name@),
    {
        let mut i: usize = 0;
        while i < self.records.len()
            invariant
                0 <= i <= self.records@.len(),
                forall|j: int| 0 <= j < i ==> self.names()[j] != name@,
            decreases self.records@.len() - i,
        {
            if str_eq(self.records[i].name.as_str(), name) {
                proof {
                    assert(self.names()[i as int] == name@);
                }
                return true;
            }
            i += 1;
        }
        false
    }

    /// Append a record unless its name is already held; says whether it
    /// was appended.
    pub fn insert(&mut self, rec: ModuleRecord) -> (ok: bool)
        requires
            old(self).wf(),
        ensures
            final(self).wf(),
            ok == !old(self).has_name(rec.name@),
            ok ==> final(self).records@ == old(self).records@.push(rec),
            !ok ==> final(self).records@ == old(self).records@,
    {
        let ghost name = rec.name@;
        if self.contains_name(rec.name.as_str()) {
            false
        } else {
            let ghost pre = *self;
            self.records.push(rec);
            proof {
                assert(self.names() =~~= pre.names().push(name));
            }
            true
        }
    }
}

} // verus!
