use vstd::prelude::*;
use crate::digest::keys_equal;
use crate::types::{ErrorCode, Key, NullifierAccount};

verus! {

/// The set of nullifiers consumed so far, one flat namespace.
pub struct NullifierRegistry {
    pub records: Vec<NullifierAccount>,
}

impl View for NullifierRegistry {
    type V = Set<Seq<u8>>;

    open spec fn view(&self) -> Set<Seq<u8>> {
        Set::new(|n: Seq<u8>| exists|i: int| 0 <= i < self.records@.len() && self.records@[i].nullifier@ == n)
    }
}

impl NullifierRegistry {
    /// Every record marks its nullifier as used.
    pub open spec fn wf(&self) -> bool {
        forall|i: int| 0 <= i < self.records@.len() ==> self.records@[i].is_used
    }

    /// A registry in which nothing has been consumed.
    pub fn new() -> (r: Self)
        ensures
            r.wf(),
            r@ == Set::<Seq<u8>>::empty(),
    {
        let r = NullifierRegistry { records: Vec::new() };
        assert(r@ =~= Set::<Seq<u8>>::empty());
        r
    }

    /// Whether `nullifier` has been consumed.
    pub fn is_used(&self, nullifier: &Key) -> (r: bool)
        ensures
            r == self@.contains(nullifier@),
    {
        let mut i: usize = 0;
        while i < self.records.len()
            invariant
                0 <= i <= self.records@.len(),
                forall|j: int| 0 <= j < i ==> self.records@[j].nullifier@ != nullifier@,
            decreases self.records@.len() - i,
        {
            if keys_equal(&self.records[i].nullifier, nullifier) {
                return true;
            }
            i = i + 1;
        }
        false
    }

    /// Consumes `nullifier`: fails with `NullifierAlreadyUsed`, changing
    /// nothing, when it was consumed before.
    pub fn consume(&mut self, nullifier: &Key) -> (r: Result<(), ErrorCode>)
        requires
            old(self).wf(),
        ensures
            final(self).wf(),
            old(self)@.contains(nullifier@) ==> r == Err::<(), ErrorCode>(ErrorCode::NullifierAlreadyUsed)
                && *final(self) == *old(self),
            !old(self)@.contains(nullifier@) ==> r is Ok && final(self)@ == old(self)@.insert(nullifier@),
    {
        if self.is_used(nullifier) {
            return Err(ErrorCode::NullifierAlreadyUsed);
        }
        self.record(nullifier);
        Ok(())
    }

    /// Adds a record for `nullifier`.
    fn record(&mut self, nullifier: &Key)
        requires
            old(self).wf(),
        ensures
            final(self).wf(),
            final(self)@ == old(self)@.insert(nullifier@),
    {
        let ghost before = self.records@;
        self.records.push(NullifierAccount { nullifier: *nullifier, is_used: true });
        assert(self@ =~= old(self)@.insert(nullifier@)) by {
            assert forall|n: Seq<u8>| self@.contains(n) == old(self)@.insert(nullifier@).contains(n) by {
                if old(self)@.contains(n) {
                    let i = choose|i: int| 0 <= i < before.len() && before[i].nullifier@ == n;
                    assert(self.records@[i] == before[i]);
                }
                if n == nullifier@ {
                    assert(self.records@[before.len() as int].nullifier@ == n);
                }
                if self@.contains(n) {
                    let i = choose|i: int| 0 <= i < self.records@.len() && self.records@[i].nullifier@ == n;
                    if i < before.len() {
                        assert(before[i] == self.records@[i]);
                    }
                }
            }
        }
    }
}

} // verus!
