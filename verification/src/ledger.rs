//! Exact accounting of outstanding snapshot handles.

use vstd::prelude::*;

verus! {

/// The handles that have been issued and not yet released. Every handle gets an
/// identifier of its own, identifiers are never reused, and a handle counts
/// exactly once however often its release is attempted.
#[derive(Debug)]
pub struct Ledger {
    live: Vec<u64>,
    issued: u64,
}

impl Ledger {
    #[verifier::type_invariant]
    spec fn inv(self) -> bool {
        &&& self.live@.no_duplicates()
        &&& forall|i: int| 0 <= i < self.live@.len() ==> self.live@[i] < self.issued
    }

    /// Identifiers of the outstanding handles.
    pub closed spec fn holders(&self) -> Set<u64> {
        self.live@.to_set()
    }

    /// Number of handles issued so far; also the next identifier.
    pub closed spec fn issued(&self) -> nat {
        self.issued as nat
    }

    /// Every outstanding identifier was issued, and there are finitely many.
    pub open spec fn wf(&self) -> bool {
        &&& self.holders().finite()
        &&& forall|id: u64| self.holders().contains(id) ==> (id as nat) < self.issued()
    }

    /// An empty ledger.
    pub fn new() -> (ledger: Ledger)
        ensures
            ledger.holders() == Set::<u64>::empty(),
            ledger.issued() == 0,
            ledger.wf(),
    {
        let ledger = Ledger { live: Vec::new(), issued: 0 };
        assert(ledger.live@.to_set() =~= Set::<u64>::empty());
        ledger
    }

    /// Makes known what always holds of a ledger. It does nothing when run.
    pub(crate) fn attest(&self)
        ensures
            self.wf(),
    {
        proof {
            use_type_invariant(self);
            vstd::seq_lib::seq_to_set_is_finite(self.live@);
        }
    }

    /// Issues a handle and returns its identifier, which is fresh.
    pub fn enter(&mut self) -> (id: u64)
        requires
            old(self).issued() < u64::MAX,
        ensures
            id as nat == old(self).issued(),
            !old(self).holders().contains(id),
            final(self).holders() == old(self).holders().insert(id),
            final(self).issued() == old(self).issued() + 1,
            final(self).wf(),
    {
        proof {
            use_type_invariant(&*self);
        }
        let id = self.issued;
        let mut live: Vec<u64> = Vec::new();
        std::mem::swap(&mut self.live, &mut live);
        live.push(id);
        self.issued = id + 1;
        self.live = live;
        proof {
            let before = old(self).live@;
            assert(self.live@ == before.push(id));
            assert(!before.contains(id));
            assert(before.push(id).to_set() =~= before.to_set().insert(id)) by {
                assert forall|x: u64| before.push(id).to_set().contains(x) implies before.to_set().insert(
                    id,
                ).contains(x) by {
                    let k = choose|k: int| 0 <= k < before.push(id).len() && before.push(id)[k] == x;
                    if k < before.len() {
                        assert(before[k] == x);
                    }
                }
                assert forall|x: u64| before.to_set().insert(id).contains(x) implies before.push(
                    id,
                ).to_set().contains(x) by {
                    if x == id {
                        assert(before.push(id)[before.len() as int] == id);
                    } else {
                        let k = choose|k: int| 0 <= k < before.len() && before[k] == x;
                        assert(before.push(id)[k] == x);
                    }
                }
            }
            vstd::seq_lib::seq_to_set_is_finite(self.live@);
        }
        id
    }

    /// Releases the handle `id`. Returns whether it was outstanding; releasing a
    /// handle that is not outstanding changes nothing.
    pub fn leave(&mut self, id: u64) -> (was_live: bool)
        ensures
            was_live == old(self).holders().contains(id),
            final(self).holders() == old(self).holders().remove(id),
            final(self).issued() == old(self).issued(),
            final(self).wf(),
    {
        proof {
            use_type_invariant(&*self);
            vstd::seq_lib::seq_to_set_is_finite(self.live@);
        }
        let mut i: usize = 0;
        while i < self.live.len()
            invariant
                i <= self.live@.len(),
                *self == *old(self),
                self.live@.no_duplicates(),
                forall|j: int| 0 <= j < self.live@.len() ==> self.live@[j] < self.issued,
                forall|j: int| 0 <= j < i ==> self.live@[j] != id,
            decreases self.live@.len() - i,
        {
            if self.live[i] == id {
                let mut live: Vec<u64> = Vec::new();
                std::mem::swap(&mut self.live, &mut live);
                live.swap_remove(i);
                self.live = live;
                proof {
                    let before = old(self).live@;
                    let after = self.live@;
                    let last = before.len() - 1;
                    assert(after.len() == last);
                    assert forall|j: int| 0 <= j < after.len() implies after[j] == (if j == i {
                        before[last]
                    } else {
                        before[j]
                    }) by {}
                    assert(after.no_duplicates());
                    assert(after.to_set() =~= before.to_set().remove(id)) by {
                        assert forall|x: u64| after.to_set().contains(x) implies before.to_set().remove(
                            id,
                        ).contains(x) by {
                            let k = choose|k: int| 0 <= k < after.len() && after[k] == x;
                            if k == i {
                                assert(before[last] == x);
                            } else {
                                assert(before[k] == x);
                            }
                        }
                        assert forall|x: u64| before.to_set().remove(id).contains(x) implies after.to_set().contains(
                            x,
                        ) by {
                            let k = choose|k: int| 0 <= k < before.len() && before[k] == x;
                            if k == last {
                                assert(after[i as int] == x);
                            } else {
                                assert(after[k] == x);
                            }
                        }
                    }
                    assert(before.to_set().contains(id)) by {
                        assert(before[i as int] == id);
                    }
                    vstd::seq_lib::seq_to_set_is_finite(after);
                }
                return true;
            }
            i += 1;
        }
        proof {
            assert(!self.live@.to_set().contains(id));
            assert(self.live@.to_set().remove(id) =~= self.live@.to_set());
        }
        false
    }

    /// Whether the handle `id` is outstanding.
    pub fn holds(&self, id: u64) -> (live: bool)
        ensures
            live == self.holders().contains(id),
    {
        let mut i: usize = 0;
        while i < self.live.len()
            invariant
                i <= self.live@.len(),
                forall|j: int| 0 <= j < i ==> self.live@[j] != id,
            decreases self.live@.len() - i,
        {
            if self.live[i] == id {
                assert(self.live@[i as int] == id);
                return true;
            }
            i += 1;
        }
        false
    }

    /// Number of outstanding handles.
    pub fn count(&self) -> (n: usize)
        ensures
            n == self.holders().len(),
            self.wf(),
    {
        proof {
            use_type_invariant(self);
            self.live@.unique_seq_to_set();
            vstd::seq_lib::seq_to_set_is_finite(self.live@);
        }
        self.live.len()
    }

    /// Whether no handle is outstanding.
    pub fn is_empty(&self) -> (empty: bool)
        ensures
            empty == self.holders().is_empty(),
            self.wf(),
    {
        proof {
            use_type_invariant(self);
            vstd::seq_lib::seq_to_set_is_finite(self.live@);
            if self.live@.len() > 0 {
                assert(self.live@.to_set().contains(self.live@[0]));
            } else {
                assert(self.live@.to_set() =~= Set::<u64>::empty());
            }
        }
        self.live.is_empty()
    }

    /// Number of handles issued so far.
    pub fn issued_count(&self) -> (n: u64)
        ensures
            n as nat == self.issued(),
    {
        self.issued
    }
}

} // verus!
