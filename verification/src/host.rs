//! The host: single owner of the current generation.

use crate::base_db::Change;
use crate::base_db::Edit;
use crate::base_db::Facts;
use crate::base_db::RootDatabase;
use crate::cancel::CancellationFlag;
use crate::cancel::Phase;
use crate::ledger::Ledger;
use vstd::prelude::*;

verus! {

/// A snapshot, as the protocol sees it.
pub struct SnapshotView {
    /// The identifier under which the host counts the snapshot.
    pub id: u64,
    /// The generation that the snapshot refers to. It never changes.
    pub generation: nat,
}

/// Analysis is a snapshot of a world state at a moment in time. It is the main
/// entry point for asking semantic information about the world. When the host
/// begins to apply a change, all existing `Analysis` are cancelled: their
/// methods return `Err(Cancelled)`.
#[derive(Debug, PartialEq, Eq)]
pub struct Analysis {
    id: u64,
    generation: u64,
}

impl View for Analysis {
    type V = SnapshotView;

    closed spec fn view(&self) -> SnapshotView {
        SnapshotView { id: self.id, generation: self.generation as nat }
    }
}

impl Analysis {
    /// The generation that this snapshot refers to.
    pub fn generation(&self) -> (generation: u64)
        ensures
            generation as nat == self@.generation,
    {
        self.generation
    }
}

/// The state of a host, as the protocol sees it.
pub struct HostView {
    /// Identifier of the current generation.
    pub generation: nat,
    /// Whether the cancellation flag of the current generation is raised.
    pub raised: bool,
    /// Identifiers of the snapshots that are outstanding.
    pub live: Set<u64>,
    /// Number of snapshots issued so far; the next one gets this identifier.
    pub issued: nat,
    /// The stored facts of the current generation.
    pub facts: Facts,
}

impl HostView {
    /// A host at generation 0 over `facts`, with a lowered flag and no snapshot.
    pub open spec fn initial(facts: Facts) -> HostView {
        HostView { generation: 0, raised: false, live: Set::empty(), issued: 0, facts }
    }

    /// Finitely many snapshots are outstanding, and each of them was issued.
    pub open spec fn wf(self) -> bool {
        &&& self.live.finite()
        &&& forall|id: u64| self.live.contains(id) ==> (id as nat) < self.issued
    }

    /// The phase of `generation`; `None` for a generation that does not exist
    /// yet.
    pub open spec fn phase(self, generation: nat) -> Option<Phase> {
        if generation > self.generation {
            None
        } else if generation < self.generation {
            Some(Phase::Superseded)
        } else if self.raised {
            Some(Phase::Cancelling)
        } else {
            Some(Phase::Active)
        }
    }

    /// Whether the cancellation flag of `generation` has been raised.
    pub open spec fn cancelled(self, generation: nat) -> bool {
        generation < self.generation || (generation == self.generation && self.raised)
    }

    /// Whether `snapshot` is an outstanding snapshot of the current generation.
    pub open spec fn holds(self, snapshot: SnapshotView) -> bool {
        self.live.contains(snapshot.id) && snapshot.generation == self.generation
    }

    /// Whether a query through `snapshot` runs to completion: the snapshot is
    /// outstanding and the flag of its generation is lowered.
    pub open spec fn admits(self, snapshot: SnapshotView) -> bool {
        self.holds(snapshot) && !self.raised
    }

    /// The snapshot that is issued next.
    pub open spec fn newest(self) -> SnapshotView {
        SnapshotView { id: self.issued as u64, generation: self.generation }
    }

    /// The host after a snapshot was issued.
    pub open spec fn issue(self) -> HostView {
        HostView { live: self.live.insert(self.issued as u64), issued: self.issued + 1, ..self }
    }

    /// The copy that a clone of `snapshot` yields: a new outstanding snapshot of
    /// the same generation, or, for a snapshot that is not outstanding, one
    /// that is as dead as `snapshot` itself.
    pub open spec fn copy_of(self, snapshot: SnapshotView) -> SnapshotView {
        if self.holds(snapshot) {
            self.newest()
        } else {
            snapshot
        }
    }

    /// The host after `snapshot` was cloned.
    pub open spec fn duplicate(self, snapshot: SnapshotView) -> HostView {
        if self.holds(snapshot) {
            self.issue()
        } else {
            self
        }
    }

    /// The host after `snapshot` was released.
    pub open spec fn release(self, snapshot: SnapshotView) -> HostView {
        if self.holds(snapshot) {
            HostView { live: self.live.remove(snapshot.id), ..self }
        } else {
            self
        }
    }

    /// The host after the flag of the current generation was raised.
    pub open spec fn cancel(self) -> HostView {
        HostView { raised: true, ..self }
    }

    /// Whether the host has the storage to itself.
    pub open spec fn exclusive(self) -> bool {
        self.live.is_empty()
    }

    /// The host after one attempt to apply `edits`. With the storage to
    /// itself the host changes the facts and opens the next generation with a
    /// lowered flag; otherwise it raises the flag and changes nothing else.
    pub open spec fn edit(self, edits: Seq<Edit>) -> HostView {
        if self.exclusive() {
            HostView {
                generation: self.generation + 1,
                raised: false,
                facts: self.facts.apply_all(edits),
                ..self
            }
        } else {
            self.cancel()
        }
    }

    /// The host after its facts were replaced through raw access.
    pub open spec fn write(self, facts: Facts) -> HostView {
        HostView { facts, ..self }
    }
}

/// How an attempt to apply a change ended.
#[derive(Debug, PartialEq, Eq)]
pub enum EditOutcome {
    /// The change was applied; a new generation is current.
    Applied,
    /// Snapshots are still outstanding. Their generation is now cancelling,
    /// nothing was changed, and the change comes back to be applied later.
    Deferred(Change),
}

/// `AnalysisHost` stores the current state of the world.
#[derive(Debug)]
pub struct AnalysisHost {
    db: RootDatabase,
    generation: u64,
    flag: CancellationFlag,
    ledger: Ledger,
}

impl View for AnalysisHost {
    type V = HostView;

    closed spec fn view(&self) -> HostView {
        HostView {
            generation: self.generation as nat,
            raised: self.flag@,
            live: self.ledger.holders(),
            issued: self.ledger.issued(),
            facts: self.db@,
        }
    }
}

impl Default for AnalysisHost {
    /// A host without facts, at generation 0.
    fn default() -> (host: AnalysisHost)
        ensures
            host@ == HostView::initial(Facts::empty()),
            host@.wf(),
    {
        AnalysisHost::new(RootDatabase::new())
    }
}

impl AnalysisHost {
    /// The storage that the host owns.
    pub closed spec fn storage(&self) -> RootDatabase {
        self.db
    }

    /// A host over `db`, at generation 0, with a lowered flag and no snapshot.
    pub fn new(db: RootDatabase) -> (host: AnalysisHost)
        ensures
            host@ == HostView::initial(db@),
            host.storage() == db,
            host@.wf(),
    {
        AnalysisHost { db, generation: 0, flag: CancellationFlag::new(), ledger: Ledger::new() }
    }

    /// Returns a snapshot of the current state, which you can query for
    /// semantic information. The snapshot counts as outstanding until it is
    /// released; the stored facts are not touched.
    pub fn analysis(&mut self) -> (snapshot: Analysis)
        requires
            old(self)@.issued < u64::MAX,
        ensures
            snapshot@ == old(self)@.newest(),
            final(self)@ == old(self)@.issue(),
            final(self)@.holds(snapshot@),
            final(self).storage() == old(self).storage(),
            final(self)@.wf(),
    {
        let id = self.ledger.enter();
        Analysis { id, generation: self.generation }
    }

    /// Clones `snapshot` on behalf of `Analysis::clone`.
    pub(crate) fn fork(&mut self, snapshot: &Analysis) -> (copy: Analysis)
        requires
            old(self)@.issued < u64::MAX,
        ensures
            copy@ == old(self)@.copy_of(snapshot@),
            final(self)@ == old(self)@.duplicate(snapshot@),
            final(self).storage() == old(self).storage(),
            final(self)@.wf(),
    {
        if snapshot.generation == self.generation && self.ledger.holds(snapshot.id) {
            let id = self.ledger.enter();
            Analysis { id, generation: self.generation }
        } else {
            self.ledger.attest();
            Analysis { id: snapshot.id, generation: snapshot.generation }
        }
    }

    /// Releases `snapshot`: it no longer counts as outstanding. Releasing a
    /// snapshot that is not outstanding changes nothing.
    pub fn release(&mut self, snapshot: Analysis)
        ensures
            final(self)@ == old(self)@.release(snapshot@),
            final(self).storage() == old(self).storage(),
            final(self)@.wf(),
    {
        if snapshot.generation == self.generation {
            let was_live = self.ledger.leave(snapshot.id);
            proof {
                if !was_live {
                    assert(old(self).ledger.holders().remove(snapshot.id) =~= old(
                        self,
                    ).ledger.holders());
                }
            }
        } else {
            self.ledger.attest();
        }
    }

    /// Makes one attempt to apply `change`. The flag of the current generation
    /// is raised first. If no snapshot is outstanding, the facts are changed,
    /// the next generation becomes current and starts with a lowered flag.
    /// Otherwise nothing else happens and the change is handed back: the
    /// caller repeats the attempt once the snapshots have been released.
    ///
    /// A reader that never polls, or that keeps its snapshot after it was told
    /// to stop, keeps every attempt deferred. That reader breaks its side of
    /// the protocol; the host has no way to take a snapshot back.
    pub fn apply_edit(&mut self, change: Change) -> (outcome: EditOutcome)
        requires
            old(self)@.generation < u64::MAX,
        ensures
            final(self)@ == old(self)@.edit(change@),
            old(self)@.exclusive() ==> outcome is Applied,
            !old(self)@.exclusive() ==> outcome == EditOutcome::Deferred(change),
            !old(self)@.exclusive() ==> final(self).storage() == old(self).storage(),
            final(self)@.wf(),
    {
        self.flag.raise();
        if self.ledger.is_empty() {
            self.db.apply_change(&change);
            self.generation = self.generation + 1;
            self.flag = CancellationFlag::new();
            EditOutcome::Applied
        } else {
            EditOutcome::Deferred(change)
        }
    }

    /// Read access to the storage, past the snapshot protocol.
    pub fn raw_database(&self) -> (db: &RootDatabase)
        ensures
            *db == self.storage(),
            db@ == self@.facts,
    {
        &self.db
    }

    /// Write access to the storage, past the snapshot protocol, for callers
    /// such as bulk loading. It is only for a host without outstanding
    /// snapshots. The generation stays what it is.
    pub fn raw_database_mut(&mut self) -> (db: &mut RootDatabase)
        requires
            old(self)@.exclusive(),
        ensures
            *db == old(self).storage(),
            final(self).storage() == *final(db),
            final(self)@ == old(self)@.write(final(db)@),
    {
        &mut self.db
    }

    /// Identifier of the current generation.
    pub fn generation(&self) -> (generation: u64)
        ensures
            generation as nat == self@.generation,
    {
        self.generation
    }

    /// Number of outstanding snapshots.
    pub fn holders(&self) -> (n: usize)
        ensures
            n == self@.live.len(),
            self@.wf(),
    {
        self.ledger.count()
    }

    /// Number of snapshots issued so far.
    pub fn issued(&self) -> (n: u64)
        ensures
            n as nat == self@.issued,
    {
        self.ledger.issued_count()
    }

    /// Whether the flag of the current generation is raised.
    pub fn is_cancelling(&self) -> (raised: bool)
        ensures
            raised == self@.raised,
    {
        self.flag.is_raised()
    }

    /// The phase of `generation`; `None` for one that does not exist yet.
    pub fn phase_of(&self, generation: u64) -> (phase: Option<Phase>)
        ensures
            phase == self@.phase(generation as nat),
    {
        if generation > self.generation {
            None
        } else if generation < self.generation {
            Some(Phase::Superseded)
        } else if self.flag.is_raised() {
            Some(Phase::Cancelling)
        } else {
            Some(Phase::Active)
        }
    }

    /// Whether a query through `snapshot` runs to completion.
    pub fn admits(&self, snapshot: &Analysis) -> (open: bool)
        ensures
            open == self@.admits(snapshot@),
    {
        snapshot.generation == self.generation && !self.flag.is_raised() && self.ledger.holds(
            snapshot.id,
        )
    }
}

} // verus!
