//! What holds of every run of the protocol.
//!
//! The laws speak of [`HostView`], the state that every operation of the host
//! is specified over, and of sequences of operations on it.

use crate::base_db::Edit;
use crate::base_db::Facts;
use crate::host::HostView;
use crate::host::SnapshotView;
use vstd::prelude::*;

verus! {

/// One operation on a host.
pub enum Step {
    /// A snapshot is taken.
    Snapshot,
    /// The given snapshot is cloned.
    Duplicate(SnapshotView),
    /// The given snapshot is released.
    Release(SnapshotView),
    /// One attempt to apply the given edits.
    Edit(Seq<Edit>),
    /// The facts are replaced through raw access.
    RawWrite(Facts),
}

/// Whether `step` may be taken in `host`: raw write access is only for a host
/// without outstanding snapshots, and a snapshot needs an unused identifier.
pub open spec fn enabled(host: HostView, step: Step) -> bool {
    match step {
        Step::Snapshot => host.issued < u64::MAX,
        Step::Duplicate(_) => host.issued < u64::MAX,
        Step::Release(_) => true,
        Step::Edit(_) => true,
        Step::RawWrite(_) => host.exclusive(),
    }
}

/// The host after `step`.
pub open spec fn after(host: HostView, step: Step) -> HostView {
    match step {
        Step::Snapshot => host.issue(),
        Step::Duplicate(snapshot) => host.duplicate(snapshot),
        Step::Release(snapshot) => host.release(snapshot),
        Step::Edit(edits) => host.edit(edits),
        Step::RawWrite(facts) => host.write(facts),
    }
}

/// Whether `steps` can be taken one after the other, starting in `host`.
pub open spec fn possible(host: HostView, steps: Seq<Step>) -> bool
    decreases steps.len(),
{
    steps.len() > 0 ==> enabled(host, steps.first()) && possible(
        after(host, steps.first()),
        steps.drop_first(),
    )
}

/// The host after all of `steps`.
pub open spec fn run(host: HostView, steps: Seq<Step>) -> HostView
    decreases steps.len(),
{
    if steps.len() == 0 {
        host
    } else {
        run(after(host, steps.first()), steps.drop_first())
    }
}

/// The host after each of `handles` was released, from the first to the last.
pub open spec fn release_all(host: HostView, handles: Seq<SnapshotView>) -> HostView
    decreases handles.len(),
{
    if handles.len() == 0 {
        host
    } else {
        release_all(host.release(handles.first()), handles.drop_first())
    }
}

/// The `k`-th snapshot that is issued from `host` on, counted from 0.
pub open spec fn handle(host: HostView, k: nat) -> SnapshotView {
    SnapshotView { id: (host.issued + k) as u64, generation: host.generation }
}

/// The host after a snapshot was taken and then cloned `n` times.
pub open spec fn cloned(host: HostView, n: nat) -> HostView
    decreases n,
{
    if n == 0 {
        host.issue()
    } else {
        cloned(host, (n - 1) as nat).duplicate(handle(host, 0))
    }
}

/// Whether `snapshot` is the snapshot taken from `host` or one of its `n`
/// clones.
pub open spec fn in_family(host: HostView, n: nat, snapshot: SnapshotView) -> bool {
    exists|k: nat| k <= n && snapshot == #[trigger] handle(host, k)
}

/// One step keeps the state well formed and takes no identifier back.
proof fn lemma_step_keeps_wf(host: HostView, step: Step)
    requires
        host.wf(),
        enabled(host, step),
    ensures
        after(host, step).wf(),
        after(host, step).issued >= host.issued,
        after(host, step).generation >= host.generation,
{
}

/// Every step keeps the state well formed.
pub proof fn law_steps_keep_wf(host: HostView, steps: Seq<Step>)
    requires
        host.wf(),
        possible(host, steps),
    ensures
        run(host, steps).wf(),
        run(host, steps).issued >= host.issued,
        run(host, steps).generation >= host.generation,
    decreases steps.len(),
{
    if steps.len() > 0 {
        lemma_step_keeps_wf(host, steps.first());
        law_steps_keep_wf(after(host, steps.first()), steps.drop_first());
    }
}

/// Releasing handles removes exactly the outstanding snapshots that they name,
/// and touches nothing else: not the generation, the flag or the facts.
pub proof fn law_release_is_exact(host: HostView, handles: Seq<SnapshotView>)
    ensures
        release_all(host, handles).generation == host.generation,
        release_all(host, handles).raised == host.raised,
        release_all(host, handles).issued == host.issued,
        release_all(host, handles).facts == host.facts,
        forall|id: u64|
            #[trigger] release_all(host, handles).live.contains(id) <==> (host.live.contains(id)
                && !handles.contains(SnapshotView { id, generation: host.generation })),
    decreases handles.len(),
{
    if handles.len() > 0 {
        let first = handles.first();
        let rest = handles.drop_first();
        let released = host.release(first);
        law_release_is_exact(released, rest);
        assert(release_all(host, handles) == release_all(released, rest));
        assert forall|id: u64|
            #[trigger] release_all(host, handles).live.contains(id) <==> (host.live.contains(id)
                && !handles.contains(SnapshotView { id, generation: host.generation })) by {
            let target = SnapshotView { id, generation: host.generation };
            assert(release_all(released, rest).live.contains(id) <==> (released.live.contains(id)
                && !rest.contains(target)));
            if rest.contains(target) {
                let i = choose|i: int| 0 <= i < rest.len() && rest[i] == target;
                assert(handles[i + 1] == target);
            }
            if handles.contains(target) {
                let i = choose|i: int| 0 <= i < handles.len() && handles[i] == target;
                if i > 0 {
                    assert(rest[i - 1] == target);
                }
            }
            if first == target {
                assert(handles[0] == target);
            }
        }
    }
}

/// Releasing a snapshot twice is releasing it once: the second release finds
/// nothing to release.
pub proof fn law_no_double_release(host: HostView, snapshot: SnapshotView)
    ensures
        host.release(snapshot).release(snapshot) == host.release(snapshot),
        !host.release(snapshot).holds(snapshot),
{
}

/// A snapshot of one generation: between two moments at which the host counts
/// the same snapshot as outstanding, whatever was done to the host, neither the
/// generation nor a single fact has changed. So all queries that succeed
/// through one snapshot read one and the same state.
pub proof fn law_snapshot_reads_one_generation(
    host: HostView,
    steps: Seq<Step>,
    snapshot: SnapshotView,
)
    requires
        host.wf(),
        possible(host, steps),
        host.holds(snapshot),
        run(host, steps).holds(snapshot),
    ensures
        run(host, steps).generation == host.generation,
        run(host, steps).facts == host.facts,
{
    lemma_outstanding_throughout(host, steps, snapshot);
}

/// An identifier is issued once: a snapshot that was issued before `host` and
/// is outstanding after `steps` was outstanding in `host` as well, and the
/// storage was not touched in between.
proof fn lemma_outstanding_throughout(host: HostView, steps: Seq<Step>, snapshot: SnapshotView)
    requires
        host.wf(),
        possible(host, steps),
        (snapshot.id as nat) < host.issued,
        run(host, steps).holds(snapshot),
    ensures
        host.holds(snapshot),
        run(host, steps).generation == host.generation,
        run(host, steps).facts == host.facts,
    decreases steps.len(),
{
    if steps.len() > 0 {
        let next = after(host, steps.first());
        lemma_step_keeps_wf(host, steps.first());
        lemma_outstanding_throughout(next, steps.drop_first(), snapshot);
    }
}

/// Cancellation is permanent: once the flag of a generation is raised, it is
/// raised after every further step, and no query through a snapshot of that
/// generation is admitted again.
pub proof fn law_cancellation_is_permanent(host: HostView, steps: Seq<Step>, generation: nat)
    requires
        host.cancelled(generation),
    ensures
        run(host, steps).cancelled(generation),
        forall|snapshot: SnapshotView|
            snapshot.generation == generation ==> !run(host, steps).admits(snapshot),
    decreases steps.len(),
{
    if steps.len() > 0 {
        law_cancellation_is_permanent(after(host, steps.first()), steps.drop_first(), generation);
    }
}

/// The phase of a generation only advances: from active to cancelling to
/// superseded, and never back.
pub proof fn law_phases_only_advance(host: HostView, steps: Seq<Step>, generation: nat)
    requires
        host.phase(generation) is Some,
    ensures
        run(host, steps).phase(generation) is Some,
        host.phase(generation)->Some_0.rank() <= run(host, steps).phase(generation)->Some_0.rank(),
    decreases steps.len(),
{
    if steps.len() > 0 {
        law_phases_only_advance(after(host, steps.first()), steps.drop_first(), generation);
    }
}

/// A snapshot and its `n` clones are `n + 1` snapshots of one generation,
/// with the identifiers that follow those issued before; each is outstanding
/// and each counts once.
pub proof fn law_clones_count_once(host: HostView, n: nat)
    requires
        host.wf(),
        host.issued + n < u64::MAX,
    ensures
        cloned(host, n).wf(),
        cloned(host, n).generation == host.generation,
        cloned(host, n).raised == host.raised,
        cloned(host, n).facts == host.facts,
        cloned(host, n).issued == host.issued + n + 1,
        forall|id: u64|
            cloned(host, n).live.contains(id) <==> (host.live.contains(id) || host.issued <= id
                <= host.issued + n),
        forall|k: nat| k <= n ==> cloned(host, n).holds(#[trigger] handle(host, k)),
        cloned(host, n).live.len() == host.live.len() + n + 1,
    decreases n,
{
    if n == 0 {
        assert(handle(host, 0) == host.newest());
    } else {
        let before = cloned(host, (n - 1) as nat);
        law_clones_count_once(host, (n - 1) as nat);
        assert(before.holds(handle(host, 0)));
        assert(cloned(host, n) == before.issue());
        assert forall|k: nat| k <= n implies cloned(host, n).holds(#[trigger] handle(host, k)) by {
            if k < n {
                assert(before.holds(handle(host, k)));
            }
        }
    }
}

/// Reference counting is exact: after a snapshot was taken and cloned `n`
/// times, releasing these `n + 1` snapshots, in any order and however often
/// each, leaves exactly the snapshots outstanding that were outstanding
/// before. No hold is lost and none is left behind.
pub proof fn law_clones_release_exactly(host: HostView, n: nat, handles: Seq<SnapshotView>)
    requires
        host.wf(),
        host.issued + n < u64::MAX,
        forall|k: nat| k <= n ==> handles.contains(#[trigger] handle(host, k)),
        forall|i: int| 0 <= i < handles.len() ==> in_family(host, n, #[trigger] handles[i]),
    ensures
        release_all(cloned(host, n), handles).live == host.live,
        release_all(cloned(host, n), handles).generation == host.generation,
        release_all(cloned(host, n), handles).raised == host.raised,
        release_all(cloned(host, n), handles).facts == host.facts,
{
    let family = cloned(host, n);
    let end = release_all(family, handles);
    law_clones_count_once(host, n);
    law_release_is_exact(family, handles);
    assert forall|id: u64| end.live.contains(id) <==> host.live.contains(id) by {
        let target = SnapshotView { id, generation: host.generation };
        if host.live.contains(id) {
            if handles.contains(target) {
                let i = choose|i: int| 0 <= i < handles.len() && handles[i] == target;
                assert(in_family(host, n, handles[i]));
                let k = choose|k: nat| k <= n && handles[i] == #[trigger] handle(host, k);
                assert(false);
            }
        } else if family.live.contains(id) {
            let k = (id - host.issued) as nat;
            assert(handle(host, k) == target);
            assert(handles.contains(handle(host, k)));
        }
    }
    assert(end.live =~= host.live);
}

/// An edit is never lost and never waits for more than the outstanding
/// snapshots. If snapshots are outstanding, the first attempt raises the flag:
/// from then on every poll through any snapshot reports the cancellation, so
/// each reader learns of it at its next poll. Once the snapshots that were
/// outstanding have been released, the next attempt applies the edits to the
/// facts as they were and opens the next generation with a lowered flag.
pub proof fn law_edit_completes_after_releases(
    host: HostView,
    edits: Seq<Edit>,
    handles: Seq<SnapshotView>,
)
    requires
        forall|id: u64|
            host.live.contains(id) ==> handles.contains(
                SnapshotView { id, generation: host.generation },
            ),
    ensures
        host.exclusive() ==> host.edit(edits).generation == host.generation + 1,
        !host.exclusive() ==> host.edit(edits).facts == host.facts && host.edit(edits).generation
            == host.generation,
        !host.exclusive() ==> forall|snapshot: SnapshotView| !host.edit(edits).admits(snapshot),
        release_all(host.cancel(), handles).exclusive(),
        release_all(host.cancel(), handles).edit(edits) == (HostView {
            generation: host.generation + 1,
            raised: false,
            live: Set::empty(),
            issued: host.issued,
            facts: host.facts.apply_all(edits),
        }),
{
    let drained = release_all(host.cancel(), handles);
    law_release_is_exact(host.cancel(), handles);
    assert forall|id: u64| !drained.live.contains(id) by {
        if drained.live.contains(id) {
            assert(host.live.contains(id));
        }
    }
    assert(drained.live =~= Set::<u64>::empty());
}

} // verus!
