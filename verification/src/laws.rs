//! What holds of the protocol as a whole.
//!
//! The laws speak of the same spec functions as the contracts of the
//! functions they are about. Where a law leans on a collaborator, its
//! `requires` says what that collaborator is taken to deliver, or the law is
//! stated of a `World`, in which the lock collaborator reports as it has
//! promised to and every store that is made succeeds.

use vstd::prelude::*;
use crate::blob::{failure, refresh_spec, refreshed, Access, Refresh, State};
use crate::codec::{advance, pending_spec, result_spec, run, Progress, FileRead};
use crate::error::{Error, Stage};

verus! {

/// Progress of a fresh store after `outcomes`, read off the outcomes
/// themselves: the store stops at the first stage that failed, and is done
/// after four that succeeded.
pub open spec fn run_direct(outcomes: Seq<bool>) -> Progress {
    if outcomes.len() == 0 {
        Progress::Creating
    } else if !outcomes[0] {
        Progress::Failed(Stage::CreateTemp)
    } else if outcomes.len() == 1 {
        Progress::Encoding
    } else if !outcomes[1] {
        Progress::Failed(Stage::Encode)
    } else if outcomes.len() == 2 {
        Progress::Flushing
    } else if !outcomes[2] {
        Progress::Failed(Stage::Flush)
    } else if outcomes.len() == 3 {
        Progress::Replacing
    } else if !outcomes[3] {
        Progress::Failed(Stage::Replace)
    } else {
        Progress::Stored
    }
}

/// Step by step or read off at once, the progress of a store is the same.
pub proof fn lemma_run_is_direct(outcomes: Seq<bool>)
    ensures
        run(outcomes) == run_direct(outcomes),
    decreases outcomes.len(),
{
    if outcomes.len() > 0 {
        let earlier = outcomes.drop_last();
        lemma_run_is_direct(earlier);
        assert(forall|i: int| 0 <= i < earlier.len() ==> earlier[i] == outcomes[i]);
    }
}

/// The stage that a fresh store carried out as its `k`-th, counted from
/// zero, where `outcomes` are the outcomes it has seen.
pub open spec fn carried_out(outcomes: Seq<bool>, k: int) -> Option<Stage> {
    pending_spec(run(outcomes.take(k)))
}

/// A store replaces the backing file only as its fourth stage, after the
/// staging file was created, written and flushed, each with success. A
/// store that is interrupted or fails before that has not touched the
/// backing file.
pub proof fn lemma_replace_comes_last(outcomes: Seq<bool>, k: int)
    requires
        0 <= k < outcomes.len(),
        carried_out(outcomes, k) == Some(Stage::Replace),
    ensures
        k == 3,
        outcomes[0],
        outcomes[1],
        outcomes[2],
{
    let seen = outcomes.take(k);
    lemma_run_is_direct(seen);
    assert(forall|i: int| 0 <= i < seen.len() ==> seen[i] == outcomes[i]);
}

/// A store that is interrupted before its fourth stage has not replaced the
/// backing file: none of the stages it carried out is the replacement.
pub proof fn lemma_interrupted_store_spares_backing_file(outcomes: Seq<bool>, k: int)
    requires
        outcomes.len() <= 3,
        0 <= k < outcomes.len(),
    ensures
        carried_out(outcomes, k) != Some(Stage::Replace),
{
    if carried_out(outcomes, k) == Some(Stage::Replace) {
        lemma_replace_comes_last(outcomes, k);
    }
}

/// A store reports success if and only if all four stages were carried out
/// and each succeeded.
pub proof fn lemma_stored_iff_every_stage_succeeded(outcomes: Seq<bool>)
    ensures
        result_spec(run(outcomes)) == Some(Ok::<(), Error>(())) <==> outcomes.len() >= 4
            && outcomes[0] && outcomes[1] && outcomes[2] && outcomes[3],
{
    lemma_run_is_direct(outcomes);
}

/// A store that has ended asks for no further stage and is not moved by
/// further outcomes.
pub proof fn lemma_ended_store_stays(progress: Progress, ok: bool)
    requires
        result_spec(progress) is Some,
    ensures
        pending_spec(progress) is None,
        advance(progress, ok) == progress,
{
}

/// While a stage is pending a store has no outcome, and once it has none
/// pending it has one.
pub proof fn lemma_pending_or_ended(progress: Progress)
    ensures
        pending_spec(progress) is Some <==> result_spec(progress) is None,
{
}

/// Staleness reaches every handle: where another handle has committed
/// `committed`, so that the lock collaborator reports this acquisition dirty
/// and the backing file decodes to `committed`, the acquisition succeeds and
/// the cached copy is `committed`, whatever it was before.
pub proof fn lemma_commit_reaches_stale_handle<T: Default>(cached: T, committed: T, after: T)
    requires
        refreshed(cached, refresh_spec(Access::Dirty(FileRead::Decoded(committed))), after),
    ensures
        failure(refresh_spec(Access::Dirty(FileRead::Decoded(committed)))) is None,
        after == committed,
{
}

/// A clean acquisition shows the cached copy as it is and reads no file.
pub proof fn lemma_clean_keeps_cached_copy<T: Default>(cached: T, after: T)
    requires
        refreshed(cached, refresh_spec(Access::<T>::Clean), after),
    ensures
        failure(refresh_spec(Access::<T>::Clean)) is None,
        after == cached,
{
}

/// A backing file that cannot be opened or decoded is never taken for a
/// missing one: the acquisition fails and the cached copy stays.
pub proof fn lemma_corrupt_file_is_an_error<T: Default>(cached: T, after: T)
    requires
        refreshed(cached, refresh_spec(Access::<T>::Dirty(FileRead::Undecodable)), after),
    ensures
        failure(refresh_spec(Access::<T>::Dirty(FileRead::Undecodable))) == Some(Error::Decode),
        failure(refresh_spec(Access::<T>::Dirty(FileRead::OpenFailed))) == Some(Error::Io(Stage::Open)),
        after == cached,
{
}

/// One exclusive session of some handle: the handle's cached copy before
/// it, and what the lock collaborator reports of the acquisition.
pub struct Session<T> {
    /// The handle's cached copy before the session.
    pub cached: T,
    /// What the lock collaborator reports.
    pub state: State,
}

/// What a session observes while `stored` is the value in the backing file.
pub open spec fn session_access<T>(session: Session<T>, stored: T) -> Access<T> {
    match session.state {
        State::Clean => Access::Clean,
        State::Dirty => Access::Dirty(FileRead::Decoded(stored)),
    }
}

/// The lock collaborator's promise: a session that is reported clean
/// belongs to a handle whose cached copy is the stored value.
pub open spec fn coherent<T>(session: Session<T>, stored: T) -> bool {
    session.state == State::Clean ==> session.cached == stored
}

/// The value that the write view of a session shows at first.
pub open spec fn shown<T>(session: Session<T>, stored: T) -> T {
    match refresh_spec(session_access(session, stored)) {
        Refresh::Replace(value) => value,
        _ => session.cached,
    }
}

/// The stored value after `sessions`, one after the other, have each taken
/// a write view, applied `update` to the value and committed it.
pub open spec fn stored_after<T>(base: T, sessions: Seq<Session<T>>, update: spec_fn(T) -> T) -> T
    decreases sessions.len(),
{
    if sessions.len() == 0 {
        base
    } else {
        update(shown(sessions.last(), stored_after(base, sessions.drop_last(), update)))
    }
}

/// `update` applied `n` times to `base`.
pub open spec fn iterate<T>(update: spec_fn(T) -> T, n: nat, base: T) -> T
    decreases n,
{
    if n == 0 {
        base
    } else {
        update(iterate(update, (n - 1) as nat, base))
    }
}

/// The write view of a session shows what the contract of `get_mut` says:
/// the acquisition does not fail, and the value it leaves in the cached copy
/// is the one shown.
pub proof fn lemma_session_shows<T: Default>(session: Session<T>, stored: T, after: T)
    requires
        refreshed(session.cached, refresh_spec(session_access(session, stored)), after),
    ensures
        failure(refresh_spec(session_access(session, stored))) is None,
        after == shown(session, stored),
{
}

/// No update is lost: after any number of exclusive sessions, by whichever
/// handles, each applying `update` once, the stored value is `update`
/// applied that many times to the value stored at first.
pub proof fn lemma_no_lost_update<T>(base: T, sessions: Seq<Session<T>>, update: spec_fn(T) -> T)
    requires
        forall|i: int|
            0 <= i < sessions.len() ==> coherent(
                #[trigger] sessions[i],
                stored_after(base, sessions.take(i), update),
            ),
    ensures
        stored_after(base, sessions, update) == iterate(update, sessions.len(), base),
    decreases sessions.len(),
{
    if sessions.len() > 0 {
        let earlier = sessions.drop_last();
        assert forall|i: int| 0 <= i < earlier.len() implies coherent(
            #[trigger] earlier[i],
            stored_after(base, earlier.take(i), update),
        ) by {
            assert(earlier[i] == sessions[i]);
            assert(earlier.take(i) =~= sessions.take(i));
        }
        lemma_no_lost_update(base, earlier, update);
        assert(sessions.take(sessions.len() - 1) =~= earlier);
        assert(coherent(sessions[sessions.len() - 1], stored_after(base, earlier, update)));
    }
}

/// Counting up loses nothing: sessions that each add one leave the count
/// at the first value plus the number of sessions.
pub proof fn lemma_increments_add_up(base: int, sessions: Seq<Session<int>>)
    requires
        forall|i: int|
            0 <= i < sessions.len() ==> coherent(
                #[trigger] sessions[i],
                stored_after(base, sessions.take(i), |count: int| count + 1),
            ),
    ensures
        stored_after(base, sessions, |count: int| count + 1) == base + sessions.len(),
{
    let update = |count: int| count + 1;
    lemma_no_lost_update(base, sessions, update);
    lemma_iterated_increment(sessions.len(), base);
}

/// Adding one `n` times adds `n`.
pub proof fn lemma_iterated_increment(n: nat, base: int)
    ensures
        iterate(|count: int| count + 1, n, base) == base + n,
    decreases n,
{
    if n > 0 {
        lemma_iterated_increment((n - 1) as nat, base);
    }
}

/// The handles over one backing file, as they stand between two sessions.
pub struct World<T> {
    /// The value in the backing file.
    pub stored: T,
    /// The cached copy of each handle, by the handle's number.
    pub cached: Map<nat, T>,
    /// The handles that have released a lock since the last exclusive
    /// release of any other handle.
    pub clean: Set<nat>,
}

/// What the lock collaborator reports to `handle`: clean if no other handle
/// has released an exclusive lock since this one last released a lock, and
/// dirty else, as on a handle's first acquisition.
pub open spec fn report<T>(world: World<T>, handle: nat) -> State {
    if world.clean.contains(handle) {
        State::Clean
    } else {
        State::Dirty
    }
}

/// The next session of `handle`.
pub open spec fn session_of<T>(world: World<T>, handle: nat) -> Session<T> {
    Session { cached: world.cached[handle], state: report(world, handle) }
}

/// Every handle that will be reported clean caches the stored value.
pub open spec fn coherent_world<T>(world: World<T>) -> bool {
    forall|handle: nat| #[trigger]
        world.clean.contains(handle) ==> world.cached.dom().contains(handle)
            && world.cached[handle] == world.stored
}

/// The world after `handle` has taken a read view and released it: its
/// cached copy is what the view showed, and its session has caught up.
pub open spec fn after_read<T>(world: World<T>, handle: nat) -> World<T> {
    World {
        stored: world.stored,
        cached: world.cached.insert(handle, shown(session_of(world, handle), world.stored)),
        clean: world.clean.insert(handle),
    }
}

/// The world after `handle` has taken a write view, applied `update` to the
/// value, committed it and released the view: the value is stored and
/// cached, and every other handle will be reported dirty.
pub open spec fn after_write<T>(world: World<T>, handle: nat, update: spec_fn(T) -> T) -> World<T> {
    let value = update(shown(session_of(world, handle), world.stored));
    World { stored: value, cached: world.cached.insert(handle, value), clean: set![handle] }
}

/// The world after the handles `writers` have written, one after the other.
pub open spec fn after_writes<T>(world: World<T>, writers: Seq<nat>, update: spec_fn(T) -> T) -> World<T>
    decreases writers.len(),
{
    if writers.len() == 0 {
        world
    } else {
        after_write(after_writes(world, writers.drop_last(), update), writers.last(), update)
    }
}

/// In a coherent world every view shows the stored value, whichever handle
/// takes it and whatever that handle had cached.
pub proof fn lemma_view_shows_stored<T>(world: World<T>, handle: nat)
    requires
        coherent_world(world),
    ensures
        failure(refresh_spec(session_access(session_of(world, handle), world.stored))) is None,
        shown(session_of(world, handle), world.stored) == world.stored,
{
    if world.clean.contains(handle) {
        assert(world.cached[handle] == world.stored);
    }
}

/// Reading keeps the world coherent and the stored value as it is.
pub proof fn lemma_read_keeps_coherence<T>(world: World<T>, handle: nat)
    requires
        coherent_world(world),
    ensures
        coherent_world(after_read(world, handle)),
        after_read(world, handle).stored == world.stored,
{
    lemma_view_shows_stored(world, handle);
    let after = after_read(world, handle);
    assert forall|other: nat| #[trigger] after.clean.contains(other) implies after.cached.dom().contains(
        other,
    ) && after.cached[other] == after.stored by {
        if other != handle {
            assert(world.clean.contains(other));
        }
    }
}

/// Writing keeps the world coherent, and stores `update` of the value that
/// was stored before: the writer saw that value, not a stale one.
pub proof fn lemma_write_keeps_coherence<T>(world: World<T>, handle: nat, update: spec_fn(T) -> T)
    requires
        coherent_world(world),
    ensures
        coherent_world(after_write(world, handle, update)),
        after_write(world, handle, update).stored == update(world.stored),
{
    lemma_view_shows_stored(world, handle);
}

/// Staleness reaches every handle: once `writer` has committed, the next
/// view of any handle, `reader`, shows the committed value.
pub proof fn lemma_commit_reaches_every_handle<T>(
    world: World<T>,
    writer: nat,
    reader: nat,
    update: spec_fn(T) -> T,
)
    requires
        coherent_world(world),
    ensures
        shown(
            session_of(after_write(world, writer, update), reader),
            after_write(world, writer, update).stored,
        ) == update(world.stored),
        reader != writer ==> report(after_write(world, writer, update), reader) == State::Dirty,
{
    lemma_write_keeps_coherence(world, writer, update);
    lemma_view_shows_stored(after_write(world, writer, update), reader);
}

/// No update is lost: after any handles have written one after the other,
/// each applying `update` once, the stored value is `update` applied that
/// many times to the value stored at first.
pub proof fn lemma_writes_lose_nothing<T>(world: World<T>, writers: Seq<nat>, update: spec_fn(T) -> T)
    requires
        coherent_world(world),
    ensures
        coherent_world(after_writes(world, writers, update)),
        after_writes(world, writers, update).stored == iterate(update, writers.len(), world.stored),
    decreases writers.len(),
{
    if writers.len() > 0 {
        lemma_writes_lose_nothing(world, writers.drop_last(), update);
        lemma_write_keeps_coherence(
            after_writes(world, writers.drop_last(), update),
            writers.last(),
            update,
        );
    }
}

/// Counting up loses nothing: handles that each add one leave the count at
/// the first value plus the number of sessions.
pub proof fn lemma_counting_loses_nothing(world: World<int>, writers: Seq<nat>)
    requires
        coherent_world(world),
    ensures
        after_writes(world, writers, |count: int| count + 1).stored == world.stored + writers.len(),
{
    lemma_writes_lose_nothing(world, writers, |count: int| count + 1);
    lemma_iterated_increment(writers.len(), world.stored);
}

/// A world in which no handle has released a lock yet is coherent, whatever
/// the handles have cached: each will be reported dirty first.
pub proof fn lemma_fresh_world_is_coherent<T>(stored: T, cached: Map<nat, T>)
    ensures
        coherent_world(World { stored, cached, clean: Set::<nat>::empty() }),
{
}

} // verus!
