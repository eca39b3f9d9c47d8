//! The status-broadcaster state machine.
//!
//! The broadcaster keeps exactly one live status message in a channel.  Each
//! transition here is a pure function from the current state and the outcome
//! of one remote operation to the next state and the follow-up effect the
//! driver must perform.  The driver (outside the library) performs the
//! network and file operations and feeds their outcomes back in.

use vstd::prelude::*;

verus! {

/// Lifecycle state of the broadcaster.
///
/// `Active` carries the identifier of the message believed to be live.
#[derive(Clone, Copy, Debug, PartialEq, Eq, Structural)]
pub enum MachineState {
    /// Process start: the persisted record has not been resolved yet.
    Uninitialized,
    /// No trusted identifier; the channel's pins are to be scanned.
    Recovering,
    /// A live status message with this identifier is believed to exist.
    Active(u64),
    /// No live message; a fresh one must be sent on the next tick.
    NeedsResend,
}

/// Effect the driver must perform after a transition.
#[derive(Clone, Copy, Debug, PartialEq, Eq, Structural)]
pub enum Effect {
    /// Nothing to do.
    Idle,
    /// Remove the persisted record and optionally sweep recent channel
    /// messages to clear stale clutter.
    ClearAndSweep,
    /// Remove the persisted record.
    ClearStored,
    /// Persist this identifier.
    Persist(u64),
    /// Persist this identifier and pin the message it names.
    PersistAndPin(u64),
}

/// Per-tick work the driver must perform, decided by the current state.
#[derive(Clone, Copy, Debug, PartialEq, Eq, Structural)]
pub enum TickWork {
    /// Edit the message with this identifier in place.
    Edit(u64),
    /// Unpin stale status pins, then send a fresh message.
    UnpinStaleThenSend,
}

/// Startup transition: the persisted record was loaded, and, where one was
/// present, the named message was fetched with outcome `fetch_ok`.
pub open spec fn spec_startup_step(stored: Option<u64>, fetch_ok: bool) -> (MachineState, Effect) {
    match stored {
        Some(id) => {
            if fetch_ok {
                (MachineState::Active(id), Effect::Idle)
            } else {
                (MachineState::Recovering, Effect::ClearAndSweep)
            }
        },
        None => (MachineState::Recovering, Effect::Idle),
    }
}

/// Recovery transition: the pin scan either produced the identifier of an
/// adoptable message or found none.
pub open spec fn spec_scan_step(candidate: Option<u64>) -> (MachineState, Effect) {
    match candidate {
        Some(id) => (MachineState::Active(id), Effect::Persist(id)),
        None => (MachineState::NeedsResend, Effect::Idle),
    }
}

/// Work owed at the start of a tick, by state.
pub open spec fn spec_tick_work(state: MachineState) -> TickWork
    recommends
        state is Active || state is NeedsResend,
{
    match state {
        MachineState::Active(id) => TickWork::Edit(id),
        _ => TickWork::UnpinStaleThenSend,
    }
}

/// Active-state transition: the in-place edit finished with outcome `ok`.
pub open spec fn spec_edit_step(state: MachineState, ok: bool) -> (MachineState, Effect)
    recommends
        state is Active,
{
    if ok {
        (state, Effect::Idle)
    } else {
        (MachineState::NeedsResend, Effect::ClearStored)
    }
}

/// Resend transition: the send either produced a fresh identifier or failed.
pub open spec fn spec_send_step(sent: Option<u64>) -> (MachineState, Effect) {
    match sent {
        Some(id) => (MachineState::Active(id), Effect::PersistAndPin(id)),
        None => (MachineState::NeedsResend, Effect::Idle),
    }
}

/// The state in which every process run begins.
pub fn initial_state() -> (r: MachineState)
    ensures
        r == MachineState::Uninitialized,
{
    MachineState::Uninitialized
}

/// Resolves the persisted record at startup.
///
/// With no record the machine goes straight to recovery.  With a record whose
/// message still fetches, that message is adopted as live; with one whose
/// message is gone, the record is discarded (and the channel swept) before
/// recovery.  `fetch_ok` is only read when a record is present.
pub fn startup_step(state: MachineState, stored: Option<u64>, fetch_ok: bool) -> (r: (
    MachineState,
    Effect,
))
    requires
        state == MachineState::Uninitialized,
    ensures
        r == spec_startup_step(stored, fetch_ok),
        r.0 is Active || r.0 is Recovering,
{
    match stored {
        Some(id) => {
            if fetch_ok {
                (MachineState::Active(id), Effect::Idle)
            } else {
                (MachineState::Recovering, Effect::ClearAndSweep)
            }
        },
        None => (MachineState::Recovering, Effect::Idle),
    }
}

/// Leaves recovery by adopting a scanned pin or falling back to a resend.
///
/// The machine never stays in `Recovering`: a found candidate is adopted and
/// persisted, and an empty scan leads to `NeedsResend`.
pub fn scan_step(state: MachineState, candidate: Option<u64>) -> (r: (MachineState, Effect))
    requires
        state == MachineState::Recovering,
    ensures
        r == spec_scan_step(candidate),
        r.0 is Active || r.0 is NeedsResend,
{
    match candidate {
        Some(id) => (MachineState::Active(id), Effect::Persist(id)),
        None => (MachineState::NeedsResend, Effect::Idle),
    }
}

/// Decides the work owed at the start of a tick.
///
/// A live message is edited in place; otherwise stale pins are unpinned and a
/// fresh message is sent.  A message is only ever sent from `NeedsResend`, so
/// the broadcaster never sends while it believes a message is live.
pub fn tick_work(state: MachineState) -> (r: TickWork)
    requires
        state is Active || state is NeedsResend,
    ensures
        r == spec_tick_work(state),
{
    match state {
        MachineState::Active(id) => TickWork::Edit(id),
        _ => TickWork::UnpinStaleThenSend,
    }
}

/// Records the outcome of an in-place edit.
///
/// A failed edit invalidates the stored record and schedules a resend for the
/// next tick; it never retries immediately and never escalates.
pub fn edit_step(state: MachineState, ok: bool) -> (r: (MachineState, Effect))
    requires
        state is Active,
    ensures
        r == spec_edit_step(state, ok),
        ok ==> r.0 == state,
        !ok ==> r.0 == MachineState::NeedsResend,
{
    if ok {
        (state, Effect::Idle)
    } else {
        (MachineState::NeedsResend, Effect::ClearStored)
    }
}

/// Records the outcome of sending a fresh message.
///
/// A successful send is persisted and pinned and becomes the live message; a
/// failed send leaves the machine in `NeedsResend` to retry on the next tick,
/// so no failure is terminal.
pub fn send_step(state: MachineState, sent: Option<u64>) -> (r: (MachineState, Effect))
    requires
        state == MachineState::NeedsResend,
    ensures
        r == spec_send_step(sent),
        sent is None ==> r.0 == MachineState::NeedsResend,
{
    match sent {
        Some(id) => (MachineState::Active(id), Effect::PersistAndPin(id)),
        None => (MachineState::NeedsResend, Effect::Idle),
    }
}

/// Law: from `Uninitialized` with no persisted identifier and no adoptable
/// pin, one tick whose send succeeds with `new_id` puts the machine in
/// `Active(new_id)`, and `new_id` is exactly the identifier the machine asks
/// to persist.
pub proof fn lemma_first_tick_reaches_active(new_id: u64)
    ensures
        ({
            let (s1, e1) = spec_startup_step(None, false);
            let (s2, e2) = spec_scan_step(None);
            let (s3, e3) = spec_send_step(Some(new_id));
            &&& s1 == MachineState::Recovering
            &&& s2 == MachineState::NeedsResend
            &&& spec_tick_work(s2) == TickWork::UnpinStaleThenSend
            &&& s3 == MachineState::Active(new_id)
            &&& e3 == Effect::PersistAndPin(new_id)
        }),
{
}

/// Law: a persisted identifier that no longer fetches sends the machine
/// through `Recovering` and out of it: the scan's answer decides between
/// `Active` (candidate adopted and persisted) and `NeedsResend`, and the
/// machine never remains in `Recovering`.
pub proof fn lemma_recovery_leaves_recovering(stored_id: u64, candidate: Option<u64>)
    ensures
        spec_startup_step(Some(stored_id), false) == (
            MachineState::Recovering,
            Effect::ClearAndSweep,
        ),
        !(spec_scan_step(candidate).0 is Recovering),
        candidate matches Some(id) ==> spec_scan_step(candidate) == (
            MachineState::Active(id),
            Effect::Persist(id),
        ),
        candidate is None ==> spec_scan_step(candidate).0 == MachineState::NeedsResend,
{
}

/// Law: an edit that fails while `Active(id)` leaves the machine in
/// `NeedsResend` at the start of the next tick, and a send that then succeeds
/// with `new_id` yields `Active(new_id)` with `new_id` persisted.
pub proof fn lemma_edit_failure_recovers_by_resend(id: u64, new_id: u64)
    ensures
        spec_edit_step(MachineState::Active(id), false) == (
            MachineState::NeedsResend,
            Effect::ClearStored,
        ),
        spec_tick_work(MachineState::NeedsResend) == TickWork::UnpinStaleThenSend,
        spec_send_step(Some(new_id)) == (
            MachineState::Active(new_id),
            Effect::PersistAndPin(new_id),
        ),
{
}

} // verus!
