//! What holds of the charging point whatever messages come in.
use vstd::prelude::*;

use crate::args::Command;
use crate::bms::Bms;
use crate::calls::call_id;
use crate::charging_session::{
    ChargingSessionSnapshot, SessionView, StateView, bms_at_missed_start, bms_at_start,
    correction_is_held, is_coherent, law_coherence_is_kept, law_correction_is_kept,
    law_session_is_taken_up, law_start_is_coherent,
};
use crate::command::{CommandView, clear_call};
use crate::database::{
    DatabaseView, SnapshotRow, StoredSession, WriteView, db_after_resume, keeps,
    law_kept_session_is_read_back, law_other_writes_leave_session, law_session_stays_kept,
    law_started_session_is_kept, session_in_rows, stored_session,
};
use crate::dispatcher::{can_dispatch, dispatch_leads_to};
use crate::evse::{EnergyTracker, EvseView, Refusal, clears_profile, is_answered, last_selection};
use crate::measurements::MeterValueSelection;
use crate::ocpp::{
    InterfaceView, OcppInterface, after_command, after_message, are_calls_of, blocking_call,
    call_refusal, first_command, message_reply, other_commands, schedules_added,
};
use crate::plan::ChargingPlan;
use crate::profile::{ProfilePeriod, UtcPeriod, law_nothing_to_come_blocks, profile_request};
use crate::schedule::{DEFAULT_NB_OF_PHASES, ScheduleView};
use crate::text::decimal;
use crate::time::{Moment, NoSingleInstant, Timestamp};
use crate::wire::{
    ActionContent, Answer, CallContent, FrameContent, ReplyView, ResetKind, TagView, call_text,
};

verus! {

/// The last reading is always known to the tracker, and readings go up exactly where one is above
/// the one before.
pub proof fn law_readings_are_followed(tracker: EnergyTracker, energy: u64)
    ensures
        tracker.after(energy).reading() == Some(energy),
        tracker.after(energy) is Increasing <==> (tracker.reading() is Some
            && tracker.reading()->0 < energy),
        tracker.after(energy) is Probation <==> tracker is Unknown,
{
}

/// Whether the records go on from earlier ones: nothing that was written is lost or changed.
pub open spec fn goes_on_from(db: DatabaseView, before: DatabaseView) -> bool {
    &&& before.writes.is_prefix_of(db.writes)
    &&& before.next_session_id <= db.next_session_id
    &&& before.next_schedule_id <= db.next_schedule_id
}

/// Whether the session going on is in the store as it is, under a number that no later session
/// gets, and is one of the transactions that were heard of.
pub open spec fn session_is_kept(evse: EvseView) -> bool {
    evse.session matches Some(session) ==> {
        &&& keeps(evse.db, session)
        &&& session.session_id < evse.db.next_session_id
        &&& session.transaction_id <= evse.last_known_tid
    }
}

/// Whether a battery, which can hold some energy, is in its initial state of charge, with no
/// reading of the meter known yet.
pub open spec fn is_fresh(bms: Bms) -> bool {
    &&& bms.capacity > 0
    &&& bms.initial_energy is None
    &&& bms.current_energy is None
    &&& bms.current_soc == bms.initial_soc
}

/// Whether sessions start with a fresh battery, and the one going on stands where its snapshots
/// say.
pub open spec fn session_is_coherent(evse: EvseView) -> bool {
    &&& is_fresh(evse.bms)
    &&& evse.session matches Some(session) ==> is_coherent(session)
}

/// Whether `after` goes on from `before`: what was written stays, the transactions that were heard
/// of stay so, a connector that was heard of stays the one, and commands are only added. The
/// settings of the battery are the same, and the session going on stays in the store, and
/// coherent.
pub open spec fn continues(after: EvseView, before: EvseView) -> bool {
    &&& after.bms == before.bms
    &&& session_is_coherent(before) ==> session_is_coherent(after)
    &&& goes_on_from(after.db, before.db)
    &&& before.last_known_tid <= after.last_known_tid
    &&& before.connector_id is Some ==> after.connector_id == before.connector_id
    &&& before.commands.is_prefix_of(after.commands)
    &&& session_is_kept(before) ==> session_is_kept(after)
}

proof fn lemma_continues_trans(last: EvseView, middle: EvseView, first: EvseView)
    requires
        continues(last, middle),
        continues(middle, first),
    ensures
        continues(last, first),
{
    let a = first.db.writes;
    let b = middle.db.writes;
    let c = last.db.writes;
    assert(a =~= c.subrange(0, a.len() as int)) by {
        assert forall|i: int| 0 <= i < a.len() implies a[i] == c[i] by {
            assert(a[i] == b.subrange(0, a.len() as int)[i]);
            assert(b[i] == c.subrange(0, b.len() as int)[i]);
        }
    }
    let d = first.commands;
    let e = middle.commands;
    let f = last.commands;
    assert(d =~= f.subrange(0, d.len() as int)) by {
        assert forall|i: int| 0 <= i < d.len() implies d[i] == f[i] by {
            assert(d[i] == e.subrange(0, d.len() as int)[i]);
            assert(e[i] == f.subrange(0, e.len() as int)[i]);
        }
    }
}

proof fn lemma_prefix_of_push<T>(s: Seq<T>, a: T, b: T)
    ensures
        s.is_prefix_of(s),
        s.is_prefix_of(s.push(a)),
        s.is_prefix_of(s.push(a).push(b)),
{
    assert(s =~= s.subrange(0, s.len() as int));
    assert(s =~= s.push(a).subrange(0, s.len() as int));
    assert(s =~= s.push(a).push(b).subrange(0, s.len() as int));
}

proof fn lemma_without_schedule(evse: EvseView)
    ensures
        continues(evse.without_schedule(), evse),
{
    lemma_prefix_of_push(evse.commands, CommandView::Reboot, CommandView::Reboot);
    if let Some(schedule) = evse.schedule {
        let write = WriteView::InactivateSchedule { schedule_id: schedule.id };
        lemma_prefix_of_push(evse.db.writes, write, write);
        if let Some(session) = evse.session {
            if keeps(evse.db, session) {
                law_other_writes_leave_session(evse.db, session, write);
            }
        }
    } else {
        lemma_prefix_of_push(
            evse.db.writes,
            WriteView::InactivateSchedule { schedule_id: 0 },
            WriteView::InactivateSchedule { schedule_id: 0 },
        );
    }
}

proof fn lemma_with_silent_schedule(evse: EvseView, schedule: ScheduleView)
    requires
        evse.db.next_schedule_id < i32::MAX,
    ensures
        continues(evse.with_silent_schedule(schedule), evse),
{
    lemma_without_schedule(evse);
    let before = evse.without_schedule();
    let after = evse.with_silent_schedule(schedule);
    let write = WriteView::AddSchedule {
        schedule: ScheduleView { id: before.db.next_schedule_id, ..schedule },
    };
    lemma_prefix_of_push(before.db.writes, write, write);
    lemma_prefix_of_push(before.commands, CommandView::Reboot, CommandView::Reboot);
    if let Some(session) = before.session {
        if keeps(before.db, session) {
            law_other_writes_leave_session(before.db, session, write);
            assert(after.db.writes == before.db.after(write).writes);
        }
    }
    assert(continues(after, before));
    lemma_continues_trans(after, before, evse);
}

proof fn lemma_with_schedule(evse: EvseView, schedule: ScheduleView)
    requires
        evse.db.next_schedule_id < i32::MAX,
    ensures
        continues(evse.with_schedule(schedule), evse),
{
    lemma_with_silent_schedule(evse, schedule);
    let before = evse.with_silent_schedule(schedule);
    let after = evse.with_schedule(schedule);
    let command = CommandView::SetChargingSchedule(before.schedule->0);
    lemma_prefix_of_push(before.commands, command, command);
    assert(before.db.writes =~= before.db.writes.subrange(0, before.db.writes.len() as int));
    assert(continues(after, before));
    lemma_continues_trans(after, before, evse);
}

/// Putting the schedule in force anew, and blocking charging, loses nothing of what was written,
/// and leaves the session going on as it is, in the store too.
pub proof fn law_schedule_leaves_session(evse: EvseView, now: Timestamp)
    requires
        evse.db.next_schedule_id < i32::MAX,
    ensures
        continues(evse.refreshed(now), evse),
        continues(evse.blocked(now), evse),
        evse.refreshed(now).session == evse.session,
        evse.blocked(now).session == evse.session,
{
    lemma_with_silent_schedule(
        evse,
        ScheduleView::blank(crate::schedule::ChargingScheduleState::Active, now),
    );
    lemma_unchanged(evse);
    if let Some(schedule) = evse.schedule {
        let taken = EvseView { schedule: None, ..evse };
        lemma_with_schedule(taken, ScheduleView { set_time: now, ..schedule });
        assert(continues(taken, evse));
        lemma_continues_trans(evse.refreshed(now), taken, evse);
    }
}

proof fn lemma_unchanged(evse: EvseView)
    ensures
        continues(evse, evse),
        forall|after: EvseView|
            after.db == evse.db && after.last_known_tid == evse.last_known_tid
                && after.connector_id == evse.connector_id && after.commands == evse.commands
                && after.session == evse.session && after.bms == evse.bms ==> #[trigger] continues(
                after,
                evse,
            ),
{
    assert(evse.db.writes =~= evse.db.writes.subrange(0, evse.db.writes.len() as int));
    assert(evse.commands =~= evse.commands.subrange(0, evse.commands.len() as int));
}

proof fn lemma_with_session_state(evse: EvseView, state: StateView)
    ensures
        continues(evse.with_session_state(state), evse),
        continues(evse.with_session_state(state).without_session(), evse),
{
    lemma_unchanged(evse);
    if let Some(session) = evse.session {
        let write = WriteView::SetSessionState { session_id: session.session_id, state };
        lemma_prefix_of_push(evse.db.writes, write, write);
        if keeps(evse.db, session) {
            law_session_stays_kept(
                evse.db,
                session,
                session.snapshots[0],
                Timestamp { secs: 0, subsec: 0 },
                0,
                state,
            );
        }
        if is_coherent(session) {
            law_coherence_is_kept(
                session,
                ChargingSessionSnapshot::spec_new(Timestamp { secs: 0, subsec: 0 }, 0),
                state,
            );
        }
    }
}

proof fn lemma_with_session_ended(evse: EvseView, now: Timestamp, error: StateView)
    ensures
        continues(evse.with_session_ended(now, error), evse),
{
    lemma_unchanged(evse);
    if let Some(session) = evse.session {
        let first = session.snapshot_write(
            ChargingSessionSnapshot::spec_new(now, session.snapshots.last().energy),
        );
        let second = WriteView::SetSessionState { session_id: session.session_id, state: error };
        lemma_prefix_of_push(evse.db.writes, first, second);
    }
}

proof fn lemma_after_start(evse: EvseView, content: ActionContent, now: Moment)
    requires
        content is StartTransaction,
        evse.action_refusal(content, now) is None,
    ensures
        continues(evse.after_action(content, now), evse),
{
    let start = content->StartTransaction_0;
    let before = evse.with_session_ended(now.utc, crate::evse::start_error());
    let after = evse.after_start(start, now);
    lemma_with_session_ended(evse, now.utc, crate::evse::start_error());
    let id = before.db.next_session_id;
    let tid = evse.next_tid();
    let bms = bms_at_start(evse.bms, start.meter_start);
    law_started_session_is_kept(
        before.db,
        tid,
        Some(tid),
        bms,
        StateView::Active,
        start.timestamp,
        start.meter_start,
    );
    if is_fresh(evse.bms) {
        law_start_is_coherent(
            id,
            tid,
            evse.bms,
            start.timestamp,
            start.meter_start,
            StateView::Active,
        );
    }
    lemma_prefix_of_push(
        before.db.writes,
        WriteView::AddSession {
            session_id: id,
            state: StateView::Active,
            transaction_id: Some(tid),
        },
        SessionView::unstarted(id, tid, bms, StateView::Active).snapshot_write(
            SessionView::reference(bms, start.timestamp, start.meter_start),
        ),
    );
    lemma_unchanged(before);
    assert(continues(after, before));
    lemma_continues_trans(after, before, evse);
}

proof fn lemma_after_stop(evse: EvseView, content: ActionContent, now: Moment)
    requires
        content is StopTransaction,
        evse.action_refusal(content, now) is None,
    ensures
        continues(evse.after_action(content, now), evse),
{
    let stop = content->StopTransaction_0;
    let reason = StateView::of_reason(crate::evse::reason_named(stop.reason));
    lemma_unchanged(evse);
    match evse.session {
        Some(session) => {
            let first = session.snapshot_write(
                ChargingSessionSnapshot::spec_new(stop.timestamp, stop.meter_stop),
            );
            let second = WriteView::SetSessionState {
                session_id: session.session_id,
                state: reason,
            };
            lemma_prefix_of_push(evse.db.writes, first, second);
            let first = session.snapshot_write(
                ChargingSessionSnapshot::spec_new(now.utc, session.snapshots.last().energy),
            );
            let second = WriteView::SetSessionState {
                session_id: session.session_id,
                state: crate::evse::stop_error(),
            };
            lemma_prefix_of_push(evse.db.writes, first, second);
        },
        None => {
            let id = evse.db.next_session_id;
            lemma_prefix_of_push(
                evse.db.writes,
                WriteView::AddSession {
                    session_id: id,
                    state: reason,
                    transaction_id: Some(stop.transaction_id),
                },
                WriteView::AddSnapshot {
                    session_id: id,
                    snapshot: ChargingSessionSnapshot::spec_new(stop.timestamp, stop.meter_stop),
                },
            );
        },
    }
}

proof fn lemma_with_missed_session(
    evse: EvseView,
    bms: Bms,
    transaction_id: i32,
    energy: u64,
    timestamp: Timestamp,
)
    requires
        evse.db.next_session_id < i32::MAX,
        is_fresh(evse.bms) ==> is_fresh(bms),
    ensures
        continues(evse.with_missed_session(bms, transaction_id, energy, timestamp), evse),
{
    let id = evse.db.next_session_id;
    if is_fresh(bms) {
        law_start_is_coherent(id, transaction_id, bms, timestamp, energy, StateView::Active);
    }
    let bms = bms_at_missed_start(bms, energy);
    law_started_session_is_kept(
        evse.db,
        transaction_id,
        Some(transaction_id),
        bms,
        StateView::Active,
        timestamp,
        energy,
    );
    lemma_prefix_of_push(
        evse.db.writes,
        WriteView::AddSession {
            session_id: id,
            state: StateView::Active,
            transaction_id: Some(transaction_id),
        },
        SessionView::unstarted(id, transaction_id, bms, StateView::Active).snapshot_write(
            SessionView::reference(bms, timestamp, energy),
        ),
    );
    lemma_unchanged(evse);
}

proof fn lemma_after_progress(evse: EvseView, mv: MeterValueSelection, now: Moment)
    requires
        evse.progresses(mv),
    ensures
        continues(evse.after_progress(mv, now), evse),
{
    let session = evse.session->0;
    let snapshot = EvseView::snapshot_of(mv);
    let write = session.snapshot_write(snapshot);
    let after = EvseView {
        session: Some(session.with_snapshot(snapshot)),
        db: evse.db.after(write),
        ..evse
    };
    lemma_unchanged(evse);
    lemma_prefix_of_push(evse.db.writes, write, write);
    if keeps(evse.db, session) {
        law_session_stays_kept(evse.db, session, snapshot, mv.timestamp, 0, StateView::Active);
    }
    if is_coherent(session) {
        law_coherence_is_kept(session, snapshot, StateView::Active);
    }
    assert(continues(after, evse));
    if evse.reaches_cap(mv, now) {
        lemma_with_session_state(after, StateView::SocCapReached);
        let stopping = after.with_session_state(StateView::SocCapReached);
        lemma_continues_trans(stopping, after, evse);
        let command = CommandView::StopTransaction(mv.transaction_id->0);
        lemma_unchanged(stopping);
        lemma_prefix_of_push(stopping.commands, command, command);
        assert(continues(stopping.with_command(command), stopping));
        lemma_continues_trans(stopping.with_command(command), stopping, evse);
    }
}

proof fn lemma_after_meter_value(evse: EvseView, mv: MeterValueSelection, now: Moment)
    requires
        evse.starts_session(mv) ==> evse.db.next_session_id < i32::MAX,
    ensures
        continues(evse.after_meter_value(mv, now), evse),
{
    lemma_unchanged(evse);
    if let Some(energy) = mv.active_energy_import {
        let noted = EvseView { energy_tracker: evse.energy_tracker.after(energy), ..evse };
        lemma_unchanged(noted);
        if evse.progresses(mv) {
            let after = evse.after_progress(mv, now);
            lemma_after_progress(evse, mv, now);
            lemma_unchanged(after);
            let shown = EvseView { energy_tracker: noted.energy_tracker, ..after };
            lemma_continues_trans(shown, after, evse);
        } else if evse.starts_session(mv) {
            let transaction_id = mv.transaction_id->0;
            let mismatched = noted.with_session_state(crate::evse::mismatch_error());
            lemma_with_session_state(noted, crate::evse::mismatch_error());
            lemma_continues_trans(mismatched, noted, evse);
            lemma_unchanged(mismatched);
            let stopped = EvseView { last_known_stop_energy: Some(energy), ..mismatched };
            lemma_continues_trans(stopped, mismatched, evse);
            lemma_with_missed_session(
                mismatched,
                evse.missed_bms(),
                transaction_id,
                energy,
                mv.timestamp,
            );
            lemma_continues_trans(
                mismatched.with_missed_session(
                    evse.missed_bms(),
                    transaction_id,
                    energy,
                    mv.timestamp,
                ),
                mismatched,
                evse,
            );
            lemma_with_missed_session(stopped, evse.bms, transaction_id, energy, mv.timestamp);
            lemma_continues_trans(
                stopped.with_missed_session(evse.bms, transaction_id, energy, mv.timestamp),
                stopped,
                evse,
            );
        }
    }
}

proof fn lemma_after_action(evse: EvseView, content: ActionContent, now: Moment)
    requires
        evse.action_refusal(content, now) is None,
    ensures
        continues(evse.after_action(content, now), evse),
{
    lemma_unchanged(evse);
    match content {
        ActionContent::StatusNotification(status) => {
            if status.connector_id != 0 {
                let time = crate::evse::status_time(status, now);
                let named = crate::charging_point::ChargePointStatus::named(status.status);
                lemma_with_session_ended(evse, time, crate::evse::available_error());
                if let Some(named) = named {
                    lemma_with_session_state(evse, StateView::of_status(named));
                }
                let after = if status.error_code == "NoError"@ {
                    evse.after_sound_status(named, time)
                } else {
                    evse
                };
                assert(continues(after, evse));
            }
        },
        ActionContent::StartTransaction(_) => {
            lemma_after_start(evse, content, now);
        },
        ActionContent::StopTransaction(_) => {
            lemma_after_stop(evse, content, now);
        },
        ActionContent::MeterValues(values) => {
            if let Some(mv) = last_selection(values) {
                let observer = evse.meter_value_observer.after_consolidation(mv);
                let consolidated = evse.meter_value_observer.consolidated(mv);
                let observed = EvseView {
                    meter_value_observer: observer.after_observation(consolidated),
                    ..evse
                };
                lemma_after_meter_value(observed, consolidated, now);
                lemma_continues_trans(
                    observed.after_meter_value(consolidated, now),
                    observed,
                    evse,
                );
            }
        },
        _ => {},
    }
}

/// Whatever message comes in, nothing that was written is lost, the numbers of transactions never
/// go down, and the session going on is in the store as it is, and coherent, if it was so before.
pub proof fn law_messages_go_on(evse: EvseView, frame: Option<FrameContent>, now: Moment)
    ensures
        continues(evse.after_message(frame, now), evse),
        continues(after_message(evse, frame, now), evse),
{
    lemma_unchanged(evse);
    match frame {
        Some(FrameContent::Call { unique_id, content }) => {
            let refreshed = evse.refreshed(now.utc);
            if evse.db.next_schedule_id < i32::MAX {
                law_schedule_leaves_session(evse, now.utc);
            } else if evse.schedule is None {
                assert(refreshed == evse);
            }
            if evse.call_refusal(content, now) is None {
                if evse.refreshes(content, now) {
                    lemma_after_action(refreshed, content, now);
                    lemma_continues_trans(evse.after_call(content, now), refreshed, evse);
                } else {
                    lemma_after_action(evse, content, now);
                }
            }
            if call_refusal(evse, content, now) is None {
                if crate::ocpp::removes_schedule(content, now) {
                    lemma_after_action(refreshed, content, now);
                    lemma_continues_trans(
                        crate::ocpp::after_call(evse, content, now),
                        refreshed,
                        evse,
                    );
                } else {
                    lemma_after_action(evse, content, now);
                }
            }
        },
        Some(FrameContent::Result { result }) => {
            let answered = EvseView { tracker: evse.tracker.after_answer(result), ..evse };
            assert(continues(answered, evse));
            lemma_without_schedule(answered);
            lemma_continues_trans(answered.without_schedule(), answered, evse);
            lemma_unchanged(answered);
        },
        _ => {},
    }
}

/// A server that is started again takes up the session that was going on, as it was: the rows of
/// the store read back, with the same settings of the battery, or with no initial state of charge
/// given, make the same session, however many reference snapshots it has, and the battery goes on
/// from the last reading. The store then still holds the session, which is still coherent.
pub proof fn law_session_survives_restart(
    evse: EvseView,
    stored: StoredSession,
    settings: Bms,
    now: Timestamp,
)
    requires
        session_is_kept(evse),
        evse.session is Some,
        is_coherent(evse.session->0),
        !evse.session->0.state.complete(),
        stored_session(evse.db.writes, evse.session->0.session_id) == Some(stored),
        settings.capacity == evse.session->0.bms.capacity,
        settings.constant_power_loss == evse.session->0.bms.constant_power_loss,
        settings.soc_cap == evse.session->0.bms.soc_cap,
        settings.initial_soc is Unknown || settings.initial_soc == evse.session->0.bms.initial_soc,
    ensures
        ({
            let session = evse.session->0;
            let read = session_in_rows(
                settings,
                session.session_id,
                stored.transaction_id,
                stored.state.text(),
                stored.snapshots.map_values(
                    |snapshot: ChargingSessionSnapshot| SnapshotRow::of(snapshot),
                ),
            );
            &&& read.resumed(now) == (SessionView {
                bms: Bms { current_energy: Some(session.snapshots.last().energy), ..session.bms },
                ..session
            })
            &&& is_coherent(read.resumed(now))
            &&& keeps(db_after_resume(evse.db, read, now), read.resumed(now))
        }),
{
    let session = evse.session->0;
    law_kept_session_is_read_back(evse.db, session, settings, stored);
    law_session_is_taken_up(session, settings, now);
    let read = SessionView { bms: settings, ..session };
    law_session_stays_kept(evse.db, read, session.snapshots[0], now, 0, session.state);
}

/// The same where the user gives another initial state of charge than the one that is worked out,
/// and it can be held: the session that is taken up has that one, its snapshots come to it, and the
/// store holds them.
pub proof fn law_correction_survives_restart(
    evse: EvseView,
    stored: StoredSession,
    settings: Bms,
    now: Timestamp,
)
    requires
        session_is_kept(evse),
        evse.session is Some,
        stored_session(evse.db.writes, evse.session->0.session_id) == Some(stored),
        (SessionView { bms: settings, ..evse.session->0 }).adds_reference(),
        correction_is_held(SessionView { bms: settings, ..evse.session->0 }),
    ensures
        ({
            let session = evse.session->0;
            let read = session_in_rows(
                settings,
                session.session_id,
                stored.transaction_id,
                stored.state.text(),
                stored.snapshots.map_values(
                    |snapshot: ChargingSessionSnapshot| SnapshotRow::of(snapshot),
                ),
            );
            &&& read.resumed(now).snapshots == session.snapshots.push(read.new_reference(now))
            &&& read.resumed(now).bms.initial_soc == settings.initial_soc
            &&& is_coherent(read.resumed(now))
            &&& keeps(db_after_resume(evse.db, read, now), read.resumed(now))
        }),
{
    let session = evse.session->0;
    law_kept_session_is_read_back(evse.db, session, settings, stored);
    let read = SessionView { bms: settings, ..session };
    law_correction_is_kept(read, now);
    law_session_stays_kept(evse.db, read, session.snapshots[0], now, 0, session.state);
}

/// A transaction that starts gets a number above every one that was heard of, and that number is
/// the one in the reply.
pub proof fn law_started_transaction_is_new(evse: EvseView, content: ActionContent, now: Moment)
    requires
        content is StartTransaction,
        evse.action_refusal(content, now) is None,
    ensures
        evse.last_known_tid < evse.next_tid(),
        evse.after_action(content, now).last_known_tid == evse.next_tid(),
        evse.after_action(content, now).session is Some,
        evse.after_action(content, now).session->0.transaction_id == evse.next_tid(),
        evse.reply(content, now) == Some(
            ReplyView::StartTransaction {
                transaction_id: evse.next_tid(),
                info: TagView::accepted(),
            },
        ),
{
}

/// A session is to be stopped exactly where a meter value shows that its limit on the state of
/// charge is reached, it is not over, and its schedule is not nearly done. No other command comes
/// of a meter value. The session is then at its limit, and any other reading of it leaves it in the
/// state that it was in, also where it is at its limit with the schedule nearly done.
pub proof fn law_stopped_at_the_cap(evse: EvseView, mv: MeterValueSelection, now: Moment)
    ensures
        evse.after_meter_value(mv, now).commands == if evse.reaches_cap(mv, now) {
            evse.commands.push(CommandView::StopTransaction(evse.session->0.transaction_id))
        } else {
            evse.commands
        },
        evse.progresses(mv) ==> {
            let after = evse.after_meter_value(mv, now).session;
            &&& after is Some
            &&& after->0.state == if evse.reaches_cap(mv, now) {
                StateView::SocCapReached
            } else {
                evse.session->0.state
            }
        },
        evse.nearly_done(now) ==> !evse.reaches_cap(mv, now),
{
}

/// The charging point once meter values were observed one after the other, each with the clock at
/// the moment beside it.
pub open spec fn after_meter_values(
    evse: EvseView,
    values: Seq<(MeterValueSelection, Moment)>,
) -> EvseView
    decreases values.len(),
{
    if values.len() == 0 {
        evse
    } else {
        after_meter_values(evse, values.drop_last()).after_observed_meter_value(
            values.last().0,
            values.last().1,
        )
    }
}

/// Whether no meter value is one of another transaction.
pub open spec fn only_of(
    values: Seq<(MeterValueSelection, Moment)>,
    transaction_id: i32,
) -> bool {
    forall|i: int|
        #![trigger values[i]]
        0 <= i < values.len() ==> values[i].0.transaction_id is None
            || values[i].0.transaction_id == Some(transaction_id)
}

/// No command comes of the further meter values of a session that is over, however many there are,
/// and the session stays in its state.
pub proof fn law_complete_session_stays(
    evse: EvseView,
    values: Seq<(MeterValueSelection, Moment)>,
)
    requires
        evse.session is Some,
        evse.session->0.state.complete(),
        only_of(values, evse.session->0.transaction_id),
    ensures
        after_meter_values(evse, values).commands == evse.commands,
        after_meter_values(evse, values).session is Some,
        after_meter_values(evse, values).session->0.state == evse.session->0.state,
        after_meter_values(evse, values).session->0.transaction_id
            == evse.session->0.transaction_id,
    decreases values.len(),
{
    if values.len() > 0 {
        let before = values.drop_last();
        assert(only_of(before, evse.session->0.transaction_id)) by {
            assert forall|i: int| #![trigger before[i]] 0 <= i < before.len() implies before[i]
                == values[i] by {}
        }
        law_complete_session_stays(evse, before);
        assert(values[values.len() - 1] == values.last());
    }
}

/// Once a session is to be stopped at its limit, it is not to be stopped again, whatever number of
/// further meter values of it comes in: the one command stays the only one, and the session stays
/// at its limit.
pub proof fn law_stopped_once(
    evse: EvseView,
    mv: MeterValueSelection,
    now: Moment,
    values: Seq<(MeterValueSelection, Moment)>,
)
    requires
        evse.reaches_cap(mv, now),
        only_of(values, evse.session->0.transaction_id),
    ensures
        ({
            let after = after_meter_values(evse.after_meter_value(mv, now), values);
            &&& after.commands == evse.commands.push(
                CommandView::StopTransaction(evse.session->0.transaction_id),
            )
            &&& after.session is Some
            &&& after.session->0.state == StateView::SocCapReached
            &&& after.session->0.transaction_id == evse.session->0.transaction_id
        }),
{
    law_stopped_at_the_cap(evse, mv, now);
    law_complete_session_stays(evse.after_meter_value(mv, now), values);
}

/// What cannot be read, an error, and a call that is refused, change nothing, and are not replied
/// to.
pub proof fn law_refused_changes_nothing(
    evse: EvseView,
    interface: InterfaceView,
    frame: Option<FrameContent>,
    now: Moment,
)
    requires
        match frame {
            None => true,
            Some(FrameContent::Error) => true,
            Some(FrameContent::Call { unique_id, content }) => evse.call_refusal(
                content,
                now,
            ) is Some && call_refusal(evse, content, now) is Some,
            Some(FrameContent::Result { result }) => false,
        },
    ensures
        evse.after_message(frame, now) == evse,
        after_message(evse, frame, now) == evse,
        interface.after_message(frame) == interface,
        evse.message_reply(frame, now) !is Ok || evse.message_reply(frame, now)
            == Ok::<Option<Seq<char>>, Refusal>(None),
        message_reply(evse, frame, now) !is Ok || message_reply(evse, frame, now)
            == Ok::<Option<Seq<char>>, Refusal>(None),
{
}

/// An answer is never replied to, and leaves the session and the battery as they are.
pub proof fn law_answers_are_not_answered(
    evse: EvseView,
    frame: Option<FrameContent>,
    now: Moment,
)
    requires
        frame matches Some(FrameContent::Result { .. }),
    ensures
        evse.message_reply(frame, now) == Ok::<Option<Seq<char>>, Refusal>(None),
        message_reply(evse, frame, now) == Ok::<Option<Seq<char>>, Refusal>(None),
        evse.after_message(frame, now).session == evse.session,
        evse.after_message(frame, now).bms == evse.bms,
        after_message(evse, frame, now) == evse,
{
}

/// A schedule that the charging point does not accept is out of force, in the store too, and any
/// other answer leaves the schedule as it is.
pub proof fn law_rejected_schedule_is_out_of_force(evse: EvseView, answer: Answer)
    ensures
        ({
            let rejected = match answer {
                Answer::ClearChargingProfile(status) => status !is Accepted,
                Answer::SetChargingProfile(status) => status !is Accepted,
                _ => false,
            };
            &&& rejected ==> evse.after_answer(answer).schedule is None
            &&& rejected && evse.schedule is Some ==> evse.after_answer(answer).db == evse.db.after(
                WriteView::InactivateSchedule { schedule_id: evse.schedule->0.id },
            )
            &&& !rejected ==> evse.after_answer(answer) == evse
        }),
{
}

/// Where the charging point has removed its charging profile, the schedule in force is set anew: it
/// keeps its periods, and the charging point is told.
pub proof fn law_removed_schedule_is_set_anew(
    evse: EvseView,
    status: crate::wire::StatusView,
    now: Moment,
)
    requires
        clears_profile(status, now),
        evse.schedule is Some,
        evse.db.next_schedule_id < i32::MAX,
    ensures
        ({
            let after = crate::ocpp::after_call(
                evse,
                ActionContent::StatusNotification(status),
                now,
            );
            &&& after.schedule is Some
            &&& after.schedule->0.periods == evse.schedule->0.periods
            &&& after.schedule->0.set_time == now.utc
            &&& after.commands == evse.commands.push(
                CommandView::SetChargingSchedule(after.schedule->0),
            )
        }),
        status.connector_id != 0 && status.error_code == "NoError"@ ==> evse.after_call(
            ActionContent::StatusNotification(status),
            now,
        ) == crate::ocpp::after_call(evse, ActionContent::StatusNotification(status), now),
{
}

/// Before the charging point reboots, charging is blocked for good: the schedule in force has no
/// periods, and the charging point is told so before it is told to reboot.
pub proof fn law_reboot_is_blocked(
    evse: EvseView,
    command: Command,
    plan: Option<ChargingPlan>,
    now: Moment,
    after: EvseView,
)
    requires
        command is Reboot || command is SetServerIp,
        evse.command_leads_to(command, plan, now, after),
    ensures
        after.schedule is Some,
        after.schedule->0.periods == Map::<i128, crate::schedule::ChargingSchedulePeriod>::empty(),
        after.commands.len() >= 2,
        after.commands.last() == CommandView::Reboot,
        after.commands[after.commands.len() - 2] == CommandView::SetChargingSchedule(
            after.schedule->0,
        ),
{
}

/// The same where the calls of a command are made at once: the call that comes before the reboot
/// sets a limit of 0 W that starts at once and never ends.
pub proof fn law_reboot_calls_block(
    evse: EvseView,
    command: CommandView,
    now: Timestamp,
    calls: Seq<CallContent>,
)
    requires
        command is Reboot || command is SetServerAddress,
        are_calls_of(Some(command), now, calls),
    ensures
        calls.len() == 3,
        calls[2] == CallContent::Reset(ResetKind::Soft),
        calls[1] == blocking_call(now),
        profile_request(now, Seq::empty()).start_schedule == now,
        profile_request(now, Seq::empty()).duration is None,
        profile_request(now, Seq::empty()).valid_to is None,
        profile_request(now, Seq::empty()).charging_schedule_period == seq![
            ProfilePeriod {
                start_period: 0,
                limit: 0,
                number_phases: Some(DEFAULT_NB_OF_PHASES),
            },
        ],
        after_command(evse, Some(command), now).schedule is Some,
        after_command(evse, Some(command), now).schedule->0.periods == Map::<
            i128,
            crate::schedule::ChargingSchedulePeriod,
        >::empty(),
{
    law_nothing_to_come_blocks(now, Seq::<UtcPeriod>::empty());
}

/// A reboot that is asked of a charging point with nothing else to do takes three calls, numbered
/// from 1: the charging profiles are cleared, charging is blocked for good, and the charging point
/// is reset softly. Charging is blocked once, and there is nothing left to call.
pub proof fn law_reboot_takes_three_calls(
    evse: EvseView,
    now: Moment,
    after: InterfaceView,
    evse_after: EvseView,
    texts: Seq<Seq<char>>,
)
    requires
        evse.commands.len() == 0,
        now.utc.representable(),
        OcppInterface::spec_new().with_commands(seq![CommandView::Reboot]).calls_lead_to(
            evse,
            now,
            after,
            evse_after,
            texts,
        ),
    ensures
        texts == seq![
            call_text("1.occp-server-test"@, clear_call()),
            call_text("2.occp-server-test"@, blocking_call(now.utc)),
            call_text("3.occp-server-test"@, CallContent::Reset(ResetKind::Soft)),
        ],
        evse_after == evse.blocked(now.utc),
        forall|then: Moment, last: InterfaceView, evse_last: EvseView, more: Seq<Seq<char>>|
            #[trigger]
            after.calls_lead_to(evse_after, then, last, evse_last, more) ==> last == after
                && evse_last == evse_after && more == Seq::<Seq<char>>::empty(),
{
    let interface = OcppInterface::spec_new().with_commands(seq![CommandView::Reboot]);
    let clear = clear_call();
    let block = blocking_call(now.utc);
    let reset = CallContent::Reset(ResetKind::Soft);
    let calls = seq![clear, block, reset];
    assert(interface.commands =~= seq![CommandView::Reboot]);
    assert(calls + Seq::<CallContent>::empty() =~= calls);
    let (first, second) = choose|first: Seq<CallContent>, second: Seq<CallContent>|
        {
            &&& #[trigger] are_calls_of(first_command(interface.commands), now.utc, first)
            &&& #[trigger] are_calls_of(first_command(evse.commands), now.utc, second)
            &&& after == (InterfaceView {
                commands: other_commands(interface.commands),
                tracker: interface.tracker.after_calls(first + second),
                ..interface
            })
            &&& texts == interface.tracker.texts(first + second)
            &&& evse_after == after_command(
                after_command(
                    EvseView { commands: other_commands(evse.commands), ..evse },
                    first_command(interface.commands),
                    now.utc,
                ),
                first_command(evse.commands),
                now.utc,
            )
        };
    assert(first + second == calls);
    let tracker = interface.tracker;
    assert(texts == tracker.texts(calls));
    let two = calls.drop_last();
    let one = two.drop_last();
    assert(two =~= seq![clear, block]);
    assert(one =~= seq![clear]);
    assert(one.drop_last() =~= Seq::<CallContent>::empty());
    assert(tracker.after_calls(one.drop_last()) == tracker);
    assert(tracker.texts(one.drop_last()) == Seq::<Seq<char>>::empty());
    assert(tracker.after_calls(one).number == 1);
    assert(tracker.after_calls(two).number == 2);
    assert(call_id(1) =~= "1.occp-server-test"@ && call_id(2) =~= "2.occp-server-test"@
        && call_id(3) =~= "3.occp-server-test"@) by {
        reveal_strlit(".occp-server-test");
        reveal_strlit("1.occp-server-test");
        reveal_strlit("2.occp-server-test");
        reveal_strlit("3.occp-server-test");
        assert(decimal(1) =~= seq!['1']);
        assert(decimal(2) =~= seq!['2']);
        assert(decimal(3) =~= seq!['3']);
    }
    assert(tracker.texts(one) =~= seq![call_text("1.occp-server-test"@, clear)]);
    assert(tracker.texts(two) =~= seq![
        call_text("1.occp-server-test"@, clear),
        call_text("2.occp-server-test"@, block),
    ]);
    assert(tracker.texts(calls) =~= seq![
        call_text("1.occp-server-test"@, clear),
        call_text("2.occp-server-test"@, block),
        call_text("3.occp-server-test"@, reset),
    ]);
    assert(after.commands =~= Seq::empty());
    assert(evse_after.commands =~= Seq::empty());
    assert forall|then: Moment, last: InterfaceView, evse_last: EvseView, more: Seq<Seq<char>>|
        #[trigger]
        after.calls_lead_to(evse_after, then, last, evse_last, more) implies last == after
        && evse_last == evse_after && more == Seq::<Seq<char>>::empty() by {
        let none = Seq::<CallContent>::empty();
        assert(none + none =~= none);
    }
}

/// The time zone never stops the calls of a reboot, unless a schedule is to be set along with it.
pub proof fn law_reboot_needs_no_time_zone(
    interface: InterfaceView,
    evse: EvseView,
    now: Moment,
    after: InterfaceView,
    evse_after: EvseView,
    error: NoSingleInstant,
)
    requires
        first_command(interface.commands) matches Some(command) && (command is Reboot
            || command is SetServerAddress),
        first_command(evse.commands) matches Some(command) ==> command !is SetChargingSchedule,
    ensures
        !interface.calls_stop_at_time_zone(evse, now, after, evse_after, error),
{
}

/// Whatever calls are made, nothing that was written is lost, and the session going on is left as
/// it is, in the store too.
pub proof fn law_calls_leave_session(
    interface: InterfaceView,
    evse: EvseView,
    now: Moment,
    after: InterfaceView,
    evse_after: EvseView,
    texts: Seq<Seq<char>>,
)
    requires
        interface.calls_can_be_numbered(evse),
        interface.calls_lead_to(evse, now, after, evse_after, texts),
    ensures
        goes_on_from(evse_after.db, evse.db),
        evse_after.session == evse.session,
        session_is_kept(evse) ==> session_is_kept(evse_after),
{
    let popped = EvseView { commands: other_commands(evse.commands), ..evse };
    let middle = after_command(popped, first_command(interface.commands), now.utc);
    lemma_unchanged(popped);
    if schedules_added(first_command(interface.commands)) > 0 {
        law_schedule_leaves_session(popped, now.utc);
    }
    lemma_unchanged(middle);
    if schedules_added(first_command(evse.commands)) > 0 {
        law_schedule_leaves_session(middle, now.utc);
    }
    lemma_continues_trans(evse_after, middle, popped);
}

/// Whatever command of the user is carried out once the charging point has connected, nothing that
/// was written is lost, and the session going on is left as it is, in the store too.
pub proof fn law_dispatch_leaves_session(
    evse: EvseView,
    command: Command,
    plan: Option<ChargingPlan>,
    now: Moment,
    after: EvseView,
)
    requires
        can_dispatch(evse, command, plan),
        dispatch_leads_to(evse, command, plan, now, after),
    ensures
        continues(after, evse),
        after.session == evse.session,
{
    lemma_unchanged(evse);
    if evse.db.next_schedule_id < i32::MAX {
        law_schedule_leaves_session(evse, now.utc);
    }
    match command {
        Command::Run => {
            if let Some(plan) = plan {
                let schedule = choose|schedule: Option<ScheduleView>| #[trigger]
                    plan.can_come_to(evse.bms, now, schedule) && after == (match schedule {
                        Some(schedule) => evse.with_schedule(schedule),
                        None => evse,
                    });
                if let Some(schedule) = schedule {
                    lemma_with_schedule(evse, schedule);
                }
            }
        },
        Command::StopSession => {
            let stop = CommandView::StopTransaction(evse.session->0.transaction_id);
            lemma_prefix_of_push(evse.commands, stop, stop);
        },
        _ => {},
    }
}

/// A call that is always replied to is replied to under its own id: there is a reply to write, or
/// the call is refused.
pub proof fn law_calls_are_replied_to(evse: EvseView, frame: Option<FrameContent>, now: Moment)
    requires
        is_answered(frame),
    ensures
        frame matches Some(FrameContent::Call { unique_id, content }) && {
            &&& evse.reply(content, now) is Some
            &&& evse.call_refusal(content, now) is None ==> evse.message_reply(frame, now)
                == Ok::<Option<Seq<char>>, Refusal>(
                crate::wire::written_reply(unique_id, evse.reply(content, now)->0),
            )
            &&& call_refusal(evse, content, now) is None ==> message_reply(evse, frame, now)
                == Ok::<Option<Seq<char>>, Refusal>(
                crate::wire::written_reply(unique_id, evse.reply(content, now)->0),
            )
        },
{
}

/// What is reported of the charging point itself, which is connector 0, changes nothing of the
/// connector.
pub proof fn law_connector_zero_is_ignored(
    evse: EvseView,
    status: crate::wire::StatusView,
    now: Moment,
)
    requires
        status.connector_id == 0,
    ensures
        evse.after_status(status, now) == evse,
{
}

} // verus!
