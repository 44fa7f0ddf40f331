//! What comes of each report of the charging point, field by field.
use vstd::prelude::*;

use crate::args::Command;
use crate::bms::{
    Bms, SoC, is_charged_by, law_limit_is_reached, law_reading_charges_battery, share_is_held,
};
use crate::calls::law_first_call_is_first;
use crate::charging_point::{Reason, law_reason_names, law_status_names};
use crate::charging_session::{ChargingSessionSnapshot, SessionView, StateView};
use crate::command::CommandView;
use crate::database::{DatabaseView, WriteView, lemma_stored_after, stored_session};
use crate::evse::{EnergyTracker, EvseView, Refusal, last_selection};
use crate::measurements::{DpmSelection, MeterValueSelection, MeterValueView};
use crate::plan::ChargingPlan;
use crate::profile::{ProfileFilter, UtcPeriod, profile_request, resolves};
use crate::schedule::{ScheduleView, in_order};
use crate::time::{LocalTime, Moment, NoSingleInstant, Timestamp, law_first_minute_of_monday};
use crate::wire::{
    ActionContent, Answer, AnswerStatus, BootStatus, CallContent, FrameContent, IdTagStatus,
    MeterValuesView, ReplyView, ResetKind, ResultContent, StartTransaction, StatusView, StopView,
    TagView, TransferStatus, reply_text,
};

verus! {

/// Whether nothing but the session going on, the connector and what was written has changed.
pub open spec fn differs_in_session_only(after: EvseView, before: EvseView) -> bool {
    &&& after.bms == before.bms
    &&& after.last_known_tid == before.last_known_tid
    &&& after.energy_tracker == before.energy_tracker
    &&& after.last_known_stop_energy == before.last_known_stop_energy
    &&& after.meter_value_observer == before.meter_value_observer
    &&& after.last_dpm == before.last_dpm
    &&& after.schedule == before.schedule
    &&& after.commands == before.commands
    &&& after.call_queue == before.call_queue
    &&& after.tracker == before.tracker
    &&& after.dpm_reports == before.dpm_reports
    &&& after.db.next_session_id == before.db.next_session_id
    &&& after.db.next_schedule_id == before.db.next_schedule_id
}

/// Whether a state of charge is that of a battery once the meter shows a reading. A reading that is
/// not above the last one leaves it as it is. One above it charges the battery by the energy since
/// the first reading.
pub open spec fn is_soc_at(bms: Bms, energy: u64, soc: SoC) -> bool {
    let last = if bms.current_energy is Some {
        bms.current_energy
    } else {
        bms.initial_energy
    };
    &&& bms.initial_energy is None || energy <= last->0 ==> soc == bms.current_soc
    &&& bms.initial_energy is Some && bms.initial_energy->0 <= last->0 < energy && bms.capacity > 0
        && share_is_held(energy - bms.initial_energy->0, bms.capacity) ==> is_charged_by(
        bms.initial_soc,
        soc,
        energy - bms.initial_energy->0,
        bms.capacity,
    )
}

/// Whether a snapshot of a session holds a reading of the meter at a time, with the state of charge
/// at that reading, and nothing else.
pub open spec fn is_plain_reading(
    snapshot: ChargingSessionSnapshot,
    session: SessionView,
    timestamp: Timestamp,
    energy: u64,
) -> bool {
    &&& snapshot.timestamp == timestamp
    &&& snapshot.energy == energy
    &&& !snapshot.is_reference
    &&& snapshot.power is None
    &&& snapshot.l1_voltage is None
    &&& snapshot.temperature is None
    &&& snapshot.soc_cap is None
    &&& is_soc_at(session.bms, energy, snapshot.soc)
}

/// Whether the records go on with the end of a session, in the store too: a last reading, and the
/// state that it ended in. Of other sessions nothing is written.
pub open spec fn session_is_ended(
    after: DatabaseView,
    before: DatabaseView,
    session: SessionView,
    timestamp: Timestamp,
    energy: u64,
    state: StateView,
) -> bool {
    let id = session.session_id;
    &&& after.writes.len() == before.writes.len() + 2
    &&& after.writes.take(before.writes.len() as int) == before.writes
    &&& after.writes[before.writes.len() as int] matches WriteView::AddSnapshot {
        session_id,
        snapshot,
    } && session_id == id && is_plain_reading(snapshot, session, timestamp, energy)
    &&& after.writes[before.writes.len() as int + 1] == (WriteView::SetSessionState {
        session_id: id,
        state,
    })
    &&& stored_session(before.writes, id) is Some ==> {
        let stored = stored_session(after.writes, id);
        let was = stored_session(before.writes, id)->0;
        &&& stored is Some
        &&& stored->0.state == state
        &&& stored->0.transaction_id == was.transaction_id
        &&& stored->0.snapshots.len() == was.snapshots.len() + 1
        &&& stored->0.snapshots.drop_last() == was.snapshots
        &&& is_plain_reading(stored->0.snapshots.last(), session, timestamp, energy)
    }
    &&& forall|other: i32|
        other != id ==> #[trigger] stored_session(after.writes, other) == stored_session(
            before.writes,
            other,
        )
}

/// Whether the records go on with a session being put into a state, in the store too, unless it is
/// in that state already. Of other sessions nothing is written.
pub open spec fn session_is_put(
    after: DatabaseView,
    before: DatabaseView,
    session: SessionView,
    state: StateView,
) -> bool {
    let id = session.session_id;
    &&& session.state == state ==> after.writes == before.writes
    &&& session.state != state ==> after.writes == before.writes.push(
        WriteView::SetSessionState { session_id: id, state },
    )
    &&& stored_session(before.writes, id) is Some && stored_session(before.writes, id)->0.state
        == session.state ==> {
        let stored = stored_session(after.writes, id);
        let was = stored_session(before.writes, id)->0;
        &&& stored is Some
        &&& stored->0.state == state
        &&& stored->0.transaction_id == was.transaction_id
        &&& stored->0.snapshots == was.snapshots
    }
    &&& forall|other: i32|
        other != id ==> #[trigger] stored_session(after.writes, other) == stored_session(
            before.writes,
            other,
        )
}

/// Whether a state is one of a session that goes on, or of which nothing is known.
pub open spec fn goes_on(state: StateView) -> bool {
    ||| state == StateView::Active
    ||| state == StateView::SuspendedByEvse
    ||| state == StateView::SuspendedByEv
    ||| state == StateView::Unknown
}

/// Whether a session is put into a state by the end of its transaction, for a reason with the given
/// name.
pub open spec fn ends_as(name: Option<Seq<char>>, state: StateView) -> bool {
    let known = name is Some && (name->0 == "Local"@ || name->0 == "Remote"@ || name->0
        == "UnlockCommand"@ || name->0 == "Reboot"@ || name->0 == "DeAuthorized"@ || name->0
        == "EmergencyStop"@ || name->0 == "EVDisconnected"@ || name->0 == "HardReset"@ || name->0
        == "SoftReset"@ || name->0 == "PowerLoss"@ || name->0 == "Other"@);
    &&& name == Some("Local"@) ==> state == StateView::StoppedByUser
    &&& name == Some("Remote"@) ==> state == StateView::StoppedByUser
    &&& name == Some("UnlockCommand"@) ==> state == StateView::UnlockCommandFromServer
    &&& name == Some("Reboot"@) ==> state == StateView::Reboot
    &&& name == Some("DeAuthorized"@) ==> state == StateView::Error("de-authorized"@)
    &&& name == Some("EmergencyStop"@) ==> state == StateView::Error("emergency stop"@)
    &&& name == Some("EVDisconnected"@) ==> state == StateView::Error("EV disconnected"@)
    &&& name == Some("HardReset"@) ==> state == StateView::Error("hard reset"@)
    &&& name == Some("SoftReset"@) ==> state == StateView::Error("soft reset"@)
    &&& name == Some("PowerLoss"@) ==> state == StateView::Error("power loss"@)
    &&& name == Some("Other"@) ==> state == StateView::Error("other"@)
    &&& !known ==> state == StateView::Error("stopped for unknown reason"@)
}

proof fn lemma_soc_at(bms: Bms, energy: u64)
    ensures
        is_soc_at(bms, energy, bms.with_energy(energy).current_soc),
{
    let last = if bms.current_energy is Some {
        bms.current_energy
    } else {
        bms.initial_energy
    };
    if bms.initial_energy is Some && bms.initial_energy->0 <= last->0 < energy && bms.capacity > 0
        && share_is_held(energy - bms.initial_energy->0, bms.capacity) {
        law_reading_charges_battery(bms, energy);
    }
}

proof fn lemma_ended(
    db: DatabaseView,
    session: SessionView,
    timestamp: Timestamp,
    energy: u64,
    state: StateView,
)
    ensures
        session_is_ended(
            session.db_after_stop(db, timestamp, energy, state),
            db,
            session,
            timestamp,
            energy,
            state,
        ),
{
    let id = session.session_id;
    let first = session.snapshot_write(ChargingSessionSnapshot::spec_new(timestamp, energy));
    let second = WriteView::SetSessionState { session_id: id, state };
    let after = session.db_after_stop(db, timestamp, energy, state);
    lemma_soc_at(session.bms, energy);
    lemma_stored_after(db, first, id);
    lemma_stored_after(db.after(first), second, id);
    assert(after.writes.take(db.writes.len() as int) =~= db.writes);
    if stored_session(db.writes, id) is Some {
        let was = stored_session(db.writes, id)->0;
        let stored = stored_session(after.writes, id)->0;
        assert(stored.snapshots.drop_last() =~= was.snapshots);
    }
    assert forall|other: i32| other != id implies #[trigger] stored_session(after.writes, other)
        == stored_session(db.writes, other) by {
        lemma_stored_after(db, first, other);
        lemma_stored_after(db.after(first), second, other);
    }
}

proof fn lemma_put(db: DatabaseView, session: SessionView, state: StateView)
    ensures
        session_is_put(session.db_after_state(db, state), db, session, state),
{
    let id = session.session_id;
    let write = WriteView::SetSessionState { session_id: id, state };
    lemma_stored_after(db, write, id);
    assert forall|other: i32| other != id implies #[trigger] stored_session(
        session.db_after_state(db, state).writes,
        other,
    ) == stored_session(db.writes, other) by {
        lemma_stored_after(db, write, other);
    }
}

/// Once the end of the transaction of the session going on was reported, the store holds the session
/// with one more snapshot: that of the reading at the end, at the time of the report, with the state
/// of charge of the battery at that reading. The session is over, in the state of the reason, and
/// none is going on any more. The reading is the last one known.
pub proof fn law_end_of_session_is_kept(evse: EvseView, stop: StopView, now: Moment)
    requires
        evse.session is Some,
        evse.session->0.transaction_id == stop.transaction_id,
    ensures
        ({
            let after = evse.after_stop(stop, now);
            &&& after.session is None
            &&& exists|state: StateView|
                #![trigger ends_as(stop.reason, state)]
                ends_as(stop.reason, state) && session_is_ended(
                    after.db,
                    evse.db,
                    evse.session->0,
                    stop.timestamp,
                    stop.meter_stop,
                    state,
                )
            &&& after.connector_id == evse.connector_id
            &&& after.last_known_stop_energy == Some(stop.meter_stop)
            &&& after.energy_tracker.reading() == Some(stop.meter_stop)
            &&& differs_in_session_only(
                EvseView {
                    last_known_stop_energy: evse.last_known_stop_energy,
                    energy_tracker: evse.energy_tracker,
                    ..after
                },
                evse,
            )
        }),
{
    let state = StateView::of_reason(crate::evse::reason_named(stop.reason));
    lemma_reason(stop.reason);
    lemma_ended(evse.db, evse.session->0, stop.timestamp, stop.meter_stop, state);
}

proof fn lemma_reason(name: Option<Seq<char>>)
    ensures
        ends_as(name, StateView::of_reason(crate::evse::reason_named(name))),
{
    if let Some(text) = name {
        law_reason_names(text);
        match Reason::named(text) {
            None => {},
            Some(reason) => {
                assert(reason is DeAuthorized ==> name == Some("DeAuthorized"@));
            },
        }
    }
}

/// Once the end of another transaction was reported, the session going on is over, with an error,
/// its last reading and the time of the clock. The number of the other transaction was heard of.
pub proof fn law_end_of_other_transaction_ends_session(evse: EvseView, stop: StopView, now: Moment)
    requires
        evse.session is Some,
        evse.session->0.transaction_id != stop.transaction_id,
    ensures
        ({
            let after = evse.after_stop(stop, now);
            &&& after.session is None
            &&& session_is_ended(
                after.db,
                evse.db,
                evse.session->0,
                now.utc,
                evse.session->0.snapshots.last().energy,
                StateView::Error("Got stop transaction for another session"@),
            )
            &&& after.connector_id == evse.connector_id
            &&& after.last_known_tid >= evse.last_known_tid
            &&& after.last_known_tid >= stop.transaction_id
            &&& after.last_known_tid == evse.last_known_tid || after.last_known_tid
                == stop.transaction_id
            &&& after.last_known_stop_energy == Some(stop.meter_stop)
            &&& after.energy_tracker.reading() == Some(stop.meter_stop)
            &&& differs_in_session_only(
                EvseView {
                    last_known_stop_energy: evse.last_known_stop_energy,
                    energy_tracker: evse.energy_tracker,
                    last_known_tid: evse.last_known_tid,
                    ..after
                },
                evse,
            )
        }),
{
    lemma_ended(
        evse.db,
        evse.session->0,
        now.utc,
        evse.session->0.snapshots.last().energy,
        StateView::Error("Got stop transaction for another session"@),
    );
}

/// The end of a transaction without a session is kept as a session of its own, under the next
/// number: one snapshot with the reading at the end, of which no state of charge is known, in the
/// state of the reason.
pub proof fn law_end_of_missed_transaction_is_kept(evse: EvseView, stop: StopView, now: Moment)
    requires
        evse.session is None,
        evse.db.next_session_id < i32::MAX,
    ensures
        ({
            let after = evse.after_stop(stop, now);
            let id = evse.db.next_session_id;
            let stored = stored_session(after.db.writes, id);
            &&& after.session is None
            &&& after.db.next_session_id == evse.db.next_session_id + 1
            &&& after.db.writes.len() == evse.db.writes.len() + 2
            &&& after.db.writes.take(evse.db.writes.len() as int) == evse.db.writes
            &&& stored is Some
            &&& stored->0.transaction_id == Some(stop.transaction_id)
            &&& ends_as(stop.reason, stored->0.state)
            &&& stored->0.snapshots == seq![
                ChargingSessionSnapshot {
                    timestamp: stop.timestamp,
                    is_reference: false,
                    energy: stop.meter_stop,
                    power: None,
                    l1_voltage: None,
                    temperature: None,
                    soc: SoC::Unknown,
                    soc_cap: None,
                },
            ]
            &&& forall|other: i32|
                other != id ==> #[trigger] stored_session(after.db.writes, other)
                    == stored_session(evse.db.writes, other)
            &&& after.connector_id == evse.connector_id
            &&& after.last_known_tid >= evse.last_known_tid
            &&& after.last_known_tid >= stop.transaction_id
            &&& after.last_known_tid == evse.last_known_tid || after.last_known_tid
                == stop.transaction_id
            &&& after.last_known_stop_energy == Some(stop.meter_stop)
            &&& after.energy_tracker.reading() == Some(stop.meter_stop)
            &&& differs_in_session_only(
                EvseView {
                    last_known_stop_energy: evse.last_known_stop_energy,
                    energy_tracker: evse.energy_tracker,
                    last_known_tid: evse.last_known_tid,
                    db: evse.db,
                    ..after
                },
                evse,
            )
            &&& after.db.next_schedule_id == evse.db.next_schedule_id
        }),
{
    let id = evse.db.next_session_id;
    let state = StateView::of_reason(crate::evse::reason_named(stop.reason));
    lemma_reason(stop.reason);
    let first = WriteView::AddSession {
        session_id: id,
        state,
        transaction_id: Some(stop.transaction_id),
    };
    let second = WriteView::AddSnapshot {
        session_id: id,
        snapshot: ChargingSessionSnapshot::spec_new(stop.timestamp, stop.meter_stop),
    };
    let after = evse.after_stop(stop, now);
    assert(after.db.writes == evse.db.after(first).after(second).writes);
    lemma_stored_after(evse.db, first, id);
    lemma_stored_after(evse.db.after(first), second, id);
    assert(after.db.writes.take(evse.db.writes.len() as int) =~= evse.db.writes);
    assert forall|other: i32| other != id implies #[trigger] stored_session(after.db.writes, other)
        == stored_session(evse.db.writes, other) by {
        lemma_stored_after(evse.db, first, other);
        lemma_stored_after(evse.db.after(first), second, other);
    }
}

/// The status of a connector puts the session going on into a state of its own, in the store too,
/// where it is reported without an error.
///
/// A connector that charges, or prepares to, has an active session. One that is suspended by the
/// charging point has a session that is so too, and goes on. One that is suspended by the EV has a
/// session that is suspended by the EV, and is not followed any more. Only one that is faulted has a
/// session that ended in the error "Faulted". Where the connector is available, or has finished, a
/// session that was going on ends with an error, with its last reading, and one that was over is
/// left. Any other status, an error, and the charging point itself, change nothing of the session.
/// The connector that was reported first is noted.
pub proof fn law_status_of_session(evse: EvseView, status: StatusView, now: Moment)
    requires
        evse.session is Some,
    ensures
        ({
            let after = evse.after_status(status, now);
            let session = evse.session->0;
            let time = if status.timestamp is Some {
                status.timestamp->0
            } else {
                now.utc
            };
            let told = status.connector_id != 0 && status.error_code == "NoError"@;
            let name = status.status;
            &&& differs_in_session_only(after, evse)
            &&& after.connector_id == if evse.connector_id is None && status.connector_id != 0 {
                Some(status.connector_id)
            } else {
                evse.connector_id
            }
            &&& told && (name == "Charging"@ || name == "Preparing"@) ==> {
                &&& after.session == Some(SessionView { state: StateView::Active, ..session })
                &&& session_is_put(after.db, evse.db, session, StateView::Active)
            }
            &&& told && name == "SuspendedEVSE"@ ==> {
                &&& after.session == Some(
                    SessionView { state: StateView::SuspendedByEvse, ..session },
                )
                &&& session_is_put(after.db, evse.db, session, StateView::SuspendedByEvse)
            }
            &&& told && name == "SuspendedEV"@ ==> {
                &&& after.session is None
                &&& session_is_put(after.db, evse.db, session, StateView::SuspendedByEv)
            }
            &&& told && name == "Faulted"@ ==> {
                &&& after.session is None
                &&& session_is_put(after.db, evse.db, session, StateView::Error("Faulted"@))
            }
            &&& told && (name == "Available"@ || name == "Finishing"@) ==> {
                &&& after.session is None
                &&& goes_on(session.state) ==> session_is_ended(
                    after.db,
                    evse.db,
                    session,
                    time,
                    session.snapshots.last().energy,
                    StateView::Error("Got connector available while session was still active"@),
                )
                &&& !goes_on(session.state) ==> after.db == evse.db
            }
            &&& !told || !(name == "Charging"@ || name == "Preparing"@ || name == "SuspendedEVSE"@
                || name == "SuspendedEV"@ || name == "Faulted"@ || name == "Available"@ || name
                == "Finishing"@) ==> after.session == evse.session && after.db == evse.db
        }),
{
    let session = evse.session->0;
    let time = crate::evse::status_time(status, now);
    law_status_names(status.status);
    lemma_put(evse.db, session, StateView::Active);
    lemma_put(evse.db, session, StateView::SuspendedByEvse);
    lemma_put(evse.db, session, StateView::SuspendedByEv);
    lemma_put(evse.db, session, StateView::Error("Faulted"@));
    lemma_ended(
        evse.db,
        session,
        time,
        session.snapshots.last().energy,
        StateView::Error("Got connector available while session was still active"@),
    );
}

/// Without a session going on, the status of a connector changes nothing, but that the connector
/// that was reported first is noted.
pub proof fn law_status_without_session(evse: EvseView, status: StatusView, now: Moment)
    requires
        evse.session is None,
    ensures
        evse.after_status(status, now).session is None,
        evse.after_status(status, now).db == evse.db,
        differs_in_session_only(evse.after_status(status, now), evse),
        evse.after_status(status, now).connector_id == if evse.connector_id is None
            && status.connector_id != 0 {
            Some(status.connector_id)
        } else {
            evse.connector_id
        },
{
}

/// Whatever state the last session was left in, a server that starts knows its transaction, so that
/// the next transaction that starts gets a number above it, which is the one in the reply.
pub proof fn law_numbers_go_on_after_restart(
    bms: Bms,
    session: SessionView,
    schedule: Option<ScheduleView>,
    db: DatabaseView,
    start: StartTransaction,
    now: Moment,
)
    ensures
        ({
            let evse = EvseView::resumed(bms, Some(session), schedule, db);
            let after = evse.after_start(start, now);
            &&& evse.last_known_tid >= session.transaction_id
            &&& evse.last_known_tid < i32::MAX ==> {
                &&& after.session is Some
                &&& after.session->0.transaction_id > session.transaction_id
                &&& after.last_known_tid == after.session->0.transaction_id
                &&& evse.reply(ActionContent::StartTransaction(start), now) matches Some(
                    ReplyView::StartTransaction { transaction_id, .. },
                ) && transaction_id == after.session->0.transaction_id
            }
        }),
{
}

/// A server that starts takes up the last session, unless it is over, and the last schedule, unless
/// it is out of force, as they are. The reading that the next session is thought to start at is the
/// last one of a session that is over, and the first one of a session that goes on. There is nothing
/// to do yet, nothing was called and nothing written.
pub proof fn law_server_starts_where_it_left(
    bms: Bms,
    session: Option<SessionView>,
    schedule: Option<ScheduleView>,
    db: DatabaseView,
)
    ensures
        ({
            let evse = EvseView::resumed(bms, session, schedule, db);
            &&& evse.bms == bms
            &&& evse.db == db
            &&& evse.session == if session is Some && goes_on(session->0.state) {
                session
            } else {
                None
            }
            &&& session is None ==> evse.last_known_tid == 0 && evse.last_known_stop_energy is None
            &&& session is Some ==> evse.last_known_tid == session->0.transaction_id
            &&& session is Some && goes_on(session->0.state) ==> evse.last_known_stop_energy
                == Some(session->0.snapshots[0].energy)
            &&& session is Some && !goes_on(session->0.state) ==> evse.last_known_stop_energy
                == Some(session->0.snapshots.last().energy)
            &&& evse.schedule == if schedule is Some && schedule->0.state is Active {
                schedule
            } else {
                None
            }
            &&& evse.connector_id is None
            &&& evse.energy_tracker is Unknown
            &&& evse.meter_value_observer.prev_meter_val is None
            &&& evse.meter_value_observer.prev_temp_sum is None
            &&& evse.meter_value_observer.last_voltage is None
            &&& evse.last_dpm is None
            &&& evse.commands.len() == 0
            &&& evse.call_queue.len() == 0
            &&& evse.dpm_reports.len() == 0
            &&& evse.tracker.number == 0
            &&& forall|id: Seq<char>| !#[trigger] evse.tracker.pending.dom().contains(id)
        }),
{
}

/// A first reading is on probation. A further one goes up where it is above the last one, and does
/// not where it is not, whatever the last one was.
pub proof fn law_reading_is_compared_with_the_last(last: u64, energy: u64)
    ensures
        EnergyTracker::Unknown.after(energy) == EnergyTracker::Probation(energy),
        last < energy ==> {
            &&& EnergyTracker::Probation(last).after(energy) == EnergyTracker::Increasing(energy)
            &&& EnergyTracker::Increasing(last).after(energy) == EnergyTracker::Increasing(energy)
            &&& EnergyTracker::Stationnary(last).after(energy) == EnergyTracker::Increasing(energy)
        },
        last >= energy ==> {
            &&& EnergyTracker::Probation(last).after(energy) == EnergyTracker::Stationnary(energy)
            &&& EnergyTracker::Increasing(last).after(energy) == EnergyTracker::Stationnary(energy)
            &&& EnergyTracker::Stationnary(last).after(energy) == EnergyTracker::Stationnary(energy)
        },
{
}

/// Whether a session has just started, under the number and the transaction that are given: it has
/// one snapshot, which is a reference, with the reading at the start, and with the state of charge
/// and the limit of the battery. It is the last thing written, and the store holds it.
pub open spec fn session_has_started(
    after: EvseView,
    before: DatabaseView,
    transaction_id: i32,
    bms: Bms,
    timestamp: Timestamp,
    energy: u64,
) -> bool {
    let id = before.next_session_id;
    let session = after.session->0;
    let len = after.db.writes.len() as int;
    let snapshot = session.snapshots[0];
    &&& after.session is Some
    &&& session.session_id == id
    &&& session.transaction_id == transaction_id
    &&& session.state == StateView::Active
    &&& session.bms.capacity == bms.capacity
    &&& session.bms.constant_power_loss == bms.constant_power_loss
    &&& session.bms.soc_cap == bms.soc_cap
    &&& session.bms.initial_soc == bms.initial_soc
    &&& session.bms.initial_energy == if bms.initial_energy is None {
        Some(energy)
    } else {
        bms.initial_energy
    }
    &&& bms.initial_energy is None && bms.current_energy is None ==> session.bms.current_soc
        == bms.current_soc
    &&& session.snapshots.len() == 1
    &&& snapshot.timestamp == timestamp
    &&& snapshot.is_reference
    &&& snapshot.energy == energy
    &&& snapshot.power is None
    &&& snapshot.l1_voltage is None
    &&& snapshot.temperature is None
    &&& snapshot.soc == session.bms.current_soc
    &&& snapshot.soc_cap == bms.soc_cap
    &&& after.db.next_session_id == before.next_session_id + 1
    &&& after.db.next_schedule_id == before.next_schedule_id
    &&& len >= 2
    &&& after.db.writes[len - 2] == (WriteView::AddSession {
        session_id: id,
        state: StateView::Active,
        transaction_id: Some(transaction_id),
    })
    &&& after.db.writes[len - 1] == (WriteView::AddSnapshot { session_id: id, snapshot })
    &&& stored_session(after.db.writes, id) is Some
    &&& stored_session(after.db.writes, id)->0.state == StateView::Active
    &&& stored_session(after.db.writes, id)->0.transaction_id == Some(transaction_id)
    &&& stored_session(after.db.writes, id)->0.snapshots == session.snapshots
}

/// The records without what was written last.
pub open spec fn without_last(db: DatabaseView, before: DatabaseView, count: int) -> DatabaseView {
    DatabaseView { writes: db.writes.take(db.writes.len() - count), ..before }
}

proof fn lemma_started(
    db: DatabaseView,
    transaction_id: i32,
    bms: Bms,
    snapshot: ChargingSessionSnapshot,
)
    ensures
        ({
            let id = db.next_session_id;
            let after = db.after_session(StateView::Active, Some(transaction_id)).after(
                WriteView::AddSnapshot { session_id: id, snapshot },
            );
            &&& stored_session(after.writes, id) is Some
            &&& stored_session(after.writes, id)->0.state == StateView::Active
            &&& stored_session(after.writes, id)->0.transaction_id == Some(transaction_id)
            &&& stored_session(after.writes, id)->0.snapshots == seq![snapshot]
            &&& after.writes.take(after.writes.len() - 2) == db.writes
        }),
{
    let id = db.next_session_id;
    let first = WriteView::AddSession {
        session_id: id,
        state: StateView::Active,
        transaction_id: Some(transaction_id),
    };
    let second = WriteView::AddSnapshot { session_id: id, snapshot };
    let after = db.after_session(StateView::Active, Some(transaction_id)).after(second);
    lemma_stored_after(db, first, id);
    lemma_stored_after(db.after(first), second, id);
    assert(after.writes == db.after(first).after(second).writes);
    assert(after.writes.take(after.writes.len() - 2) =~= db.writes);
    assert(Seq::<ChargingSessionSnapshot>::empty().push(snapshot) =~= seq![snapshot]);
}

/// Once the start of a transaction was reported, a session with the battery of the settings is going
/// on, under the next number of a session and the next number of a transaction. It starts with the
/// reading and at the time of the report. One that was going on before has ended with an error, with
/// its last reading and at the time of the clock, and one that was over is left.
pub proof fn law_start_of_transaction_starts_session(
    evse: EvseView,
    start: StartTransaction,
    now: Moment,
)
    requires
        evse.db.next_session_id < i32::MAX,
        evse.last_known_tid < i32::MAX,
    ensures
        ({
            let after = evse.after_start(start, now);
            let ended = without_last(after.db, evse.db, 2);
            &&& session_has_started(
                after,
                evse.db,
                (evse.last_known_tid + 1) as i32,
                evse.bms,
                start.timestamp,
                start.meter_start,
            )
            &&& after.last_known_tid == evse.last_known_tid + 1
            &&& evse.session is Some && goes_on(evse.session->0.state) ==> session_is_ended(
                ended,
                evse.db,
                evse.session->0,
                now.utc,
                evse.session->0.snapshots.last().energy,
                StateView::Error("Got start transaction while session was still active"@),
            )
            &&& !(evse.session is Some && goes_on(evse.session->0.state)) ==> ended.writes
                == evse.db.writes
            &&& after.connector_id == evse.connector_id
            &&& differs_in_session_only(
                EvseView { last_known_tid: evse.last_known_tid, db: evse.db, ..after },
                evse,
            )
        }),
{
    let before = evse.with_session_ended(now.utc, crate::evse::start_error());
    let after = evse.after_start(start, now);
    let bms = crate::charging_session::bms_at_start(evse.bms, start.meter_start);
    lemma_started(
        before.db,
        evse.next_tid(),
        bms,
        after.session->0.snapshots[0],
    );
    assert(after.session->0.snapshots =~= seq![after.session->0.snapshots[0]]);
    if let Some(session) = evse.session {
        lemma_ended(
            evse.db,
            session,
            now.utc,
            session.snapshots.last().energy,
            StateView::Error("Got start transaction while session was still active"@),
        );
    }
}

/// Whether a meter value belongs to the session going on.
pub open spec fn is_of_session(evse: EvseView, mv: MeterValueSelection) -> bool {
    &&& mv.transaction_id is Some
    &&& evse.session is Some
    &&& evse.session->0.transaction_id == mv.transaction_id->0
}

/// Whether a meter value shows more than the last reading.
pub open spec fn is_above_last(tracker: EnergyTracker, energy: u64) -> bool {
    match tracker {
        EnergyTracker::Increasing(last) => last < energy,
        EnergyTracker::Probation(last) => last < energy,
        EnergyTracker::Stationnary(last) => last < energy,
        EnergyTracker::Unknown => false,
    }
}

/// Whether a state of charge has reached a limit, where both are known. A full battery has reached
/// every limit, and a limit of nothing is always reached.
pub open spec fn has_reached(soc: SoC, cap: Option<i64>) -> bool {
    match (soc, cap) {
        (SoC::Absolute(soc), Some(cap)) => soc >= cap || soc >= 1_000_000_000_000 || cap <= 0,
        (SoC::Relative(soc), Some(cap)) => soc >= cap || soc >= 1_000_000_000_000 || cap <= 0,
        _ => false,
    }
}

/// A meter value without a reading changes nothing. One without a transaction, the first one, and
/// one of the session going on that does not show more than the last one, change nothing but the
/// last reading.
pub proof fn law_reading_is_noted(evse: EvseView, mv: MeterValueSelection, now: Moment)
    ensures
        mv.active_energy_import is None ==> evse.after_meter_value(mv, now) == evse,
        mv.active_energy_import is Some && (mv.transaction_id is None || evse.energy_tracker
            is Unknown || (is_of_session(evse, mv) && !is_above_last(
            evse.energy_tracker,
            mv.active_energy_import->0,
        ))) ==> evse.after_meter_value(mv, now) == (EvseView {
            energy_tracker: evse.energy_tracker.after(mv.active_energy_import->0),
            ..evse
        }),
{
}

/// A reading of the session going on that is above the last one makes one more snapshot of it, with
/// all that was measured, at the time it was measured, and with the state of charge at that reading.
/// It is written, and the battery stands there.
///
/// The session is stopped where it was going on, its limit is reached, and more than a hundredth of
/// the battery is left to be charged by the schedule, or there is none. It is then at its limit, in
/// the store too, and the charging point is to stop its transaction. Otherwise it stays in its state,
/// and there is nothing new to do.
pub proof fn law_reading_advances_session(evse: EvseView, mv: MeterValueSelection, now: Moment)
    requires
        mv.active_energy_import is Some,
        is_of_session(evse, mv),
        is_above_last(evse.energy_tracker, mv.active_energy_import->0),
    ensures
        ({
            let after = evse.after_meter_value(mv, now);
            let energy = mv.active_energy_import->0;
            let was = evse.session->0;
            let session = after.session->0;
            let snapshot = session.snapshots.last();
            let write = WriteView::AddSnapshot { session_id: was.session_id, snapshot };
            let more_to_come = evse.schedule is None || evse.schedule->0.energy_left(
                now.local,
                evse.bms.constant_power_loss,
            ) * 100 > evse.bms.capacity * 3600;
            let stops = goes_on(was.state) && has_reached(snapshot.soc, was.bms.soc_cap)
                && more_to_come;
            &&& after.session is Some
            &&& session.session_id == was.session_id
            &&& session.transaction_id == was.transaction_id
            &&& session.snapshots.len() == was.snapshots.len() + 1
            &&& session.snapshots.drop_last() == was.snapshots
            &&& snapshot.timestamp == mv.timestamp
            &&& !snapshot.is_reference
            &&& snapshot.energy == energy
            &&& snapshot.power == mv.active_power_import
            &&& snapshot.l1_voltage == mv.voltage_l1
            &&& snapshot.temperature == mv.temperature
            &&& snapshot.soc_cap is None
            &&& is_soc_at(was.bms, energy, snapshot.soc)
            &&& session.bms.current_soc == snapshot.soc
            &&& session.bms.capacity == was.bms.capacity
            &&& session.bms.constant_power_loss == was.bms.constant_power_loss
            &&& session.bms.soc_cap == was.bms.soc_cap
            &&& session.bms.initial_soc == was.bms.initial_soc
            &&& session.bms.initial_energy == was.bms.initial_energy
            &&& session.state == if stops {
                StateView::SocCapReached
            } else {
                was.state
            }
            &&& after.db.writes == if stops {
                evse.db.writes.push(write).push(
                    WriteView::SetSessionState {
                        session_id: was.session_id,
                        state: StateView::SocCapReached,
                    },
                )
            } else {
                evse.db.writes.push(write)
            }
            &&& after.commands == if stops {
                evse.commands.push(CommandView::StopTransaction(was.transaction_id))
            } else {
                evse.commands
            }
            &&& after.energy_tracker == EnergyTracker::Increasing(energy)
            &&& after.connector_id == evse.connector_id
            &&& differs_in_session_only(
                EvseView { energy_tracker: evse.energy_tracker, commands: evse.commands, ..after },
                evse,
            )
        }),
{
    let energy = mv.active_energy_import->0;
    let was = evse.session->0;
    let after = evse.after_meter_value(mv, now);
    lemma_soc_at(was.bms, energy);
    law_limit_is_reached(was.bms.with_energy(energy));
    assert(after.session->0.snapshots.drop_last() =~= was.snapshots);
}

/// A reading of a session of which the start was missed, once there was a reading before, starts it:
/// under the next number, with the transaction, the time and the reading of the meter value. A
/// session that was going on before is left, in the store too, with an error.
///
/// Where the reading is above the last one, the session has been going on for some time: its state
/// of charge is known only where the reading at the end of the last session is. Where it is not, the
/// session starts here, at its initial state of charge, and with the reading that the last session
/// ended at.
pub proof fn law_missed_session_is_started(evse: EvseView, mv: MeterValueSelection, now: Moment)
    requires
        mv.active_energy_import is Some,
        mv.transaction_id is Some,
        evse.energy_tracker !is Unknown,
        !is_of_session(evse, mv),
        evse.db.next_session_id < i32::MAX,
    ensures
        ({
            let after = evse.after_meter_value(mv, now);
            let energy = mv.active_energy_import->0;
            let transaction_id = mv.transaction_id->0;
            let above = is_above_last(evse.energy_tracker, energy);
            let left = without_last(after.db, evse.db, 2);
            let bms = if above && evse.last_known_stop_energy is None {
                Bms { initial_soc: SoC::Unknown, current_soc: SoC::Unknown, ..evse.bms }
            } else {
                evse.bms
            };
            &&& session_has_started(
                after,
                evse.db,
                transaction_id,
                bms,
                mv.timestamp,
                energy,
            )
            &&& evse.session is Some ==> session_is_put(
                left,
                evse.db,
                evse.session->0,
                StateView::Error("transaction id mismatch"@),
            )
            &&& evse.session is None ==> left.writes == evse.db.writes
            &&& after.last_known_tid >= evse.last_known_tid
            &&& after.last_known_tid >= transaction_id
            &&& after.last_known_tid == evse.last_known_tid || after.last_known_tid
                == transaction_id
            &&& above ==> after.last_known_stop_energy == evse.last_known_stop_energy
            &&& !above ==> after.last_known_stop_energy == Some(energy)
            &&& after.energy_tracker == if above {
                EnergyTracker::Increasing(energy)
            } else {
                EnergyTracker::Stationnary(energy)
            }
            &&& after.connector_id == evse.connector_id
            &&& differs_in_session_only(
                EvseView {
                    last_known_stop_energy: evse.last_known_stop_energy,
                    energy_tracker: evse.energy_tracker,
                    last_known_tid: evse.last_known_tid,
                    db: evse.db,
                    ..after
                },
                evse,
            )
        }),
{
    let energy = mv.active_energy_import->0;
    let transaction_id = mv.transaction_id->0;
    let after = evse.after_meter_value(mv, now);
    let mismatch = StateView::Error("transaction id mismatch"@);
    let left = evse.with_session_state(mismatch);
    if let Some(session) = evse.session {
        lemma_put(evse.db, session, mismatch);
    }
    let bms = if is_above_last(evse.energy_tracker, energy) {
        evse.missed_bms()
    } else {
        evse.bms
    };
    lemma_started(
        left.db,
        transaction_id,
        crate::charging_session::bms_at_missed_start(bms, energy),
        after.session->0.snapshots[0],
    );
    assert(after.session->0.snapshots =~= seq![after.session->0.snapshots[0]]);
}

/// A meter value is observed before it is taken in. The observer hands on a voltage, where one is
/// missing beside a power, and leaves all else to the meter value: apart from what was observed, what
/// comes of it is what comes of the meter value with that voltage.
pub proof fn law_observed_meter_value_is_taken_in(
    evse: EvseView,
    mv: MeterValueSelection,
    now: Moment,
)
    ensures
        ({
            let after = evse.after_observed_meter_value(mv, now);
            let told = MeterValueSelection {
                voltage_l1: if mv.voltage_l1 is None && mv.active_power_import is Some {
                    evse.meter_value_observer.last_voltage
                } else {
                    mv.voltage_l1
                },
                ..mv
            };
            let plain = evse.after_meter_value(told, now);
            after == (EvseView { meter_value_observer: after.meter_value_observer, ..plain })
        }),
{
}

/// The first report of the dynamic power management is kept as the last one. A further one is kept
/// where it has a power, and differs from the last one. Nothing else changes.
pub proof fn law_last_dpm_report_is_kept(evse: EvseView, dpm: DpmSelection)
    ensures
        evse.after_dpm(dpm) == (EvseView {
            last_dpm: if evse.last_dpm is None || (dpm.active_power_import is Some
                && !evse.last_dpm->0.same_as(dpm)) {
                Some(dpm)
            } else {
                evse.last_dpm
            },
            ..evse
        }),
{
}

/// Whether a schedule has just been put in force: it has the next number, and the periods, the state
/// and the time that are given. It is written, once the one before, if it is to be taken out of
/// force, was. Nothing else changes, but for what there is to do.
pub open spec fn schedule_is_put(
    after: EvseView,
    before: EvseView,
    schedule: ScheduleView,
    taken_out: Option<i32>,
) -> bool {
    let numbered = after.schedule->0;
    let added = WriteView::AddSchedule { schedule: numbered };
    &&& after.schedule is Some
    &&& numbered.id == before.db.next_schedule_id
    &&& numbered.periods == schedule.periods
    &&& numbered.set_time == schedule.set_time
    &&& numbered.state == schedule.state
    &&& after.db.next_schedule_id == before.db.next_schedule_id + 1
    &&& after.db.next_session_id == before.db.next_session_id
    &&& after.db.writes == match taken_out {
        Some(schedule_id) => before.db.writes.push(
            WriteView::InactivateSchedule { schedule_id },
        ).push(added),
        None => before.db.writes.push(added),
    }
    &&& after.session == before.session
    &&& after.connector_id == before.connector_id
    &&& differs_in_session_only(
        EvseView {
            schedule: before.schedule,
            commands: before.commands,
            db: before.db,
            ..after
        },
        before,
    )
}

/// A schedule that is put in force takes the place of the one before, which is out of force, in the
/// store too. The charging point is told, where it is to be, and is told the schedule that is in
/// force.
pub proof fn law_schedule_takes_the_place(evse: EvseView, schedule: ScheduleView)
    requires
        evse.db.next_schedule_id < i32::MAX,
    ensures
        ({
            let replaced = match evse.schedule {
                Some(schedule) => Some(schedule.id),
                None => None,
            };
            let after = evse.with_schedule(schedule);
            let silent = evse.with_silent_schedule(schedule);
            &&& schedule_is_put(after, evse, schedule, replaced)
            &&& schedule_is_put(silent, evse, schedule, replaced)
            &&& after.commands == evse.commands.push(
                CommandView::SetChargingSchedule(after.schedule->0),
            )
            &&& silent.commands == evse.commands
        }),
{
}

/// A schedule that is set anew keeps its periods and its state, and is set at the given instant,
/// under a number of its own. The charging point is told. Without a schedule nothing changes.
pub proof fn law_schedule_is_set_anew(evse: EvseView, now: Timestamp)
    requires
        evse.db.next_schedule_id < i32::MAX,
    ensures
        evse.schedule is None ==> evse.refreshed(now) == evse,
        evse.schedule is Some ==> {
            let after = evse.refreshed(now);
            &&& schedule_is_put(
                after,
                evse,
                ScheduleView { set_time: now, ..evse.schedule->0 },
                None,
            )
            &&& after.commands == evse.commands.push(
                CommandView::SetChargingSchedule(after.schedule->0),
            )
        },
{
}

/// Charging is blocked by a schedule without periods, which is in force from the given instant on,
/// in place of the one before. The charging point is not told.
pub proof fn law_charging_is_blocked(evse: EvseView, now: Timestamp)
    requires
        evse.db.next_schedule_id < i32::MAX,
    ensures
        ({
            let after = evse.blocked(now);
            let schedule = after.schedule->0;
            &&& schedule_is_put(
                after,
                evse,
                schedule,
                match evse.schedule {
                    Some(schedule) => Some(schedule.id),
                    None => None,
                },
            )
            &&& forall|key: i128| !#[trigger] schedule.periods.dom().contains(key)
            &&& schedule.state is Active
            &&& schedule.set_time == now
            &&& after.commands == evse.commands
        }),
{
}

/// A schedule, or the clearing of the schedules, that the charging point does not accept takes the
/// schedule in force out of force, and that is written. Any other answer changes nothing, and neither
/// does one that is accepted.
pub proof fn law_rejection_takes_schedule_out(evse: EvseView, status: AnswerStatus)
    ensures
        ({
            let after = if status is Accepted {
                evse
            } else {
                EvseView {
                    schedule: None,
                    db: DatabaseView {
                        writes: match evse.schedule {
                            Some(schedule) => evse.db.writes.push(
                                WriteView::InactivateSchedule { schedule_id: schedule.id },
                            ),
                            None => evse.db.writes,
                        },
                        ..evse.db
                    },
                    ..evse
                }
            };
            &&& evse.after_answer(Answer::SetChargingProfile(status)) == after
            &&& evse.after_answer(Answer::ClearChargingProfile(status)) == after
            &&& evse.after_answer(Answer::RemoteStopTransaction(status)) == evse
            &&& evse.after_answer(Answer::Reset) == evse
            &&& evse.after_answer(Answer::Unmatched) == evse
            &&& evse.after_answer(Answer::Other) == evse
        }),
{
}

/// Each call gets the reply that OCPP asks for. A heartbeat is told the time. A charging point that
/// has booted is accepted, is told the time, and to send a heartbeat every hour. A user is always
/// accepted, for good, and so is a transaction that starts, under the number after the last one that
/// is known. What is transferred is accepted. The rest is acknowledged, and what the server does not
/// know is not replied to.
pub proof fn law_each_call_gets_its_reply(evse: EvseView, content: ActionContent, now: Moment)
    requires
        evse.last_known_tid < i32::MAX,
    ensures
        ({
            let reply = evse.reply(content, now);
            let info = TagView {
                status: IdTagStatus::Accepted,
                expiry_date: None,
                parent_id_tag: None,
            };
            &&& content is StatusNotification || content is MeterValues || content
                is SecurityEventNotification ==> reply == Some(ReplyView::Empty)
            &&& content is StartTransaction ==> reply == Some(
                ReplyView::StartTransaction {
                    transaction_id: (evse.last_known_tid + 1) as i32,
                    info,
                },
            )
            &&& content is StopTransaction ==> reply == Some(
                ReplyView::StopTransaction { info: None },
            )
            &&& content is DataTransfer ==> reply == Some(
                ReplyView::DataTransfer { outcome: TransferStatus::Accepted, data: None },
            )
            &&& content is Heartbeat ==> reply == Some(
                ReplyView::Heartbeat { current_time: now.utc },
            )
            &&& content is BootNotification ==> reply == Some(
                ReplyView::BootNotification {
                    current_time: now.utc,
                    interval: 3600,
                    status: BootStatus::Accepted,
                },
            )
            &&& content is Authorize ==> reply == Some(ReplyView::Authorize { info })
            &&& content is Other ==> reply is None
        }),
{
}

/// The reply to a call that is not refused is written under the id of the call, with the time of the
/// calendar that the clock shows. A call that is refused is not replied to.
pub proof fn law_reply_is_written_under_the_id(
    evse: EvseView,
    unique_id: Seq<char>,
    content: ActionContent,
    now: Moment,
)
    requires
        now.utc.representable(),
    ensures
        ({
            let frame = Some(FrameContent::Call { unique_id, content });
            let reply = evse.message_reply(frame, now);
            &&& evse.call_refusal(content, now) is None && evse.reply(content, now) is Some
                ==> reply == Ok::<Option<Seq<char>>, Refusal>(
                Some(reply_text(unique_id, evse.reply(content, now)->0)),
            )
            &&& evse.call_refusal(content, now) is None && evse.reply(content, now) is None
                ==> reply == Ok::<Option<Seq<char>>, Refusal>(None)
            &&& evse.call_refusal(content, now) is Some ==> reply == Err::<
                Option<Seq<char>>,
                Refusal,
            >(evse.call_refusal(content, now)->0)
        }),
{
}

/// Of the meter values that come in together, the last one is taken in, with the transaction that
/// they belong to. Without one there is nothing to take in.
pub proof fn law_last_meter_value_is_taken_in(
    evse: EvseView,
    values: MeterValuesView,
    mv: MeterValueView,
    now: Moment,
)
    ensures
        ({
            let more = MeterValuesView { meter_value: values.meter_value.push(mv), ..values };
            let selection = MeterValueSelection::spec_new(mv, values.transaction_id);
            &&& last_selection(more) == Some(selection)
            &&& evse.after_action(ActionContent::MeterValues(more), now)
                == evse.after_observed_meter_value(selection, now)
            &&& values.meter_value.len() == 0 ==> evse.after_action(
                ActionContent::MeterValues(values),
                now,
            ) == evse
        }),
{
}

/// Each report is taken in as what it is. A report of the dynamic power management is kept to be
/// read later. What tells nothing of the session changes nothing.
pub proof fn law_each_report_is_taken_in(
    evse: EvseView,
    status: StatusView,
    start: StartTransaction,
    stop: StopView,
    report: Seq<char>,
    now: Moment,
)
    ensures
        evse.after_action(ActionContent::StatusNotification(status), now) == evse.after_status(
            status,
            now,
        ),
        evse.after_action(ActionContent::StartTransaction(start), now) == evse.after_start(
            start,
            now,
        ),
        evse.after_action(ActionContent::StopTransaction(stop), now) == evse.after_stop(stop, now),
        evse.after_action(ActionContent::DataTransfer(Some(report)), now) == (EvseView {
            dpm_reports: evse.dpm_reports.push(report),
            ..evse
        }),
        evse.after_action(ActionContent::DataTransfer(None), now) == evse,
        evse.after_action(ActionContent::Heartbeat, now) == evse,
        evse.after_action(ActionContent::BootNotification, now) == evse,
        evse.after_action(ActionContent::SecurityEventNotification, now) == evse,
        evse.after_action(ActionContent::Authorize, now) == evse,
        evse.after_action(ActionContent::Other, now) == evse,
{
}

/// An action is refused only where a number is missing for what it starts, or where what is left of
/// the schedule cannot be added up: a transaction that starts needs a number of a session and one of
/// a transaction, one that ends without a session a number of a session, and so does a meter value of
/// a session that was missed. One that advances the session needs to know what is left.
pub proof fn law_what_is_refused(evse: EvseView, content: ActionContent, now: Moment)
    ensures
        ({
            let refusal = evse.action_refusal(content, now);
            let no_session = evse.db.next_session_id == 2_147_483_647;
            let no_transaction = evse.last_known_tid == 2_147_483_647;
            &&& content is StartTransaction ==> refusal == if no_session {
                Some(Refusal::NoSessionNumber)
            } else if no_transaction {
                Some(Refusal::NoTransactionNumber)
            } else {
                None
            }
            &&& content is StopTransaction ==> refusal == if evse.session is None && no_session {
                Some(Refusal::NoSessionNumber)
            } else {
                None
            }
            &&& content matches ActionContent::MeterValues(values) ==> {
                let mv = MeterValueSelection::spec_new(
                    values.meter_value.last(),
                    values.transaction_id,
                );
                let read = values.meter_value.len() > 0 && mv.active_energy_import is Some
                    && mv.transaction_id is Some && evse.energy_tracker !is Unknown;
                let missed = read && !is_of_session(evse, mv);
                let advances = read && is_of_session(evse, mv) && is_above_last(
                    evse.energy_tracker,
                    mv.active_energy_import->0,
                );
                refusal == if missed && no_session {
                    Some(Refusal::NoSessionNumber)
                } else if advances && evse.schedule is Some && !evse.schedule->0.countable(
                    now.local,
                ) {
                    Some(Refusal::UncountableSchedule)
                } else {
                    None
                }
            }
            &&& !(content is StartTransaction || content is StopTransaction || content
                is MeterValues) ==> refusal is None
        }),
{
}

/// Whether a status is that of a charging point that charges in the first minute of a week, on
/// Monday 0:00 UTC.
pub open spec fn charges_on_monday(status: StatusView, now: Moment) -> bool {
    let secs = if status.timestamp is Some {
        status.timestamp->0.secs
    } else {
        now.utc.secs
    };
    status.status == "Charging"@ && (secs - 345_600) % 604_800 < 60
}

/// Where a connector reports, without an error, that it charges in the first minute of a Monday, the
/// schedule is set anew before the report is taken in, and the call is refused where that takes a
/// number that is missing. Any other call is taken in as it is.
pub proof fn law_call_is_taken_in(evse: EvseView, content: ActionContent, now: Moment)
    ensures
        ({
            let due = content matches ActionContent::StatusNotification(status)
                && status.connector_id != 0 && status.error_code == "NoError"@ && charges_on_monday(
                status,
                now,
            );
            &&& due ==> evse.after_call(content, now) == evse.refreshed(now.utc).after_action(
                content,
                now,
            )
            &&& !due ==> evse.after_call(content, now) == evse.after_action(content, now)
            &&& evse.call_refusal(content, now) == if due && evse.schedule is Some
                && evse.db.next_schedule_id == 2_147_483_647 {
                Some(Refusal::NoScheduleNumber)
            } else {
                evse.action_refusal(content, now)
            }
        }),
{
    if let ActionContent::StatusNotification(status) = content {
        law_status_names(status.status);
        law_first_minute_of_monday(crate::evse::status_time(status, now));
    }
}

/// A call that is not refused is taken in, and one that is refused is not. An answer is taken off the
/// calls that are not answered yet, and then taken in as what it says. Nothing comes of an error, nor
/// of what cannot be read.
pub proof fn law_message_is_taken_in(
    evse: EvseView,
    unique_id: Seq<char>,
    content: ActionContent,
    result: ResultContent,
    now: Moment,
)
    ensures
        evse.after_message(Some(FrameContent::Call { unique_id, content }), now)
            == if evse.call_refusal(content, now) is None {
            evse.after_call(content, now)
        } else {
            evse
        },
        ({
            let answered = EvseView { tracker: evse.tracker.after_answer(result), ..evse };
            evse.after_message(Some(FrameContent::Result { result }), now)
                == answered.after_answer(evse.tracker.answer(result))
        }),
        evse.after_message(Some(FrameContent::Error), now) == evse,
        evse.after_message(None, now) == evse,
{
}

/// Each command comes to the calls that make it up: a reboot is a soft reset, a stop of a transaction
/// asks for that transaction to be stopped, an address is set as the value of the key that the
/// charging point has for it, and a schedule is set, from the time it was set at, once all charging
/// profiles were cleared.
pub proof fn law_calls_of_a_command(command: CommandView, calls: Seq<CallContent>)
    requires
        crate::evse::are_calls_of(command, calls),
    ensures
        command is Reboot ==> calls == seq![CallContent::Reset(ResetKind::Soft)],
        command matches CommandView::StopTransaction(transaction_id) ==> calls == seq![
            CallContent::RemoteStopTransaction(transaction_id),
        ],
        command matches CommandView::SetServerAddress(address) ==> calls == seq![
            CallContent::ChangeConfiguration("CS_URL"@, address),
        ],
        command matches CommandView::SetChargingSchedule(schedule) ==> {
            &&& calls.len() == 2
            &&& clears_all(calls[0])
            &&& asks_for(calls[1], schedule)
        },
{
}

/// Whether a call clears the charging profiles, whatever they are for.
pub open spec fn clears_all(call: CallContent) -> bool {
    call matches CallContent::ClearChargingProfile(filter) && filter.id is None
        && filter.connector_id is None && filter.purpose is None && filter.stack_level is None
}

/// Whether a call asks for the periods of a schedule to be kept to, from the time that it was set at.
pub open spec fn asks_for(call: CallContent, schedule: ScheduleView) -> bool {
    call matches CallContent::SetChargingProfile(request) && request.start_schedule
        == schedule.set_time && exists|instants: Seq<UtcPeriod>| #[trigger]
        resolves(in_order(schedule.periods), instants) && request == profile_request(
            schedule.set_time,
            instants,
        )
}

/// A command of the user comes to what there is to do: to stop a session is to stop its transaction.
/// To reboot is to block charging, by a schedule without periods that is in force from now on, and
/// that the charging point is told, and then to reboot. To set the address of a server is to set it,
/// at its port, and then to reboot in the same way. To run without a plan is to do nothing.
pub proof fn law_command_comes_to(
    evse: EvseView,
    command: Command,
    plan: Option<ChargingPlan>,
    now: Moment,
    after: EvseView,
)
    requires
        evse.db.next_schedule_id < i32::MAX,
        evse.command_leads_to(command, plan, now, after),
    ensures
        command is StopSession ==> after == (EvseView {
            commands: evse.commands.push(
                CommandView::StopTransaction(evse.session->0.transaction_id),
            ),
            ..evse
        }),
        command is Reboot ==> blocks_and_reboots(after, evse, evse.commands, now.utc),
        command matches Command::SetServerIp(ip) ==> blocks_and_reboots(
            after,
            evse,
            evse.commands.push(
                CommandView::SetServerAddress("ws://"@ + ip.ip_address@ + ":9000"@),
            ),
            now.utc,
        ),
        command is Run && plan is None ==> after == evse,
        command is Run && plan is Some ==> exists|schedule: Option<ScheduleView>| #[trigger]
            plan->0.can_come_to(evse.bms, now, schedule) && match schedule {
                None => after == evse,
                Some(schedule) => after == evse.with_schedule(schedule),
            },
{
}

/// Whether charging was blocked from an instant on, which the charging point is to be told, after
/// what there was to do, and before it is to reboot.
pub open spec fn blocks_and_reboots(
    after: EvseView,
    before: EvseView,
    commands: Seq<CommandView>,
    now: Timestamp,
) -> bool {
    let schedule = after.schedule->0;
    &&& schedule_is_put(
        after,
        before,
        schedule,
        match before.schedule {
            Some(schedule) => Some(schedule.id),
            None => None,
        },
    )
    &&& forall|key: i128| !#[trigger] schedule.periods.dom().contains(key)
    &&& schedule.state is Active
    &&& schedule.set_time == now
    &&& after.commands == commands.push(CommandView::SetChargingSchedule(schedule)).push(
        CommandView::Reboot,
    )
}

proof fn lemma_left_calls_come_first(evse: EvseView, taken: int, queue: Seq<CallContent>)
    requires
        evse.queues(taken, queue),
    ensures
        evse.call_queue.is_prefix_of(queue),
        taken >= 1 ==> exists|calls: Seq<CallContent>| #[trigger]
            crate::evse::are_calls_of(evse.commands[0], calls) && (evse.call_queue
                + calls).is_prefix_of(queue),
    decreases taken,
{
    if taken <= 0 {
        assert(queue =~= queue.subrange(0, queue.len() as int));
    } else {
        let calls = choose|calls: Seq<CallContent>|
            {
                let left = queue.len() - calls.len();
                &&& #[trigger] crate::evse::are_calls_of(evse.commands[taken - 1], calls)
                &&& left >= 0
                &&& queue.skip(left) == calls
                &&& evse.queues(taken - 1, queue.take(left))
            };
        let left = queue.len() - calls.len();
        let before = queue.take(left);
        lemma_left_calls_come_first(evse, taken - 1, before);
        lemma_prefix_of_longer(evse.call_queue, before, queue);
        if taken == 1 {
            assert(before == evse.call_queue);
            assert(before + calls =~= queue);
            assert(queue =~= queue.subrange(0, queue.len() as int));
        } else {
            let first = choose|calls: Seq<CallContent>| #[trigger]
                crate::evse::are_calls_of(evse.commands[0], calls) && (evse.call_queue
                    + calls).is_prefix_of(before);
            lemma_prefix_of_longer(evse.call_queue + first, before, queue);
        }
    }
}

proof fn lemma_prefix_of_longer(a: Seq<CallContent>, b: Seq<CallContent>, c: Seq<CallContent>)
    requires
        a.is_prefix_of(b),
        b.len() <= c.len(),
        b == c.take(b.len() as int),
    ensures
        a.is_prefix_of(c),
{
    assert forall|i: int| 0 <= i < a.len() implies a[i] == c[i] by {
        assert(a[i] == b.subrange(0, a.len() as int)[i]);
        assert(b[i] == c.take(b.len() as int)[i]);
    }
    assert(a =~= c.subrange(0, a.len() as int));
}

/// Whether every way to make up a command starts with the given call.
pub open spec fn starts_with(command: CommandView, call: CallContent) -> bool {
    forall|calls: Seq<CallContent>| #[trigger]
        crate::evse::are_calls_of(command, calls) ==> calls.len() > 0 && calls[0] == call
}

/// The next call to be made is the first of those that were left, and without one it is the first of
/// those that make up the next command, which is taken. It is made under the next number, and the
/// calls after it are left. With nothing left and no command there is none. Nothing else changes.
pub proof fn law_next_call_is_the_first(
    evse: EvseView,
    after: EvseView,
    text: Option<Seq<char>>,
    call: CallContent,
)
    requires
        evse.pops_to(after, text),
        evse.tracker.text(call) is Some,
    ensures
        evse.call_queue.len() > 0 && evse.call_queue[0] == call ==> {
            &&& text == evse.tracker.text(call)
            &&& after.call_queue == evse.call_queue.skip(1)
            &&& after.commands == evse.commands
            &&& after.tracker == evse.tracker.after_call(call)
        },
        evse.call_queue.len() == 0 && evse.commands.len() > 0 && starts_with(
            evse.commands[0],
            call,
        ) ==> {
            &&& text == evse.tracker.text(call)
            &&& after.commands == evse.commands.skip(1)
            &&& after.tracker == evse.tracker.after_call(call)
            &&& exists|calls: Seq<CallContent>| #[trigger]
                crate::evse::are_calls_of(evse.commands[0], calls) && after.call_queue
                    == calls.skip(1)
        },
        evse.call_queue.len() == 0 && evse.commands.len() == 0 ==> text is None && after == evse,
        after == (EvseView {
            commands: after.commands,
            call_queue: after.call_queue,
            tracker: after.tracker,
            ..evse
        }),
{
    let (taken, queue, made) = choose|taken: int, queue: Seq<CallContent>, made: int|
        #![trigger evse.after_popping(taken, queue, made)]
        {
            &&& 0 <= taken <= evse.commands.len()
            &&& evse.queues(taken, queue)
            &&& 0 <= made <= queue.len()
            &&& after == evse.after_popping(taken, queue, made)
            &&& match text {
                Some(text) => {
                    &&& evse.tracker.texts(queue.take(made)) == seq![text]
                    &&& made > 0
                    &&& evse.tracker.texts(queue.take(made - 1)) == Seq::<Seq<char>>::empty()
                    &&& evse.takes_only_when_due(taken, queue, made - 1)
                },
                None => {
                    &&& evse.tracker.texts(queue) == Seq::<Seq<char>>::empty()
                    &&& made == queue.len()
                    &&& taken == evse.commands.len()
                },
            }
        };
    if evse.call_queue.len() == 0 && evse.commands.len() == 0 {
        assert(queue =~= evse.call_queue);
        assert(queue.take(made) =~= Seq::empty());
        assert(after.commands =~= evse.commands);
        assert(after.call_queue =~= evse.call_queue);
    }
    if evse.call_queue.len() > 0 && evse.call_queue[0] == call {
        lemma_first_of(evse, taken, queue, call);
        lemma_first_is_made(evse, queue, made, text, call);
        if taken > 0 {
            let left = choose|left: int|
                0 <= left <= made - 1 && evse.queues(taken - 1, #[trigger] queue.take(left));
            lemma_first_of(evse, taken - 1, queue.take(left), call);
            assert(false);
        }
        assert(after.commands =~= evse.commands);
    }
    if evse.call_queue.len() == 0 && evse.commands.len() > 0 && starts_with(
        evse.commands[0],
        call,
    ) {
        if taken == 0 {
            assert(queue =~= Seq::empty());
            assert(queue.take(made) =~= Seq::empty());
            assert(false);
        }
        lemma_first_of(evse, taken, queue, call);
        lemma_first_is_made(evse, queue, made, text, call);
        if taken > 1 {
            let left = choose|left: int|
                0 <= left <= made - 1 && evse.queues(taken - 1, #[trigger] queue.take(left));
            lemma_first_of(evse, taken - 1, queue.take(left), call);
            assert(false);
        }
        let calls = choose|calls: Seq<CallContent>|
            {
                let left = queue.len() - calls.len();
                &&& #[trigger] crate::evse::are_calls_of(evse.commands[taken - 1], calls)
                &&& left >= 0
                &&& queue.skip(left) == calls
                &&& evse.queues(taken - 1, queue.take(left))
            };
        assert(queue.take(queue.len() - calls.len()) == evse.call_queue);
        assert(queue =~= calls);
        assert(crate::evse::are_calls_of(evse.commands[0], calls));
    }
}

proof fn lemma_first_of(evse: EvseView, taken: int, queue: Seq<CallContent>, call: CallContent)
    requires
        evse.queues(taken, queue),
        (evse.call_queue.len() > 0 && evse.call_queue[0] == call) || (evse.call_queue.len() == 0
            && taken >= 1 && starts_with(evse.commands[0], call)),
    ensures
        queue.len() > 0,
        queue[0] == call,
{
    lemma_left_calls_come_first(evse, taken, queue);
    if evse.call_queue.len() > 0 {
        assert(evse.call_queue[0] == queue.subrange(0, evse.call_queue.len() as int)[0]);
    } else {
        let calls = choose|calls: Seq<CallContent>| #[trigger]
            crate::evse::are_calls_of(evse.commands[0], calls) && (evse.call_queue
                + calls).is_prefix_of(queue);
        assert(evse.call_queue + calls =~= calls);
        assert(calls[0] == queue.subrange(0, calls.len() as int)[0]);
    }
}

proof fn lemma_first_is_made(
    evse: EvseView,
    queue: Seq<CallContent>,
    made: int,
    text: Option<Seq<char>>,
    call: CallContent,
)
    requires
        queue.len() > 0,
        queue[0] == call,
        evse.tracker.text(call) is Some,
        0 <= made <= queue.len(),
        match text {
            Some(text) => {
                &&& evse.tracker.texts(queue.take(made)) == seq![text]
                &&& made > 0
                &&& evse.tracker.texts(queue.take(made - 1)) == Seq::<Seq<char>>::empty()
            },
            None => evse.tracker.texts(queue) == Seq::<Seq<char>>::empty(),
        },
    ensures
        made == 1,
        text == evse.tracker.text(call),
        evse.tracker.after_calls(queue.take(made)) == evse.tracker.after_call(call),
{
    law_first_call_is_first(evse.tracker, queue);
    if made > 1 {
        assert(queue.take(made - 1)[0] == call);
        law_first_call_is_first(evse.tracker, queue.take(made - 1));
    }
    let first = queue.take(1);
    assert(first[0] == call);
    law_first_call_is_first(evse.tracker, first);
    assert(first.drop_last() =~= Seq::empty());
    assert(evse.tracker.after_calls(first.drop_last()) == evse.tracker);
}

/// The first call of a command is the clearing of all charging profiles for a schedule, and the one
/// call that makes it up for any other command.
pub proof fn law_first_call_of_a_command(command: CommandView)
    ensures
        command is Reboot ==> starts_with(command, CallContent::Reset(ResetKind::Soft)),
        command matches CommandView::StopTransaction(transaction_id) ==> starts_with(
            command,
            CallContent::RemoteStopTransaction(transaction_id),
        ),
        command matches CommandView::SetServerAddress(address) ==> starts_with(
            command,
            CallContent::ChangeConfiguration("CS_URL"@, address),
        ),
        command is SetChargingSchedule ==> starts_with(
            command,
            CallContent::ClearChargingProfile(
                ProfileFilter { id: None, connector_id: None, purpose: None, stack_level: None },
            ),
        ),
{
}

/// Whether a command sets a schedule, and a period of it starts or ends at the given time.
pub open spec fn has_time(command: CommandView, time: LocalTime) -> bool {
    command matches CommandView::SetChargingSchedule(schedule) && {
        let periods = in_order(schedule.periods);
        exists|i: int|
            #![trigger periods[i]]
            0 <= i < periods.len() && (time == periods[i].start || time == periods[i].end)
    }
}

/// Making calls stops at the time zone only for a schedule with periods, and the error names the
/// start or the end of one of them. The command of that schedule is dropped, and all calls before it
/// could not be written.
pub proof fn law_time_zone_stops_at_a_schedule(
    evse: EvseView,
    after: EvseView,
    error: NoSingleInstant,
)
    requires
        evse.stops_at_time_zone(after, error),
    ensures
        exists|taken: int|
            {
                &&& 0 <= taken < evse.commands.len()
                &&& has_time(#[trigger] evse.commands[taken], error.0)
                &&& after.commands == evse.commands.skip(taken + 1)
            },
        after.call_queue.len() == 0,
        after == (EvseView {
            commands: after.commands,
            call_queue: after.call_queue,
            tracker: after.tracker,
            ..evse
        }),
{
    let (taken, queue) = choose|taken: int, queue: Seq<CallContent>|
        #![trigger evse.after_popping(taken, queue, queue.len() as int)]
        {
            &&& 0 <= taken < evse.commands.len()
            &&& evse.queues(taken, queue)
            &&& evse.tracker.texts(queue) == Seq::<Seq<char>>::empty()
            &&& crate::evse::fails_at(evse.commands[taken], error)
            &&& after == (EvseView {
                commands: evse.commands.skip(taken + 1),
                ..evse.after_popping(taken, queue, queue.len() as int)
            })
        };
    assert(has_time(evse.commands[taken], error.0));
}

/// A command of the user can be carried out unless something is missing for it: a session to be
/// stopped, a plan that can be made, or a number for a schedule that it adds.
pub proof fn law_when_applied(evse: EvseView, command: Command, plan: Option<ChargingPlan>)
    ensures
        ({
            let numbered = evse.db.next_schedule_id < 2_147_483_647;
            &&& command is Run && plan is None ==> evse.can_apply(command, plan)
            &&& command is Run && plan is Some ==> (evse.can_apply(command, plan) <==> (
            plan->0.feasible(evse.bms) && numbered))
            &&& command is StopSession ==> (evse.can_apply(command, plan) <==> evse.session is Some)
            &&& command is Reboot ==> (evse.can_apply(command, plan) <==> numbered)
        }),
{
}

} // verus!
