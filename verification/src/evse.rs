//! The charging point as the server sees it: the session going on, the schedule in force and what
//! is to be done next.
use ocpp_rs::v16::call::Action;
use ocpp_rs::v16::call_result::CallResultRaw;
use std::collections::VecDeque;
use vstd::prelude::*;

use crate::args::{Command, InvalidServerIp, Ipv4Address, ServerIp};
use crate::bms::{Bms, SoC};
use crate::calls::{CallTracker, OutgoingCall, TrackerView};
use crate::charging_point::{ChargePointStatus, Reason};
use crate::charging_session::{
    ChargingSession, ChargingSessionSnapshot, ChargingSessionState, SessionView, StateView,
    bms_at_missed_start, bms_at_start, db_after_missing_session,
};
use crate::command::{
    CommandToChargingPoint, CommandView, address_call, clear_call, make_clear_call,
    set_address_call, set_schedule_call, sets_schedule,
};
use crate::database::{Database, DatabaseView, Write, WriteView};
use crate::measurements::{
    Dpm, DpmSelection, MeterValueObserver, MeterValueSelection, option_text,
};
use crate::plan::{ChargingPlan, option_view};
use crate::profile::names_time;
use crate::schedule::{ChargingSchedule, ChargingScheduleState, ScheduleView, in_order};
use crate::text::same_text;
use crate::time::{Moment, NoSingleInstant, Timestamp, instant_in, read_clock};
use crate::wire::{
    ActionContent, ActionKind, Answer, BootStatus, CallContent, Frame, FrameContent, MeterValues,
    MeterValuesView, Reply, ReplyView, ResetKind, StartTransaction, StatusNotification, StatusView,
    StopTransaction, StopView, TagInfo, TagView, TransferStatus, action_kind, content_of,
    data_transfer, frame_in, meter_values, read_frame, reply_option_view, result_in,
    start_transaction, status_notification, stop_transaction, write_reply, written_reply,
};

verus! {

/// Whether the readings of the meter go up.
#[derive(Debug, Copy, Clone, PartialEq, Eq, Structural)]
pub enum EnergyTracker {
    Increasing(u64),
    Probation(u64),
    Stationnary(u64),
    Unknown,
}

impl Default for EnergyTracker {
    fn default() -> (r: Self)
        ensures
            r == EnergyTracker::Unknown,
    {
        EnergyTracker::Unknown
    }
}

impl EnergyTracker {
    /// The last reading.
    pub open spec fn reading(self) -> Option<u64> {
        match self {
            EnergyTracker::Increasing(v) => Some(v),
            EnergyTracker::Probation(v) => Some(v),
            EnergyTracker::Stationnary(v) => Some(v),
            EnergyTracker::Unknown => None,
        }
    }

    /// The tracker once another reading was taken: a first reading is on probation, and a further
    /// one goes up or does not.
    pub open spec fn after(self, energy: u64) -> EnergyTracker {
        match self.reading() {
            None => EnergyTracker::Probation(energy),
            Some(v) => if v < energy {
                EnergyTracker::Increasing(energy)
            } else {
                EnergyTracker::Stationnary(energy)
            },
        }
    }

    pub fn have_energy(&mut self, energy: u64)
        ensures
            *final(self) == old(self).after(energy),
    {
        *self = match *self {
            EnergyTracker::Increasing(v) => if v < energy {
                EnergyTracker::Increasing(energy)
            } else {
                EnergyTracker::Stationnary(energy)
            },
            EnergyTracker::Probation(v) => if v < energy {
                EnergyTracker::Increasing(energy)
            } else {
                EnergyTracker::Stationnary(energy)
            },
            EnergyTracker::Stationnary(v) => if v < energy {
                EnergyTracker::Increasing(energy)
            } else {
                EnergyTracker::Stationnary(energy)
            },
            EnergyTracker::Unknown => EnergyTracker::Probation(energy),
        };
    }
}

/// The contents of an [`Evse`].
pub struct EvseView {
    pub connector_id: Option<u32>,
    pub bms: Bms,
    pub last_known_tid: i32,
    pub energy_tracker: EnergyTracker,
    pub last_known_stop_energy: Option<u64>,
    pub meter_value_observer: MeterValueObserver,
    pub last_dpm: Option<DpmSelection>,
    pub session: Option<SessionView>,
    pub schedule: Option<ScheduleView>,
    /// What the charging point is to do.
    pub commands: Seq<CommandView>,
    /// The calls that make up a command, as far as they were not made yet.
    pub call_queue: Seq<CallContent>,
    pub tracker: TrackerView,
    /// The reports of the dynamic power management that were not read yet.
    pub dpm_reports: Seq<Seq<char>>,
    pub db: DatabaseView,
}

/// The error of a session that was still going on when its connector became available.
pub open spec fn available_error() -> StateView {
    StateView::Error("Got connector available while session was still active"@)
}

/// The error of a session that was still going on when another one started.
pub open spec fn start_error() -> StateView {
    StateView::Error("Got start transaction while session was still active"@)
}

/// The error of a session during which another one was stopped.
pub open spec fn stop_error() -> StateView {
    StateView::Error("Got stop transaction for another session"@)
}

/// The error of a session during which measures of another one came in.
pub open spec fn mismatch_error() -> StateView {
    StateView::Error("transaction id mismatch"@)
}

/// The reason for which a transaction was stopped, going by its name.
pub open spec fn reason_named(name: Option<Seq<char>>) -> Option<Reason> {
    match name {
        Some(name) => Reason::named(name),
        None => None,
    }
}

impl EvseView {
    /// Whether the session going on, if there is any, has a snapshot.
    pub open spec fn well_formed(self) -> bool {
        &&& self.session matches Some(session) ==> session.snapshots.len() > 0
        &&& self.tracker.well_formed()
    }

    /// Once a command was added.
    pub open spec fn with_command(self, command: CommandView) -> EvseView {
        EvseView { commands: self.commands.push(command), ..self }
    }

    /// Once the schedule in force, if there is any, was taken out of force.
    pub open spec fn without_schedule(self) -> EvseView {
        match self.schedule {
            Some(schedule) => EvseView {
                schedule: None,
                db: self.db.after(WriteView::InactivateSchedule { schedule_id: schedule.id }),
                ..self
            },
            None => self,
        }
    }

    /// Once a schedule was put in force, without the charging point being told.
    pub open spec fn with_silent_schedule(self, schedule: ScheduleView) -> EvseView {
        let before = self.without_schedule();
        EvseView {
            schedule: Some(ScheduleView { id: before.db.next_schedule_id, ..schedule }),
            db: before.db.after_schedule(schedule),
            ..before
        }
    }

    /// Once a schedule was put in force in place of the one before.
    pub open spec fn with_schedule(self, schedule: ScheduleView) -> EvseView {
        let after = self.with_silent_schedule(schedule);
        after.with_command(CommandView::SetChargingSchedule(after.schedule->0))
    }

    /// Once the schedule in force was set anew, at the given instant.
    pub open spec fn refreshed(self, now: Timestamp) -> EvseView {
        match self.schedule {
            Some(schedule) => (EvseView { schedule: None, ..self }).with_schedule(
                ScheduleView { set_time: now, ..schedule },
            ),
            None => self,
        }
    }

    /// Once charging was blocked for good, without the charging point being told.
    pub open spec fn blocked(self, now: Timestamp) -> EvseView {
        self.with_silent_schedule(ScheduleView::blank(ChargingScheduleState::Active, now))
    }

    /// Once the session going on, if there is any, was put into a state.
    pub open spec fn with_session_state(self, state: StateView) -> EvseView {
        match self.session {
            Some(session) => EvseView {
                session: Some(SessionView { state, ..session }),
                db: session.db_after_state(self.db, state),
                ..self
            },
            None => self,
        }
    }

    pub open spec fn without_session(self) -> EvseView {
        EvseView { session: None, ..self }
    }

    /// Once the session going on was stopped with its last reading, if it was not over, and
    /// forgotten.
    pub open spec fn with_session_ended(self, now: Timestamp, error: StateView) -> EvseView {
        match self.session {
            Some(session) => if session.state.complete() {
                self.without_session()
            } else {
                EvseView {
                    session: None,
                    db: session.db_after_stop(
                        self.db,
                        now,
                        session.snapshots.last().energy,
                        error,
                    ),
                    ..self
                }
            },
            None => self,
        }
    }

    /// Once a transaction with the given number was heard of.
    pub open spec fn with_tid(self, transaction_id: i32) -> EvseView {
        if self.last_known_tid < transaction_id {
            EvseView { last_known_tid: transaction_id, ..self }
        } else {
            self
        }
    }

    /// Once the status of a connector was reported without an error.
    pub open spec fn after_sound_status(
        self,
        status: Option<ChargePointStatus>,
        timestamp: Timestamp,
    ) -> EvseView {
        match status {
            Some(ChargePointStatus::Available) => self.with_session_ended(
                timestamp,
                available_error(),
            ),
            Some(ChargePointStatus::Finishing) => self.with_session_ended(
                timestamp,
                available_error(),
            ),
            Some(ChargePointStatus::Charging) => self.with_session_state(
                StateView::of_status(ChargePointStatus::Charging),
            ),
            Some(ChargePointStatus::SuspendedEVSE) => self.with_session_state(
                StateView::of_status(ChargePointStatus::SuspendedEVSE),
            ),
            Some(ChargePointStatus::Preparing) => self.with_session_state(
                StateView::of_status(ChargePointStatus::Preparing),
            ),
            Some(ChargePointStatus::SuspendedEV) => self.with_session_state(
                StateView::of_status(ChargePointStatus::SuspendedEV),
            ).without_session(),
            Some(ChargePointStatus::Faulted) => self.with_session_state(
                StateView::of_status(ChargePointStatus::Faulted),
            ).without_session(),
            _ => self,
        }
    }

    /// Once the status of a connector was reported. Connector 0 stands for the charging point
    /// itself.
    pub open spec fn after_status(self, status: StatusView, now: Moment) -> EvseView {
        if status.connector_id == 0 {
            self
        } else {
            let after = if status.error_code == "NoError"@ {
                self.after_sound_status(
                    ChargePointStatus::named(status.status),
                    status_time(status, now),
                )
            } else {
                self
            };
            if after.connector_id is None {
                EvseView { connector_id: Some(status.connector_id), ..after }
            } else {
                after
            }
        }
    }

    /// The number of the next transaction.
    pub open spec fn next_tid(self) -> i32 {
        (self.last_known_tid + 1) as i32
    }

    /// Once the start of a transaction was reported.
    pub open spec fn after_start(self, start: StartTransaction, now: Moment) -> EvseView {
        let before = self.with_session_ended(now.utc, start_error());
        let id = before.db.next_session_id;
        let tid = self.next_tid();
        let bms = bms_at_start(self.bms, start.meter_start);
        EvseView {
            last_known_tid: tid,
            session: Some(
                SessionView::starting(
                    id,
                    tid,
                    bms,
                    StateView::Active,
                    start.timestamp,
                    start.meter_start,
                ),
            ),
            db: before.db.after_session(StateView::Active, Some(tid)).after(
                SessionView::unstarted(id, tid, bms, StateView::Active).snapshot_write(
                    SessionView::reference(bms, start.timestamp, start.meter_start),
                ),
            ),
            ..before
        }
    }

    /// Once the end of a transaction was reported.
    pub open spec fn after_stop(self, stop: StopView, now: Moment) -> EvseView {
        let reason = StateView::of_reason(reason_named(stop.reason));
        let after = match self.session {
            Some(session) => if session.transaction_id == stop.transaction_id {
                EvseView {
                    db: session.db_after_stop(self.db, stop.timestamp, stop.meter_stop, reason),
                    ..self
                }
            } else {
                EvseView {
                    db: session.db_after_stop(
                        self.db,
                        now.utc,
                        session.snapshots.last().energy,
                        stop_error(),
                    ),
                    ..self.with_tid(stop.transaction_id)
                }
            },
            None => EvseView {
                db: db_after_missing_session(
                    self.db,
                    stop.timestamp,
                    reason,
                    stop.meter_stop,
                    Some(stop.transaction_id),
                ),
                ..self.with_tid(stop.transaction_id)
            },
        };
        EvseView {
            session: None,
            energy_tracker: self.energy_tracker.after(stop.meter_stop),
            last_known_stop_energy: Some(stop.meter_stop),
            ..after
        }
    }

    /// Whether a meter value is one of the session going on, with a reading that goes up.
    pub open spec fn progresses(self, mv: MeterValueSelection) -> bool {
        &&& mv.active_energy_import is Some
        &&& self.energy_tracker.after(mv.active_energy_import->0) is Increasing
        &&& mv.transaction_id is Some
        &&& self.session is Some
        &&& self.session->0.transaction_id == mv.transaction_id->0
    }

    /// Whether what is left of the schedule has to be added up for a meter value.
    pub open spec fn consults_schedule(self, mv: MeterValueSelection) -> bool {
        self.progresses(mv) && self.schedule is Some
    }

    /// Whether a meter value starts a session: it is one of another transaction than the session
    /// going on, and its reading is not the first one.
    pub open spec fn starts_session(self, mv: MeterValueSelection) -> bool {
        &&& mv.active_energy_import is Some
        &&& self.energy_tracker !is Unknown
        &&& mv.transaction_id is Some
        &&& !(self.session matches Some(session) && session.transaction_id == mv.transaction_id->0)
    }

    /// Whether so little is left of the schedule, 1 % of the battery or less, that the session had
    /// better go on to its end.
    pub open spec fn nearly_done(self, now: Moment) -> bool {
        match self.schedule {
            Some(schedule) => schedule.energy_left(now.local, self.bms.constant_power_loss) * 100
                <= self.bms.capacity * 3600,
            None => false,
        }
    }

    /// The snapshot of a meter value.
    pub open spec fn snapshot_of(mv: MeterValueSelection) -> ChargingSessionSnapshot {
        ChargingSessionSnapshot {
            power: mv.active_power_import,
            l1_voltage: mv.voltage_l1,
            temperature: mv.temperature,
            ..ChargingSessionSnapshot::spec_new(mv.timestamp, mv.active_energy_import->0)
        }
    }

    /// Whether a meter value makes the server stop the session going on: the limit on the state of
    /// charge is reached, the session is not over, and the schedule is not nearly done.
    pub open spec fn reaches_cap(self, mv: MeterValueSelection, now: Moment) -> bool {
        &&& self.progresses(mv)
        &&& self.session->0.with_snapshot(Self::snapshot_of(mv)).bms.progress().complete()
        &&& !self.session->0.state.complete()
        &&& !self.nearly_done(now)
    }

    /// Once a meter value of the session going on came in, with a reading that goes up.
    pub open spec fn after_progress(self, mv: MeterValueSelection, now: Moment) -> EvseView {
        let session = self.session->0;
        let snapshot = Self::snapshot_of(mv);
        let after = EvseView {
            session: Some(session.with_snapshot(snapshot)),
            db: self.db.after(session.snapshot_write(snapshot)),
            ..self
        };
        if self.reaches_cap(mv, now) {
            after.with_session_state(StateView::SocCapReached).with_command(
                CommandView::StopTransaction(mv.transaction_id->0),
            )
        } else {
            after
        }
    }

    /// Once a session was found to be going on, of which the start was missed.
    pub open spec fn with_missed_session(
        self,
        bms: Bms,
        transaction_id: i32,
        energy: u64,
        timestamp: Timestamp,
    ) -> EvseView {
        let id = self.db.next_session_id;
        let bms = bms_at_missed_start(bms, energy);
        EvseView {
            session: Some(
                SessionView::starting(
                    id,
                    transaction_id,
                    bms,
                    StateView::Active,
                    timestamp,
                    energy,
                ),
            ),
            db: self.db.after_session(StateView::Active, Some(transaction_id)).after(
                SessionView::unstarted(id, transaction_id, bms, StateView::Active).snapshot_write(
                    SessionView::reference(bms, timestamp, energy),
                ),
            ),
            ..self.with_tid(transaction_id)
        }
    }

    /// The battery of a session of which the start was missed: nothing is known of its state of
    /// charge where the reading at its start is not known.
    pub open spec fn missed_bms(self) -> Bms {
        if self.last_known_stop_energy is Some {
            self.bms
        } else {
            Bms { initial_soc: SoC::Unknown, current_soc: SoC::Unknown, ..self.bms }
        }
    }

    /// Once a meter value came in.
    ///
    /// Without a reading, or without a transaction, nothing comes of it but that the reading is
    /// noted. A reading that goes up advances the session that it belongs to. A meter value of a
    /// session that nothing is known of starts it.
    pub open spec fn after_meter_value(self, mv: MeterValueSelection, now: Moment) -> EvseView {
        match mv.active_energy_import {
            None => self,
            Some(energy) => {
                let noted = EvseView {
                    energy_tracker: self.energy_tracker.after(energy),
                    ..self
                };
                match (noted.energy_tracker, mv.transaction_id) {
                    (EnergyTracker::Increasing(_), Some(transaction_id)) => if self.progresses(
                        mv,
                    ) {
                        EvseView {
                            energy_tracker: noted.energy_tracker,
                            ..self.after_progress(mv, now)
                        }
                    } else {
                        noted.with_session_state(mismatch_error()).with_missed_session(
                            self.missed_bms(),
                            transaction_id,
                            energy,
                            mv.timestamp,
                        )
                    },
                    (EnergyTracker::Stationnary(_), Some(transaction_id)) => {
                        let same = self.session matches Some(session) && session.transaction_id
                            == transaction_id;
                        if same {
                            noted
                        } else {
                            (EvseView {
                                last_known_stop_energy: Some(energy),
                                ..noted.with_session_state(mismatch_error())
                            }).with_missed_session(self.bms, transaction_id, energy, mv.timestamp)
                        }
                    },
                    _ => noted,
                }
            },
        }
    }

    /// Once a meter value was observed, consolidated with earlier ones, and taken in.
    pub open spec fn after_observed_meter_value(
        self,
        mv: MeterValueSelection,
        now: Moment,
    ) -> EvseView {
        let observer = self.meter_value_observer.after_consolidation(mv);
        let consolidated = self.meter_value_observer.consolidated(mv);
        (EvseView {
            meter_value_observer: observer.after_observation(consolidated),
            ..self
        }).after_meter_value(consolidated, now)
    }

    /// Whether a report of the dynamic power management is to be kept as the last one.
    pub open spec fn keeps_dpm(self, dpm: DpmSelection) -> bool {
        match self.last_dpm {
            Some(last) => dpm.active_power_import is Some && !last.same_as(dpm),
            None => true,
        }
    }

    /// Once a report of the dynamic power management was read.
    pub open spec fn after_dpm(self, dpm: DpmSelection) -> EvseView {
        if self.keeps_dpm(dpm) {
            EvseView { last_dpm: Some(dpm), ..self }
        } else {
            self
        }
    }

    /// Once an answer to a call was taken in: a schedule that the charging point does not accept is
    /// out of force.
    pub open spec fn after_answer(self, answer: Answer) -> EvseView {
        match answer {
            Answer::ClearChargingProfile(status) => if status is Accepted {
                self
            } else {
                self.without_schedule()
            },
            Answer::SetChargingProfile(status) => if status is Accepted {
                self
            } else {
                self.without_schedule()
            },
            _ => self,
        }
    }
}

/// When the status of a connector was reported: as the report says, or now.
pub open spec fn status_time(status: StatusView, now: Moment) -> Timestamp {
    match status.timestamp {
        Some(timestamp) => timestamp,
        None => now.utc,
    }
}

/// The charging point as the server sees it.
#[derive(Debug)]
pub struct Evse {
    connector_id: Option<u32>,
    bms: Bms,
    last_known_tid: i32,
    energy_tracker: EnergyTracker,
    last_known_stop_energy: Option<u64>,
    meter_value_observer: MeterValueObserver,
    last_dpm: Option<DpmSelection>,
    charging_session: Option<ChargingSession>,
    charging_schedule: Option<ChargingSchedule>,
    commands: VecDeque<CommandToChargingPoint>,
    call_queue: VecDeque<OutgoingCall>,
    call_response_tracker: CallTracker,
    dpm_reports: Vec<String>,
    db: Database,
}

pub open spec fn session_option_view(session: Option<ChargingSession>) -> Option<SessionView> {
    match session {
        Some(session) => Some(session@),
        None => None,
    }
}

impl View for Evse {
    type V = EvseView;

    closed spec fn view(&self) -> EvseView {
        EvseView {
            connector_id: self.connector_id,
            bms: self.bms,
            last_known_tid: self.last_known_tid,
            energy_tracker: self.energy_tracker,
            last_known_stop_energy: self.last_known_stop_energy,
            meter_value_observer: self.meter_value_observer,
            last_dpm: self.last_dpm,
            session: session_option_view(self.charging_session),
            schedule: option_view(self.charging_schedule),
            commands: self.commands@.map_values(|command: CommandToChargingPoint| command@),
            call_queue: self.call_queue@.map_values(|call: OutgoingCall| call@),
            tracker: self.call_response_tracker@,
            dpm_reports: self.dpm_reports@.map_values(|report: String| report@),
            db: self.db@,
        }
    }
}

impl Evse {
    fn push_command(&mut self, command: CommandToChargingPoint)
        ensures
            final(self)@ == old(self)@.with_command(command@),
    {
        let ghost before = self@;
        self.commands.push_back(command);
        assert(self@.commands =~= before.commands.push(command@));
    }

    /// Puts a schedule in force, without telling the charging point.
    fn set_silent_schedule(&mut self, schedule: ChargingSchedule)
        requires
            old(self)@.db.next_schedule_id < i32::MAX,
        ensures
            final(self)@ == old(self)@.with_silent_schedule(schedule@),
    {
        if let Some(mut cur_schedule) = self.charging_schedule.take() {
            cur_schedule.inactivate(&mut self.db);
        }
        let mut schedule = schedule;
        schedule.id = self.db.add_new_charging_schedule(&schedule);
        self.charging_schedule = Some(schedule);
    }

    /// Puts a schedule in force in place of the one before.
    fn push_charging_schedule(&mut self, schedule: ChargingSchedule)
        requires
            old(self)@.db.next_schedule_id < i32::MAX,
        ensures
            final(self)@ == old(self)@.with_schedule(schedule@),
    {
        if let Some(mut cur_schedule) = self.charging_schedule.take() {
            cur_schedule.inactivate(&mut self.db);
        }
        let mut schedule = schedule;
        schedule.id = self.db.add_new_charging_schedule(&schedule);
        self.charging_schedule = Some(schedule.clone());
        self.push_command(CommandToChargingPoint::SetChargingSchedule(schedule));
    }

    /// Sets the schedule in force anew, in case it was removed (e.g. due to a charging point
    /// reboot).
    pub fn refresh_charging_schedule(&mut self, now: Timestamp)
        requires
            old(self)@.schedule is Some ==> old(self)@.db.next_schedule_id < i32::MAX,
        ensures
            final(self)@ == old(self)@.refreshed(now),
    {
        if let Some(mut schedule) = self.charging_schedule.take() {
            schedule.set_time = now;
            self.push_charging_schedule(schedule);
        }
    }

    /// Blocks charging for good, for a reboot of the charging point.
    ///
    /// After a reset, the EVSE starts the last chaging plan that was set, regardless of the moment
    /// it was supposed to start. A 0 W permanent limit makes sure that it does not start charging
    /// unexpectedly.
    pub fn permanent_0w_set(&mut self, now: Timestamp)
        requires
            old(self)@.db.next_schedule_id < i32::MAX,
        ensures
            final(self)@ == old(self)@.blocked(now),
    {
        self.set_silent_schedule(ChargingSchedule::set_at(ChargingScheduleState::Active, now));
    }

    fn end_session(&mut self, now: Timestamp, error: ChargingSessionState)
        requires
            old(self)@.well_formed(),
        ensures
            final(self)@ == old(self)@.with_session_ended(now, error@),
            final(self)@.well_formed(),
    {
        if let Some(mut cs) = self.charging_session.take() {
            if !cs.is_complete() {
                let energy = cs.last_energy();
                cs.stop(&mut self.db, now, energy, error);
            }
        }
    }

    fn set_session_state(&mut self, state: ChargingSessionState)
        requires
            old(self)@.well_formed(),
        ensures
            final(self)@ == old(self)@.with_session_state(state@),
            final(self)@.well_formed(),
    {
        if let Some(mut cs) = self.charging_session.take() {
            cs.set_state(&mut self.db, state);
            self.charging_session = Some(cs);
        }
    }

    fn have_transaction_id(&mut self, transaction_id: i32)
        ensures
            final(self)@ == old(self)@.with_tid(transaction_id),
    {
        if self.last_known_tid < transaction_id {
            self.last_known_tid = transaction_id;
        }
    }

    fn get_next_transaction_id(&mut self) -> (r: i32)
        requires
            old(self)@.last_known_tid < i32::MAX,
        ensures
            r == old(self)@.next_tid(),
            final(self)@ == (EvseView { last_known_tid: r, ..old(self)@ }),
    {
        self.last_known_tid = self.last_known_tid + 1;
        self.last_known_tid
    }

    /// Takes in the status of a connector.
    pub fn have_charging_point_status(&mut self, status: &StatusNotification, now: Moment)
        requires
            old(self)@.well_formed(),
        ensures
            final(self)@ == old(self)@.after_status(status@, now),
            final(self)@.well_formed(),
    {
        if status.connector_id == 0 {
            return ;
        }
        if same_text(status.error_code.as_str(), "NoError") {
            let timestamp = match status.timestamp {
                Some(timestamp) => timestamp,
                None => now.utc,
            };
            match ChargePointStatus::from_name(status.status.as_str()) {
                Some(ChargePointStatus::Available) | Some(ChargePointStatus::Finishing) => {
                    // when the transaction was stopped by the server
                    // (SoC cap was reached), the status is Finishing.
                    // The only way to get it back to a status which
                    // would allow starting a new session is by unplugging
                    // the EV first or by rebooting the charging point.
                    self.end_session(
                        timestamp,
                        ChargingSessionState::error(
                            "Got connector available while session was still active",
                        ),
                    );
                },
                Some(ChargePointStatus::Charging) => {
                    self.set_session_state(
                        ChargingSessionState::from_status(ChargePointStatus::Charging),
                    );
                },
                Some(ChargePointStatus::SuspendedEVSE) => {
                    // the EV is not charging due to EVSE not providing
                    // energy (e.g. charging period with power limit set to 0)
                    // however, the session can still be restarted
                    self.set_session_state(
                        ChargingSessionState::from_status(ChargePointStatus::SuspendedEVSE),
                    );
                },
                Some(ChargePointStatus::Preparing) => {
                    self.set_session_state(
                        ChargingSessionState::from_status(ChargePointStatus::Preparing),
                    );
                },
                Some(ChargePointStatus::SuspendedEV) => {
                    self.set_session_state(
                        ChargingSessionState::from_status(ChargePointStatus::SuspendedEV),
                    );
                    self.charging_session = None;
                },
                Some(ChargePointStatus::Faulted) => {
                    self.set_session_state(
                        ChargingSessionState::from_status(ChargePointStatus::Faulted),
                    );
                    self.charging_session = None;
                },
                _ => {},
            }
        }
        if self.connector_id.is_none() {
            self.connector_id = Some(status.connector_id);
        }
    }

    /// Takes in the start of a transaction and returns the number that it gets.
    ///
    /// The start of a transaction can't be blocked due to the SoC cap being reached, as the
    /// charging point attempts to restart in a loop. If a new transaction starts after the server
    /// has stopped one, either the EV was plugged again, or the charging point was rebooted, in
    /// which case a permanent 0 W charging plan is applied.
    pub fn have_start_transaction(&mut self, start: &StartTransaction, now: Moment) -> (r: i32)
        requires
            old(self)@.well_formed(),
            old(self)@.db.next_session_id < i32::MAX,
            old(self)@.last_known_tid < i32::MAX,
        ensures
            r == old(self)@.next_tid(),
            final(self)@ == old(self)@.after_start(*start, now),
            final(self)@.well_formed(),
    {
        self.end_session(
            now.utc,
            ChargingSessionState::error("Got start transaction while session was still active"),
        );
        let transaction_id = self.get_next_transaction_id();
        let cs = ChargingSession::with_transaction(
            &mut self.db,
            self.bms,
            start.timestamp,
            transaction_id,
            start.meter_start,
        );
        self.charging_session = Some(cs);
        transaction_id
    }

    /// Takes in the end of a transaction.
    pub fn have_stop_transaction(&mut self, stop: &StopTransaction, now: Moment)
        requires
            old(self)@.well_formed(),
            old(self)@.session is None ==> old(self)@.db.next_session_id < i32::MAX,
        ensures
            final(self)@ == old(self)@.after_stop(stop@, now),
            final(self)@.well_formed(),
    {
        let reason = match &stop.reason {
            Some(name) => Reason::from_name(name.as_str()),
            None => None,
        };
        let reason = ChargingSessionState::from_reason(reason);
        match self.charging_session.take() {
            Some(mut cs) => {
                if cs.transaction_id() == stop.transaction_id {
                    cs.stop(&mut self.db, stop.timestamp, stop.meter_stop, reason);
                } else {
                    self.have_transaction_id(stop.transaction_id);
                    let energy = cs.last_energy();
                    cs.stop(
                        &mut self.db,
                        now.utc,
                        energy,
                        ChargingSessionState::error("Got stop transaction for another session"),
                    );
                }
            },
            None => {
                self.have_transaction_id(stop.transaction_id);
                ChargingSession::save_missing_stopped_session(
                    &mut self.db,
                    Some(stop.timestamp),
                    reason,
                    stop.meter_stop,
                    Some(stop.transaction_id),
                );
            },
        }
        self.energy_tracker.have_energy(stop.meter_stop);
        self.last_known_stop_energy = Some(stop.meter_stop);
    }

    fn is_nearly_done(&self, now: Moment) -> (r: bool)
        requires
            self@.schedule matches Some(schedule) ==> schedule.countable(now.local),
        ensures
            r == self@.nearly_done(now),
    {
        match &self.charging_schedule {
            Some(schedule) => {
                let outstanding = schedule.outstanding(now.local, self.bms.constant_power_loss);
                outstanding.energy * 100 <= self.bms.capacity as i128 * 3600
            },
            None => false,
        }
    }

    /// Starts a session that is going on already.
    fn start_missed_session(
        &mut self,
        bms: Bms,
        transaction_id: i32,
        energy: u64,
        timestamp: Timestamp,
    )
        requires
            old(self)@.tracker.well_formed(),
            old(self)@.db.next_session_id < i32::MAX,
        ensures
            final(self)@ == old(self)@.with_missed_session(bms, transaction_id, energy, timestamp),
            final(self)@.well_formed(),
    {
        self.have_transaction_id(transaction_id);
        self.charging_session = Some(
            ChargingSession::with_state(
                &mut self.db,
                bms,
                transaction_id,
                ChargingSessionState::Active,
                energy,
                Some(timestamp),
            ),
        );
    }

    /// Takes in a meter value.
    pub fn handle_meter_value(&mut self, mv: MeterValueSelection, now: Moment)
        requires
            old(self)@.well_formed(),
            old(self)@.starts_session(mv) ==> old(self)@.db.next_session_id < i32::MAX,
            old(self)@.consults_schedule(mv) ==> old(self)@.schedule->0.countable(now.local),
        ensures
            final(self)@ == old(self)@.after_meter_value(mv, now),
            final(self)@.well_formed(),
    {
        let energy = match mv.active_energy_import {
            Some(energy) => energy,
            None => {
                return ;
            },
        };
        self.energy_tracker.have_energy(energy);
        let transaction_id = match mv.transaction_id {
            Some(transaction_id) => transaction_id,
            None => {
                return ;
            },
        };
        let is_current = match &self.charging_session {
            Some(cs) => cs.transaction_id() == transaction_id,
            None => false,
        };
        match self.energy_tracker {
            EnergyTracker::Increasing(_) => {
                if is_current {
                    let nearly_done = self.is_nearly_done(now);
                    if let Some(mut cs) = self.charging_session.take() {
                        let snapshot = ChargingSessionSnapshot::builder(
                            mv.timestamp,
                            energy,
                        ).power(mv.active_power_import).l1_voltage(mv.voltage_l1).temperature(
                            mv.temperature,
                        ).build();
                        let soc_progress = cs.add_snapshot(&mut self.db, snapshot);
                        // don't stop if we are nearly done with the schedule
                        // (less than 1% here) so we can start a new one without unplugging
                        let stop = soc_progress.is_complete() && !cs.is_complete() && !nearly_done;
                        if stop {
                            cs.set_state(&mut self.db, ChargingSessionState::SocCapReached);
                        }
                        self.charging_session = Some(cs);
                        if stop {
                            self.push_command(
                                CommandToChargingPoint::StopTransaction(transaction_id),
                            );
                        }
                    }
                    return ;
                }
                self.set_session_state(ChargingSessionState::error("transaction id mismatch"));
                let mut bms = self.bms;
                if self.last_known_stop_energy.is_none() {
                    bms.initial_soc.update(SoC::Unknown);
                    bms.current_soc.update(SoC::Unknown);
                }
                self.start_missed_session(bms, transaction_id, energy, mv.timestamp);
            },
            EnergyTracker::Stationnary(_) => {
                if is_current {
                    return ;
                }
                self.set_session_state(ChargingSessionState::error("transaction id mismatch"));
                self.last_known_stop_energy = Some(energy);
                let bms = self.bms;
                self.start_missed_session(bms, transaction_id, energy, mv.timestamp);
            },
            _ => {},
        }
    }

    /// Takes in a meter value, consolidated with earlier ones, and returns whether it tells the
    /// user anything new.
    pub fn have_charging_point_meter_values(&mut self, mv: MeterValueSelection, now: Moment) -> (r:
        bool)
        requires
            old(self)@.well_formed(),
            old(self)@.starts_session(mv) ==> old(self)@.db.next_session_id < i32::MAX,
            old(self)@.consults_schedule(mv) ==> old(self)@.schedule->0.countable(now.local),
        ensures
            final(self)@ == old(self)@.after_observed_meter_value(mv, now),
            r == old(self)@.meter_value_observer.after_consolidation(mv).pertinent(
                old(self)@.meter_value_observer.consolidated(mv),
            ),
            final(self)@.well_formed(),
    {
        let mut mv = mv;
        self.meter_value_observer.consolidate(&mut mv);
        let pertinent = self.meter_value_observer.pertinent_to_user(&mv);
        self.handle_meter_value(mv, now);
        pertinent
    }

    /// Takes in a report of the dynamic power management.
    pub fn have_dpm_data(&mut self, dpm: DpmSelection)
        ensures
            final(self)@ == old(self)@.after_dpm(dpm),
    {
        let keep = match self.last_dpm {
            Some(last_dpm) => dpm.active_power_import.is_some() && last_dpm != dpm,
            None => true,
        };
        if keep {
            self.last_dpm = Some(dpm);
        }
    }
}

/// Why a message cannot be taken in.
#[derive(Debug, Clone, Copy, PartialEq, Eq, Structural)]
pub enum Refusal {
    /// No session can be numbered any more.
    NoSessionNumber,
    /// No schedule can be numbered any more.
    NoScheduleNumber,
    /// No transaction can be numbered any more.
    NoTransactionNumber,
    /// What is left of the schedule cannot be added up: less than a second of a period is left.
    UncountableSchedule,
}

/// The time (s) between two heartbeats of the charging point.
pub const HEARTBEAT_INTERVAL_S: i32 = 3600;

/// The last of the meter values that came in together.
pub open spec fn last_selection(values: MeterValuesView) -> Option<MeterValueSelection> {
    if values.meter_value.len() == 0 {
        None
    } else {
        Some(MeterValueSelection::spec_new(values.meter_value.last(), values.transaction_id))
    }
}

fn select_last(values: &MeterValues) -> (r: Option<MeterValueSelection>)
    ensures
        r == last_selection(values@),
{
    let len = values.meter_value.len();
    if len == 0 {
        None
    } else {
        Some(MeterValueSelection::new(&values.meter_value[len - 1], values.transaction_id))
    }
}

/// Whether the charging point has just removed its charging profile: the charging point clears it
/// on Monday 0:00 UTC and starts charging if the EV is connected.
pub open spec fn clears_profile(status: StatusView, now: Moment) -> bool {
    &&& ChargePointStatus::named(status.status) == Some(ChargePointStatus::Charging)
    &&& status_time(status, now).in_first_minute_of_monday()
}

pub fn is_profile_cleared(status: &StatusNotification, now: Moment) -> (r: bool)
    ensures
        r == clears_profile(status@, now),
{
    let timestamp = match status.timestamp {
        Some(timestamp) => timestamp,
        None => now.utc,
    };
    let charging = match ChargePointStatus::from_name(status.status.as_str()) {
        Some(ChargePointStatus::Charging) => true,
        _ => false,
    };
    charging && timestamp.is_first_minute_of_monday()
}

impl EvseView {
    /// Why an action cannot be taken in, where it cannot.
    pub open spec fn action_refusal(self, content: ActionContent, now: Moment) -> Option<Refusal> {
        match content {
            ActionContent::StartTransaction(_) => if self.db.next_session_id == i32::MAX {
                Some(Refusal::NoSessionNumber)
            } else if self.last_known_tid == i32::MAX {
                Some(Refusal::NoTransactionNumber)
            } else {
                None
            },
            ActionContent::StopTransaction(_) => if self.session is None && self.db.next_session_id
                == i32::MAX {
                Some(Refusal::NoSessionNumber)
            } else {
                None
            },
            ActionContent::MeterValues(values) => match last_selection(values) {
                Some(mv) => if self.starts_session(mv) && self.db.next_session_id == i32::MAX {
                    Some(Refusal::NoSessionNumber)
                } else if self.consults_schedule(mv) && !self.schedule->0.countable(now.local) {
                    Some(Refusal::UncountableSchedule)
                } else {
                    None
                },
                None => None,
            },
            _ => None,
        }
    }

    /// Once an action was taken in.
    pub open spec fn after_action(self, content: ActionContent, now: Moment) -> EvseView {
        match content {
            ActionContent::StatusNotification(status) => self.after_status(status, now),
            ActionContent::StartTransaction(start) => self.after_start(start, now),
            ActionContent::StopTransaction(stop) => self.after_stop(stop, now),
            ActionContent::MeterValues(values) => match last_selection(values) {
                Some(mv) => self.after_observed_meter_value(mv, now),
                None => self,
            },
            ActionContent::DataTransfer(Some(report)) => EvseView {
                dpm_reports: self.dpm_reports.push(report),
                ..self
            },
            _ => self,
        }
    }

    /// What is replied to an action, where anything is.
    pub open spec fn reply(self, content: ActionContent, now: Moment) -> Option<ReplyView> {
        match content.kind() {
            ActionKind::StatusNotification => Some(ReplyView::Empty),
            ActionKind::StartTransaction => Some(
                ReplyView::StartTransaction {
                    transaction_id: self.next_tid(),
                    info: TagView::accepted(),
                },
            ),
            ActionKind::StopTransaction => Some(ReplyView::StopTransaction { info: None }),
            ActionKind::MeterValues => Some(ReplyView::Empty),
            ActionKind::DataTransfer => Some(
                ReplyView::DataTransfer { outcome: TransferStatus::Accepted, data: None },
            ),
            ActionKind::Heartbeat => Some(ReplyView::Heartbeat { current_time: now.utc }),
            ActionKind::BootNotification => Some(
                ReplyView::BootNotification {
                    current_time: now.utc,
                    interval: HEARTBEAT_INTERVAL_S,
                    status: BootStatus::Accepted,
                },
            ),
            ActionKind::SecurityEventNotification => Some(ReplyView::Empty),
            ActionKind::Authorize => Some(ReplyView::Authorize { info: TagView::accepted() }),
            ActionKind::Other => None,
        }
    }

    /// Whether the schedule in force is to be set anew before the action is taken in: a connector
    /// reports, without an error, that the charging point has removed it.
    pub open spec fn refreshes(self, content: ActionContent, now: Moment) -> bool {
        content matches ActionContent::StatusNotification(status) && status.connector_id != 0
            && status.error_code == "NoError"@ && clears_profile(status, now)
    }

    /// Why a call cannot be taken in, where it cannot.
    pub open spec fn call_refusal(self, content: ActionContent, now: Moment) -> Option<Refusal> {
        if self.refreshes(content, now) && self.schedule is Some && self.db.next_schedule_id
            == i32::MAX {
            Some(Refusal::NoScheduleNumber)
        } else {
            self.action_refusal(content, now)
        }
    }

    /// Once a call was taken in.
    pub open spec fn after_call(self, content: ActionContent, now: Moment) -> EvseView {
        if self.refreshes(content, now) {
            self.refreshed(now.utc).after_action(content, now)
        } else {
            self.after_action(content, now)
        }
    }

    /// Once a message was taken in. What cannot be read, and what is refused, changes nothing.
    pub open spec fn after_message(self, frame: Option<FrameContent>, now: Moment) -> EvseView {
        match frame {
            Some(FrameContent::Call { unique_id, content }) => if self.call_refusal(
                content,
                now,
            ) is None {
                self.after_call(content, now)
            } else {
                self
            },
            Some(FrameContent::Result { result }) => (EvseView {
                tracker: self.tracker.after_answer(result),
                ..self
            }).after_answer(self.tracker.answer(result)),
            _ => self,
        }
    }

    /// What is replied to a message, where anything is, or why it is refused.
    pub open spec fn message_reply(self, frame: Option<FrameContent>, now: Moment) -> Result<
        Option<Seq<char>>,
        Refusal,
    > {
        match frame {
            Some(FrameContent::Call { unique_id, content }) => match self.call_refusal(
                content,
                now,
            ) {
                Some(refusal) => Err(refusal),
                None => Ok(
                    match self.reply(content, now) {
                        Some(reply) => written_reply(unique_id, reply),
                        None => None,
                    },
                ),
            },
            _ => Ok(None),
        }
    }
}

/// Whether a message is a call that is always replied to, unless it is refused.
pub open spec fn is_answered(frame: Option<FrameContent>) -> bool {
    frame matches Some(FrameContent::Call { content, .. }) && content.kind() !is Other
}

pub open spec fn reply_view(reply: Result<Option<String>, Refusal>) -> Result<
    Option<Seq<char>>,
    Refusal,
> {
    match reply {
        Ok(text) => Ok(option_text(text)),
        Err(refusal) => Err(refusal),
    }
}

impl Evse {
    /// Tells why an action cannot be taken in, where it cannot.
    pub fn refuse_action(&self, action: &Action, now: Moment) -> (r: Option<Refusal>)
        ensures
            r == self@.action_refusal(content_of(*action), now),
    {
        match action_kind(action) {
            ActionKind::StartTransaction => {
                if self.db.next_session_id == i32::MAX {
                    Some(Refusal::NoSessionNumber)
                } else if self.last_known_tid == i32::MAX {
                    Some(Refusal::NoTransactionNumber)
                } else {
                    None
                }
            },
            ActionKind::StopTransaction => {
                if self.charging_session.is_none() && self.db.next_session_id == i32::MAX {
                    Some(Refusal::NoSessionNumber)
                } else {
                    None
                }
            },
            ActionKind::MeterValues => match meter_values(action) {
                Some(values) => match select_last(&values) {
                    Some(mv) => {
                        if self.is_session_start(&mv) && self.db.next_session_id == i32::MAX {
                            Some(Refusal::NoSessionNumber)
                        } else if !self.can_consult_schedule(&mv, now) {
                            Some(Refusal::UncountableSchedule)
                        } else {
                            None
                        }
                    },
                    None => None,
                },
                None => None,
            },
            _ => None,
        }
    }

    fn is_session_start(&self, mv: &MeterValueSelection) -> (r: bool)
        ensures
            r == self@.starts_session(*mv),
    {
        let has_reading = match self.energy_tracker {
            EnergyTracker::Unknown => false,
            _ => true,
        };
        let is_current = match (&self.charging_session, mv.transaction_id) {
            (Some(cs), Some(transaction_id)) => cs.transaction_id() == transaction_id,
            _ => false,
        };
        mv.active_energy_import.is_some() && has_reading && mv.transaction_id.is_some()
            && !is_current
    }

    fn can_consult_schedule(&self, mv: &MeterValueSelection, now: Moment) -> (r: bool)
        ensures
            r == (self@.consults_schedule(*mv) ==> self@.schedule->0.countable(now.local)),
    {
        let schedule = match &self.charging_schedule {
            Some(schedule) => schedule,
            None => {
                return true;
            },
        };
        let energy = match mv.active_energy_import {
            Some(energy) => energy,
            None => {
                return true;
            },
        };
        let mut tracker = self.energy_tracker;
        tracker.have_energy(energy);
        let increasing = match tracker {
            EnergyTracker::Increasing(_) => true,
            _ => false,
        };
        let is_current = match (&self.charging_session, mv.transaction_id) {
            (Some(cs), Some(transaction_id)) => cs.transaction_id() == transaction_id,
            _ => false,
        };
        !increasing || !is_current || schedule.is_countable(now.local)
    }

    /// Takes in an action and returns what is to be replied, if anything.
    pub fn have_action(&mut self, action: &Action, now: Moment) -> (r: Option<Reply>)
        requires
            old(self)@.well_formed(),
            old(self)@.action_refusal(content_of(*action), now) is None,
        ensures
            final(self)@ == old(self)@.after_action(content_of(*action), now),
            reply_option_view(r) == old(self)@.reply(content_of(*action), now),
            final(self)@.well_formed(),
    {
        match action_kind(action) {
            ActionKind::StatusNotification => {
                if let Some(status) = status_notification(action) {
                    self.have_charging_point_status(&status, now);
                }
                Some(Reply::Empty)
            },
            ActionKind::StartTransaction => match start_transaction(action) {
                Some(start) => {
                    let transaction_id = self.have_start_transaction(&start, now);
                    Some(
                        Reply::StartTransaction { transaction_id, info: TagInfo::accepted() },
                    )
                },
                None => None,
            },
            ActionKind::StopTransaction => {
                if let Some(stop) = stop_transaction(action) {
                    self.have_stop_transaction(&stop, now);
                }
                Some(Reply::StopTransaction { info: None })
            },
            ActionKind::MeterValues => {
                if let Some(values) = meter_values(action) {
                    if let Some(mv) = select_last(&values) {
                        self.have_charging_point_meter_values(mv, now);
                    }
                }
                Some(Reply::Empty)
            },
            ActionKind::DataTransfer => {
                if let Some(Some(report)) = data_transfer(action) {
                    let ghost before = self@;
                    self.dpm_reports.push(report);
                    assert(self@.dpm_reports =~= before.dpm_reports.push(report@));
                }
                Some(Reply::DataTransfer { outcome: TransferStatus::Accepted, data: None })
            },
            ActionKind::Heartbeat => Some(Reply::Heartbeat { current_time: now.utc }),
            ActionKind::BootNotification => Some(
                Reply::BootNotification {
                    current_time: now.utc,
                    interval: HEARTBEAT_INTERVAL_S,
                    status: BootStatus::Accepted,
                },
            ),
            ActionKind::SecurityEventNotification => Some(Reply::Empty),
            ActionKind::Authorize => Some(Reply::Authorize { info: TagInfo::accepted() }),
            ActionKind::Other => None,
        }
    }

    fn is_refresh_due(&self, action: &Action, now: Moment) -> (r: bool)
        ensures
            r == self@.refreshes(content_of(*action), now),
    {
        match status_notification(action) {
            Some(status) => status.connector_id != 0 && same_text(
                status.error_code.as_str(),
                "NoError",
            ) && is_profile_cleared(&status, now),
            None => false,
        }
    }

    /// Takes in a call and returns what is to be replied, if anything, unless the call is refused.
    fn handle_incoming_call(&mut self, action: &Action, now: Moment) -> (r: Result<
        Option<Reply>,
        Refusal,
    >)
        requires
            old(self)@.well_formed(),
        ensures
            match old(self)@.call_refusal(content_of(*action), now) {
                Some(refusal) => {
                    &&& r == Err::<Option<Reply>, Refusal>(refusal)
                    &&& final(self)@ == old(self)@
                },
                None => {
                    &&& r is Ok
                    &&& reply_option_view(r->Ok_0) == old(self)@.reply(content_of(*action), now)
                    &&& final(self)@ == old(self)@.after_call(content_of(*action), now)
                },
            },
            final(self)@.well_formed(),
    {
        let refresh = self.is_refresh_due(action, now);
        if refresh && self.charging_schedule.is_some() && self.db.next_schedule_id == i32::MAX {
            return Err(Refusal::NoScheduleNumber);
        }
        if let Some(refusal) = self.refuse_action(action, now) {
            return Err(refusal);
        }
        if refresh {
            // The charging point I use clears the charging profile
            // on Monday 0:00 UTC (it seems to set a charging profile at some
            // later point, but that's still unclear when nor what profile).
            // If the EV is connected, charging starts regardless of any user
            // defined charging plan & SoC is only capted if specified.
            // As a workaround, push current charging schedule now
            self.refresh_charging_schedule(now.utc);
        }
        Ok(self.have_action(action, now))
    }

    fn handle_incoming_call_result(&mut self, result: CallResultRaw)
        requires
            old(self)@.well_formed(),
        ensures
            final(self)@ == (EvseView {
                tracker: old(self)@.tracker.after_answer(result_in(result)),
                ..old(self)@
            }).after_answer(old(self)@.tracker.answer(result_in(result))),
            final(self)@.well_formed(),
    {
        let answer = self.call_response_tracker.take_answer(result);
        let rejected = match answer {
            Answer::ClearChargingProfile(status) => !status.is_accepted(),
            Answer::SetChargingProfile(status) => !status.is_accepted(),
            _ => false,
        };
        if rejected {
            if let Some(mut schedule) = self.charging_schedule.take() {
                schedule.inactivate(&mut self.db);
            }
        }
    }

    /// Takes in a message and returns the text of the reply, if there is any, unless the message is
    /// refused.
    pub fn handle_frame(&mut self, frame: Frame, now: Moment) -> (r: Result<
        Option<String>,
        Refusal,
    >)
        requires
            old(self)@.well_formed(),
        ensures
            reply_view(r) == old(self)@.message_reply(Some(frame@), now),
            final(self)@ == old(self)@.after_message(Some(frame@), now),
            is_answered(Some(frame@)) && now.utc.representable() ==> r is Err || r matches Ok(
                Some(_),
            ),
            final(self)@.well_formed(),
    {
        match frame {
            Frame::Call { unique_id, action } => match self.handle_incoming_call(&action, now) {
                Ok(Some(reply)) => Ok(write_reply(unique_id, reply)),
                Ok(None) => Ok(None),
                Err(refusal) => Err(refusal),
            },
            Frame::Result { result } => {
                self.handle_incoming_call_result(result);
                Ok(None)
            },
            Frame::Error => Ok(None),
        }
    }

    /// Handles the incoming message, with the clock at `now`
    ///
    /// Returns `Some(reponse)` if applicable, unless the message is refused.
    pub fn handle_incoming_message_at(&mut self, msg: &str, now: Moment) -> (r: Result<
        Option<String>,
        Refusal,
    >)
        requires
            old(self)@.well_formed(),
        ensures
            reply_view(r) == old(self)@.message_reply(frame_in(msg@), now),
            final(self)@ == old(self)@.after_message(frame_in(msg@), now),
            is_answered(frame_in(msg@)) && now.utc.representable() ==> r is Err || r matches Ok(
                Some(_),
            ),
            final(self)@.well_formed(),
    {
        match read_frame(msg) {
            Some(frame) => self.handle_frame(frame, now),
            None => Ok(None),
        }
    }

    /// Handles the incoming message
    ///
    /// Returns `Some(reponse)` if applicable, unless the message is refused.
    pub fn handle_incoming_message(&mut self, msg: &str) -> (r: Result<Option<String>, Refusal>)
        requires
            old(self)@.well_formed(),
        ensures
            exists|now: Moment| #[trigger]
                now.valid() && reply_view(r) == old(self)@.message_reply(frame_in(msg@), now)
                    && final(self)@ == old(self)@.after_message(frame_in(msg@), now),
            is_answered(frame_in(msg@)) ==> r is Err || r matches Ok(Some(_)),
            final(self)@.well_formed(),
    {
        let now = read_clock();
        self.handle_incoming_message_at(msg, now)
    }

    /// Hands out the reports of the dynamic power management that came in.
    pub fn take_dpm_reports(&mut self) -> (r: Vec<String>)
        ensures
            r@.map_values(|report: String| report@) == old(self)@.dpm_reports,
            final(self)@ == (EvseView { dpm_reports: Seq::empty(), ..old(self)@ }),
    {
        let mut reports: Vec<String> = Vec::new();
        std::mem::swap(&mut reports, &mut self.dpm_reports);
        assert(self@.dpm_reports =~= Seq::empty());
        reports
    }

    /// Takes in the last of the data sets in a report of the dynamic power management.
    pub fn have_dpm_data_set(&mut self, data_set: Vec<Dpm>)
        ensures
            final(self)@ == (if data_set@.len() == 0 {
                old(self)@
            } else {
                old(self)@.after_dpm(
                    DpmSelection::selected(
                        instant_in(data_set@.last().data.timestamp@),
                        data_set@.last().data.sampled_value@,
                    ),
                )
            }),
    {
        let mut data_set = data_set;
        if let Some(dpm) = data_set.pop() {
            self.have_dpm_data(DpmSelection::from(dpm));
        }
    }

    /// Hands out the writes to the store that were recorded so far.
    pub fn take_writes(&mut self) -> (r: Vec<Write>)
        ensures
            r@.map_values(|write: Write| write@) == old(self)@.db.writes,
            final(self)@ == (EvseView {
                db: DatabaseView { writes: Seq::empty(), ..old(self)@.db },
                ..old(self)@
            }),
    {
        self.db.take_writes()
    }

    /// Whether at least so many more schedules can be numbered.
    pub fn can_number_schedules(&self, count: u16) -> (r: bool)
        ensures
            r == (self@.db.next_schedule_id + count <= i32::MAX),
    {
        self.db.next_schedule_id <= i32::MAX - count as i32
    }

    pub fn bms(&self) -> (r: &Bms)
        ensures
            *r == self@.bms,
    {
        &self.bms
    }

    pub fn charging_session(&self) -> (r: Option<&ChargingSession>)
        ensures
            match r {
                Some(session) => self@.session == Some(session@),
                None => self@.session is None,
            },
    {
        self.charging_session.as_ref()
    }

    pub fn charging_schedule(&self) -> (r: Option<&ChargingSchedule>)
        ensures
            match r {
                Some(schedule) => self@.schedule == Some(schedule@),
                None => self@.schedule is None,
            },
    {
        self.charging_schedule.as_ref()
    }
}

impl EvseView {
    /// The charging point at the start of the server, with the last session and the last schedule
    /// that it knows of. A session that is over, and a schedule that is out of force, are not taken
    /// up.
    pub open spec fn resumed(
        bms: Bms,
        session: Option<SessionView>,
        schedule: Option<ScheduleView>,
        db: DatabaseView,
    ) -> EvseView {
        EvseView {
            connector_id: None,
            bms,
            last_known_tid: match session {
                Some(session) => session.transaction_id,
                None => 0,
            },
            energy_tracker: EnergyTracker::Unknown,
            last_known_stop_energy: match session {
                Some(session) => if session.state.complete() {
                    Some(session.snapshots.last().energy)
                } else {
                    Some(session.snapshots[0].energy)
                },
                None => None,
            },
            meter_value_observer: MeterValueObserver {
                prev_meter_val: None,
                prev_temp_sum: None,
                last_voltage: None,
            },
            last_dpm: None,
            session: match session {
                Some(session) => if session.state.complete() {
                    None
                } else {
                    Some(session)
                },
                None => None,
            },
            schedule: match schedule {
                Some(schedule) => if schedule.state is Active {
                    Some(schedule)
                } else {
                    None
                },
                None => None,
            },
            commands: Seq::empty(),
            call_queue: Seq::empty(),
            tracker: TrackerView { number: 0, pending: Map::empty() },
            dpm_reports: Seq::empty(),
            db,
        }
    }

    /// Whether `after` is what comes of a charging plan that is made at `now`. Without a plan, and
    /// with one that comes to no schedule, nothing changes.
    pub open spec fn plan_leads_to(
        self,
        plan: Option<ChargingPlan>,
        now: Moment,
        after: EvseView,
    ) -> bool {
        match plan {
            Some(plan) => exists|schedule: Option<ScheduleView>| #[trigger]
                plan.can_come_to(self.bms, now, schedule) && after == (match schedule {
                    Some(schedule) => self.with_schedule(schedule),
                    None => self,
                }),
            None => after == self,
        }
    }

    /// Whether a command can be carried out.
    pub open spec fn can_apply(self, command: Command, plan: Option<ChargingPlan>) -> bool {
        match command {
            Command::Run => plan matches Some(plan) ==> plan.feasible(self.bms)
                && self.db.next_schedule_id < i32::MAX,
            Command::StopSession => self.session is Some,
            Command::Reboot => self.db.next_schedule_id < i32::MAX,
            Command::SetServerIp(ip) => {
                &&& self.db.next_schedule_id < i32::MAX
                &&& exists|address: Ipv4Address| ip.ip_address@ == #[trigger] address.text()
            },
        }
    }

    /// Whether `after` is what comes of a command that is carried out at `now`.
    pub open spec fn command_leads_to(
        self,
        command: Command,
        plan: Option<ChargingPlan>,
        now: Moment,
        after: EvseView,
    ) -> bool {
        let blocking = ScheduleView::blank(ChargingScheduleState::Active, now.utc);
        match command {
            Command::Run => self.plan_leads_to(plan, now, after),
            Command::StopSession => after == self.with_command(
                CommandView::StopTransaction(self.session->0.transaction_id),
            ),
            Command::Reboot => after == self.with_schedule(blocking).with_command(
                CommandView::Reboot,
            ),
            Command::SetServerIp(ip) => after == self.with_command(
                CommandView::SetServerAddress(server_address(ip.ip_address@)),
            ).with_schedule(blocking).with_command(CommandView::Reboot),
        }
    }
}

/// The address that the charging point reaches a server at.
pub open spec fn server_address(ip: Seq<char>) -> Seq<char> {
    "ws://"@ + ip + ":9000"@
}

/// Makes the address that the charging point reaches a server at.
pub fn make_server_address(ip: &ServerIp) -> (r: Result<String, InvalidServerIp>)
    ensures
        match r {
            Ok(address) => address@ == server_address(ip.ip_address@) && exists|
                address: Ipv4Address,
            | ip.ip_address@ == #[trigger] address.text(),
            Err(_) => forall|address: Ipv4Address| ip.ip_address@ != #[trigger] address.text(),
        },
{
    match ip.get_ip_address() {
        Ok(address) => {
            let text = address.to_string();
            Ok("ws://".to_owned().concat(text.as_str()).concat(":9000"))
        },
        Err(e) => Err(e),
    }
}

impl Evse {
    /// The charging point at the start of the server.
    pub fn resume(
        bms: Bms,
        last_charging_session: Option<ChargingSession>,
        last_charging_schedule: Option<ChargingSchedule>,
        db: Database,
    ) -> (r: Self)
        requires
            last_charging_session matches Some(session) ==> session@.snapshots.len() > 0,
        ensures
            r@ == EvseView::resumed(
                bms,
                session_option_view(last_charging_session),
                option_view(last_charging_schedule),
                db@,
            ),
            r@.well_formed(),
    {
        let mut evse = Evse {
            connector_id: None,
            bms,
            last_known_tid: 0,
            energy_tracker: EnergyTracker::Unknown,
            last_known_stop_energy: None,
            meter_value_observer: MeterValueObserver::default(),
            last_dpm: None,
            charging_session: None,
            charging_schedule: None,
            commands: VecDeque::new(),
            call_queue: VecDeque::new(),
            call_response_tracker: CallTracker::new(),
            dpm_reports: Vec::new(),
            db,
        };
        if let Some(cs) = last_charging_session {
            evse.last_known_tid = cs.transaction_id();
            if cs.is_complete() {
                evse.last_known_stop_energy = Some(cs.last_energy());
            } else {
                if let Some(first_snapshot) = cs.first_snapshot() {
                    evse.last_known_stop_energy = Some(first_snapshot.energy);
                }
                evse.charging_session = Some(cs);
            }
        }
        if let Some(schedule) = last_charging_schedule {
            if schedule.is_active() {
                evse.charging_schedule = Some(schedule);
            }
        }
        assert(evse@.commands =~= Seq::empty());
        assert(evse@.call_queue =~= Seq::empty());
        assert(evse@.dpm_reports =~= Seq::empty());
        evse
    }

    /// Applies a charging plan that is made at `now`.
    pub fn set_charging_plan(&mut self, plan: &ChargingPlan, now: Moment) -> (r: Result<
        (),
        NoSingleInstant,
    >)
        requires
            now.valid(),
            plan.feasible(old(self)@.bms),
            old(self)@.db.next_schedule_id < i32::MAX,
        ensures
            r is Ok ==> old(self)@.plan_leads_to(Some(*plan), now, final(self)@),
            r matches Err(e) ==> final(self)@ == old(self)@ && plan.can_fail_with(
                old(self)@.bms,
                now,
                e,
            ),
    {
        match plan.to_charging_schedule_at(&self.bms, now) {
            Ok(schedule) => {
                let ghost made = option_view(schedule);
                assert(plan.can_come_to(self@.bms, now, made));
                if let Some(schedule) = schedule {
                    self.push_charging_schedule(schedule);
                }
                Ok(())
            },
            Err(e) => Err(e),
        }
    }

    /// Lets the session going on be stopped.
    pub fn stop_current_session(&mut self)
        requires
            old(self)@.session is Some,
        ensures
            final(self)@ == old(self)@.with_command(
                CommandView::StopTransaction(old(self)@.session->0.transaction_id),
            ),
    {
        let transaction_id = match &self.charging_session {
            Some(cs) => cs.transaction_id(),
            None => {
                return ;
            },
        };
        self.push_command(CommandToChargingPoint::StopTransaction(transaction_id));
    }

    /// Carries out a command of the user, with the clock at `now`.
    pub fn apply_command(
        &mut self,
        command: &Command,
        charging_plan: Option<ChargingPlan>,
        now: Moment,
    ) -> (r: Result<(), NoSingleInstant>)
        requires
            now.valid(),
            old(self)@.can_apply(*command, charging_plan),
        ensures
            r is Ok ==> old(self)@.command_leads_to(*command, charging_plan, now, final(self)@),
            r matches Err(e) ==> final(self)@ == old(self)@ && charging_plan is Some
                && *command is Run && charging_plan->0.can_fail_with(old(self)@.bms, now, e),
    {
        match command {
            Command::Run => match charging_plan {
                Some(charging_plan) => self.set_charging_plan(&charging_plan, now),
                None => Ok(()),
            },
            Command::StopSession => {
                self.stop_current_session();
                Ok(())
            },
            Command::Reboot => {
                self.push_charging_schedule(
                    ChargingSchedule::set_at(ChargingScheduleState::Active, now.utc),
                );
                self.push_command(CommandToChargingPoint::Reboot);
                Ok(())
            },
            Command::SetServerIp(ip) => {
                if let Ok(address) = make_server_address(ip) {
                    self.push_command(CommandToChargingPoint::SetServerAddress(address));
                }
                self.push_charging_schedule(
                    ChargingSchedule::set_at(ChargingScheduleState::Active, now.utc),
                );
                self.push_command(CommandToChargingPoint::Reboot);
                Ok(())
            },
        }
    }

    /// The charging point at the start of the server, with a command of the user to carry out.
    pub fn new(
        bms: Bms,
        charging_plan: Option<ChargingPlan>,
        last_charging_session: Option<ChargingSession>,
        last_charging_schedule: Option<ChargingSchedule>,
        command: Command,
        db: Database,
    ) -> (r: Result<Self, NoSingleInstant>)
        requires
            last_charging_session matches Some(session) ==> session@.snapshots.len() > 0,
            EvseView::resumed(
                bms,
                session_option_view(last_charging_session),
                option_view(last_charging_schedule),
                db@,
            ).can_apply(command, charging_plan),
        ensures
            r matches Ok(evse) ==> evse@.well_formed() && exists|now: Moment| #[trigger]
                now.valid() && EvseView::resumed(
                    bms,
                    session_option_view(last_charging_session),
                    option_view(last_charging_schedule),
                    db@,
                ).command_leads_to(command, charging_plan, now, evse@),
            r matches Err(e) ==> charging_plan is Some && command is Run && exists|now: Moment|
                #[trigger]
                now.valid() && charging_plan->0.can_fail_with(bms, now, e),
    {
        let now = read_clock();
        let mut evse = Evse::resume(bms, last_charging_session, last_charging_schedule, db);
        match evse.apply_command(&command, charging_plan, now) {
            Ok(()) => Ok(evse),
            Err(e) => Err(e),
        }
    }

    /// The next command to the charging point, if there is any.
    pub fn next_command(&self) -> (r: Option<&CommandToChargingPoint>)
        ensures
            match r {
                Some(command) => self@.commands.len() > 0 && command@ == self@.commands[0],
                None => self@.commands.len() == 0,
            },
    {
        if self.commands.len() == 0 {
            None
        } else {
            Some(&self.commands[0])
        }
    }

    /// Takes the next command to the charging point.
    pub fn pop_command(&mut self) -> (r: Option<CommandToChargingPoint>)
        ensures
            match r {
                Some(command) => {
                    &&& old(self)@.commands.len() > 0
                    &&& command@ == old(self)@.commands[0]
                    &&& final(self)@ == (EvseView {
                        commands: old(self)@.commands.skip(1),
                        ..old(self)@
                    })
                },
                None => old(self)@.commands.len() == 0 && final(self)@ == old(self)@,
            },
    {
        let ghost before = self@.commands;
        let command = self.commands.pop_front();
        assert(command is Some ==> self@.commands =~= before.skip(1));
        command
    }
}

/// Whether the time zone is needed to make the calls of a command.
pub open spec fn needs_time_zone(command: CommandView) -> bool {
    command matches CommandView::SetChargingSchedule(schedule) && in_order(schedule.periods).len()
        > 0
}

/// Whether making the calls of a command can end in the given error: the error names a time of the
/// schedule that the command sets, which the time zone has to turn into an instant.
pub open spec fn fails_at(command: CommandView, error: NoSingleInstant) -> bool {
    &&& needs_time_zone(command)
    &&& command matches CommandView::SetChargingSchedule(schedule) && names_time(
        in_order(schedule.periods),
        error,
    )
}

/// Whether the calls make up a command.
pub open spec fn are_calls_of(command: CommandView, calls: Seq<CallContent>) -> bool {
    match command {
        CommandView::Reboot => calls == seq![CallContent::Reset(ResetKind::Soft)],
        CommandView::SetChargingSchedule(schedule) => {
            &&& calls.len() == 2
            &&& calls[0] == clear_call()
            &&& sets_schedule(schedule, calls[1])
        },
        CommandView::SetServerAddress(address) => calls == seq![address_call(address)],
        CommandView::StopTransaction(transaction_id) => calls == seq![
            CallContent::RemoteStopTransaction(transaction_id),
        ],
    }
}

impl EvseView {
    /// Whether `queue` is what there is to call once a number of commands were taken: the calls that
    /// were left, and those of each command.
    pub open spec fn queues(self, taken: int, queue: Seq<CallContent>) -> bool
        decreases taken,
    {
        if taken <= 0 {
            taken == 0 && queue == self.call_queue
        } else {
            exists|calls: Seq<CallContent>|
                {
                    let left = queue.len() - calls.len();
                    &&& #[trigger] are_calls_of(self.commands[taken - 1], calls)
                    &&& left >= 0
                    &&& queue.skip(left) == calls
                    &&& self.queues(taken - 1, queue.take(left))
                }
        }
    }

    /// Once a number of commands were taken, and a number of the calls that there were then were
    /// made.
    pub open spec fn after_popping(
        self,
        taken: int,
        queue: Seq<CallContent>,
        made: int,
    ) -> EvseView {
        EvseView {
            commands: self.commands.skip(taken),
            call_queue: queue.skip(made),
            tracker: self.tracker.after_calls(queue.take(made)),
            ..self
        }
    }

    /// Whether the last of the commands that were taken was taken before the last of the calls was
    /// made, once all calls before were made.
    pub open spec fn takes_only_when_due(
        self,
        taken: int,
        queue: Seq<CallContent>,
        made: int,
    ) -> bool {
        taken > 0 ==> exists|left: int|
            0 <= left <= made && self.queues(taken - 1, #[trigger] queue.take(left))
    }

    /// Whether taking the next call leads to `after`, and to the given text: calls that cannot be
    /// written are skipped, and there is no text only where there is nothing left to call. A command
    /// is taken once there is no call left, and nothing is called after the call with the text.
    pub open spec fn pops_to(self, after: EvseView, text: Option<Seq<char>>) -> bool {
        exists|taken: int, queue: Seq<CallContent>, made: int|
            #![trigger self.after_popping(taken, queue, made)]
            {
                &&& 0 <= taken <= self.commands.len()
                &&& self.queues(taken, queue)
                &&& 0 <= made <= queue.len()
                &&& after == self.after_popping(taken, queue, made)
                &&& match text {
                    Some(text) => {
                        &&& self.tracker.texts(queue.take(made)) == seq![text]
                        &&& made > 0
                        &&& self.tracker.texts(queue.take(made - 1)) == Seq::<Seq<char>>::empty()
                        &&& self.takes_only_when_due(taken, queue, made - 1)
                    },
                    None => {
                        &&& self.tracker.texts(queue) == Seq::<Seq<char>>::empty()
                        &&& made == queue.len()
                        &&& taken == self.commands.len()
                    },
                }
            }
    }

    /// Whether taking the next call leads to `after`, and to the given error: all that there was to
    /// call could not be written, and the next command, which is dropped, needs an instant that the
    /// time zone does not give.
    pub open spec fn stops_at_time_zone(self, after: EvseView, error: NoSingleInstant) -> bool {
        exists|taken: int, queue: Seq<CallContent>|
            #![trigger self.after_popping(taken, queue, queue.len() as int)]
            {
                &&& 0 <= taken < self.commands.len()
                &&& self.queues(taken, queue)
                &&& self.tracker.texts(queue) == Seq::<Seq<char>>::empty()
                &&& fails_at(self.commands[taken], error)
                &&& after == (EvseView {
                    commands: self.commands.skip(taken + 1),
                    ..self.after_popping(taken, queue, queue.len() as int)
                })
            }
    }
}

impl Evse {
    /// Adds the calls that make up a command.
    fn queue_calls(&mut self, command: CommandToChargingPoint) -> (r: Result<(), NoSingleInstant>)
        ensures
            r is Ok ==> exists|calls: Seq<CallContent>| #[trigger]
                are_calls_of(command@, calls) && final(self)@ == (EvseView {
                    call_queue: old(self)@.call_queue + calls,
                    ..old(self)@
                }),
            r matches Err(e) ==> final(self)@ == old(self)@ && fails_at(command@, e),
    {
        let ghost before = self@.call_queue;
        match command {
            CommandToChargingPoint::Reboot => {
                self.call_queue.push_back(OutgoingCall::Reset { kind: ResetKind::Soft });
                proof {
                    let calls = seq![CallContent::Reset(ResetKind::Soft)];
                    assert(are_calls_of(command@, calls));
                    assert(self@.call_queue =~= before + calls);
                }
            },
            CommandToChargingPoint::SetChargingSchedule(schedule) => match set_schedule_call(
                schedule,
            ) {
                Ok(call) => {
                    let ghost calls = seq![clear_call(), call@];
                    self.call_queue.push_back(make_clear_call());
                    self.call_queue.push_back(call);
                    proof {
                        assert(are_calls_of(command@, calls));
                        assert(self@.call_queue =~= before + calls);
                    }
                },
                Err(e) => {
                    return Err(e);
                },
            },
            CommandToChargingPoint::SetServerAddress(address) => {
                let ghost calls = seq![address_call(address@)];
                self.call_queue.push_back(set_address_call(address));
                proof {
                    assert(are_calls_of(command@, calls));
                    assert(self@.call_queue =~= before + calls);
                }
            },
            CommandToChargingPoint::StopTransaction(transaction_id) => {
                let ghost calls = seq![CallContent::RemoteStopTransaction(transaction_id)];
                self.call_queue.push_back(OutgoingCall::RemoteStopTransaction { transaction_id });
                proof {
                    assert(are_calls_of(command@, calls));
                    assert(self@.call_queue =~= before + calls);
                }
            },
        }
        Ok(())
    }

    /// Takes the next call to the charging point, with the schedules taken in the machine's time
    /// zone, and returns its text.
    pub fn pop_call(&mut self) -> (r: Result<Option<String>, NoSingleInstant>)
        requires
            old(self)@.well_formed(),
        ensures
            r matches Ok(text) ==> old(self)@.pops_to(final(self)@, option_text(text)),
            r matches Err(e) ==> old(self)@.stops_at_time_zone(final(self)@, e),
            final(self)@.well_formed(),
    {
        let ghost start = self@;
        let ghost mut taken: int = 0;
        let ghost mut queue: Seq<CallContent> = start.call_queue;
        let ghost mut made: int = 0;
        proof {
            assert(queue.take(0) =~= Seq::empty());
            assert(queue.skip(0) =~= queue);
            assert(start.commands.skip(0) =~= start.commands);
        }
        loop
            invariant
                start == old(self)@,
                self@.well_formed(),
                0 <= taken <= start.commands.len(),
                start.queues(taken, queue),
                0 <= made <= queue.len(),
                self@ == start.after_popping(taken, queue, made),
                start.tracker.texts(queue.take(made)) == Seq::<Seq<char>>::empty(),
                start.takes_only_when_due(taken, queue, made),
            decreases start.commands.len() - taken, queue.len() - made,
        {
            let ghost before = self@;
            match self.call_queue.pop_front() {
                Some(call) => {
                    proof {
                        assert(self@.call_queue =~= before.call_queue.skip(1));
                        assert(queue.skip(made).skip(1) =~= queue.skip(made + 1));
                        assert(queue.skip(made)[0] == queue[made]);
                        assert(call@ == queue[made]);
                        assert(queue.take(made + 1).drop_last() =~= queue.take(made));
                        assert(start.takes_only_when_due(taken, queue, made + 1)) by {
                            if taken > 0 {
                                let left = choose|left: int|
                                    0 <= left <= made && start.queues(
                                        taken - 1,
                                        #[trigger] queue.take(left),
                                    );
                                assert(0 <= left <= made + 1 && start.queues(
                                    taken - 1,
                                    queue.take(left),
                                ));
                            }
                        }
                        made = made + 1;
                    }
                    let text = self.call_response_tracker.send(call);
                    assert(self@ == start.after_popping(taken, queue, made));
                    if text.is_some() {
                        assert(start.tracker.texts(queue.take(made)) =~= seq![
                            option_text(text)->0,
                        ]);
                        return Ok(text);
                    }
                },
                None => {
                    assert(before.call_queue.len() == 0);
                    match self.pop_command() {
                        Some(command) => {
                            let ghost popped = self@;
                            match self.queue_calls(command) {
                                Ok(()) => {
                                    proof {
                                        let calls = choose|calls: Seq<CallContent>| #[trigger]
                                            are_calls_of(command@, calls) && self@ == (EvseView {
                                                call_queue: popped.call_queue + calls,
                                                ..popped
                                            });
                                        let longer = queue + calls;
                                        assert(made == queue.len());
                                        assert(start.commands.skip(taken).skip(1)
                                            =~= start.commands.skip(taken + 1));
                                        assert(start.commands.skip(taken)[0]
                                            == start.commands[taken]);
                                        assert(start.queues(taken + 1, longer)) by {
                                            assert(longer.skip(queue.len() as int) =~= calls);
                                            assert(longer.take(queue.len() as int) =~= queue);
                                            assert(are_calls_of(
                                                start.commands[(taken + 1) - 1],
                                                calls,
                                            ));
                                        }
                                        assert(longer.take(made) =~= queue.take(made));
                                        assert(start.takes_only_when_due(taken + 1, longer, made))
                                            by {
                                            assert(longer.take(made) =~= queue);
                                            assert(start.queues(
                                                (taken + 1) - 1,
                                                longer.take(made),
                                            ));
                                        }
                                        assert(longer.skip(made) =~= popped.call_queue + calls);
                                        queue = longer;
                                        taken = taken + 1;
                                        assert(self@ == start.after_popping(taken, queue, made));
                                    }
                                },
                                Err(e) => {
                                    proof {
                                        assert(start.commands.skip(taken)[0]
                                            == start.commands[taken]);
                                        assert(start.commands.skip(taken).skip(1)
                                            =~= start.commands.skip(taken + 1));
                                        assert(made == queue.len());
                                        assert(queue.take(made) =~= queue);
                                        assert(self@ == (EvseView {
                                            commands: start.commands.skip(taken + 1),
                                            ..start.after_popping(taken, queue, queue.len() as int)
                                        }));
                                    }
                                    return Err(e);
                                },
                            }
                        },
                        None => {
                            assert(queue.take(made) =~= queue);
                            assert(self@ == start.after_popping(taken, queue, made));
                            return Ok(None);
                        },
                    }
                },
            }
        }
    }
}

} // verus!
