//! Charging sessions.
//!
//! A session is a list of snapshots, each with the reading of the meter and the state of charge
//! computed from it. What is known of the session is kept in the store as it happens, so that the
//! session can be taken up again after the server was stopped.
use vstd::prelude::*;
use vstd::std_specs::convert::FromSpecImpl;

use crate::bms::{
    Bms, SoC, SoCProgress, energy_share, is_charged_by, law_share_is_in_proportion,
    law_soc_adds_up, share_is_held, share_of,
};
use crate::charging_point::{ChargePointStatus, Reason};
use crate::database::{Database, DatabaseView, WriteView};
use crate::text::same_text;
use crate::time::{Timestamp, read_clock};

verus! {

/// What is known of a session at an instant.
#[derive(Debug, Clone, Copy, PartialEq)]
pub struct ChargingSessionSnapshot {
    pub timestamp: Timestamp,
    /// whether this snapshot should be used as a reference
    /// for added energy / soc calculation
    pub is_reference: bool,
    /// Reading of the meter (Wh).
    pub energy: u64,
    pub power: Option<u64>,
    pub l1_voltage: Option<u64>,
    pub temperature: Option<u64>,
    pub soc: SoC,
    pub soc_cap: Option<i64>,
}

impl ChargingSessionSnapshot {
    pub open spec fn spec_new(timestamp: Timestamp, energy: u64) -> Self {
        ChargingSessionSnapshot {
            timestamp,
            is_reference: false,
            energy,
            power: None,
            l1_voltage: None,
            temperature: None,
            soc: SoC::Unknown,
            soc_cap: None,
        }
    }

    pub fn new(timestamp: Timestamp, energy: u64) -> (r: Self)
        ensures
            r == Self::spec_new(timestamp, energy),
    {
        ChargingSessionSnapshot {
            timestamp,
            is_reference: false,
            energy,
            power: None,
            l1_voltage: None,
            temperature: None,
            soc: SoC::Unknown,
            soc_cap: None,
        }
    }

    pub fn builder(timestamp: Timestamp, energy: u64) -> (r: ChargingSessionSnapshotBuilder)
        ensures
            r.0 == Self::spec_new(timestamp, energy),
    {
        ChargingSessionSnapshotBuilder(ChargingSessionSnapshot::new(timestamp, energy))
    }
}

pub struct ChargingSessionSnapshotBuilder(pub ChargingSessionSnapshot);

impl ChargingSessionSnapshotBuilder {
    pub fn is_reference(self, is_reference: bool) -> (r: Self)
        ensures
            r.0 == (ChargingSessionSnapshot { is_reference, ..self.0 }),
    {
        ChargingSessionSnapshotBuilder(ChargingSessionSnapshot { is_reference, ..self.0 })
    }

    pub fn power(self, power: Option<u64>) -> (r: Self)
        ensures
            r.0 == (ChargingSessionSnapshot { power, ..self.0 }),
    {
        ChargingSessionSnapshotBuilder(ChargingSessionSnapshot { power, ..self.0 })
    }

    pub fn l1_voltage(self, l1_voltage: Option<u64>) -> (r: Self)
        ensures
            r.0 == (ChargingSessionSnapshot { l1_voltage, ..self.0 }),
    {
        ChargingSessionSnapshotBuilder(ChargingSessionSnapshot { l1_voltage, ..self.0 })
    }

    pub fn temperature(self, temperature: Option<u64>) -> (r: Self)
        ensures
            r.0 == (ChargingSessionSnapshot { temperature, ..self.0 }),
    {
        ChargingSessionSnapshotBuilder(ChargingSessionSnapshot { temperature, ..self.0 })
    }

    pub fn soc(self, soc: SoC) -> (r: Self)
        ensures
            r.0 == (ChargingSessionSnapshot { soc, ..self.0 }),
    {
        ChargingSessionSnapshotBuilder(ChargingSessionSnapshot { soc, ..self.0 })
    }

    pub fn soc_cap(self, soc_cap: Option<i64>) -> (r: Self)
        ensures
            r.0 == (ChargingSessionSnapshot { soc_cap, ..self.0 }),
    {
        ChargingSessionSnapshotBuilder(ChargingSessionSnapshot { soc_cap, ..self.0 })
    }

    pub fn build(self) -> (r: ChargingSessionSnapshot)
        ensures
            r == self.0,
    {
        self.0
    }
}

#[derive(Debug, PartialEq, Eq)]
pub enum ChargingSessionState {
    Active,
    SocCapReached,
    SuspendedByEvse,
    SuspendedByEv,
    StoppedByUser,
    Reboot,
    UnlockCommandFromServer,
    Unknown,
    Error(String),
}

/// A [`ChargingSessionState`] with the characters of the error.
pub enum StateView {
    Active,
    SocCapReached,
    SuspendedByEvse,
    SuspendedByEv,
    StoppedByUser,
    Reboot,
    UnlockCommandFromServer,
    Unknown,
    Error(Seq<char>),
}

impl View for ChargingSessionState {
    type V = StateView;

    open spec fn view(&self) -> StateView {
        match *self {
            ChargingSessionState::Active => StateView::Active,
            ChargingSessionState::SocCapReached => StateView::SocCapReached,
            ChargingSessionState::SuspendedByEvse => StateView::SuspendedByEvse,
            ChargingSessionState::SuspendedByEv => StateView::SuspendedByEv,
            ChargingSessionState::StoppedByUser => StateView::StoppedByUser,
            ChargingSessionState::Reboot => StateView::Reboot,
            ChargingSessionState::UnlockCommandFromServer => StateView::UnlockCommandFromServer,
            ChargingSessionState::Unknown => StateView::Unknown,
            ChargingSessionState::Error(error) => StateView::Error(error@),
        }
    }
}

impl Clone for ChargingSessionState {
    fn clone(&self) -> (r: Self)
        ensures
            r@ == self@,
    {
        match self {
            ChargingSessionState::Active => ChargingSessionState::Active,
            ChargingSessionState::SocCapReached => ChargingSessionState::SocCapReached,
            ChargingSessionState::SuspendedByEvse => ChargingSessionState::SuspendedByEvse,
            ChargingSessionState::SuspendedByEv => ChargingSessionState::SuspendedByEv,
            ChargingSessionState::StoppedByUser => ChargingSessionState::StoppedByUser,
            ChargingSessionState::Reboot => ChargingSessionState::Reboot,
            ChargingSessionState::UnlockCommandFromServer => {
                ChargingSessionState::UnlockCommandFromServer
            },
            ChargingSessionState::Unknown => ChargingSessionState::Unknown,
            ChargingSessionState::Error(error) => ChargingSessionState::Error(error.clone()),
        }
    }
}

impl StateView {
    /// Whether a session in this state is over.
    pub open spec fn complete(self) -> bool {
        ||| self is SocCapReached
        ||| self is StoppedByUser
        ||| self is Reboot
        ||| self is UnlockCommandFromServer
        ||| self is Error
    }

    /// The text under which the state is kept in the store.
    pub open spec fn text(self) -> Seq<char> {
        match self {
            StateView::Active => "Active"@,
            StateView::SocCapReached => "SocCapReached"@,
            StateView::SuspendedByEvse => "SuspendedByEvse"@,
            StateView::SuspendedByEv => "SuspendedByEv"@,
            StateView::StoppedByUser => "StoppedByUser"@,
            StateView::Reboot => "Reboot"@,
            StateView::UnlockCommandFromServer => "UnlockCommandFromServer"@,
            StateView::Unknown => "Unknown"@,
            StateView::Error(error) => error,
        }
    }

    /// The state that a text from the store stands for.
    pub open spec fn of_text(text: Seq<char>) -> StateView {
        if text == "Active"@ {
            StateView::Active
        } else if text == "SocCapReached"@ {
            StateView::SocCapReached
        } else if text == "SuspendedByEvse"@ {
            StateView::SuspendedByEvse
        } else if text == "SuspendedByEv"@ {
            StateView::SuspendedByEv
        } else if text == "StoppedByUser"@ {
            StateView::StoppedByUser
        } else if text == "Reboot"@ {
            StateView::Reboot
        } else if text == "UnlockCommandFromServer"@ {
            StateView::UnlockCommandFromServer
        } else if text == "Unknown"@ {
            StateView::Unknown
        } else {
            StateView::Error(text)
        }
    }

    /// The state of a session whose connector has the given status.
    pub open spec fn of_status(status: ChargePointStatus) -> StateView {
        match status {
            ChargePointStatus::SuspendedEVSE => StateView::SuspendedByEvse,
            ChargePointStatus::SuspendedEV => StateView::SuspendedByEv,
            ChargePointStatus::Finishing => StateView::SocCapReached,
            ChargePointStatus::Unavailable => StateView::Error("Unavailable"@),
            ChargePointStatus::Faulted => StateView::Error("Faulted"@),
            _ => StateView::Active,
        }
    }

    /// The state of a session that was stopped for the given reason.
    pub open spec fn of_reason(reason: Option<Reason>) -> StateView {
        match reason {
            None => StateView::Error("stopped for unknown reason"@),
            Some(Reason::Local) => StateView::StoppedByUser,
            Some(Reason::Remote) => StateView::StoppedByUser,
            Some(Reason::DeAuthorized) => StateView::Error("de-authorized"@),
            Some(Reason::EmergencyStop) => StateView::Error("emergency stop"@),
            Some(Reason::EVDisconnected) => StateView::Error("EV disconnected"@),
            Some(Reason::HardReset) => StateView::Error("hard reset"@),
            Some(Reason::SoftReset) => StateView::Error("soft reset"@),
            Some(Reason::PowerLoss) => StateView::Error("power loss"@),
            Some(Reason::UnlockCommand) => StateView::UnlockCommandFromServer,
            Some(Reason::Reboot) => StateView::Reboot,
            Some(Reason::Other) => StateView::Error("other"@),
        }
    }
}

impl ChargingSessionState {
    pub fn is_complete(&self) -> (r: bool)
        ensures
            r == self@.complete(),
    {
        matches!(
            self,
            ChargingSessionState::SocCapReached
            | ChargingSessionState::StoppedByUser
            | ChargingSessionState::Reboot
            | ChargingSessionState::UnlockCommandFromServer
            | ChargingSessionState::Error(_)
        )
    }

    /// A session that ended with the given error.
    pub fn error(error: &str) -> (r: Self)
        ensures
            r@ == StateView::Error(error@),
    {
        ChargingSessionState::Error(error.to_owned())
    }

    pub fn same_as(&self, other: &Self) -> (r: bool)
        ensures
            r == (self@ == other@),
    {
        match (self, other) {
            (ChargingSessionState::Active, ChargingSessionState::Active) => true,
            (ChargingSessionState::SocCapReached, ChargingSessionState::SocCapReached) => true,
            (ChargingSessionState::SuspendedByEvse, ChargingSessionState::SuspendedByEvse) => true,
            (ChargingSessionState::SuspendedByEv, ChargingSessionState::SuspendedByEv) => true,
            (ChargingSessionState::StoppedByUser, ChargingSessionState::StoppedByUser) => true,
            (ChargingSessionState::Reboot, ChargingSessionState::Reboot) => true,
            (
                ChargingSessionState::UnlockCommandFromServer,
                ChargingSessionState::UnlockCommandFromServer,
            ) => true,
            (ChargingSessionState::Unknown, ChargingSessionState::Unknown) => true,
            (ChargingSessionState::Error(a), ChargingSessionState::Error(b)) => {
                same_text(a.as_str(), b.as_str())
            },
            _ => false,
        }
    }

    /// The text under which the state is kept in the store.
    pub fn to_string(&self) -> (r: String)
        ensures
            r@ == self@.text(),
    {
        match self {
            ChargingSessionState::Active => "Active".to_owned(),
            ChargingSessionState::SocCapReached => "SocCapReached".to_owned(),
            ChargingSessionState::SuspendedByEvse => "SuspendedByEvse".to_owned(),
            ChargingSessionState::SuspendedByEv => "SuspendedByEv".to_owned(),
            ChargingSessionState::StoppedByUser => "StoppedByUser".to_owned(),
            ChargingSessionState::Reboot => "Reboot".to_owned(),
            ChargingSessionState::UnlockCommandFromServer => "UnlockCommandFromServer".to_owned(),
            ChargingSessionState::Unknown => "Unknown".to_owned(),
            ChargingSessionState::Error(error) => error.clone(),
        }
    }

    /// The state that a text from the store stands for.
    pub fn from_str(text: &str) -> (r: Result<Self, ()>)
        ensures
            r matches Ok(state) && state@ == StateView::of_text(text@),
    {
        Ok(
            if same_text(text, "Active") {
                ChargingSessionState::Active
            } else if same_text(text, "SocCapReached") {
                ChargingSessionState::SocCapReached
            } else if same_text(text, "SuspendedByEvse") {
                ChargingSessionState::SuspendedByEvse
            } else if same_text(text, "SuspendedByEv") {
                ChargingSessionState::SuspendedByEv
            } else if same_text(text, "StoppedByUser") {
                ChargingSessionState::StoppedByUser
            } else if same_text(text, "Reboot") {
                ChargingSessionState::Reboot
            } else if same_text(text, "UnlockCommandFromServer") {
                ChargingSessionState::UnlockCommandFromServer
            } else if same_text(text, "Unknown") {
                ChargingSessionState::Unknown
            } else {
                ChargingSessionState::error(text)
            },
        )
    }

    /// The state of a session whose connector has the given status.
    ///
    /// There is no session at a connector that is available or reserved.
    pub fn from_status(status: ChargePointStatus) -> (r: Self)
        requires
            status !is Available,
            status !is Reserved,
        ensures
            r@ == StateView::of_status(status),
    {
        match status {
            ChargePointStatus::SuspendedEVSE => ChargingSessionState::SuspendedByEvse,
            ChargePointStatus::SuspendedEV => ChargingSessionState::SuspendedByEv,
            ChargePointStatus::Finishing => ChargingSessionState::SocCapReached,
            ChargePointStatus::Unavailable => ChargingSessionState::error("Unavailable"),
            ChargePointStatus::Faulted => ChargingSessionState::error("Faulted"),
            _ => ChargingSessionState::Active,
        }
    }

    /// The state of a session that was stopped for the given reason.
    pub fn from_reason(reason: Option<Reason>) -> (r: Self)
        ensures
            r@ == StateView::of_reason(reason),
    {
        match reason {
            None => ChargingSessionState::error("stopped for unknown reason"),
            Some(Reason::Local) => ChargingSessionState::StoppedByUser,
            Some(Reason::Remote) => ChargingSessionState::StoppedByUser,
            Some(Reason::DeAuthorized) => ChargingSessionState::error("de-authorized"),
            Some(Reason::EmergencyStop) => ChargingSessionState::error("emergency stop"),
            Some(Reason::EVDisconnected) => ChargingSessionState::error("EV disconnected"),
            Some(Reason::HardReset) => ChargingSessionState::error("hard reset"),
            Some(Reason::SoftReset) => ChargingSessionState::error("soft reset"),
            Some(Reason::PowerLoss) => ChargingSessionState::error("power loss"),
            Some(Reason::UnlockCommand) => ChargingSessionState::UnlockCommandFromServer,
            Some(Reason::Reboot) => ChargingSessionState::Reboot,
            Some(Reason::Other) => ChargingSessionState::error("other"),
        }
    }
}

impl From<Option<Reason>> for ChargingSessionState {
    /// The state of a session that was stopped for the given reason.
    fn from(reason: Option<Reason>) -> (r: Self)
        ensures
            r@ == StateView::of_reason(reason),
            r@.complete(),
    {
        ChargingSessionState::from_reason(reason)
    }
}

// No spec function makes the text of an error, so that what the conversion gives is stated of its
// view, where it is written.
impl FromSpecImpl<Option<Reason>> for ChargingSessionState {
    open spec fn obeys_from_spec() -> bool {
        false
    }

    open spec fn from_spec(reason: Option<Reason>) -> Self {
        arbitrary()
    }
}

/// Whether a text is the name of a state that is no error.
pub open spec fn is_state_name(text: Seq<char>) -> bool {
    StateView::of_text(text) !is Error
}

/// A state read back from its text is the same state, unless it is an error whose text is the name
/// of another state.
pub proof fn law_state_text_round_trip(state: StateView)
    requires
        state matches StateView::Error(error) ==> !is_state_name(error),
    ensures
        StateView::of_text(state.text()) == state,
{
    reveal_strlit("Active");
    reveal_strlit("SocCapReached");
    reveal_strlit("SuspendedByEvse");
    reveal_strlit("SuspendedByEv");
    reveal_strlit("StoppedByUser");
    reveal_strlit("Reboot");
    reveal_strlit("UnlockCommandFromServer");
    reveal_strlit("Unknown");
    assert("Active"@.len() == 6 && "Reboot"@.len() == 6 && "Unknown"@.len() == 7);
    assert("SuspendedByEvse"@.len() == 15 && "UnlockCommandFromServer"@.len() == 23);
    assert("SocCapReached"@.len() == 13 && "SuspendedByEv"@.len() == 13);
    assert("StoppedByUser"@.len() == 13);
    assert("Active"@[0] == 'A' && "Reboot"@[0] == 'R');
    assert("SocCapReached"@[1] == 'o' && "SuspendedByEv"@[1] == 'u' && "StoppedByUser"@[1] == 't');
}

/// Whatever the reason for which a session was stopped, the session is over. The user has stopped
/// it where the reason is local or remote, and only there. A reboot and a command of the server to
/// unlock the connector have states of their own. Any other reason is an error, and so is a reason
/// that is not known.
pub proof fn law_stopped_is_complete(reason: Option<Reason>)
    ensures
        StateView::of_reason(reason).complete(),
        StateView::of_reason(reason) is StoppedByUser <==> (reason == Some(Reason::Local) || reason
            == Some(Reason::Remote)),
        StateView::of_reason(reason) is UnlockCommandFromServer <==> reason == Some(
            Reason::UnlockCommand,
        ),
        StateView::of_reason(reason) is Reboot <==> reason == Some(Reason::Reboot),
        StateView::of_reason(reason) is Error <==> !(reason == Some(Reason::Local) || reason
            == Some(Reason::Remote) || reason == Some(Reason::UnlockCommand) || reason == Some(
            Reason::Reboot,
        )),
        StateView::of_reason(None) == StateView::Error("stopped for unknown reason"@),
{
}

/// The last snapshot that is a reference.
pub open spec fn last_reference(snapshots: Seq<ChargingSessionSnapshot>) -> Option<
    ChargingSessionSnapshot,
>
    decreases snapshots.len(),
{
    if snapshots.len() == 0 {
        None
    } else if snapshots.last().is_reference {
        Some(snapshots.last())
    } else {
        last_reference(snapshots.drop_last())
    }
}

/// The contents of a session.
pub struct SessionView {
    pub session_id: i32,
    pub transaction_id: i32,
    pub bms: Bms,
    pub snapshots: Seq<ChargingSessionSnapshot>,
    pub state: StateView,
}

impl SessionView {
    /// A snapshot with the state of charge of the battery once the meter shows the reading of the
    /// snapshot.
    pub open spec fn charged(self, snapshot: ChargingSessionSnapshot) -> ChargingSessionSnapshot {
        ChargingSessionSnapshot {
            soc: self.bms.with_energy(snapshot.energy).current_soc,
            ..snapshot
        }
    }

    /// The session once a snapshot was added.
    pub open spec fn with_snapshot(self, snapshot: ChargingSessionSnapshot) -> SessionView {
        SessionView {
            bms: self.bms.with_energy(snapshot.energy),
            snapshots: self.snapshots.push(self.charged(snapshot)),
            ..self
        }
    }

    /// The write that keeps the snapshot which is added to the session.
    pub open spec fn snapshot_write(self, snapshot: ChargingSessionSnapshot) -> WriteView {
        WriteView::AddSnapshot { session_id: self.session_id, snapshot: self.charged(snapshot) }
    }

    /// The session with the reference snapshot that it starts with.
    pub open spec fn starting(
        session_id: i32,
        transaction_id: i32,
        bms: Bms,
        state: StateView,
        timestamp: Timestamp,
        energy: u64,
    ) -> SessionView {
        Self::unstarted(session_id, transaction_id, bms, state).with_snapshot(
            Self::reference(bms, timestamp, energy),
        )
    }

    pub open spec fn unstarted(
        session_id: i32,
        transaction_id: i32,
        bms: Bms,
        state: StateView,
    ) -> SessionView {
        SessionView { session_id, transaction_id, bms, snapshots: Seq::empty(), state }
    }

    pub open spec fn reference(
        bms: Bms,
        timestamp: Timestamp,
        energy: u64,
    ) -> ChargingSessionSnapshot {
        ChargingSessionSnapshot {
            is_reference: true,
            soc: bms.initial_soc,
            soc_cap: bms.soc_cap,
            ..ChargingSessionSnapshot::spec_new(timestamp, energy)
        }
    }

    /// The session once it was stopped.
    pub open spec fn stopped(self, timestamp: Timestamp, energy: u64, reason: StateView) -> SessionView {
        SessionView {
            state: reason,
            ..self.with_snapshot(ChargingSessionSnapshot::spec_new(timestamp, energy))
        }
    }

    /// The records once the session was stopped.
    pub open spec fn db_after_stop(
        self,
        db: DatabaseView,
        timestamp: Timestamp,
        energy: u64,
        reason: StateView,
    ) -> DatabaseView {
        db.after(
            self.snapshot_write(ChargingSessionSnapshot::spec_new(timestamp, energy)),
        ).after(WriteView::SetSessionState { session_id: self.session_id, state: reason })
    }

    /// The records once the session was put into a state.
    pub open spec fn db_after_state(self, db: DatabaseView, state: StateView) -> DatabaseView {
        if self.state == state {
            db
        } else {
            db.after(WriteView::SetSessionState { session_id: self.session_id, state })
        }
    }

    /// The state of charge at the first snapshot, worked out from the last reference snapshot.
    pub open spec fn initial_soc(self) -> SoC {
        match last_reference(self.snapshots) {
            Some(reference) => if reference.soc is Unknown || reference.energy
                < self.snapshots[0].energy {
                SoC::Unknown
            } else {
                reference.soc.lowered(
                    share_of(reference.energy - self.snapshots[0].energy, self.bms.capacity),
                )
            },
            None => SoC::Unknown,
        }
    }

    /// Whether the session is to be taken up: it is not over, and has a reference.
    pub open spec fn resumable(self) -> bool {
        !self.state.complete() && last_reference(self.snapshots) is Some
    }

    /// Whether the user has given another initial state of charge than the one worked out.
    pub open spec fn soc_corrected(self) -> bool {
        self.bms.initial_soc !is Unknown && !self.initial_soc().same_as(self.bms.initial_soc)
    }

    /// Whether a reference snapshot is added when the session is taken up.
    pub open spec fn adds_reference(self) -> bool {
        &&& self.resumable()
        &&& self.soc_corrected()
        &&& self.snapshots[0].energy <= self.snapshots.last().energy
    }

    /// The state of charge at the last snapshot, going by the initial one that the user gave.
    pub open spec fn corrected_soc(self) -> SoC {
        self.bms.initial_soc.raised(
            share_of(
                self.snapshots.last().energy - self.snapshots[0].energy,
                self.bms.capacity,
            ),
        )
    }

    /// The reference snapshot that is added when the session is taken up with another initial
    /// state of charge.
    pub open spec fn new_reference(self, now: Timestamp) -> ChargingSessionSnapshot {
        ChargingSessionSnapshot {
            is_reference: true,
            soc: self.corrected_soc(),
            ..ChargingSessionSnapshot::spec_new(now, self.snapshots.last().energy)
        }
    }

    /// The session once it was taken up again at `now`.
    pub open spec fn resumed(self, now: Timestamp) -> SessionView {
        if !self.resumable() {
            self
        } else {
            let bms = Bms {
                initial_energy: Some(self.snapshots[0].energy),
                current_energy: Some(self.snapshots.last().energy),
                initial_soc: if self.bms.initial_soc is Unknown {
                    self.initial_soc()
                } else {
                    self.bms.initial_soc
                },
                current_soc: if self.adds_reference() {
                    self.corrected_soc()
                } else {
                    self.snapshots.last().soc
                },
                ..self.bms
            };
            SessionView {
                bms,
                snapshots: if self.adds_reference() {
                    self.snapshots.push(self.new_reference(now))
                } else {
                    self.snapshots
                },
                ..self
            }
        }
    }
}

/// The battery at the start of a session that the server was told of.
pub open spec fn bms_at_start(bms: Bms, energy: u64) -> Bms {
    if bms.initial_energy is None {
        Bms { initial_energy: Some(energy), ..bms }
    } else {
        bms
    }
}

/// The battery at the start of a session that was already going on.
pub open spec fn bms_at_missed_start(bms: Bms, energy: u64) -> Bms {
    if bms.initial_energy is None {
        Bms { initial_energy: Some(energy), current_energy: Some(energy), ..bms }
    } else {
        bms
    }
}

/// The records once a session was stopped that nothing was known of.
pub open spec fn db_after_missing_session(
    db: DatabaseView,
    timestamp: Timestamp,
    reason: StateView,
    stop_energy: u64,
    transaction_id: Option<i32>,
) -> DatabaseView {
    db.after_session(reason, transaction_id).after(
        WriteView::AddSnapshot {
            session_id: db.next_session_id,
            snapshot: ChargingSessionSnapshot::spec_new(timestamp, stop_energy),
        },
    )
}

/// A charging session.
#[derive(Debug, PartialEq)]
pub struct ChargingSession {
    session_id: i32,
    transaction_id: i32,
    bms: Bms,
    snapshots: Vec<ChargingSessionSnapshot>,
    state: ChargingSessionState,
}

impl View for ChargingSession {
    type V = SessionView;

    closed spec fn view(&self) -> SessionView {
        SessionView {
            session_id: self.session_id,
            transaction_id: self.transaction_id,
            bms: self.bms,
            snapshots: self.snapshots@,
            state: self.state@,
        }
    }
}

impl ChargingSession {
    /// Starts a session whose transaction has the number of the session.
    pub fn new(db: &mut Database, bms: Bms, timestamp: Timestamp, energy: u64) -> (r: Self)
        requires
            old(db).next_session_id < i32::MAX,
        ensures
            ({
                let id = old(db).next_session_id;
                let bms = bms_at_start(bms, energy);
                &&& r@ == SessionView::starting(
                    id,
                    id,
                    bms,
                    StateView::Active,
                    timestamp,
                    energy,
                )
                &&& final(db)@ == old(db)@.after_session(StateView::Active, None).after(
                    SessionView::unstarted(id, id, bms, StateView::Active).snapshot_write(
                        SessionView::reference(bms, timestamp, energy),
                    ),
                )
            }),
    {
        let transaction_id = db.next_session_id;
        ChargingSession::start(db, bms, timestamp, transaction_id, None, energy)
    }

    /// Starts a session whose transaction has the given number.
    pub fn with_transaction(
        db: &mut Database,
        bms: Bms,
        timestamp: Timestamp,
        transaction_id: i32,
        energy: u64,
    ) -> (r: Self)
        requires
            old(db).next_session_id < i32::MAX,
        ensures
            ({
                let id = old(db).next_session_id;
                let bms = bms_at_start(bms, energy);
                &&& r@ == SessionView::starting(
                    id,
                    transaction_id,
                    bms,
                    StateView::Active,
                    timestamp,
                    energy,
                )
                &&& final(db)@ == old(db)@.after_session(
                    StateView::Active,
                    Some(transaction_id),
                ).after(
                    SessionView::unstarted(
                        id,
                        transaction_id,
                        bms,
                        StateView::Active,
                    ).snapshot_write(SessionView::reference(bms, timestamp, energy)),
                )
            }),
    {
        ChargingSession::start(db, bms, timestamp, transaction_id, Some(transaction_id), energy)
    }

    fn start(
        db: &mut Database,
        bms: Bms,
        timestamp: Timestamp,
        transaction_id: i32,
        kept_transaction_id: Option<i32>,
        energy: u64,
    ) -> (r: Self)
        requires
            old(db).next_session_id < i32::MAX,
        ensures
            ({
                let id = old(db).next_session_id;
                let bms = bms_at_start(bms, energy);
                &&& r@ == SessionView::starting(
                    id,
                    transaction_id,
                    bms,
                    StateView::Active,
                    timestamp,
                    energy,
                )
                &&& final(db)@ == old(db)@.after_session(
                    StateView::Active,
                    kept_transaction_id,
                ).after(
                    SessionView::unstarted(
                        id,
                        transaction_id,
                        bms,
                        StateView::Active,
                    ).snapshot_write(SessionView::reference(bms, timestamp, energy)),
                )
            }),
    {
        let mut bms = bms;
        let session_id = db.add_new_charging_session(
            &ChargingSessionState::Active,
            kept_transaction_id,
        );
        if bms.initial_energy.is_none() {
            bms.initial_energy = Some(energy);
        }
        let mut session = ChargingSession {
            session_id,
            transaction_id,
            bms,
            snapshots: Vec::new(),
            state: ChargingSessionState::Active,
        };
        let snapshot = ChargingSessionSnapshot::builder(timestamp, energy).is_reference(true).soc(
            bms.initial_soc,
        ).soc_cap(bms.soc_cap).build();
        session.add_snapshot(db, snapshot);
        session
    }

    /// Builds a ChargingSession in the specified state
    ///
    /// This is useful for cases where we missed the transaction start. Without a timestamp, the
    /// session starts now.
    pub fn with_state(
        db: &mut Database,
        bms: Bms,
        transaction_id: i32,
        state: ChargingSessionState,
        start_energy: u64,
        timestamp: Option<Timestamp>,
    ) -> (r: Self)
        requires
            old(db).next_session_id < i32::MAX,
        ensures
            r@.snapshots.len() == 1,
            timestamp matches Some(t) ==> r@.snapshots[0].timestamp == t,
            ({
                let id = old(db).next_session_id;
                let bms = bms_at_missed_start(bms, start_energy);
                let t = r@.snapshots[0].timestamp;
                &&& r@ == SessionView::starting(id, transaction_id, bms, state@, t, start_energy)
                &&& final(db)@ == old(db)@.after_session(state@, Some(transaction_id)).after(
                    SessionView::unstarted(id, transaction_id, bms, state@).snapshot_write(
                        SessionView::reference(bms, t, start_energy),
                    ),
                )
            }),
    {
        let mut bms = bms;
        let session_id = db.add_new_charging_session(&state, Some(transaction_id));
        if bms.initial_energy.is_none() {
            bms.initial_energy = Some(start_energy);
            bms.current_energy = Some(start_energy);
        }
        let timestamp = match timestamp {
            Some(timestamp) => timestamp,
            None => read_clock().utc,
        };
        let snapshot = ChargingSessionSnapshot::builder(timestamp, start_energy).is_reference(
            true,
        ).soc(bms.initial_soc).soc_cap(bms.soc_cap).build();
        let mut session = ChargingSession {
            session_id,
            transaction_id,
            bms,
            snapshots: Vec::new(),
            state,
        };
        session.add_snapshot(db, snapshot);
        session
    }

    /// Persists an unknown ChargingSession reported as stopped
    ///
    /// This allows retrieving the last known stop energy later. Without a timestamp, the session
    /// was stopped now.
    pub fn save_missing_stopped_session(
        db: &mut Database,
        timestamp: Option<Timestamp>,
        reason: ChargingSessionState,
        stop_energy: u64,
        transaction_id: Option<i32>,
    )
        requires
            old(db).next_session_id < i32::MAX,
        ensures
            exists|t: Timestamp|
                (timestamp matches Some(given) ==> t == given) && final(db)@
                    == #[trigger] db_after_missing_session(
                    old(db)@,
                    t,
                    reason@,
                    stop_energy,
                    transaction_id,
                ),
    {
        let session_id = db.add_new_charging_session(&reason, transaction_id);
        let timestamp = match timestamp {
            Some(timestamp) => timestamp,
            None => read_clock().utc,
        };
        let snapshot = ChargingSessionSnapshot::builder(timestamp, stop_energy).build();
        db.add_charging_session_snapshot(session_id, &snapshot);
        assert(db@ == db_after_missing_session(
            old(db)@,
            timestamp,
            reason@,
            stop_energy,
            transaction_id,
        ));
    }

    /// A session read from the store, of which the snapshots are still to be added.
    ///
    /// Where no transaction was kept, the transaction has the number of the session.
    pub fn from_database(
        bms: Bms,
        session_id: i32,
        transaction_id: Option<i32>,
        state: ChargingSessionState,
    ) -> (r: Self)
        ensures
            r@ == SessionView::unstarted(
                session_id,
                match transaction_id {
                    Some(transaction_id) => transaction_id,
                    None => session_id,
                },
                bms,
                state@,
            ),
    {
        let transaction_id = match transaction_id {
            Some(transaction_id) => transaction_id,
            None => session_id,
        };
        ChargingSession { session_id, transaction_id, bms, snapshots: Vec::new(), state }
    }

    pub fn session_id(&self) -> (r: i32)
        ensures
            r == self@.session_id,
    {
        self.session_id
    }

    pub fn transaction_id(&self) -> (r: i32)
        ensures
            r == self@.transaction_id,
    {
        self.transaction_id
    }

    pub fn bms(&self) -> (r: &Bms)
        ensures
            *r == self@.bms,
    {
        &self.bms
    }

    pub fn is_complete(&self) -> (r: bool)
        ensures
            r == self@.state.complete(),
    {
        self.state.is_complete()
    }

    pub fn state(&self) -> (r: &ChargingSessionState)
        ensures
            r@ == self@.state,
    {
        &self.state
    }

    pub fn snapshots(&self) -> (r: &Vec<ChargingSessionSnapshot>)
        ensures
            r@ == self@.snapshots,
    {
        &self.snapshots
    }

    /// Puts the session into a state, which is kept unless it is the state that it was in.
    pub fn set_state(&mut self, db: &mut Database, state: ChargingSessionState)
        ensures
            final(self)@ == (SessionView { state: state@, ..old(self)@ }),
            final(db)@ == old(self)@.db_after_state(old(db)@, state@),
    {
        if self.state.same_as(&state) {
            return ;
        }
        db.set_charging_session_state(self.session_id, &state);
        self.state = state;
    }

    /// Adds a snapshot, with the state of charge that its reading of the meter makes, and returns
    /// how far that is from the limit.
    pub fn add_snapshot(&mut self, db: &mut Database, snapshot: ChargingSessionSnapshot) -> (r:
        SoCProgress)
        ensures
            final(self)@ == old(self)@.with_snapshot(snapshot),
            final(db)@ == old(db)@.after(old(self)@.snapshot_write(snapshot)),
            r == final(self)@.bms.progress(),
    {
        let mut snapshot = snapshot;
        self.bms.have_energy(snapshot.energy);
        snapshot.soc = self.bms.current_soc;
        db.add_charging_session_snapshot(self.session_id, &snapshot);
        self.snapshots.push(snapshot);
        self.bms.soc_progress()
    }

    pub fn add_snapshot_from_database(&mut self, snapshot: ChargingSessionSnapshot)
        ensures
            final(self)@ == (SessionView {
                snapshots: old(self)@.snapshots.push(snapshot),
                ..old(self)@
            }),
    {
        self.snapshots.push(snapshot);
    }

    /// Performs updates to this retrieved `ChargingSession`
    ///
    /// Updates include:
    ///
    /// * setting BMS initial energy
    /// * setting BMS initial SoC (if user hasn't apply any corrections)
    /// * setting BMS current SoC (if user hasn't apply any corrections)
    /// * adding a new reference snapshot if user has applied a SoC correction
    ///
    /// Returns the new reference snapshot if added.
    pub fn finalise_last_session_retrieval(&mut self) -> (r: Option<ChargingSessionSnapshot>)
        ensures
            exists|now: Timestamp|
                final(self)@ == #[trigger] old(self)@.resumed(now) && r == (
                if old(self)@.adds_reference() {
                    Some(old(self)@.new_reference(now))
                } else {
                    None
                }),
    {
        let now = read_clock().utc;
        self.finalise_last_session_retrieval_at(now)
    }

    /// Performs the updates to this retrieved session, at the given instant.
    pub fn finalise_last_session_retrieval_at(&mut self, now: Timestamp) -> (r: Option<
        ChargingSessionSnapshot,
    >)
        ensures
            final(self)@ == old(self)@.resumed(now),
            r == (if old(self)@.adds_reference() {
                Some(old(self)@.new_reference(now))
            } else {
                None
            }),
    {
        if self.state.is_complete() {
            return None;
        }
        let retrieved_initial_soc = self.initial_soc();
        let ref_snapshot = match self.last_reference_snapshot() {
            Some(ref_snapshot) => ref_snapshot,
            None => {
                return None;
            },
        };
        proof {
            lemma_reference_has_first(self.snapshots@);
        }
        let first_energy = self.snapshots[0].energy;
        let last_snapshot = self.snapshots[self.snapshots.len() - 1];
        let given_initial_soc = self.bms.initial_soc;
        self.bms.initial_energy = Some(first_energy);
        self.bms.current_energy = Some(last_snapshot.energy);
        let mut add_reference_snapshot = false;
        if given_initial_soc.is_unknown() {
            self.bms.initial_soc.update(retrieved_initial_soc);
        } else if retrieved_initial_soc != given_initial_soc {
            add_reference_snapshot = true;
        }
        if add_reference_snapshot && first_energy <= last_snapshot.energy {
            let current_soc = self.bms.initial_soc + energy_share(
                last_snapshot.energy as i128 - first_energy as i128,
                self.bms.capacity,
            );
            let new_snapshot = ChargingSessionSnapshot::builder(
                now,
                last_snapshot.energy,
            ).is_reference(true).soc(current_soc).build();
            self.snapshots.push(new_snapshot);
            self.bms.current_soc = current_soc;
            return Some(new_snapshot);
        }
        self.bms.current_soc = last_snapshot.soc;
        None
    }

    /// Stops the session, with a last reading of the meter.
    pub fn stop(
        &mut self,
        db: &mut Database,
        timestamp: Timestamp,
        energy: u64,
        reason: ChargingSessionState,
    )
        ensures
            final(self)@ == old(self)@.stopped(timestamp, energy, reason@),
            final(db)@ == old(self)@.db_after_stop(old(db)@, timestamp, energy, reason@),
    {
        self.add_snapshot(db, ChargingSessionSnapshot::new(timestamp, energy));
        db.stop_charging_session(self.session_id, &reason);
        self.state = reason;
    }

    pub fn first_snapshot(&self) -> (r: Option<ChargingSessionSnapshot>)
        ensures
            r == (if self@.snapshots.len() == 0 {
                None
            } else {
                Some(self@.snapshots[0])
            }),
    {
        if self.snapshots.len() == 0 {
            None
        } else {
            Some(self.snapshots[0])
        }
    }

    pub fn last_snapshot(&self) -> (r: Option<ChargingSessionSnapshot>)
        ensures
            r == (if self@.snapshots.len() == 0 {
                None
            } else {
                Some(self@.snapshots.last())
            }),
    {
        if self.snapshots.len() == 0 {
            None
        } else {
            Some(self.snapshots[self.snapshots.len() - 1])
        }
    }

    pub fn last_reference_snapshot(&self) -> (r: Option<ChargingSessionSnapshot>)
        ensures
            r == last_reference(self@.snapshots),
    {
        let mut i: usize = self.snapshots.len();
        assert(self.snapshots@.take(i as int) =~= self.snapshots@);
        while i > 0
            invariant
                i <= self.snapshots.len(),
                last_reference(self.snapshots@) == last_reference(
                    self.snapshots@.take(i as int),
                ),
            decreases i,
        {
            let snapshot = self.snapshots[i - 1];
            if snapshot.is_reference {
                return Some(snapshot);
            }
            assert(self.snapshots@.take(i as int).drop_last() =~= self.snapshots@.take(i - 1));
            i = i - 1;
        }
        None
    }

    pub fn last_energy(&self) -> (r: u64)
        requires
            self@.snapshots.len() > 0,
        ensures
            r == self@.snapshots.last().energy,
    {
        self.snapshots[self.snapshots.len() - 1].energy
    }

    pub fn last_soc(&self) -> (r: SoC)
        requires
            self@.snapshots.len() > 0,
        ensures
            r == self@.snapshots.last().soc,
    {
        self.snapshots[self.snapshots.len() - 1].soc
    }

    /// The state of charge at the first snapshot, worked out from the last reference snapshot.
    pub fn initial_soc(&self) -> (r: SoC)
        ensures
            r == self@.initial_soc(),
    {
        let ref_snapshot = match self.last_reference_snapshot() {
            Some(ref_snapshot) => ref_snapshot,
            None => {
                return SoC::Unknown;
            },
        };
        proof {
            lemma_reference_has_first(self.snapshots@);
        }
        if ref_snapshot.soc.is_unknown() {
            return SoC::Unknown;
        }
        let first_energy = self.snapshots[0].energy;
        let ref_energy = ref_snapshot.energy;
        if ref_energy < first_energy {
            return SoC::Unknown;
        }
        let soc_delta = energy_share(
            ref_energy as i128 - first_energy as i128,
            self.bms.capacity,
        );
        ref_snapshot.soc - soc_delta
    }
}

proof fn lemma_reference_has_first(snapshots: Seq<ChargingSessionSnapshot>)
    requires
        last_reference(snapshots) is Some,
    ensures
        snapshots.len() > 0,
{
}

/// Whether the battery of a session stands where the snapshots say: at the initial state of charge
/// that the last reference snapshot comes to, however many of them there are, and at the state of
/// charge of the last snapshot.
pub open spec fn is_coherent(session: SessionView) -> bool {
    &&& session.snapshots.len() > 0
    &&& last_reference(session.snapshots) is Some
    &&& session.bms.initial_energy == Some(session.snapshots[0].energy)
    &&& session.bms.initial_soc == session.initial_soc()
    &&& session.bms.current_soc == session.snapshots.last().soc
}

proof fn lemma_nothing_added(capacity: u32)
    requires
        capacity > 0,
    ensures
        share_of(0, capacity) == 0,
{
    let full = crate::bms::FULL_CHARGE as int;
    let capacity = capacity as int;
    assert(0 * full == 0);
    assert(0int / capacity == 0) by (nonlinear_arith)
        requires
            capacity > 0,
    ;
}

/// A session that starts with a battery in its initial state of charge is coherent.
pub proof fn law_start_is_coherent(
    session_id: i32,
    transaction_id: i32,
    bms: Bms,
    timestamp: Timestamp,
    energy: u64,
    state: StateView,
)
    requires
        bms.capacity > 0,
        bms.initial_energy is None,
        bms.current_energy is None,
        bms.current_soc == bms.initial_soc,
    ensures
        is_coherent(
            SessionView::starting(
                session_id,
                transaction_id,
                bms_at_start(bms, energy),
                state,
                timestamp,
                energy,
            ),
        ),
        is_coherent(
            SessionView::starting(
                session_id,
                transaction_id,
                bms_at_missed_start(bms, energy),
                state,
                timestamp,
                energy,
            ),
        ),
{
    lemma_nothing_added(bms.capacity);
}

/// A snapshot that is no reference leaves the initial state of charge that is worked out from the
/// snapshots as it is.
pub proof fn law_reading_keeps_initial_soc(
    session: SessionView,
    snapshot: ChargingSessionSnapshot,
)
    requires
        session.snapshots.len() > 0,
        !snapshot.is_reference,
    ensures
        session.with_snapshot(snapshot).initial_soc() == session.initial_soc(),
        last_reference(session.with_snapshot(snapshot).snapshots) == last_reference(
            session.snapshots,
        ),
{
    assert(session.with_snapshot(snapshot).snapshots.drop_last() =~= session.snapshots);
}

/// A coherent session stays so as readings are added to it, and whatever state it is put into.
pub proof fn law_coherence_is_kept(
    session: SessionView,
    snapshot: ChargingSessionSnapshot,
    state: StateView,
)
    requires
        is_coherent(session),
        !snapshot.is_reference,
    ensures
        is_coherent(session.with_snapshot(snapshot)),
        is_coherent(SessionView { state, ..session }),
{
    law_reading_keeps_initial_soc(session, snapshot);
}

/// A session that is taken up without an initial state of charge being given gets the one that is
/// worked out from its snapshots, however many of them are references, and is coherent.
pub proof fn law_taken_up_is_coherent(session: SessionView, now: Timestamp)
    requires
        session.resumable(),
        session.bms.initial_soc is Unknown,
    ensures
        session.resumed(now).snapshots == session.snapshots,
        session.resumed(now).bms.initial_soc == session.initial_soc(),
        is_coherent(session.resumed(now)),
{
    lemma_reference_has_first(session.snapshots);
}

/// A coherent session that is not over is the same session once it was read back from the store
/// and taken up, unless the user has given another initial state of charge. Its last reading of
/// the meter is then the one that the battery goes on from.
pub proof fn law_session_is_taken_up(session: SessionView, settings: Bms, now: Timestamp)
    requires
        is_coherent(session),
        !session.state.complete(),
        settings.capacity == session.bms.capacity,
        settings.constant_power_loss == session.bms.constant_power_loss,
        settings.soc_cap == session.bms.soc_cap,
        settings.initial_soc is Unknown || settings.initial_soc == session.bms.initial_soc,
    ensures
        (SessionView { bms: settings, ..session }).resumed(now) == (SessionView {
            bms: Bms { current_energy: Some(session.snapshots.last().energy), ..session.bms },
            ..session
        }),
        is_coherent((SessionView { bms: settings, ..session }).resumed(now)),
{
    let read = SessionView { bms: settings, ..session };
    assert(read.initial_soc() == session.initial_soc());
}

/// Whether the state of charge that a correction comes to can be held.
pub open spec fn correction_is_held(session: SessionView) -> bool {
    let share = share_of(
        session.snapshots.last().energy - session.snapshots[0].energy,
        session.bms.capacity,
    );
    i64::MIN <= session.bms.initial_soc.spec_inner()->0 + share <= i64::MAX
}

/// Once a session was taken up with another initial state of charge, that is the one worked out
/// from its snapshots, unless it exceeds what can be held, and the session is coherent.
pub proof fn law_correction_is_kept(session: SessionView, now: Timestamp)
    requires
        session.adds_reference(),
        correction_is_held(session),
    ensures
        session.resumed(now).initial_soc() == session.bms.initial_soc,
        last_reference(session.resumed(now).snapshots) == Some(session.new_reference(now)),
        is_coherent(session.resumed(now)),
{
    lemma_reference_has_first(session.snapshots);
}

/// A session once snapshots were added one after the other.
pub open spec fn with_readings(
    session: SessionView,
    readings: Seq<ChargingSessionSnapshot>,
) -> SessionView
    decreases readings.len(),
{
    if readings.len() == 0 {
        session
    } else {
        with_readings(session, readings.drop_last()).with_snapshot(readings.last())
    }
}

/// A coherent session stays so whatever number of readings is added to it, and keeps its initial
/// state of charge.
pub proof fn law_readings_keep_coherence(
    session: SessionView,
    readings: Seq<ChargingSessionSnapshot>,
)
    requires
        is_coherent(session),
        forall|i: int| 0 <= i < readings.len() ==> !(#[trigger] readings[i]).is_reference,
    ensures
        is_coherent(with_readings(session, readings)),
        with_readings(session, readings) == (SessionView {
            bms: with_readings(session, readings).bms,
            snapshots: with_readings(session, readings).snapshots,
            ..session
        }),
        with_readings(session, readings).bms == (Bms {
            current_energy: with_readings(session, readings).bms.current_energy,
            current_soc: with_readings(session, readings).bms.current_soc,
            ..session.bms
        }),
    decreases readings.len(),
{
    if readings.len() > 0 {
        let before = readings.drop_last();
        assert forall|i: int| 0 <= i < before.len() implies !(
        #[trigger] before[i]).is_reference by {
            assert(before[i] == readings[i]);
        }
        law_readings_keep_coherence(session, before);
        assert(!readings[readings.len() - 1].is_reference);
        law_coherence_is_kept(
            with_readings(session, before),
            readings.last(),
            session.state,
        );
    }
}

/// A correction of the initial state of charge outlasts the server: whatever number of readings
/// came in since, the session that is taken up again, without an initial state of charge being
/// given, has the one that it was corrected to.
pub proof fn law_correction_outlasts_restart(
    session: SessionView,
    now: Timestamp,
    readings: Seq<ChargingSessionSnapshot>,
    settings: Bms,
    then: Timestamp,
)
    requires
        session.adds_reference(),
        correction_is_held(session),
        forall|i: int| 0 <= i < readings.len() ==> !(#[trigger] readings[i]).is_reference,
        settings.capacity == session.bms.capacity,
        settings.constant_power_loss == session.bms.constant_power_loss,
        settings.soc_cap == session.bms.soc_cap,
        settings.initial_soc is Unknown,
    ensures
        ({
            let left = with_readings(session.resumed(now), readings);
            let taken_up = (SessionView { bms: settings, ..left }).resumed(then);
            &&& taken_up.bms.initial_soc == session.bms.initial_soc
            &&& taken_up.bms.current_soc == left.bms.current_soc
            &&& taken_up.snapshots == left.snapshots
        }),
{
    law_correction_is_kept(session, now);
    law_readings_keep_coherence(session.resumed(now), readings);
    law_session_is_taken_up(with_readings(session.resumed(now), readings), settings, then);
}

/// A session that is over is left as it is when it is read back.
pub proof fn law_complete_session_is_left(session: SessionView, now: Timestamp)
    requires
        session.state.complete(),
    ensures
        session.resumed(now) == session,
        !session.adds_reference(),
{
}

/// A session is over in every state but those in which it goes on, or in which nothing is known of
/// it.
pub proof fn law_states_that_are_over(state: StateView)
    ensures
        !state.complete() <==> state is Active || state is SuspendedByEvse || state is SuspendedByEv
            || state is Unknown,
{
}

/// Each state has its name in the store, and an error is kept as its text.
pub proof fn law_names_of_states(error: Seq<char>)
    ensures
        StateView::Active.text() == "Active"@,
        StateView::SocCapReached.text() == "SocCapReached"@,
        StateView::SuspendedByEvse.text() == "SuspendedByEvse"@,
        StateView::SuspendedByEv.text() == "SuspendedByEv"@,
        StateView::StoppedByUser.text() == "StoppedByUser"@,
        StateView::Reboot.text() == "Reboot"@,
        StateView::UnlockCommandFromServer.text() == "UnlockCommandFromServer"@,
        StateView::Unknown.text() == "Unknown"@,
        StateView::Error(error).text() == error,
{
}

/// A text from the store that is the name of no state is an error. So no error is taken for a state
/// that it is not, unless its text is that state's name.
pub proof fn law_other_texts_are_errors(text: Seq<char>)
    ensures
        StateView::of_text(text) == StateView::Error(text) <==> !(text == "Active"@ || text
            == "SocCapReached"@ || text == "SuspendedByEvse"@ || text == "SuspendedByEv"@ || text
            == "StoppedByUser"@ || text == "Reboot"@ || text == "UnlockCommandFromServer"@ || text
            == "Unknown"@),
        StateView::of_text(text).text() == text,
{
}

/// Each status of a connector has a state of the session of its own: it is suspended by the charging
/// point or by the EV where the connector is, at its limit where the connector has finished, in error
/// where the connector is unavailable or faulted, and active where the connector charges or prepares
/// to.
pub proof fn law_states_of_statuses(status: ChargePointStatus)
    requires
        status !is Available,
        status !is Reserved,
    ensures
        StateView::of_status(status) is SuspendedByEvse <==> status is SuspendedEVSE,
        StateView::of_status(status) is SuspendedByEv <==> status is SuspendedEV,
        StateView::of_status(status) is SocCapReached <==> status is Finishing,
        StateView::of_status(status) is Active <==> status is Charging || status is Preparing,
        status is Unavailable ==> StateView::of_status(status) == StateView::Error("Unavailable"@),
        status is Faulted ==> StateView::of_status(status) == StateView::Error("Faulted"@),
{
}

/// The error of a session that was stopped says why, in words of its own for each reason.
pub proof fn law_errors_of_reasons()
    ensures
        StateView::of_reason(Some(Reason::DeAuthorized)) == StateView::Error("de-authorized"@),
        StateView::of_reason(Some(Reason::EmergencyStop)) == StateView::Error("emergency stop"@),
        StateView::of_reason(Some(Reason::EVDisconnected)) == StateView::Error("EV disconnected"@),
        StateView::of_reason(Some(Reason::HardReset)) == StateView::Error("hard reset"@),
        StateView::of_reason(Some(Reason::SoftReset)) == StateView::Error("soft reset"@),
        StateView::of_reason(Some(Reason::PowerLoss)) == StateView::Error("power loss"@),
        StateView::of_reason(Some(Reason::Other)) == StateView::Error("other"@),
        StateView::of_reason(None) == StateView::Error("stopped for unknown reason"@),
{
}

/// A snapshot that is made holds its time and its reading, and nothing else.
pub proof fn law_new_snapshot_is_plain(timestamp: Timestamp, energy: u64)
    ensures
        ({
            let snapshot = ChargingSessionSnapshot::spec_new(timestamp, energy);
            &&& snapshot.timestamp == timestamp
            &&& snapshot.energy == energy
            &&& !snapshot.is_reference
            &&& snapshot.power is None
            &&& snapshot.l1_voltage is None
            &&& snapshot.temperature is None
            &&& snapshot.soc is Unknown
            &&& snapshot.soc_cap is None
        }),
{
}

/// The last reference is a reference, and there is none after it.
pub proof fn law_last_reference_is_the_last(snapshots: Seq<ChargingSessionSnapshot>)
    ensures
        match last_reference(snapshots) {
            Some(reference) => exists|i: int|
                {
                    &&& 0 <= i < snapshots.len()
                    &&& #[trigger] snapshots[i] == reference
                    &&& reference.is_reference
                    &&& forall|j: int| i < j < snapshots.len() ==> !(
                    #[trigger] snapshots[j]).is_reference
                },
            None => forall|j: int|
                0 <= j < snapshots.len() ==> !(#[trigger] snapshots[j]).is_reference,
        },
    decreases snapshots.len(),
{
    if snapshots.len() > 0 {
        let before = snapshots.drop_last();
        let last = snapshots.len() - 1;
        if snapshots.last().is_reference {
            assert(snapshots[last].is_reference);
        } else {
            law_last_reference_is_the_last(before);
            assert(!snapshots[last].is_reference);
            if let Some(reference) = last_reference(before) {
                let i = choose|i: int|
                    {
                        &&& 0 <= i < before.len()
                        &&& #[trigger] before[i] == reference
                        &&& reference.is_reference
                        &&& forall|j: int| i < j < before.len() ==> !(
                        #[trigger] before[j]).is_reference
                    };
                assert(snapshots[i] == reference);
                assert forall|j: int| i < j < snapshots.len() implies !(
                #[trigger] snapshots[j]).is_reference by {
                    if j < before.len() {
                        assert(before[j] == snapshots[j]);
                    }
                }
            } else {
                assert forall|j: int| 0 <= j < snapshots.len() implies !(
                #[trigger] snapshots[j]).is_reference by {
                    if j < before.len() {
                        assert(before[j] == snapshots[j]);
                    }
                }
            }
        }
    }
}

/// The initial state of charge is the one that the energy from the first reading to that of the last
/// reference charges to the state of charge of that reference. It is not known where there is no
/// reference, its state of charge is not known, or its reading is below the first one.
pub proof fn law_initial_soc_leads_to_reference(session: SessionView)
    requires
        session.snapshots.len() > 0,
        session.bms.capacity > 0,
    ensures
        match last_reference(session.snapshots) {
            None => session.initial_soc() is Unknown,
            Some(reference) => {
                let energy = reference.energy - session.snapshots[0].energy;
                &&& reference.soc is Unknown || energy < 0 ==> session.initial_soc() is Unknown
                &&& reference.soc !is Unknown && reference.soc.spec_inner()->0 >= 0 && share_is_held(
                    energy,
                    session.bms.capacity,
                ) ==> session.initial_soc() !is Unknown && is_charged_by(
                    session.initial_soc(),
                    reference.soc,
                    energy,
                    session.bms.capacity,
                )
            },
        },
{
    if let Some(reference) = last_reference(session.snapshots) {
        let energy = reference.energy - session.snapshots[0].energy;
        if share_is_held(energy, session.bms.capacity) && reference.soc !is Unknown
            && reference.soc.spec_inner()->0 >= 0 {
            law_share_is_in_proportion(energy, session.bms.capacity);
            let share = share_of(energy, session.bms.capacity);
            let capacity = session.bms.capacity as int;
            assert(-9_000_000_000_000_000_001 <= share <= 9_000_000_000_000_000_000)
                by (nonlinear_arith)
                requires
                    capacity > 0,
                    share * capacity <= energy * 1_000_000_000_000 < (share + 1) * capacity,
                    0 <= energy <= 9_000_000 * capacity,
            ;
            law_soc_adds_up(reference.soc, share);
        }
    }
}

/// A session that is over, or without a reference, is left as it is when it is taken up. Any other
/// session goes on from its first and its last reading, in the state and under the numbers that it
/// had, with the battery of the settings.
///
/// Without an initial state of charge being given, the session has the one that is worked out from
/// its snapshots, and stands at the last one. The same holds of one that is given and hardly differs,
/// but that it stays the one given. Where it differs, a reference is added, at the last reading and
/// the given time, unless the readings went down: with the state of charge to which the energy since
/// the first reading charges the one given. That is where the session then stands.
pub proof fn law_session_is_taken_up_at(session: SessionView, now: Timestamp)
    requires
        session.snapshots.len() > 0,
    ensures
        ({
            let after = session.resumed(now);
            let first = session.snapshots[0].energy;
            let last = session.snapshots.last();
            let given = session.bms.initial_soc;
            let worked_out = session.initial_soc();
            let left = session.state.complete() || last_reference(session.snapshots) is None;
            let corrects = !left && given !is Unknown && !worked_out.same_as(given) && first
                <= last.energy;
            let added = after.snapshots.last();
            &&& left ==> after == session
            &&& session.adds_reference() <==> corrects
            &&& !left ==> {
                &&& after.session_id == session.session_id
                &&& after.transaction_id == session.transaction_id
                &&& after.state == session.state
                &&& after.bms.capacity == session.bms.capacity
                &&& after.bms.constant_power_loss == session.bms.constant_power_loss
                &&& after.bms.soc_cap == session.bms.soc_cap
                &&& after.bms.initial_energy == Some(first)
                &&& after.bms.current_energy == Some(last.energy)
                &&& given is Unknown ==> after.bms.initial_soc == worked_out
                &&& given !is Unknown ==> after.bms.initial_soc == given
            }
            &&& !left && !corrects ==> after.snapshots == session.snapshots
                && after.bms.current_soc == last.soc
            &&& corrects ==> {
                &&& after.snapshots.len() == session.snapshots.len() + 1
                &&& after.snapshots.drop_last() == session.snapshots
                &&& session.new_reference(now) == added
                &&& added.timestamp == now
                &&& added.is_reference
                &&& added.energy == last.energy
                &&& added.power is None
                &&& added.l1_voltage is None
                &&& added.temperature is None
                &&& added.soc_cap is None
                &&& after.bms.current_soc == added.soc
                &&& session.bms.capacity > 0 && share_is_held(
                    last.energy - first,
                    session.bms.capacity,
                ) ==> is_charged_by(
                    given,
                    added.soc,
                    last.energy - first,
                    session.bms.capacity,
                )
            }
        }),
{
    let energy = session.snapshots.last().energy - session.snapshots[0].energy;
    if session.adds_reference() {
        assert(session.resumed(now).snapshots.drop_last() =~= session.snapshots);
        if session.bms.capacity > 0 && share_is_held(energy, session.bms.capacity) {
            crate::bms::lemma_charged(session.bms.initial_soc, energy, session.bms.capacity);
        }
    }
}

/// A session starts in its state with one snapshot, which is a reference with the time, the reading
/// and the limit that are given. A battery with no reading known starts at that reading, and in the
/// state of charge that it is in.
pub proof fn law_session_starts_with_reference(
    session_id: i32,
    transaction_id: i32,
    bms: Bms,
    state: StateView,
    timestamp: Timestamp,
    energy: u64,
)
    requires
        bms.initial_energy is None,
        bms.current_energy is None,
    ensures
        ({
            let told = SessionView::starting(
                session_id,
                transaction_id,
                bms_at_start(bms, energy),
                state,
                timestamp,
                energy,
            );
            let missed = SessionView::starting(
                session_id,
                transaction_id,
                bms_at_missed_start(bms, energy),
                state,
                timestamp,
                energy,
            );
            let reference = ChargingSessionSnapshot {
                timestamp,
                is_reference: true,
                energy,
                power: None,
                l1_voltage: None,
                temperature: None,
                soc: bms.current_soc,
                soc_cap: bms.soc_cap,
            };
            &&& told == (SessionView {
                session_id,
                transaction_id,
                bms: Bms { initial_energy: Some(energy), ..bms },
                snapshots: seq![reference],
                state,
            })
            &&& missed == (SessionView {
                session_id,
                transaction_id,
                bms: Bms { initial_energy: Some(energy), current_energy: Some(energy), ..bms },
                snapshots: seq![reference],
                state,
            })
        }),
{
}

/// A session that is stopped is in the state of the reason, with one more snapshot: that of the last
/// reading, at the given time. What is written of it is that snapshot, with the state of charge that
/// the battery then stands at, and the state.
pub proof fn law_session_is_stopped(
    db: DatabaseView,
    session: SessionView,
    timestamp: Timestamp,
    energy: u64,
    reason: StateView,
)
    ensures
        ({
            let after = session.stopped(timestamp, energy, reason);
            let last = after.snapshots.last();
            &&& after.state == reason
            &&& after.session_id == session.session_id
            &&& after.transaction_id == session.transaction_id
            &&& after.snapshots.len() == session.snapshots.len() + 1
            &&& after.snapshots.drop_last() == session.snapshots
            &&& last.timestamp == timestamp
            &&& last.energy == energy
            &&& !last.is_reference
            &&& last.soc == after.bms.current_soc
            &&& session.db_after_stop(db, timestamp, energy, reason).writes == db.writes.push(
                WriteView::AddSnapshot { session_id: session.session_id, snapshot: last },
            ).push(WriteView::SetSessionState { session_id: session.session_id, state: reason })
            &&& session.db_after_stop(db, timestamp, energy, reason).next_session_id
                == db.next_session_id
        }),
{
    assert(session.stopped(timestamp, energy, reason).snapshots.drop_last()
        =~= session.snapshots);
}

} // verus!
