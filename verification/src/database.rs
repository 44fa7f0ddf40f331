//! What the server keeps of its sessions and schedules.
//!
//! The library decides on what is written to the store. It records the writes in the order in
//! which they are to be applied, and numbers the rows that it adds.
use vstd::prelude::*;

use crate::bms::{Bms, SoC};
use crate::charging_session::{
    ChargingSession, ChargingSessionSnapshot, ChargingSessionState, SessionView, StateView,
};
use crate::schedule::{
    ChargingSchedule, ChargingSchedulePeriod, ChargingScheduleState, ScheduleView, in_order,
    law_periods_in_order,
};
use crate::time::{Timestamp, law_keys_are_in_order};

verus! {

/// A write to the store.
#[derive(Debug, PartialEq)]
pub enum Write {
    AddSession { session_id: i32, state: ChargingSessionState, transaction_id: Option<i32> },
    SetSessionState { session_id: i32, state: ChargingSessionState },
    AddSnapshot { session_id: i32, snapshot: ChargingSessionSnapshot },
    AddSchedule { schedule: ChargingSchedule },
    InactivateSchedule { schedule_id: i32 },
}

/// The contents of a write.
pub enum WriteView {
    AddSession { session_id: i32, state: StateView, transaction_id: Option<i32> },
    SetSessionState { session_id: i32, state: StateView },
    AddSnapshot { session_id: i32, snapshot: ChargingSessionSnapshot },
    AddSchedule { schedule: ScheduleView },
    InactivateSchedule { schedule_id: i32 },
}

impl View for Write {
    type V = WriteView;

    open spec fn view(&self) -> WriteView {
        match *self {
            Write::AddSession { session_id, state, transaction_id } => WriteView::AddSession {
                session_id,
                state: state@,
                transaction_id,
            },
            Write::SetSessionState { session_id, state } => WriteView::SetSessionState {
                session_id,
                state: state@,
            },
            Write::AddSnapshot { session_id, snapshot } => WriteView::AddSnapshot {
                session_id,
                snapshot,
            },
            Write::AddSchedule { schedule } => WriteView::AddSchedule { schedule: schedule@ },
            Write::InactivateSchedule { schedule_id } => WriteView::InactivateSchedule {
                schedule_id,
            },
        }
    }
}

/// The writes that the store has yet to see, and the numbers of the next rows.
#[derive(Debug)]
pub struct Database {
    pub next_session_id: i32,
    pub next_schedule_id: i32,
    pub writes: Vec<Write>,
}

/// The contents of a [`Database`].
pub struct DatabaseView {
    pub next_session_id: i32,
    pub next_schedule_id: i32,
    pub writes: Seq<WriteView>,
}

impl View for Database {
    type V = DatabaseView;

    open spec fn view(&self) -> DatabaseView {
        DatabaseView {
            next_session_id: self.next_session_id,
            next_schedule_id: self.next_schedule_id,
            writes: self.writes@.map_values(|write: Write| write@),
        }
    }
}

impl DatabaseView {
    /// The records once a write was added.
    pub open spec fn after(self, write: WriteView) -> DatabaseView {
        DatabaseView { writes: self.writes.push(write), ..self }
    }

    /// The records once a session was added, under the next number.
    pub open spec fn after_session(
        self,
        state: StateView,
        transaction_id: Option<i32>,
    ) -> DatabaseView {
        DatabaseView {
            next_session_id: (self.next_session_id + 1) as i32,
            ..self.after(
                WriteView::AddSession { session_id: self.next_session_id, state, transaction_id },
            )
        }
    }

    /// The records once a schedule was added, under the next number.
    pub open spec fn after_schedule(self, schedule: ScheduleView) -> DatabaseView {
        DatabaseView {
            next_schedule_id: (self.next_schedule_id + 1) as i32,
            ..self.after(
                WriteView::AddSchedule {
                    schedule: ScheduleView { id: self.next_schedule_id, ..schedule },
                },
            )
        }
    }
}

impl Database {
    /// A store whose next rows get the given numbers.
    pub fn new(next_session_id: i32, next_schedule_id: i32) -> (r: Self)
        ensures
            r@ == (DatabaseView { next_session_id, next_schedule_id, writes: Seq::empty() }),
    {
        let r = Database { next_session_id, next_schedule_id, writes: Vec::new() };
        assert(r@.writes =~= Seq::empty());
        r
    }

    fn record(&mut self, write: Write)
        ensures
            final(self)@ == old(self)@.after(write@),
    {
        let ghost before = self@.writes;
        self.writes.push(write);
        assert(self@.writes =~= before.push(write@));
    }

    /// Hands out the writes recorded so far.
    pub fn take_writes(&mut self) -> (r: Vec<Write>)
        ensures
            r@.map_values(|write: Write| write@) == old(self)@.writes,
            final(self)@ == (DatabaseView { writes: Seq::empty(), ..old(self)@ }),
    {
        let mut writes: Vec<Write> = Vec::new();
        std::mem::swap(&mut writes, &mut self.writes);
        assert(self@.writes =~= Seq::empty());
        writes
    }

    /// Adds a session and returns its number.
    pub fn add_new_charging_session(
        &mut self,
        state: &ChargingSessionState,
        transaction_id: Option<i32>,
    ) -> (session_id: i32)
        requires
            old(self).next_session_id < i32::MAX,
        ensures
            session_id == old(self).next_session_id,
            final(self)@ == old(self)@.after_session(state@, transaction_id),
    {
        let session_id = self.next_session_id;
        self.record(Write::AddSession { session_id, state: state.clone(), transaction_id });
        self.next_session_id = session_id + 1;
        session_id
    }

    pub fn set_charging_session_state(&mut self, session_id: i32, state: &ChargingSessionState)
        ensures
            final(self)@ == old(self)@.after(
                WriteView::SetSessionState { session_id, state: state@ },
            ),
    {
        self.record(Write::SetSessionState { session_id, state: state.clone() });
    }

    pub fn stop_charging_session(&mut self, session_id: i32, reason: &ChargingSessionState)
        ensures
            final(self)@ == old(self)@.after(
                WriteView::SetSessionState { session_id, state: reason@ },
            ),
    {
        self.set_charging_session_state(session_id, reason);
    }

    pub fn add_charging_session_snapshot(
        &mut self,
        session_id: i32,
        snapshot: &ChargingSessionSnapshot,
    )
        ensures
            final(self)@ == old(self)@.after(
                WriteView::AddSnapshot { session_id, snapshot: *snapshot },
            ),
    {
        self.record(Write::AddSnapshot { session_id, snapshot: *snapshot });
    }

    /// Adds a schedule and returns its number.
    pub fn add_new_charging_schedule(&mut self, schedule: &ChargingSchedule) -> (schedule_id: i32)
        requires
            old(self).next_schedule_id < i32::MAX,
        ensures
            schedule_id == old(self).next_schedule_id,
            final(self)@ == old(self)@.after_schedule(schedule@),
    {
        let schedule_id = self.next_schedule_id;
        let mut numbered = schedule.clone();
        numbered.id = schedule_id;
        self.record(Write::AddSchedule { schedule: numbered });
        self.next_schedule_id = schedule_id + 1;
        schedule_id
    }

    pub fn inactivate_charging_schedule(&mut self, schedule_id: i32)
        ensures
            final(self)@ == old(self)@.after(WriteView::InactivateSchedule { schedule_id }),
    {
        self.record(Write::InactivateSchedule { schedule_id });
    }
}

/// A snapshot as a row of the store holds it.
#[derive(Debug, Clone, Copy, PartialEq, Eq, Structural)]
pub struct SnapshotRow {
    pub timestamp: Timestamp,
    pub is_reference: i64,
    pub energy: i64,
    pub power: Option<i64>,
    pub l1_voltage: Option<i64>,
    pub temperature: Option<i64>,
    pub soc_is_absolute: bool,
    pub soc: Option<i64>,
    pub soc_cap: Option<i64>,
}

pub open spec fn signed(value: Option<u64>) -> Option<i64> {
    match value {
        Some(value) => Some(value as i64),
        None => None,
    }
}

pub open spec fn unsigned(value: Option<i64>) -> Option<u64> {
    match value {
        Some(value) => Some(value as u64),
        None => None,
    }
}

fn to_signed(value: Option<u64>) -> (r: Option<i64>)
    ensures
        r == signed(value),
{
    match value {
        Some(value) => Some(
            #[verifier::truncate]
            (value as i64),
        ),
        None => None,
    }
}

fn to_unsigned(value: Option<i64>) -> (r: Option<u64>)
    ensures
        r == unsigned(value),
{
    match value {
        Some(value) => Some(
            #[verifier::truncate]
            (value as u64),
        ),
        None => None,
    }
}

impl SnapshotRow {
    /// The row of a snapshot.
    pub open spec fn of(snapshot: ChargingSessionSnapshot) -> SnapshotRow {
        SnapshotRow {
            timestamp: snapshot.timestamp,
            is_reference: if snapshot.is_reference {
                1
            } else {
                0
            },
            energy: snapshot.energy as i64,
            power: signed(snapshot.power),
            l1_voltage: signed(snapshot.l1_voltage),
            temperature: signed(snapshot.temperature),
            soc_is_absolute: snapshot.soc is Absolute,
            soc: snapshot.soc.spec_inner(),
            soc_cap: snapshot.soc_cap,
        }
    }

    pub fn from_snapshot(snapshot: &ChargingSessionSnapshot) -> (r: Self)
        ensures
            r == Self::of(*snapshot),
    {
        SnapshotRow {
            timestamp: snapshot.timestamp,
            is_reference: if snapshot.is_reference {
                1
            } else {
                0
            },
            energy:
                #[verifier::truncate]
                (snapshot.energy as i64),
            power: to_signed(snapshot.power),
            l1_voltage: to_signed(snapshot.l1_voltage),
            temperature: to_signed(snapshot.temperature),
            soc_is_absolute: snapshot.soc.is_absolute(),
            soc: snapshot.soc.inner(),
            soc_cap: snapshot.soc_cap,
        }
    }

    /// The snapshot that the row holds.
    pub open spec fn snapshot(self) -> ChargingSessionSnapshot {
        ChargingSessionSnapshot {
            timestamp: self.timestamp,
            is_reference: self.is_reference == 1,
            energy: self.energy as u64,
            power: unsigned(self.power),
            l1_voltage: unsigned(self.l1_voltage),
            temperature: unsigned(self.temperature),
            soc: SoC::spec_new(self.soc_is_absolute, self.soc),
            soc_cap: self.soc_cap,
        }
    }

    pub fn to_snapshot(&self) -> (r: ChargingSessionSnapshot)
        ensures
            r == self.snapshot(),
    {
        ChargingSessionSnapshot::builder(
            self.timestamp,
            #[verifier::truncate]
            (self.energy as u64),
        ).is_reference(self.is_reference == 1).power(to_unsigned(self.power)).l1_voltage(
            to_unsigned(self.l1_voltage),
        ).temperature(to_unsigned(self.temperature)).soc(
            SoC::new(self.soc_is_absolute, self.soc),
        ).soc_cap(self.soc_cap).build()
    }
}

/// A snapshot read back from its row is the same snapshot.
pub proof fn law_snapshot_row_round_trip(snapshot: ChargingSessionSnapshot)
    ensures
        SnapshotRow::of(snapshot).snapshot() == snapshot,
{
    assert forall|value: u64| #[trigger] (value as i64) as u64 == value by {
        assert((value as i64) as u64 == value) by (bit_vector);
    }
}

/// The session that a row of the store and the rows of its snapshots hold.
pub open spec fn session_in_rows(
    bms: Bms,
    session_id: i32,
    transaction_id: Option<i32>,
    state: Seq<char>,
    rows: Seq<SnapshotRow>,
) -> SessionView {
    SessionView {
        snapshots: rows.map_values(|row: SnapshotRow| row.snapshot()),
        ..SessionView::unstarted(
            session_id,
            match transaction_id {
                Some(transaction_id) => transaction_id,
                None => session_id,
            },
            bms,
            StateView::of_text(state),
        )
    }
}

/// Reads a session out of its row and the rows of its snapshots.
///
/// A session without a snapshot is none.
pub fn session_from_rows(
    bms: Bms,
    session_id: i32,
    transaction_id: Option<i32>,
    state: &str,
    rows: &Vec<SnapshotRow>,
) -> (r: Option<ChargingSession>)
    ensures
        match r {
            Some(session) => rows@.len() > 0 && session@ == session_in_rows(
                bms,
                session_id,
                transaction_id,
                state@,
                rows@,
            ),
            None => rows@.len() == 0,
        },
{
    if rows.len() == 0 {
        return None;
    }
    let state = match ChargingSessionState::from_str(state) {
        Ok(state) => state,
        Err(_) => ChargingSessionState::Unknown,
    };
    let mut session = ChargingSession::from_database(bms, session_id, transaction_id, state);
    let ghost blank = session@;
    let ghost read = |row: SnapshotRow| row.snapshot();
    let mut i: usize = 0;
    assert(session@.snapshots =~= rows@.take(0).map_values(read));
    while i < rows.len()
        invariant
            i <= rows.len(),
            read == (|row: SnapshotRow| row.snapshot()),
            session@ == (SessionView {
                snapshots: rows@.take(i as int).map_values(read),
                ..blank
            }),
        decreases rows.len() - i,
    {
        session.add_snapshot_from_database(rows[i].to_snapshot());
        proof {
            assert(rows@.take(i + 1).map_values(read) =~= rows@.take(i as int).map_values(
                read,
            ).push(rows@[i as int].snapshot()));
        }
        i = i + 1;
    }
    assert(rows@.take(i as int) =~= rows@);
    Some(session)
}

/// The records once a session was taken up again at `now`.
pub open spec fn db_after_resume(db: DatabaseView, session: SessionView, now: Timestamp) -> DatabaseView {
    if session.adds_reference() {
        db.after(
            WriteView::AddSnapshot {
                session_id: session.session_id,
                snapshot: session.new_reference(now),
            },
        )
    } else {
        db
    }
}

impl Database {
    /// Reads the last session out of its rows and takes it up again at `now`, keeping the
    /// reference snapshot that this may add.
    pub fn restore_last_session(
        &mut self,
        bms: Bms,
        session_id: i32,
        transaction_id: Option<i32>,
        state: &str,
        rows: &Vec<SnapshotRow>,
        now: Timestamp,
    ) -> (r: Option<ChargingSession>)
        ensures
            ({
                let session = session_in_rows(bms, session_id, transaction_id, state@, rows@);
                match r {
                    Some(resumed) => {
                        &&& rows@.len() > 0
                        &&& resumed@ == session.resumed(now)
                        &&& final(self)@ == db_after_resume(old(self)@, session, now)
                    },
                    None => rows@.len() == 0 && final(self)@ == old(self)@,
                }
            }),
    {
        let mut session = match session_from_rows(bms, session_id, transaction_id, state, rows) {
            Some(session) => session,
            None => {
                return None;
            },
        };
        if let Some(snapshot) = session.finalise_last_session_retrieval_at(now) {
            self.add_charging_session_snapshot(session_id, &snapshot);
        }
        Some(session)
    }
}

/// A session, as the writes to the store have left it.
pub struct StoredSession {
    pub state: StateView,
    pub transaction_id: Option<i32>,
    pub snapshots: Seq<ChargingSessionSnapshot>,
}

/// What the store holds of a session once the writes were applied.
pub open spec fn stored_session(writes: Seq<WriteView>, id: i32) -> Option<StoredSession>
    decreases writes.len(),
{
    if writes.len() == 0 {
        None
    } else {
        let before = stored_session(writes.drop_last(), id);
        match (writes.last(), before) {
            (WriteView::AddSession { session_id, state, transaction_id }, _) => if session_id
                == id {
                Some(StoredSession { state, transaction_id, snapshots: Seq::empty() })
            } else {
                before
            },
            (WriteView::SetSessionState { session_id, state }, Some(session)) => if session_id
                == id {
                Some(StoredSession { state, ..session })
            } else {
                before
            },
            (WriteView::AddSnapshot { session_id, snapshot }, Some(session)) => if session_id
                == id {
                Some(StoredSession { snapshots: session.snapshots.push(snapshot), ..session })
            } else {
                before
            },
            _ => before,
        }
    }
}

/// Whether the store holds the session as it is, but for the battery.
pub open spec fn keeps(db: DatabaseView, session: SessionView) -> bool {
    stored_session(db.writes, session.session_id) matches Some(stored) && {
        &&& stored.state == session.state
        &&& stored.snapshots == session.snapshots
        &&& session.transaction_id == match stored.transaction_id {
            Some(transaction_id) => transaction_id,
            None => session.session_id,
        }
    }
}

pub(crate) proof fn lemma_stored_after(db: DatabaseView, write: WriteView, id: i32)
    ensures
        stored_session(db.after(write).writes, id) == ({
            let before = stored_session(db.writes, id);
            match (write, before) {
                (WriteView::AddSession { session_id, state, transaction_id }, _) => if session_id
                    == id {
                    Some(StoredSession { state, transaction_id, snapshots: Seq::empty() })
                } else {
                    before
                },
                (WriteView::SetSessionState { session_id, state }, Some(session)) => if session_id
                    == id {
                    Some(StoredSession { state, ..session })
                } else {
                    before
                },
                (WriteView::AddSnapshot { session_id, snapshot }, Some(session)) => if session_id
                    == id {
                    Some(StoredSession { snapshots: session.snapshots.push(snapshot), ..session })
                } else {
                    before
                },
                _ => before,
            }
        }),
{
    assert(db.after(write).writes.drop_last() =~= db.writes);
}

/// A session is in the store as soon as it has started.
pub proof fn law_started_session_is_kept(
    db: DatabaseView,
    transaction_id: i32,
    kept_transaction_id: Option<i32>,
    bms: Bms,
    state: StateView,
    timestamp: Timestamp,
    energy: u64,
)
    requires
        kept_transaction_id == Some(transaction_id) || (kept_transaction_id is None
            && transaction_id == db.next_session_id),
    ensures
        ({
            let id = db.next_session_id;
            keeps(
                db.after_session(state, kept_transaction_id).after(
                    SessionView::unstarted(id, transaction_id, bms, state).snapshot_write(
                        SessionView::reference(bms, timestamp, energy),
                    ),
                ),
                SessionView::starting(id, transaction_id, bms, state, timestamp, energy),
            )
        }),
{
    let id = db.next_session_id;
    let added = WriteView::AddSession { session_id: id, state, transaction_id: kept_transaction_id };
    let unstarted = SessionView::unstarted(id, transaction_id, bms, state);
    let reference = SessionView::reference(bms, timestamp, energy);
    lemma_stored_after(db, added, id);
    let first = db.after_session(state, kept_transaction_id);
    assert(first.writes == db.after(added).writes);
    lemma_stored_after(first, unstarted.snapshot_write(reference), id);
}

/// Whatever happens to a session that is in the store, the store holds it as it then is: when a
/// snapshot is added, when it is put into a state, when it is stopped and when it is taken up.
pub proof fn law_session_stays_kept(
    db: DatabaseView,
    session: SessionView,
    snapshot: ChargingSessionSnapshot,
    timestamp: Timestamp,
    energy: u64,
    state: StateView,
)
    requires
        keeps(db, session),
    ensures
        keeps(db.after(session.snapshot_write(snapshot)), session.with_snapshot(snapshot)),
        keeps(session.db_after_state(db, state), SessionView { state, ..session }),
        keeps(
            session.db_after_stop(db, timestamp, energy, state),
            session.stopped(timestamp, energy, state),
        ),
        keeps(db_after_resume(db, session, timestamp), session.resumed(timestamp)),
{
    let id = session.session_id;
    lemma_stored_after(db, session.snapshot_write(snapshot), id);
    lemma_stored_after(db, WriteView::SetSessionState { session_id: id, state }, id);
    let last = session.snapshot_write(ChargingSessionSnapshot::spec_new(timestamp, energy));
    lemma_stored_after(db, last, id);
    lemma_stored_after(
        db.after(last),
        WriteView::SetSessionState { session_id: id, state },
        id,
    );
    lemma_stored_after(
        db,
        WriteView::AddSnapshot { session_id: id, snapshot: session.new_reference(timestamp) },
        id,
    );
}

/// What is written of other sessions, or of schedules, leaves a session in the store as it is.
pub proof fn law_other_writes_leave_session(
    db: DatabaseView,
    session: SessionView,
    write: WriteView,
)
    requires
        keeps(db, session),
        match write {
            WriteView::AddSession { session_id, .. } => session_id != session.session_id,
            WriteView::SetSessionState { session_id, .. } => session_id != session.session_id,
            WriteView::AddSnapshot { session_id, .. } => session_id != session.session_id,
            _ => true,
        },
    ensures
        keeps(db.after(write), session),
{
    lemma_stored_after(db, write, session.session_id);
}

/// What the store holds of a session, read back with the state's text and the snapshots' rows, is
/// the session, but for the battery, unless the text of an error is the name of another state.
pub proof fn law_kept_session_is_read_back(
    db: DatabaseView,
    session: SessionView,
    settings: Bms,
    stored: StoredSession,
)
    requires
        keeps(db, session),
        stored_session(db.writes, session.session_id) == Some(stored),
        session.state matches StateView::Error(error) ==> !crate::charging_session::is_state_name(
            error,
        ),
    ensures
        session_in_rows(
            settings,
            session.session_id,
            stored.transaction_id,
            stored.state.text(),
            stored.snapshots.map_values(
                |snapshot: ChargingSessionSnapshot| SnapshotRow::of(snapshot),
            ),
        ) == (SessionView { bms: settings, ..session }),
{
    crate::charging_session::law_state_text_round_trip(session.state);
    let rows = stored.snapshots.map_values(
        |snapshot: ChargingSessionSnapshot| SnapshotRow::of(snapshot),
    );
    let read = rows.map_values(|row: SnapshotRow| row.snapshot());
    assert forall|i: int| 0 <= i < read.len() implies #[trigger] read[i]
        == session.snapshots[i] by {
        law_snapshot_row_round_trip(session.snapshots[i]);
    }
    assert(read =~= session.snapshots);
}

/// A schedule with the given periods, each under its start.
pub open spec fn with_periods(
    schedule: ScheduleView,
    periods: Seq<ChargingSchedulePeriod>,
) -> ScheduleView
    decreases periods.len(),
{
    if periods.len() == 0 {
        schedule
    } else {
        with_periods(schedule, periods.drop_last()).with_period(periods.last())
    }
}

/// Reads a schedule out of its row and the rows of its periods.
///
/// A schedule without a period is none.
pub fn schedule_from_rows(
    schedule_id: i32,
    set_time: Timestamp,
    state: i32,
    rows: &Vec<ChargingSchedulePeriod>,
) -> (r: Option<ChargingSchedule>)
    ensures
        match r {
            Some(schedule) => rows@.len() > 0 && schedule@ == with_periods(
                ScheduleView {
                    id: schedule_id,
                    ..ScheduleView::blank(ChargingScheduleState::of_number(state), set_time)
                },
                rows@,
            ),
            None => rows@.len() == 0,
        },
{
    if rows.len() == 0 {
        return None;
    }
    let mut schedule = ChargingSchedule::set_at(ChargingScheduleState::from(state), set_time);
    schedule.id = schedule_id;
    let ghost blank = schedule@;
    let mut i: usize = 0;
    assert(rows@.take(0) =~= Seq::empty());
    while i < rows.len()
        invariant
            i <= rows.len(),
            schedule@ == with_periods(blank, rows@.take(i as int)),
        decreases rows.len() - i,
    {
        schedule = schedule.add_period(rows[i]);
        assert(rows@.take(i + 1).drop_last() =~= rows@.take(i as int));
        i = i + 1;
    }
    assert(rows@.take(i as int) =~= rows@);
    Some(schedule)
}

proof fn lemma_with_periods(
    schedule: ScheduleView,
    periods: Seq<ChargingSchedulePeriod>,
    key: i128,
)
    requires
        schedule.periods == Map::<i128, ChargingSchedulePeriod>::empty(),
        forall|i: int, j: int|
            0 <= i < j < periods.len() ==> periods[i].start.before(periods[j].start),
    ensures
        with_periods(schedule, periods) == (ScheduleView {
            periods: with_periods(schedule, periods).periods,
            ..schedule
        }),
        with_periods(schedule, periods).periods.dom().contains(key) <==> exists|i: int|
            0 <= i < periods.len() && (#[trigger] periods[i]).start.spec_key() as i128 == key,
        forall|i: int|
            0 <= i < periods.len() ==> with_periods(schedule, periods).periods[(
            #[trigger] periods[i]).start.spec_key() as i128] == periods[i],
    decreases periods.len(),
{
    if periods.len() > 0 {
        let before = periods.drop_last();
        let last = periods.last();
        assert forall|i: int, j: int| 0 <= i < j < before.len() implies before[i].start.before(
            before[j].start,
        ) by {
            assert(before[i] == periods[i] && before[j] == periods[j]);
        }
        lemma_with_periods(schedule, before, key);
        let all = with_periods(schedule, periods).periods;
        assert forall|i: int| 0 <= i < periods.len() implies all[(
        #[trigger] periods[i]).start.spec_key() as i128] == periods[i] by {
            if i < before.len() {
                assert(before[i] == periods[i]);
                assert(periods[i].start.before(periods[periods.len() - 1].start));
                law_keys_are_in_order(periods[i].start, last.start);
            }
        }
        if exists|i: int| 0 <= i < before.len() && (#[trigger] before[i]).start.spec_key() as i128 == key {
            let i = choose|i: int|
                0 <= i < before.len() && (#[trigger] before[i]).start.spec_key() as i128 == key;
            assert(periods[i] == before[i]);
        }
        if last.start.spec_key() as i128 == key {
            assert(periods[periods.len() - 1].start.spec_key() as i128 == key);
        }
        if exists|i: int| 0 <= i < periods.len() && (#[trigger] periods[i]).start.spec_key() as i128 == key {
            let i = choose|i: int|
                0 <= i < periods.len() && (#[trigger] periods[i]).start.spec_key() as i128 == key;
            if i < before.len() {
                assert(before[i] == periods[i]);
            }
        }
    }
}

/// A schedule read back from its number, its set time, its state's number and the rows of its
/// periods is the same schedule.
pub proof fn law_schedule_is_read_back(schedule: ScheduleView)
    requires
        schedule.well_formed(),
    ensures
        with_periods(
            ScheduleView {
                id: schedule.id,
                ..ScheduleView::blank(
                    ChargingScheduleState::of_number(schedule.state.number()),
                    schedule.set_time,
                )
            },
            in_order(schedule.periods),
        ) == schedule,
{
    let blank = ScheduleView {
        id: schedule.id,
        ..ScheduleView::blank(
            ChargingScheduleState::of_number(schedule.state.number()),
            schedule.set_time,
        )
    };
    let periods = in_order(schedule.periods);
    law_periods_in_order(schedule);
    let read = with_periods(blank, periods);
    assert forall|key: i128| #[trigger] read.periods.dom().contains(key)
        == schedule.periods.dom().contains(key) by {
        lemma_with_periods(blank, periods, key);
        if schedule.periods.dom().contains(key) {
            let i = choose|i: int| 0 <= i < periods.len() && periods[i] == schedule.periods[key];
            assert(periods[i].start.spec_key() as i128 == key);
        }
        if read.periods.dom().contains(key) {
            let i = choose|i: int|
                0 <= i < periods.len() && (#[trigger] periods[i]).start.spec_key() as i128 == key;
            assert(schedule.periods.contains_pair(periods[i].start.spec_key() as i128, periods[i]));
        }
    }
    assert forall|key: i128| #[trigger] read.periods.dom().contains(key) implies read.periods[key]
        == schedule.periods[key] by {
        lemma_with_periods(blank, periods, key);
        let i = choose|i: int|
            0 <= i < periods.len() && (#[trigger] periods[i]).start.spec_key() as i128 == key;
        assert(schedule.periods.contains_pair(periods[i].start.spec_key() as i128, periods[i]));
    }
    lemma_with_periods(blank, periods, 0);
    assert(read.periods =~= schedule.periods);
}

/// A row holds its snapshot: its time, whether it is a reference, what was measured, and the kind and
/// the value of its state of charge, where it is known, and of the limit. What fits 63 bits is held as
/// the number it is.
pub proof fn law_row_holds_snapshot(snapshot: ChargingSessionSnapshot)
    ensures
        ({
            let row = SnapshotRow::of(snapshot);
            &&& row.timestamp == snapshot.timestamp
            &&& row.is_reference == 1 <==> snapshot.is_reference
            &&& row.is_reference == 0 <==> !snapshot.is_reference
            &&& snapshot.energy < 0x8000_0000_0000_0000 ==> row.energy == snapshot.energy
            &&& row.power is Some <==> snapshot.power is Some
            &&& row.l1_voltage is Some <==> snapshot.l1_voltage is Some
            &&& row.temperature is Some <==> snapshot.temperature is Some
            &&& snapshot.power is Some && snapshot.power->0 < 0x8000_0000_0000_0000
                ==> row.power->0 == snapshot.power->0
            &&& snapshot.l1_voltage is Some && snapshot.l1_voltage->0 < 0x8000_0000_0000_0000
                ==> row.l1_voltage->0 == snapshot.l1_voltage->0
            &&& snapshot.temperature is Some && snapshot.temperature->0 < 0x8000_0000_0000_0000
                ==> row.temperature->0 == snapshot.temperature->0
            &&& row.soc_is_absolute <==> snapshot.soc is Absolute
            &&& snapshot.soc matches SoC::Absolute(soc) ==> row.soc == Some(soc)
            &&& snapshot.soc matches SoC::Relative(soc) ==> row.soc == Some(soc)
            &&& snapshot.soc is Unknown ==> row.soc is None
            &&& row.soc_cap == snapshot.soc_cap
        }),
{
}

/// A session that is read out of its rows has the number, the settings and the state that are given,
/// and a snapshot for each row, in their order. Where no transaction was kept, it is the one with the
/// number of the session.
pub proof fn law_session_is_read_from_rows(
    bms: Bms,
    session_id: i32,
    transaction_id: Option<i32>,
    state: StateView,
    snapshots: Seq<ChargingSessionSnapshot>,
)
    requires
        state !is Error,
    ensures
        session_in_rows(
            bms,
            session_id,
            transaction_id,
            state.text(),
            snapshots.map_values(|snapshot: ChargingSessionSnapshot| SnapshotRow::of(snapshot)),
        ) == (SessionView {
            session_id,
            transaction_id: if transaction_id is Some {
                transaction_id->0
            } else {
                session_id
            },
            bms,
            snapshots,
            state,
        }),
{
    crate::charging_session::law_state_text_round_trip(state);
    let rows = snapshots.map_values(|snapshot: ChargingSessionSnapshot| SnapshotRow::of(snapshot));
    let read = rows.map_values(|row: SnapshotRow| row.snapshot());
    assert forall|i: int| 0 <= i < read.len() implies #[trigger] read[i] == snapshots[i] by {
        law_snapshot_row_round_trip(snapshots[i]);
    }
    assert(read =~= snapshots);
}

/// When a session is taken up, the reference that is added to it is written, and nothing else.
pub proof fn law_added_reference_is_written(db: DatabaseView, session: SessionView, now: Timestamp)
    requires
        session.snapshots.len() > 0,
    ensures
        ({
            let after = session.resumed(now);
            let written = db_after_resume(db, session, now);
            &&& after.snapshots == session.snapshots ==> written == db
            &&& after.snapshots != session.snapshots ==> written == (DatabaseView {
                writes: db.writes.push(
                    WriteView::AddSnapshot {
                        session_id: session.session_id,
                        snapshot: after.snapshots.last(),
                    },
                ),
                ..db
            })
        }),
{
    if session.adds_reference() {
        assert(session.resumed(now).snapshots.len() == session.snapshots.len() + 1);
    }
}

/// Rows are numbered one after the other, and written with their number.
pub proof fn law_rows_are_numbered(
    db: DatabaseView,
    state: StateView,
    transaction_id: Option<i32>,
    schedule: ScheduleView,
)
    requires
        db.next_session_id < i32::MAX,
        db.next_schedule_id < i32::MAX,
    ensures
        ({
            let session_added = db.after_session(state, transaction_id);
            let schedule_added = db.after_schedule(schedule);
            let numbered = ScheduleView { id: db.next_schedule_id, ..schedule };
            &&& session_added.next_session_id == db.next_session_id + 1
            &&& session_added.next_schedule_id == db.next_schedule_id
            &&& session_added.writes == db.writes.push(
                WriteView::AddSession { session_id: db.next_session_id, state, transaction_id },
            )
            &&& schedule_added.next_schedule_id == db.next_schedule_id + 1
            &&& schedule_added.next_session_id == db.next_session_id
            &&& schedule_added.writes == db.writes.push(
                WriteView::AddSchedule { schedule: numbered },
            )
        }),
{
}

/// A schedule that is read out of its rows has the number, the time and the state that are given, and
/// a period for each row: of two rows with the same start, the last one.
pub proof fn law_schedule_is_read_from_rows(
    schedule: ScheduleView,
    periods: Seq<ChargingSchedulePeriod>,
    period: ChargingSchedulePeriod,
)
    ensures
        with_periods(schedule, Seq::empty()) == schedule,
        with_periods(schedule, periods.push(period)) == (ScheduleView {
            periods: with_periods(schedule, periods).periods.insert(
                period.start.spec_key() as i128,
                period,
            ),
            ..with_periods(schedule, periods)
        }),
{
    assert(periods.push(period).drop_last() =~= periods);
}

} // verus!
