use chrono::Utc;
use evse_server::bms::{Bms, FULL_CHARGE, SoC, SoCProgress, energy_share};
use evse_server::charging_point::{ChargePointStatus, Reason};
use evse_server::charging_session::{
    ChargingSession, ChargingSessionSnapshot, ChargingSessionState,
};
use evse_server::database::{Database, SnapshotRow, Write};
use evse_server::time::Timestamp;

const BATTERY_CAPACITY: u32 = 48_100;
const CONST_POWER_LOSS: u16 = 400;
const INITIAL_ENERGY: u64 = 100;
const MAX_ADDED_ENERGY_FIRST_PERIOD: u64 = 25;
const INITIAL_SOC: i64 = FULL_CHARGE * 3 / 10;

fn now() -> Timestamp {
    let now = Utc::now();
    Timestamp {
        secs: now.timestamp(),
        subsec: now.timestamp_subsec_nanos(),
    }
}

fn share(energy: u64) -> i64 {
    energy_share(energy as i128, BATTERY_CAPACITY)
}

/// The rows of a store, filled by the writes that come in.
#[derive(Default)]
struct Store {
    sessions: Vec<(i32, Option<i32>, String, Vec<SnapshotRow>)>,
}

impl Store {
    fn write(&mut self, db: &mut Database) {
        for write in db.take_writes() {
            match write {
                Write::AddSession {
                    session_id,
                    state,
                    transaction_id,
                } => {
                    self.sessions
                        .push((session_id, transaction_id, state.to_string(), vec![]));
                }
                Write::SetSessionState { session_id, state } => {
                    self.session(session_id).2 = state.to_string();
                }
                Write::AddSnapshot {
                    session_id,
                    snapshot,
                } => {
                    self.session(session_id)
                        .3
                        .push(SnapshotRow::from_snapshot(&snapshot));
                }
                other => panic!("{other:?}"),
            }
        }
    }

    fn session(&mut self, id: i32) -> &mut (i32, Option<i32>, String, Vec<SnapshotRow>) {
        self.sessions.iter_mut().find(|row| row.0 == id).unwrap()
    }

    fn get_last_charging_session(&mut self, db: &mut Database, bms: &Bms) -> ChargingSession {
        self.write(db);
        let (id, transaction_id, state, rows) = self.sessions.last().unwrap();
        let session = db
            .restore_last_session(*bms, *id, *transaction_id, state, rows, now())
            .unwrap();
        self.write(db);
        session
    }
}

fn snapshot(energy: u64, voltage: u64, temperature: u64) -> ChargingSessionSnapshot {
    ChargingSessionSnapshot::builder(now(), energy)
        .power(Some(10))
        .l1_voltage(Some(voltage))
        .temperature(Some(temperature))
        .build()
}

#[test]
fn charging_session() {
    let mut db = Database::new(1, 1);
    let mut store = Store::default();
    session_with_soc_and_soc_cap(&mut db, &mut store);
    session_unknown_initial_soc(&mut db, &mut store);
    session_unknown_initial_soc_no_cap(&mut db, &mut store);
    multi_period_session_with_soc_and_soc_cap(&mut db, &mut store);
    multi_period_session_unknown_initial_soc(&mut db, &mut store);
    missed_start_active_session_with_soc_and_soc_cap(&mut db, &mut store);
    missed_start_suspended_session_with_soc_and_soc_cap(&mut db, &mut store);
}

fn session_with_soc_and_soc_cap(db: &mut Database, store: &mut Store) {
    let start_time = now();
    let soc_cap = INITIAL_SOC + share(MAX_ADDED_ENERGY_FIRST_PERIOD);

    let bms = Bms::builder(BATTERY_CAPACITY, CONST_POWER_LOSS)
        .initial_soc(SoC::Absolute(INITIAL_SOC))
        .soc_cap(Some(soc_cap))
        .build();
    let mut cs = ChargingSession::new(db, bms, start_time, INITIAL_ENERGY);
    assert_eq!(INITIAL_SOC, cs.bms().initial_soc.absolute().unwrap());
    assert_eq!(Some(soc_cap), cs.bms().soc_cap);
    let last_snapshot = cs.last_snapshot().unwrap();
    assert_eq!(last_snapshot.timestamp, start_time);
    assert!(last_snapshot.is_reference);
    assert_eq!(last_snapshot.energy, INITIAL_ENERGY);

    let first = snapshot(INITIAL_ENERGY + 10, 230, 27);
    let soc_progress = cs.add_snapshot(db, first);
    assert!(!soc_progress.is_complete());
    assert_eq!(
        SoCProgress::AbsoluteCapNotReached {
            soc: INITIAL_SOC + share(10),
            cap: soc_cap,
        },
        soc_progress,
    );
    let last_snapshot = cs.last_snapshot().unwrap();
    assert_eq!(last_snapshot.timestamp, first.timestamp);
    assert!(!last_snapshot.is_reference);
    assert_eq!(last_snapshot.energy, INITIAL_ENERGY + 10);
    assert_eq!(last_snapshot.power, Some(10));
    assert_eq!(last_snapshot.l1_voltage, Some(230));
    assert_eq!(last_snapshot.temperature, Some(27));

    let second = snapshot(INITIAL_ENERGY + 20, 228, 28);
    let soc_progress = cs.add_snapshot(db, second);
    assert!(!soc_progress.is_complete());
    assert_eq!(
        SoCProgress::AbsoluteCapNotReached {
            soc: INITIAL_SOC + share(20),
            cap: soc_cap,
        },
        soc_progress,
    );
    let last_snapshot = cs.last_snapshot().unwrap();
    assert_eq!(last_snapshot.timestamp, second.timestamp);
    assert!(!last_snapshot.is_reference);
    assert_eq!(last_snapshot.energy, INITIAL_ENERGY + 20);
    assert_eq!(last_snapshot.power, Some(10));
    assert_eq!(last_snapshot.l1_voltage, Some(228));
    assert_eq!(last_snapshot.temperature, Some(28));

    let last_session = store.get_last_charging_session(db, cs.bms());
    assert_eq!(cs, last_session);
    assert_eq!(&ChargingSessionState::Active, last_session.state());

    let soc_progress = cs.add_snapshot(
        db,
        snapshot(INITIAL_ENERGY + MAX_ADDED_ENERGY_FIRST_PERIOD, 227, 30),
    );
    assert!(soc_progress.is_complete());
    assert_eq!(
        SoCProgress::AbsoluteCapReached {
            soc: INITIAL_SOC + share(MAX_ADDED_ENERGY_FIRST_PERIOD),
            cap: soc_cap,
        },
        soc_progress,
    );
    assert!(!cs.last_snapshot().unwrap().is_reference);
    cs.stop(
        db,
        now(),
        INITIAL_ENERGY + MAX_ADDED_ENERGY_FIRST_PERIOD,
        ChargingSessionState::SocCapReached,
    );

    let last_session = store.get_last_charging_session(db, cs.bms());
    assert_eq!(cs, last_session);
    assert_eq!(&ChargingSessionState::SocCapReached, last_session.state());
}

fn session_unknown_initial_soc(db: &mut Database, store: &mut Store) {
    let soc_cap = share(MAX_ADDED_ENERGY_FIRST_PERIOD);

    let bms = Bms::builder(BATTERY_CAPACITY, CONST_POWER_LOSS)
        .soc_cap(Some(soc_cap))
        .build();
    let mut cs = ChargingSession::new(db, bms, now(), INITIAL_ENERGY);
    assert_eq!(SoC::Unknown, cs.bms().initial_soc);
    assert_eq!(Some(soc_cap), cs.bms().soc_cap);
    assert!(cs.last_snapshot().unwrap().is_reference);

    let soc_progress = cs.add_snapshot(db, snapshot(INITIAL_ENERGY + 10, 230, 27));
    assert!(!soc_progress.is_complete());
    assert_eq!(
        SoCProgress::RelativeCapNotReached {
            rel_soc: share(10),
            cap: soc_cap,
        },
        soc_progress,
    );
    let soc_progress = cs.add_snapshot(db, snapshot(INITIAL_ENERGY + 20, 228, 28));
    assert!(!soc_progress.is_complete());
    assert_eq!(
        SoCProgress::RelativeCapNotReached {
            rel_soc: share(20),
            cap: soc_cap,
        },
        soc_progress,
    );
    assert!(!cs.last_snapshot().unwrap().is_reference);

    let last_session = store.get_last_charging_session(db, &bms);
    assert_eq!(cs, last_session);
    assert_eq!(&ChargingSessionState::Active, last_session.state());

    let soc_progress = cs.add_snapshot(
        db,
        snapshot(INITIAL_ENERGY + MAX_ADDED_ENERGY_FIRST_PERIOD, 227, 30),
    );
    assert!(soc_progress.is_complete());
    assert_eq!(
        SoCProgress::RelativeCapReached {
            rel_soc: share(MAX_ADDED_ENERGY_FIRST_PERIOD),
            cap: soc_cap,
        },
        soc_progress,
    );
    assert!(!cs.last_snapshot().unwrap().is_reference);
    cs.stop(
        db,
        now(),
        INITIAL_ENERGY + MAX_ADDED_ENERGY_FIRST_PERIOD,
        ChargingSessionState::SocCapReached,
    );

    let last_session = store.get_last_charging_session(db, cs.bms());
    assert_eq!(cs, last_session);
    assert_eq!(&ChargingSessionState::SocCapReached, last_session.state());
}

fn session_unknown_initial_soc_no_cap(db: &mut Database, store: &mut Store) {
    let bms = Bms::builder(BATTERY_CAPACITY, CONST_POWER_LOSS).build();
    let mut cs = ChargingSession::new(db, bms, now(), INITIAL_ENERGY);
    assert_eq!(SoC::Unknown, cs.bms().initial_soc);
    assert!(cs.bms().soc_cap.is_none());
    assert!(cs.last_snapshot().unwrap().is_reference);

    assert_eq!(
        SoCProgress::RelativeUncapped(share(10)),
        cs.add_snapshot(db, snapshot(INITIAL_ENERGY + 10, 230, 27)),
    );
    assert_eq!(
        SoCProgress::RelativeUncapped(share(20)),
        cs.add_snapshot(db, snapshot(INITIAL_ENERGY + 20, 230, 27)),
    );
    assert!(!cs.last_snapshot().unwrap().is_reference);

    let last_session = store.get_last_charging_session(db, cs.bms());
    assert_eq!(cs, last_session);
    assert_eq!(&ChargingSessionState::Active, last_session.state());

    assert_eq!(cs, store.get_last_charging_session(db, cs.bms()));

    cs.stop(
        db,
        now(),
        INITIAL_ENERGY + 25,
        ChargingSessionState::SuspendedByEv,
    );

    let last_session = store.get_last_charging_session(db, cs.bms());
    assert_eq!(cs, last_session);
    assert_eq!(&ChargingSessionState::SuspendedByEv, last_session.state());
}

fn multi_period_session_with_soc_and_soc_cap(db: &mut Database, store: &mut Store) {
    let mut soc_cap = INITIAL_SOC + share(MAX_ADDED_ENERGY_FIRST_PERIOD);

    let bms = Bms::builder(BATTERY_CAPACITY, CONST_POWER_LOSS)
        .initial_soc(SoC::Absolute(INITIAL_SOC))
        .soc_cap(Some(soc_cap))
        .build();
    let mut cs = ChargingSession::new(db, bms, now(), INITIAL_ENERGY);
    assert!(cs.last_snapshot().unwrap().is_reference);

    let _ = cs.add_snapshot(db, snapshot(INITIAL_ENERGY + 10, 230, 27));
    let _ = cs.add_snapshot(db, snapshot(INITIAL_ENERGY + 20, 228, 28));
    assert!(!cs.last_snapshot().unwrap().is_reference);

    // Simulate server going offline, then reconnecting without the session being suspended
    // not changing initial SoC and expending the SoC cap
    soc_cap += share(10);
    let bms = Bms::builder(BATTERY_CAPACITY, CONST_POWER_LOSS)
        .soc_cap(Some(soc_cap))
        .build();
    let mut recovered_session = store.get_last_charging_session(db, &bms);
    assert_eq!(
        Some(INITIAL_ENERGY),
        recovered_session.bms().initial_energy,
    );
    assert_eq!(
        SoC::Absolute(INITIAL_SOC),
        recovered_session.bms().initial_soc,
    );
    assert_eq!(Some(soc_cap), recovered_session.bms().soc_cap);

    let soc_progress = recovered_session.add_snapshot(db, snapshot(INITIAL_ENERGY + 30, 227, 30));
    assert_eq!(
        SoCProgress::AbsoluteCapNotReached {
            soc: INITIAL_SOC + share(30),
            cap: soc_cap,
        },
        soc_progress,
    );
    assert!(!cs.last_snapshot().unwrap().is_reference);

    // Simulate server going offline again,
    // then reconnecting without the session being suspended
    // this time, correcting initial SoC and removing the SoC cap
    let corrected_initial_soc = INITIAL_SOC - share(10);
    let bms = Bms::builder(BATTERY_CAPACITY, CONST_POWER_LOSS)
        .initial_soc(SoC::Absolute(corrected_initial_soc))
        .build();
    let mut recovered_session = store.get_last_charging_session(db, &bms);
    assert_eq!(
        Some(INITIAL_ENERGY),
        recovered_session.bms().initial_energy,
    );
    assert_eq!(
        SoC::Absolute(corrected_initial_soc),
        recovered_session.bms().initial_soc,
    );
    assert!(recovered_session.bms().soc_cap.is_none());
    let soc_progress = recovered_session.add_snapshot(db, snapshot(INITIAL_ENERGY + 40, 227, 30));
    assert_eq!(
        SoCProgress::AbsoluteUncapped(corrected_initial_soc + share(40)),
        soc_progress,
    );
    assert!(!cs.last_snapshot().unwrap().is_reference);
}

fn multi_period_session_unknown_initial_soc(db: &mut Database, store: &mut Store) {
    let mut soc_cap = share(MAX_ADDED_ENERGY_FIRST_PERIOD);

    let bms = Bms::builder(BATTERY_CAPACITY, CONST_POWER_LOSS)
        .soc_cap(Some(soc_cap))
        .build();
    let mut cs = ChargingSession::new(db, bms, now(), INITIAL_ENERGY);
    assert!(cs.last_snapshot().unwrap().is_reference);

    let _ = cs.add_snapshot(db, snapshot(INITIAL_ENERGY + 10, 230, 27));
    let _ = cs.add_snapshot(db, snapshot(INITIAL_ENERGY + 20, 228, 28));
    assert!(!cs.last_snapshot().unwrap().is_reference);

    // Simulate server going offline, then reconnecting without the session being suspended
    // not changing initial SoC and expending the SoC cap
    soc_cap += share(10);
    let bms = Bms::builder(BATTERY_CAPACITY, CONST_POWER_LOSS)
        .soc_cap(Some(soc_cap))
        .build();
    let mut recovered_session = store.get_last_charging_session(db, &bms);
    assert_eq!(recovered_session.bms().initial_energy, Some(INITIAL_ENERGY));
    // recovered session started from an unknown reference SoC
    assert_eq!(SoC::Unknown, recovered_session.bms().initial_soc);
    assert_eq!(Some(soc_cap), recovered_session.bms().soc_cap);

    let soc_progress = recovered_session.add_snapshot(db, snapshot(INITIAL_ENERGY + 30, 227, 30));
    assert_eq!(
        SoCProgress::RelativeCapNotReached {
            rel_soc: share(30),
            cap: soc_cap,
        },
        soc_progress,
    );
    assert!(!cs.last_snapshot().unwrap().is_reference);

    // Simulate server going offline again,
    // then reconnecting without the session being suspended
    // this time, correcting initial SoC and removing the SoC cap
    let corrected_initial_soc = INITIAL_SOC;
    let corrected_ref_soc = corrected_initial_soc + share(30);
    let bms = Bms::builder(BATTERY_CAPACITY, CONST_POWER_LOSS)
        .initial_soc(SoC::Absolute(corrected_initial_soc))
        .build();
    let mut recovered_session = store.get_last_charging_session(db, &bms);
    assert_eq!(
        Some(INITIAL_ENERGY),
        recovered_session.bms().initial_energy,
    );
    assert_eq!(
        SoC::Absolute(corrected_initial_soc),
        recovered_session.bms().initial_soc,
    );
    assert_eq!(None, recovered_session.bms().soc_cap);
    let last_snapshot = recovered_session.last_snapshot().unwrap();
    assert!(last_snapshot.is_reference);
    assert_eq!(SoC::Absolute(corrected_ref_soc), last_snapshot.soc);
    assert_eq!(None, last_snapshot.soc_cap);

    let soc_progress = recovered_session.add_snapshot(db, snapshot(INITIAL_ENERGY + 40, 227, 30));
    let last_snapshot = recovered_session.last_snapshot().unwrap();
    let mut expected_soc = corrected_ref_soc + share(10);
    match soc_progress {
        SoCProgress::AbsoluteUncapped(cur_soc) => {
            // 0.00000000001 of the battery
            assert!((expected_soc - cur_soc).abs() < 10);
        }
        other => unreachable!("{other:?}"),
    }
    assert!(!last_snapshot.is_reference);

    // Simulate server going offline again,
    // then reconnecting without the session being suspended
    // this time, using unknown SoC and SoC cap
    let bms = Bms::builder(BATTERY_CAPACITY, CONST_POWER_LOSS).build();
    let mut recovered_session = store.get_last_charging_session(db, &bms);
    assert_eq!(recovered_session.bms().initial_energy, Some(INITIAL_ENERGY));
    assert_eq!(
        SoC::Absolute(corrected_initial_soc),
        recovered_session.bms().initial_soc
    );
    let soc_progress = recovered_session.add_snapshot(db, snapshot(INITIAL_ENERGY + 50, 227, 30));
    expected_soc += share(10);
    match soc_progress {
        SoCProgress::AbsoluteUncapped(cur_soc) => {
            assert!((expected_soc - cur_soc).abs() < 10);
        }
        other => unreachable!("{other:?}"),
    }
    assert!(!cs.last_snapshot().unwrap().is_reference);
}

/// Simulates receiving a MeterValue with active enery import
fn missed_start_active_session_with_soc_and_soc_cap(db: &mut Database, store: &mut Store) {
    let soc_cap = INITIAL_SOC + share(MAX_ADDED_ENERGY_FIRST_PERIOD);

    let bms = Bms::builder(BATTERY_CAPACITY, CONST_POWER_LOSS)
        .initial_soc(SoC::Absolute(INITIAL_SOC))
        .soc_cap(Some(soc_cap))
        .build();

    let current_time = now();
    let last_known_energy = INITIAL_ENERGY;
    let tid = 1;
    let mut cs = ChargingSession::with_state(
        db,
        bms,
        tid,
        ChargingSessionState::Unknown,
        last_known_energy,
        Some(current_time),
    );
    assert_eq!(cs.state(), &ChargingSessionState::Unknown);
    assert_eq!(cs.transaction_id(), tid);

    let last_snapshot = cs.last_snapshot().unwrap();
    assert!(last_snapshot.is_reference);
    assert_eq!(last_snapshot.timestamp, current_time);
    assert_eq!(last_snapshot.energy, last_known_energy);

    assert_eq!(Some(last_known_energy), cs.bms().initial_energy);
    assert_eq!(SoC::Absolute(INITIAL_SOC), cs.bms().initial_soc);
    assert_eq!(Some(soc_cap), cs.bms().soc_cap);

    let bms = Bms::builder(BATTERY_CAPACITY, CONST_POWER_LOSS)
        .soc_cap(Some(soc_cap))
        .build();
    let last_session = store.get_last_charging_session(db, &bms);
    assert_eq!(cs, last_session);

    cs.set_state(db, ChargingSessionState::Active);
    assert_eq!(cs.state(), &ChargingSessionState::Active);

    let soc_progress = cs.add_snapshot(db, snapshot(INITIAL_ENERGY + 10, 230, 27));
    assert!(!soc_progress.is_complete());
    assert_eq!(
        SoCProgress::AbsoluteCapNotReached {
            soc: INITIAL_SOC + share(10),
            cap: soc_cap,
        },
        soc_progress,
    );
    assert!(!cs.last_snapshot().unwrap().is_reference);

    let last_session = store.get_last_charging_session(db, &bms);
    assert_eq!(cs, last_session);
}

fn missed_start_suspended_session_with_soc_and_soc_cap(db: &mut Database, store: &mut Store) {
    let soc_cap = INITIAL_SOC + share(MAX_ADDED_ENERGY_FIRST_PERIOD);

    let bms = Bms::builder(BATTERY_CAPACITY, CONST_POWER_LOSS)
        .initial_soc(SoC::Absolute(INITIAL_SOC))
        .soc_cap(Some(soc_cap))
        .build();

    let current_time = now();
    let current_energy = INITIAL_ENERGY;
    let tid = 1;
    let mut cs = ChargingSession::with_state(
        db,
        bms,
        tid,
        ChargingSessionState::from_status(ChargePointStatus::SuspendedEVSE),
        current_energy,
        Some(current_time),
    );
    assert_eq!(cs.state(), &ChargingSessionState::SuspendedByEvse);
    assert_eq!(cs.transaction_id(), tid);

    let last_snapshot = cs.last_snapshot().unwrap();
    assert!(last_snapshot.is_reference);
    assert_eq!(last_snapshot.timestamp, current_time);
    assert_eq!(last_snapshot.energy, current_energy);

    let cs_bms = cs.bms();
    assert_eq!(Some(current_energy), cs_bms.initial_energy);
    assert_eq!(SoC::Absolute(INITIAL_SOC), cs_bms.initial_soc);
    assert_eq!(Some(soc_cap), cs_bms.soc_cap);

    let last_session = store.get_last_charging_session(db, &bms);
    assert_eq!(cs, last_session);

    cs.set_state(db, ChargingSessionState::Active);
    assert_eq!(cs.state(), &ChargingSessionState::Active);

    let soc_progress = cs.add_snapshot(db, snapshot(INITIAL_ENERGY + 10, 230, 27));
    assert!(!soc_progress.is_complete());
    assert_eq!(
        SoCProgress::AbsoluteCapNotReached {
            soc: INITIAL_SOC + share(10),
            cap: soc_cap,
        },
        soc_progress,
    );
    assert!(!cs.last_snapshot().unwrap().is_reference);

    let last_session = store.get_last_charging_session(db, &bms);
    assert_eq!(cs, last_session);
}

#[test]
fn states_and_their_texts() {
    let states = vec![
        ChargingSessionState::Active,
        ChargingSessionState::SocCapReached,
        ChargingSessionState::SuspendedByEvse,
        ChargingSessionState::SuspendedByEv,
        ChargingSessionState::StoppedByUser,
        ChargingSessionState::Reboot,
        ChargingSessionState::UnlockCommandFromServer,
        ChargingSessionState::Unknown,
        ChargingSessionState::error("transaction id mismatch"),
    ];
    for state in &states {
        assert_eq!(ChargingSessionState::from_str(&state.to_string()).as_ref(), Ok(state));
        for other in &states {
            assert_eq!(state.same_as(other), state == other);
        }
    }
    let complete: Vec<bool> = states.iter().map(|s| s.is_complete()).collect();
    assert_eq!(
        complete,
        vec![false, true, false, false, true, true, true, false, true]
    );
}

#[test]
fn states_of_a_connector() {
    assert_eq!(
        ChargingSessionState::from_status(ChargePointStatus::Charging),
        ChargingSessionState::Active
    );
    assert_eq!(
        ChargingSessionState::from_status(ChargePointStatus::Preparing),
        ChargingSessionState::Active
    );
    assert_eq!(
        ChargingSessionState::from_status(ChargePointStatus::SuspendedEV),
        ChargingSessionState::SuspendedByEv
    );
    assert_eq!(ChargePointStatus::from_name("SuspendedEV"), Some(ChargePointStatus::SuspendedEV));
    assert_eq!(ChargePointStatus::from_name("suspended"), None);
    assert_eq!(Reason::from_name("HardReset"), Some(Reason::HardReset));
    assert_eq!(Reason::from_name(""), None);
    assert_eq!(
        ChargingSessionState::from_reason(Some(Reason::HardReset)),
        ChargingSessionState::error("hard reset")
    );
    assert_eq!(
        ChargingSessionState::from_reason(None),
        ChargingSessionState::error("stopped for unknown reason")
    );
}

#[test]
fn states_of_a_stopped_session() {
    let state = |reason| {
        let state = ChargingSessionState::from_reason(Some(reason));
        assert!(state.is_complete());
        assert_eq!(ChargingSessionState::from(Some(reason)), state);
        state
    };
    assert_eq!(state(Reason::Local), ChargingSessionState::StoppedByUser);
    assert_eq!(state(Reason::Remote), ChargingSessionState::StoppedByUser);
    assert_eq!(state(Reason::Reboot), ChargingSessionState::Reboot);
    assert_eq!(
        state(Reason::UnlockCommand),
        ChargingSessionState::UnlockCommandFromServer
    );
    assert_eq!(state(Reason::DeAuthorized), ChargingSessionState::error("de-authorized"));
    assert_eq!(state(Reason::EmergencyStop), ChargingSessionState::error("emergency stop"));
    assert_eq!(state(Reason::EVDisconnected), ChargingSessionState::error("EV disconnected"));
    assert_eq!(state(Reason::SoftReset), ChargingSessionState::error("soft reset"));
    assert_eq!(state(Reason::PowerLoss), ChargingSessionState::error("power loss"));
    assert_eq!(state(Reason::Other), ChargingSessionState::error("other"));
}

#[test]
fn missing_session_is_saved() {
    let mut db = Database::new(5, 1);
    ChargingSession::save_missing_stopped_session(
        &mut db,
        Some(Timestamp { secs: 9, subsec: 0 }),
        ChargingSessionState::StoppedByUser,
        777,
        Some(12),
    );
    assert_eq!(db.next_session_id, 6);
    assert_eq!(
        db.take_writes(),
        vec![
            Write::AddSession {
                session_id: 5,
                state: ChargingSessionState::StoppedByUser,
                transaction_id: Some(12)
            },
            Write::AddSnapshot {
                session_id: 5,
                snapshot: ChargingSessionSnapshot::new(Timestamp { secs: 9, subsec: 0 }, 777)
            },
        ]
    );
    assert!(db.take_writes().is_empty());
}

#[test]
fn state_is_written_once() {
    let mut db = Database::new(1, 1);
    let bms = Bms::builder(BATTERY_CAPACITY, CONST_POWER_LOSS).build();
    let mut cs = ChargingSession::with_transaction(&mut db, bms, now(), 8, 100);
    assert_eq!(cs.session_id(), 1);
    assert_eq!(cs.transaction_id(), 8);
    assert_eq!(db.take_writes().len(), 2);
    cs.set_state(&mut db, ChargingSessionState::Active);
    assert!(db.take_writes().is_empty());
    cs.set_state(&mut db, ChargingSessionState::SuspendedByEvse);
    assert_eq!(
        db.take_writes(),
        vec![Write::SetSessionState {
            session_id: 1,
            state: ChargingSessionState::SuspendedByEvse
        }]
    );
}

#[test]
fn new_session_is_numbered_by_its_row() {
    let mut db = Database::new(41, 1);
    let bms = Bms::builder(BATTERY_CAPACITY, CONST_POWER_LOSS).build();
    let cs = ChargingSession::new(&mut db, bms, now(), 100);
    assert_eq!(cs.session_id(), 41);
    assert_eq!(cs.transaction_id(), 41);
    let read = ChargingSession::from_database(bms, 3, None, ChargingSessionState::Unknown);
    assert_eq!(read.transaction_id(), 3);
    assert!(read.last_snapshot().is_none());
    assert!(read.first_snapshot().is_none());
    assert!(read.last_reference_snapshot().is_none());
    assert!(read.initial_soc().is_unknown());
}

#[test]
fn initial_soc_goes_by_the_last_reference() {
    let bms = Bms::builder(BATTERY_CAPACITY, CONST_POWER_LOSS).build();
    let mut cs = ChargingSession::from_database(bms, 3, Some(4), ChargingSessionState::Active);
    let at = |energy, soc| {
        ChargingSessionSnapshot::builder(Timestamp { secs: 0, subsec: 0 }, energy)
            .is_reference(true)
            .soc(soc)
            .soc_cap(None)
            .build()
    };
    cs.add_snapshot_from_database(at(1_000, SoC::Unknown));
    cs.add_snapshot_from_database(at(1_481, SoC::Absolute(FULL_CHARGE / 2)));
    cs.add_snapshot_from_database(ChargingSessionSnapshot::new(
        Timestamp { secs: 1, subsec: 0 },
        1_962,
    ));
    assert_eq!(cs.snapshots().len(), 3);
    assert_eq!(cs.first_snapshot().unwrap().energy, 1_000);
    assert_eq!(cs.last_reference_snapshot().unwrap().energy, 1_481);
    assert_eq!(cs.last_energy(), 1_962);
    assert!(cs.last_soc().is_unknown());
    // 481 Wh are 1 % of the battery
    assert_eq!(cs.initial_soc().absolute(), Some(FULL_CHARGE / 100 * 49));

    // taken up: the battery goes on from the last reading
    assert!(cs.finalise_last_session_retrieval().is_none());
    assert_eq!(cs.bms().initial_energy, Some(1_000));
    assert_eq!(cs.bms().current_energy, Some(1_962));
    assert_eq!(cs.bms().initial_soc.absolute(), Some(FULL_CHARGE / 100 * 49));

    // readings leave the initial state of charge as it is
    let mut db = Database::new(4, 1);
    for energy in [2_443, 2_443, 2_924] {
        cs.add_snapshot(
            &mut db,
            ChargingSessionSnapshot::new(Timestamp { secs: 2, subsec: 0 }, energy),
        );
        assert_eq!(cs.initial_soc(), cs.bms().initial_soc);
    }
    assert_eq!(cs.last_soc().absolute(), Some(FULL_CHARGE / 100 * 53));

    // corrected, and taken up twice more without a correction
    let take_up = |cs: &ChargingSession, initial_soc| {
        let bms = Bms::builder(BATTERY_CAPACITY, CONST_POWER_LOSS).initial_soc(initial_soc).build();
        let mut read = ChargingSession::from_database(bms, 3, Some(4), ChargingSessionState::Active);
        for snapshot in cs.snapshots() {
            read.add_snapshot_from_database(*snapshot);
        }
        let added = read.finalise_last_session_retrieval().is_some();
        (read, added)
    };
    let corrected = SoC::Absolute(FULL_CHARGE / 10);
    let (mut cs, added) = take_up(&cs, corrected);
    assert!(added);
    for energy in [3_405, 3_886] {
        cs.add_snapshot(
            &mut db,
            ChargingSessionSnapshot::new(Timestamp { secs: 3, subsec: 0 }, energy),
        );
        let (read, added) = take_up(&cs, SoC::Unknown);
        assert!(!added);
        assert_eq!(read.bms(), cs.bms());
        assert_eq!(read.snapshots(), cs.snapshots());
        assert_eq!(read.initial_soc().absolute(), corrected.absolute());
        cs = read;
    }
    assert_eq!(cs.last_soc().absolute(), Some(FULL_CHARGE / 100 * 16));
}

#[test]
fn rows_keep_snapshots() {
    let snapshot = ChargingSessionSnapshot::builder(Timestamp { secs: 7, subsec: 8 }, u64::MAX)
        .is_reference(true)
        .power(Some(u64::MAX - 1))
        .l1_voltage(None)
        .temperature(Some(3))
        .soc(SoC::Relative(5))
        .soc_cap(Some(6))
        .build();
    let row = SnapshotRow::from_snapshot(&snapshot);
    assert_eq!(row.energy, -1);
    assert_eq!(row.is_reference, 1);
    assert_eq!(row.soc, Some(5));
    assert!(!row.soc_is_absolute);
    let read = row.to_snapshot();
    assert_eq!(read, snapshot);
    assert_eq!(read.soc.relative(), Some(5));
}
