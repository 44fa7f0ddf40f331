use evse_server::args::{Command, ServerIp};
use evse_server::bms::{Bms, FULL_CHARGE, SoC, energy_share};
use evse_server::charging_session::{ChargingSession, ChargingSessionState};
use evse_server::command::CommandToChargingPoint;
use evse_server::database::{Database, SnapshotRow, Write};
use evse_server::dispatcher::Dispatcher;
use evse_server::evse::{EnergyTracker, Evse, Refusal, make_server_address};
use evse_server::measurements::{Dpm, DpmData, SampledValue};
use evse_server::ocpp::{CallProblem, OcppInterface};
use evse_server::plan::ChargingPlan;
use evse_server::schedule::{ChargingSchedule, ChargingSchedulePeriod, ChargingScheduleState};
use evse_server::time::{LocalTime, Moment, NoSingleInstant, Timestamp};
use serde_json::Value;

/// 2026-08-05T12:00:00Z, a Wednesday, on a machine whose clock shows UTC.
const NOW: i64 = 1_785_931_200;
/// 2026-08-03T00:00:30Z, a Monday.
const MONDAY: i64 = 1_785_715_230;

fn at(secs: i64) -> Moment {
    Moment {
        utc: Timestamp { secs, subsec: 0 },
        local: LocalTime { secs, subsec: 0 },
    }
}

fn json(text: &str) -> Value {
    serde_json::from_str(text).unwrap()
}

fn battery(soc_cap: Option<i64>) -> Bms {
    Bms::builder(48_100, 400)
        .initial_soc(SoC::Absolute(FULL_CHARGE * 3 / 10))
        .soc_cap(soc_cap)
        .build()
}

fn evse(soc_cap: Option<i64>) -> Evse {
    Evse::resume(battery(soc_cap), None, None, Database::new(1, 1))
}

fn start(meter_start: u64) -> String {
    format!(
        "[2,\"s1\",\"StartTransaction\",{{\"connectorId\":1,\"idTag\":\"me\",\
        \"meterStart\":{meter_start},\"timestamp\":\"2026-08-05T11:00:00Z\"}}]"
    )
}

fn stop(transaction_id: i32, meter_stop: u64, reason: &str) -> String {
    format!(
        "[2,\"s2\",\"StopTransaction\",{{\"meterStop\":{meter_stop},\
        \"timestamp\":\"2026-08-05T13:00:00Z\",\"transactionId\":{transaction_id},\
        \"reason\":\"{reason}\"}}]"
    )
}

fn meter(transaction_id: Option<i32>, energy: u64) -> String {
    let transaction_id = match transaction_id {
        Some(id) => format!("\"transactionId\":{id},"),
        None => String::new(),
    };
    format!(
        "[2,\"m1\",\"MeterValues\",{{\"connectorId\":1,{transaction_id}\"meterValue\":[\
        {{\"timestamp\":\"2026-08-05T11:30:00Z\",\"sampledValue\":[\
        {{\"value\":\"{energy}\",\"measurand\":\"Energy.Active.Import.Register\",\"unit\":\"Wh\"}},\
        {{\"value\":\"7000\",\"measurand\":\"Power.Active.Import\",\"unit\":\"W\"}},\
        {{\"value\":\"231\",\"measurand\":\"Voltage\",\"phase\":\"L1\",\"unit\":\"V\"}}]}}]}}]"
    )
}

fn status(connector: u32, status: &str, error: &str, timestamp: Option<&str>) -> String {
    let timestamp = match timestamp {
        Some(ts) => format!(",\"timestamp\":\"{ts}\""),
        None => String::new(),
    };
    format!(
        "[2,\"n1\",\"StatusNotification\",{{\"connectorId\":{connector},\
        \"errorCode\":\"{error}\",\"status\":\"{status}\"{timestamp}}}]"
    )
}

fn tell(evse: &mut Evse, msg: &str) -> Option<Value> {
    evse.handle_incoming_message_at(msg, at(NOW))
        .unwrap()
        .map(|text| json(&text))
}

fn next_call(evse: &mut Evse) -> Option<Value> {
    evse.pop_call().unwrap().map(|text| json(&text))
}

#[test]
fn energy_tracker() {
    // probation to stationnary
    let mut tracker = EnergyTracker::default();
    assert_eq!(tracker, EnergyTracker::Unknown);

    let mut energy = 100;
    tracker.have_energy(energy);
    assert_eq!(tracker, EnergyTracker::Probation(energy));

    tracker.have_energy(energy);
    assert_eq!(tracker, EnergyTracker::Stationnary(energy));
    tracker.have_energy(energy);
    assert_eq!(tracker, EnergyTracker::Stationnary(energy));

    energy += 10;
    tracker.have_energy(energy);
    assert_eq!(tracker, EnergyTracker::Increasing(energy));

    energy += 10;
    tracker.have_energy(energy);
    assert_eq!(tracker, EnergyTracker::Increasing(energy));

    tracker.have_energy(energy);
    assert_eq!(tracker, EnergyTracker::Stationnary(energy));

    energy += 10;
    tracker.have_energy(energy);
    assert_eq!(tracker, EnergyTracker::Increasing(energy));

    // probation to increasing
    let mut tracker = EnergyTracker::default();
    assert_eq!(tracker, EnergyTracker::Unknown);

    let mut energy = 100;
    tracker.have_energy(energy);
    assert_eq!(tracker, EnergyTracker::Probation(energy));

    energy += 10;
    tracker.have_energy(energy);
    assert_eq!(tracker, EnergyTracker::Increasing(energy));
}

#[test]
fn calls_are_replied_to() {
    let mut evse = evse(None);
    let replies = vec![
        (
            "[2,\"a\",\"Heartbeat\",{}]",
            "[3,\"a\",{\"currentTime\":\"2026-08-05T12:00:00.000Z\"}]",
        ),
        (
            "[2,\"b\",\"BootNotification\",{\"chargePointModel\":\"m\",\"chargePointVendor\":\"v\"}]",
            "[3,\"b\",{\"currentTime\":\"2026-08-05T12:00:00.000Z\",\"interval\":3600,\
            \"status\":\"Accepted\"}]",
        ),
        (
            "[2,\"c\",\"Authorize\",{\"idTag\":\"me\"}]",
            "[3,\"c\",{\"idTagInfo\":{\"status\":\"Accepted\"}}]",
        ),
        (
            "[2,\"d\",\"SecurityEventNotification\",{\"type\":\"SettingSystemTime\",\
            \"timestamp\":\"2026-08-05T12:00:00Z\"}]",
            "[3,\"d\",{}]",
        ),
    ];
    for (call, reply) in replies {
        assert_eq!(tell(&mut evse, call), Some(json(reply)), "{call}");
    }
    assert_eq!(
        tell(&mut evse, &status(1, "Available", "NoError", None)),
        Some(json("[3,\"n1\",{}]"))
    );
    assert_eq!(
        tell(&mut evse, &start(1_000)),
        Some(json(
            "[3,\"s1\",{\"idTagInfo\":{\"status\":\"Accepted\"},\"transactionId\":1}]"
        ))
    );
    assert_eq!(
        tell(&mut evse, &meter(Some(1), 1_000)),
        Some(json("[3,\"m1\",{}]"))
    );
    assert_eq!(
        tell(&mut evse, &stop(1, 1_100, "Local")),
        Some(json("[3,\"s2\",{}]"))
    );
    assert_eq!(
        tell(
            &mut evse,
            "[2,\"t\",\"DataTransfer\",{\"vendorId\":\"v\",\"data\":\"[]\"}]"
        ),
        Some(json("[3,\"t\",{\"status\":\"Accepted\"}]"))
    );
    assert_eq!(evse.take_dpm_reports(), vec!["[]".to_string()]);
}

#[test]
fn what_is_no_call_is_not_replied_to() {
    let mut evse = evse(None);
    assert_eq!(tell(&mut evse, "not a message"), None);
    assert_eq!(tell(&mut evse, "[2,\"a\",\"NoSuchAction\",{}]"), None);
    assert_eq!(tell(&mut evse, "[4,\"a\",\"InternalError\",\"\",{}]"), None);
    assert_eq!(tell(&mut evse, "[3,\"a\",{}]"), None);
    assert!(evse.take_writes().is_empty());
    assert_eq!(next_call(&mut evse), None);
}

#[test]
fn the_clock_is_read() {
    let mut evse = evse(None);
    let reply = evse
        .handle_incoming_message("[2,\"a\",\"Heartbeat\",{}]")
        .unwrap()
        .unwrap();
    let reply = json(&reply);
    let time: chrono::DateTime<chrono::Utc> =
        reply[2]["currentTime"].as_str().unwrap().parse().unwrap();
    assert!((chrono::Utc::now() - time).num_seconds().abs() < 60);
}

#[test]
fn session_runs_until_its_cap() {
    let cap = FULL_CHARGE * 3 / 10 + energy_share(25, 48_100);
    let mut evse = evse(Some(cap));
    tell(&mut evse, &status(1, "Preparing", "NoError", None));
    tell(&mut evse, &start(1_000));
    let session = evse.charging_session().unwrap();
    assert_eq!(session.session_id(), 1);
    assert_eq!(session.transaction_id(), 1);
    assert_eq!(session.last_energy(), 1_000);

    tell(&mut evse, &meter(Some(1), 1_000));
    tell(&mut evse, &meter(Some(1), 1_024));
    let session = evse.charging_session().unwrap();
    assert_eq!(session.last_energy(), 1_024);
    assert_eq!(session.last_snapshot().unwrap().power, Some(7_000));
    assert_eq!(session.last_snapshot().unwrap().l1_voltage, Some(231));
    assert!(!session.is_complete());
    assert_eq!(next_call(&mut evse), None);

    tell(&mut evse, &meter(Some(1), 1_025));
    let session = evse.charging_session().unwrap();
    assert_eq!(session.state(), &ChargingSessionState::SocCapReached);
    assert_eq!(
        next_call(&mut evse),
        Some(json(
            "[2,\"1.occp-server-test\",\"RemoteStopTransaction\",{\"transactionId\":1}]"
        ))
    );
    assert_eq!(next_call(&mut evse), None);

    // the session is stopped once
    for energy in [1_026, 1_026, 1_028, 1_030] {
        tell(&mut evse, &meter(Some(1), energy));
        tell(&mut evse, &meter(None, energy));
        assert_eq!(next_call(&mut evse), None);
    }
    let session = evse.charging_session().unwrap();
    assert_eq!(session.state(), &ChargingSessionState::SocCapReached);

    assert_eq!(
        tell(
            &mut evse,
            "[3,\"1.occp-server-test\",{\"status\":\"Accepted\"}]"
        ),
        None
    );
    tell(&mut evse, &stop(1, 1_030, "Remote"));
    assert!(evse.charging_session().is_none());

    let writes = evse.take_writes();
    assert_eq!(
        writes[0],
        Write::AddSession {
            session_id: 1,
            state: ChargingSessionState::Active,
            transaction_id: Some(1)
        }
    );
    assert_eq!(
        writes[writes.len() - 1],
        Write::SetSessionState {
            session_id: 1,
            state: ChargingSessionState::StoppedByUser
        }
    );
    // the next transaction gets a new number
    let reply = tell(&mut evse, &start(1_030)).unwrap();
    assert_eq!(reply[2]["transactionId"], 2);
}

#[test]
fn session_goes_on_where_the_schedule_is_nearly_done() {
    let cap = FULL_CHARGE * 3 / 10 + energy_share(25, 48_100);
    // 481 Wh, which are 1 % of the battery, take 259.74 s with 7000 W
    let scheduled = |secs: i64| {
        let schedule = ChargingSchedule::set_at(
            ChargingScheduleState::Active,
            Timestamp { secs: NOW, subsec: 0 },
        )
        .add_period(
            ChargingSchedulePeriod::builder(LocalTime { secs: NOW, subsec: 0 })
                .duration(secs as i128 * 1_000_000_000)
                .limit(7_400)
                .build(),
        );
        let mut evse = Evse::resume(battery(Some(cap)), None, Some(schedule), Database::new(1, 1));
        tell(&mut evse, &start(1_000));
        tell(&mut evse, &meter(Some(1), 1_000));
        tell(&mut evse, &meter(Some(1), 1_025));
        let session = evse.charging_session().unwrap();
        assert_eq!(session.last_energy(), 1_025);
        (session.is_complete(), next_call(&mut evse).is_some())
    };
    assert_eq!(scheduled(248), (true, true));
    assert_eq!(scheduled(247), (false, false));
}

#[test]
fn a_missed_start_is_made_up_for() {
    let mut evse = evse(None);
    tell(&mut evse, &meter(Some(7), 500));
    assert!(evse.charging_session().is_none());
    tell(&mut evse, &meter(Some(7), 510));
    let session = evse.charging_session().unwrap();
    assert_eq!(session.transaction_id(), 7);
    assert_eq!(session.last_energy(), 510);
    // nothing is known of the charge at the start
    assert!(session.bms().initial_soc.is_unknown());

    // another transaction
    tell(&mut evse, &meter(Some(9), 520));
    let session = evse.charging_session().unwrap();
    assert_eq!(session.transaction_id(), 9);
    assert_eq!(session.session_id(), 2);
    let writes = evse.take_writes();
    assert!(writes.contains(&Write::SetSessionState {
        session_id: 1,
        state: ChargingSessionState::error("transaction id mismatch")
    }));
    // numbers go on above the highest one
    let reply = tell(&mut evse, &start(520)).unwrap();
    assert_eq!(reply[2]["transactionId"], 10);
}

#[test]
fn connectors_report() {
    let mut evse = evse(None);
    tell(&mut evse, &start(1_000));
    evse.take_writes();
    // connector 0 and errors are left aside
    tell(&mut evse, &status(0, "Available", "NoError", None));
    tell(&mut evse, &status(1, "Available", "GroundFailure", None));
    assert!(evse.charging_session().is_some());
    assert!(evse.take_writes().is_empty());
    tell(&mut evse, &status(1, "SuspendedEVSE", "NoError", None));
    assert_eq!(
        evse.charging_session().unwrap().state(),
        &ChargingSessionState::SuspendedByEvse
    );
    tell(&mut evse, &status(1, "Charging", "NoError", None));
    assert_eq!(
        evse.charging_session().unwrap().state(),
        &ChargingSessionState::Active
    );
    tell(&mut evse, &status(1, "Finishing", "NoError", None));
    assert!(evse.charging_session().is_none());
    let writes = evse.take_writes();
    assert_eq!(
        writes[writes.len() - 1],
        Write::SetSessionState {
            session_id: 1,
            state: ChargingSessionState::error(
                "Got connector available while session was still active"
            )
        }
    );
    tell(&mut evse, &start(1_000));
    tell(&mut evse, &status(1, "Faulted", "NoError", None));
    assert!(evse.charging_session().is_none());
}

fn schedule() -> ChargingSchedule {
    ChargingSchedule::set_at(
        ChargingScheduleState::Active,
        Timestamp { secs: 0, subsec: 0 },
    )
    .add_period(
        ChargingSchedulePeriod::builder(LocalTime { secs: NOW + 3_600, subsec: 0 })
            .duration(3_600_000_000_000)
            .limit(6_000)
            .build(),
    )
}

#[test]
fn removed_profile_is_set_anew() {
    let mut evse = Evse::resume(battery(None), None, Some(schedule()), Database::new(1, 5));
    // not on a Monday
    tell(&mut evse, &status(1, "Charging", "NoError", None));
    assert_eq!(next_call(&mut evse), None);
    evse.handle_incoming_message_at(&status(1, "Charging", "NoError", None), at(MONDAY))
        .unwrap();
    let set = evse.charging_schedule().unwrap();
    assert_eq!(set.id, 5);
    assert_eq!(set.set_time, Timestamp { secs: MONDAY, subsec: 0 });
    assert_eq!(set.periods(), schedule().periods());
    assert_eq!(
        next_call(&mut evse),
        Some(json(
            "[2,\"1.occp-server-test\",\"ClearChargingProfile\",{}]"
        ))
    );
    let call = next_call(&mut evse).unwrap();
    assert_eq!(call[2], "SetChargingProfile");
    assert_eq!(call[1], "2.occp-server-test");
    assert_eq!(next_call(&mut evse), None);

    // going by the time of the report
    let report = status(1, "Charging", "NoError", Some("2026-08-03T00:00:59Z"));
    tell(&mut evse, &report);
    assert_eq!(evse.charging_schedule().unwrap().id, 6);
    let report = status(1, "Charging", "NoError", Some("2026-08-03T00:01:00Z"));
    tell(&mut evse, &report);
    assert_eq!(evse.charging_schedule().unwrap().id, 6);
}

#[test]
fn rejected_profile_is_out_of_force() {
    let mut evse = Evse::resume(battery(None), None, Some(schedule()), Database::new(1, 5));
    evse.refresh_charging_schedule(Timestamp { secs: NOW, subsec: 0 });
    next_call(&mut evse).unwrap();
    next_call(&mut evse).unwrap();
    evse.take_writes();
    // accepted, and then asked again without a call
    tell(
        &mut evse,
        "[3,\"1.occp-server-test\",{\"status\":\"Accepted\"}]",
    );
    tell(
        &mut evse,
        "[3,\"1.occp-server-test\",{\"status\":\"Unknown\"}]",
    );
    assert!(evse.charging_schedule().is_some());
    tell(
        &mut evse,
        "[3,\"2.occp-server-test\",{\"status\":\"Rejected\"}]",
    );
    assert!(evse.charging_schedule().is_none());
    assert_eq!(
        evse.take_writes(),
        vec![Write::InactivateSchedule { schedule_id: 5 }]
    );

    // each status but one
    for (call, status, stays) in [
        (1, "Accepted", true),
        (1, "Unknown", false),
        (2, "Accepted", true),
        (2, "Rejected", false),
        (2, "NotSupported", false),
        (2, "Unknown", true),
    ] {
        let mut evse = Evse::resume(battery(None), None, Some(schedule()), Database::new(1, 5));
        evse.refresh_charging_schedule(Timestamp { secs: NOW, subsec: 0 });
        next_call(&mut evse).unwrap();
        next_call(&mut evse).unwrap();
        let answer = format!("[3,\"{call}.occp-server-test\",{{\"status\":\"{status}\"}}]");
        tell(&mut evse, &answer);
        assert_eq!(evse.charging_schedule().is_some(), stays, "{call} {status}");
    }
}

#[test]
fn numbers_run_out() {
    let mut evse = Evse::resume(
        battery(None),
        None,
        Some(schedule()),
        Database::new(i32::MAX, i32::MAX),
    );
    assert_eq!(
        evse.handle_incoming_message_at(&start(1_000), at(NOW)),
        Err(Refusal::NoSessionNumber)
    );
    assert_eq!(
        evse.handle_incoming_message_at(&stop(1, 1_000, "Local"), at(NOW)),
        Err(Refusal::NoSessionNumber)
    );
    // no session comes of a first reading, nor of one without a transaction
    assert_eq!(tell(&mut evse, &meter(Some(1), 1_000)), Some(json("[3,\"m1\",{}]")));
    assert_eq!(tell(&mut evse, &meter(None, 1_000)), Some(json("[3,\"m1\",{}]")));
    assert_eq!(
        evse.handle_incoming_message_at(&meter(Some(1), 1_000), at(NOW)),
        Err(Refusal::NoSessionNumber)
    );
    assert_eq!(
        evse.handle_incoming_message_at(&meter(Some(1), 1_010), at(NOW)),
        Err(Refusal::NoSessionNumber)
    );
    assert_eq!(
        evse.handle_incoming_message_at(&status(1, "Charging", "NoError", None), at(MONDAY)),
        Err(Refusal::NoScheduleNumber)
    );
    assert!(!evse.can_number_schedules(1));
    assert!(evse.take_writes().is_empty());

    // the last session that gets a number goes on to its end
    let mut evse = Evse::resume(battery(None), None, None, Database::new(i32::MAX - 1, 1));
    tell(&mut evse, &start(1_000));
    assert_eq!(evse.charging_session().unwrap().session_id(), i32::MAX - 1);
    tell(&mut evse, &meter(Some(1), 1_000));
    tell(&mut evse, &meter(Some(1), 1_010));
    assert_eq!(evse.charging_session().unwrap().last_energy(), 1_010);
    assert_eq!(
        evse.handle_incoming_message_at(&meter(Some(2), 1_020), at(NOW)),
        Err(Refusal::NoSessionNumber)
    );
    tell(&mut evse, &stop(1, 1_020, "Local"));
    assert!(evse.charging_session().is_none());
    assert_eq!(
        evse.handle_incoming_message_at(&stop(2, 1_030, "Local"), at(NOW)),
        Err(Refusal::NoSessionNumber)
    );

    let mut evse = Evse::resume(battery(None), None, None, Database::new(1, 1));
    tell(&mut evse, &stop(i32::MAX, 1_000, "Local"));
    assert_eq!(
        evse.handle_incoming_message_at(&start(1_000), at(NOW)),
        Err(Refusal::NoTransactionNumber)
    );
}

#[test]
fn schedule_that_cannot_be_added_up() {
    let far = ChargingSchedule::set_at(
        ChargingScheduleState::Active,
        Timestamp { secs: 0, subsec: 0 },
    )
    .add_period(ChargingSchedulePeriod {
        start: LocalTime { secs: NOW, subsec: 0 },
        end: LocalTime { secs: i64::MAX, subsec: 0 },
        limit: 1,
    });
    let mut evse = Evse::resume(battery(None), None, Some(far), Database::new(1, 1));
    tell(&mut evse, &start(1_000));
    tell(&mut evse, &meter(Some(1), 1_000));
    assert_eq!(
        evse.handle_incoming_message_at(&meter(Some(1), 1_010), at(NOW)),
        Err(Refusal::UncountableSchedule)
    );
}

#[test]
fn reports_of_the_power_management() {
    let mut evse = evse(None);
    let report = |value: &str| Dpm {
        data: DpmData {
            sampled_value: vec![SampledValue {
                context: "Sample.Periodic".to_string(),
                format: "Raw".to_string(),
                location: "Inlet".to_string(),
                measurand: "Power.Active.Import".to_string(),
                unit: "W".to_string(),
                value: value.to_string(),
                phase: None,
            }],
            timestamp: "2026-07-31T13:31:58Z".to_string(),
            transaction_id: None,
        },
    };
    evse.have_dpm_data_set(vec![]);
    evse.have_dpm_data_set(vec![report("100"), report("7525")]);
    assert!(evse.take_writes().is_empty());
    assert!(evse.take_dpm_reports().is_empty());
}

#[test]
fn plan_is_applied() {
    let mut evse = evse(None);
    evse.set_charging_plan(&ChargingPlan::Blocking, at(NOW)).unwrap();
    let set = evse.charging_schedule().unwrap();
    assert!(set.is_empty());
    assert_eq!(set.id, 1);
    assert_eq!(set.set_time, Timestamp { secs: NOW, subsec: 0 });
    assert_eq!(next_call(&mut evse).unwrap()[2], "ClearChargingProfile");
    let call = next_call(&mut evse).unwrap();
    let profile = &call[3]["csChargingProfiles"];
    assert_eq!(call[3]["connectorId"], 0);
    assert_eq!(profile["chargingProfilePurpose"], "ChargePointMaxProfile");
    assert_eq!(profile["chargingProfileKind"], "Absolute");
    assert_eq!(profile["chargingProfileId"], 0);
    assert_eq!(profile["stackLevel"], 0);
    for absent in ["transactionId", "recurrencyKind", "validFrom", "validTo"] {
        assert!(profile.get(absent).is_none(), "{absent}");
    }
    let schedule = &profile["chargingSchedule"];
    assert_eq!(schedule["chargingRateUnit"], "W");
    assert!(schedule.get("duration").is_none());
    assert!(schedule.get("minChargingRate").is_none());
    let periods = schedule["chargingSchedulePeriod"].as_array().unwrap();
    assert_eq!(periods.len(), 1);
    assert_eq!(periods[0]["startPeriod"], 0);
    assert_eq!(periods[0]["limit"].as_f64(), Some(0.0));
    assert_eq!(periods[0]["numberPhases"], 1);

    // a plan without a limit changes nothing
    evse.set_charging_plan(&ChargingPlan::NoLimit, at(NOW)).unwrap();
    assert_eq!(evse.charging_schedule().unwrap().id, 1);
    assert_eq!(next_call(&mut evse), None);
}

#[test]
fn reboot_is_blocked_first() {
    let evse = Evse::new(
        battery(None),
        None,
        None,
        None,
        Command::Reboot,
        Database::new(1, 1),
    );
    let mut evse = evse.unwrap();
    assert!(evse.charging_schedule().unwrap().is_empty());
    assert_eq!(next_call(&mut evse).unwrap()[2], "ClearChargingProfile");
    assert_eq!(next_call(&mut evse).unwrap()[2], "SetChargingProfile");
    assert_eq!(
        next_call(&mut evse),
        Some(json("[2,\"3.occp-server-test\",\"Reset\",{\"type\":\"Soft\"}]"))
    );
    assert_eq!(next_call(&mut evse), None);
}

fn server_ip() -> ServerIp {
    ServerIp { ip_address: "192.168.1.10".to_string() }
}

#[test]
fn address_is_set_before_the_reboot() {
    let mut evse = Evse::new(
        battery(None),
        None,
        None,
        None,
        Command::SetServerIp(server_ip()),
        Database::new(1, 1),
    )
    .unwrap();
    assert_eq!(
        next_call(&mut evse),
        Some(json(
            "[2,\"1.occp-server-test\",\"ChangeConfiguration\",\
            {\"key\":\"CS_URL\",\"value\":\"ws://192.168.1.10:9000\"}]"
        ))
    );
    assert_eq!(next_call(&mut evse).unwrap()[2], "ClearChargingProfile");
    assert_eq!(next_call(&mut evse).unwrap()[2], "SetChargingProfile");
    assert_eq!(next_call(&mut evse).unwrap()[2], "Reset");
    assert_eq!(next_call(&mut evse), None);
    assert_eq!(
        make_server_address(&server_ip()),
        Ok("ws://192.168.1.10:9000".to_string())
    );
}

fn running_session(db: &mut Database) -> ChargingSession {
    ChargingSession::with_transaction(
        db,
        battery(None),
        Timestamp { secs: NOW, subsec: 0 },
        42,
        2_000,
    )
}

#[test]
fn session_is_stopped_on_command() {
    let mut db = Database::new(1, 1);
    let session = running_session(&mut db);
    let mut evse = Evse::new(
        battery(None),
        None,
        Some(session),
        None,
        Command::StopSession,
        db,
    )
    .unwrap();
    assert_eq!(
        evse.pop_command(),
        Some(CommandToChargingPoint::StopTransaction(42))
    );
    assert_eq!(evse.pop_command(), None);
    // the numbers go on
    let reply = tell(&mut evse, &start(2_100)).unwrap();
    assert_eq!(reply[2]["transactionId"], 43);
}

#[test]
fn finished_session_is_not_taken_up() {
    let mut db = Database::new(1, 1);
    let mut session = running_session(&mut db);
    session.stop(
        &mut db,
        Timestamp { secs: NOW, subsec: 0 },
        2_100,
        ChargingSessionState::StoppedByUser,
    );
    let inactive = ChargingSchedule::new_inactive();
    let evse = Evse::resume(battery(None), Some(session), Some(inactive), db);
    assert!(evse.charging_session().is_none());
    assert!(evse.charging_schedule().is_none());
    assert_eq!(evse.bms().capacity, 48_100);
}

#[test]
fn interface_makes_the_calls_of_commands() {
    let mut evse = evse(None);
    let mut interface = OcppInterface::new();
    assert_eq!(interface.pending_calls(&mut evse), Ok(vec![]));
    interface.push_command(CommandToChargingPoint::Reboot);
    interface.push_command(CommandToChargingPoint::StopTransaction(4));
    evse.set_charging_plan(&ChargingPlan::Blocking, at(NOW)).unwrap();

    // the first of each
    let calls: Vec<Value> = interface
        .pending_calls_at(&mut evse, at(NOW))
        .unwrap()
        .iter()
        .map(|call| json(call))
        .collect();
    let names: Vec<&str> = calls.iter().map(|call| call[2].as_str().unwrap()).collect();
    assert_eq!(
        names,
        vec![
            "ClearChargingProfile",
            "SetChargingProfile",
            "Reset",
            "ClearChargingProfile",
            "SetChargingProfile"
        ]
    );
    let ids: Vec<&str> = calls.iter().map(|call| call[1].as_str().unwrap()).collect();
    assert_eq!(
        ids,
        vec![
            "1.occp-server-test",
            "2.occp-server-test",
            "3.occp-server-test",
            "4.occp-server-test",
            "5.occp-server-test"
        ]
    );
    assert_eq!(
        calls[1][3]["csChargingProfiles"]["chargingSchedule"]["startSchedule"],
        "2026-08-05T12:00:00.000Z"
    );
    assert!(evse.charging_schedule().unwrap().is_empty());

    assert_eq!(
        interface.pending_calls_at(&mut evse, at(NOW)),
        Ok(vec![
            "[2,\"6.occp-server-test\",\"RemoteStopTransaction\",{\"transactionId\":4}]".to_string()
        ])
    );
    assert_eq!(interface.session_stopped_status(), None);
    interface
        .handle_incoming_message_at(
            &mut evse,
            "[3,\"6.occp-server-test\",{\"status\":\"Rejected\"}]",
            at(NOW),
        )
        .unwrap();
    assert_eq!(interface.session_stopped_status(), Some(false));
    assert_eq!(interface.pending_calls_at(&mut evse, at(NOW)), Ok(vec![]));
}

#[test]
fn interface_sets_the_address() {
    let mut evse = evse(None);
    let mut interface = OcppInterface::new();
    interface.push_command(CommandToChargingPoint::SetServerAddress("ws://a".to_string()));
    let calls = interface.pending_calls_at(&mut evse, at(NOW)).unwrap();
    assert_eq!(calls.len(), 3);
    assert_eq!(
        json(&calls[0]),
        json(
            "[2,\"1.occp-server-test\",\"ChangeConfiguration\",\
            {\"key\":\"CS_URL\",\"value\":\"ws://a\"}]"
        )
    );
    assert_eq!(json(&calls[1])[2], "SetChargingProfile");
    assert_eq!(json(&calls[2])[2], "Reset");
    assert!(evse.charging_schedule().unwrap().is_empty());
}

#[test]
fn interface_replies() {
    let mut evse = Evse::resume(battery(None), None, Some(schedule()), Database::new(1, 5));
    let mut interface = OcppInterface::new();
    let reply = interface
        .handle_incoming_message(&mut evse, &start(1_000))
        .unwrap()
        .unwrap();
    assert_eq!(json(&reply)[2]["transactionId"], 1);
    assert_eq!(
        interface.handle_incoming_message_at(&mut evse, "nothing", at(NOW)),
        Ok(None)
    );
    // the schedule is set anew whatever connector reports
    interface
        .handle_incoming_message_at(
            &mut evse,
            &status(0, "Charging", "OtherError", None),
            at(MONDAY),
        )
        .unwrap();
    assert_eq!(evse.charging_schedule().unwrap().id, 5);
    let calls = interface.pending_calls_at(&mut evse, at(NOW)).unwrap();
    assert_eq!(calls.len(), 2);
    // a profile that is rejected stays
    interface
        .handle_incoming_message_at(
            &mut evse,
            "[3,\"2.occp-server-test\",{\"status\":\"Rejected\"}]",
            at(NOW),
        )
        .unwrap();
    assert!(evse.charging_schedule().is_some());
}

#[test]
fn interface_runs_out_of_numbers() {
    let mut evse = Evse::resume(
        battery(None),
        None,
        Some(schedule()),
        Database::new(1, i32::MAX),
    );
    // a command that adds no schedule needs no number
    let mut interface = OcppInterface::new();
    interface.push_command(CommandToChargingPoint::StopTransaction(4));
    assert_eq!(interface.pending_calls_at(&mut evse, at(NOW)).unwrap().len(), 1);
    interface.push_command(CommandToChargingPoint::Reboot);
    for _ in 0..2 {
        assert_eq!(
            interface.pending_calls_at(&mut evse, at(NOW)),
            Err(CallProblem::NoScheduleNumber)
        );
    }
    assert_eq!(
        interface.handle_incoming_message_at(
            &mut evse,
            &status(1, "Charging", "NoError", None),
            at(MONDAY)
        ),
        Err(Refusal::NoScheduleNumber)
    );

    // one number is left for the reboot that was pushed, and none for the other
    let db = Database::new(1, i32::MAX - 2);
    let mut evse = Evse::new(battery(None), None, None, None, Command::Reboot, db).unwrap();
    interface = OcppInterface::new();
    interface.push_command(CommandToChargingPoint::Reboot);
    assert_eq!(interface.pending_calls_at(&mut evse, at(NOW)).unwrap().len(), 5);
    assert_eq!(evse.charging_schedule().unwrap().id, i32::MAX - 1);
    assert_eq!(evse.next_command(), Some(&CommandToChargingPoint::Reboot));
    assert_eq!(
        interface.pending_calls_at(&mut evse, at(NOW)),
        Err(CallProblem::NoScheduleNumber)
    );
    assert_eq!(evse.pop_command(), Some(CommandToChargingPoint::Reboot));
    assert_eq!(evse.next_command(), None);
}

#[test]
fn reboot_takes_three_calls() {
    let mut evse = evse(None);
    let mut interface = OcppInterface::new();
    interface.push_command(CommandToChargingPoint::Reboot);
    let calls: Vec<Value> = interface
        .pending_calls_at(&mut evse, at(NOW))
        .unwrap()
        .iter()
        .map(|call| json(call))
        .collect();
    assert_eq!(calls.len(), 3);
    assert_eq!(
        calls[0],
        json("[2,\"1.occp-server-test\",\"ClearChargingProfile\",{}]")
    );
    assert_eq!(calls[1][1], "2.occp-server-test");
    assert_eq!(calls[1][2], "SetChargingProfile");
    let schedule = &calls[1][3]["csChargingProfiles"]["chargingSchedule"];
    assert_eq!(schedule["startSchedule"], "2026-08-05T12:00:00.000Z");
    let periods = schedule["chargingSchedulePeriod"].as_array().unwrap();
    assert_eq!(periods.len(), 1);
    assert_eq!(periods[0]["startPeriod"], 0);
    assert_eq!(periods[0]["limit"].as_f64(), Some(0.0));
    assert_eq!(
        calls[2],
        json("[2,\"3.occp-server-test\",\"Reset\",{\"type\":\"Soft\"}]")
    );
    let blocking = ChargingSchedule {
        id: 1,
        ..ChargingSchedule::set_at(
            ChargingScheduleState::Active,
            Timestamp { secs: NOW, subsec: 0 },
        )
    };
    assert_eq!(evse.charging_schedule(), Some(&blocking));
    assert_eq!(evse.take_writes(), vec![Write::AddSchedule { schedule: blocking }]);
    assert_eq!(interface.pending_calls_at(&mut evse, at(NOW)), Ok(vec![]));
}

#[test]
fn commands_are_dispatched() {
    // the schedule in force is set anew
    let evse = Evse::resume(battery(None), None, Some(schedule()), Database::new(1, 5));
    let mut dispatcher = Dispatcher::new_at(evse, &Command::Run, None, at(NOW)).unwrap();
    assert_eq!(dispatcher.evse.charging_schedule().unwrap().id, 5);
    let calls = dispatcher
        .ocpp_if
        .pending_calls_at(&mut dispatcher.evse, at(NOW))
        .unwrap();
    assert_eq!(calls.len(), 2);

    // a plan takes its place
    let evse = Evse::resume(battery(None), None, Some(schedule()), Database::new(1, 5));
    let plan = Some(ChargingPlan::Blocking);
    let dispatcher = Dispatcher::new_at(evse, &Command::Run, plan, at(NOW)).unwrap();
    assert!(dispatcher.evse.charging_schedule().unwrap().is_empty());

    let evse = Evse::resume(battery(None), None, None, Database::new(1, 5));
    let mut dispatcher = Dispatcher::new(evse, &Command::Reboot, None).unwrap();
    let calls = dispatcher
        .ocpp_if
        .pending_calls(&mut dispatcher.evse)
        .unwrap();
    assert_eq!(json(&calls[2])[2], "Reset");

    let evse = Evse::resume(battery(None), None, None, Database::new(1, 5));
    let command = Command::SetServerIp(server_ip());
    let mut dispatcher = Dispatcher::new_at(evse, &command, None, at(NOW)).unwrap();
    let calls = dispatcher
        .ocpp_if
        .pending_calls_at(&mut dispatcher.evse, at(NOW))
        .unwrap();
    assert_eq!(json(&calls[0])[3]["value"], "ws://192.168.1.10:9000");

    let mut db = Database::new(1, 1);
    let session = running_session(&mut db);
    let evse = Evse::resume(battery(None), Some(session), None, db);
    let mut dispatcher = Dispatcher::new_at(evse, &Command::StopSession, None, at(NOW)).unwrap();
    let calls = dispatcher
        .ocpp_if
        .pending_calls_at(&mut dispatcher.evse, at(NOW))
        .unwrap();
    assert_eq!(
        calls,
        vec![
            "[2,\"1.occp-server-test\",\"RemoteStopTransaction\",{\"transactionId\":42}]"
                .to_string()
        ]
    );
}

#[test]
fn calls_at_no_instant() {
    let far = || {
        ChargingSchedule::set_at(
            ChargingScheduleState::Active,
            Timestamp { secs: 0, subsec: 0 },
        )
        .add_period(ChargingSchedulePeriod {
            start: LocalTime { secs: NOW, subsec: 0 },
            end: LocalTime { secs: i64::MAX, subsec: 0 },
            limit: 1,
        })
    };
    let mut evse = Evse::resume(battery(None), None, Some(far()), Database::new(1, 1));
    evse.refresh_charging_schedule(Timestamp { secs: NOW, subsec: 0 });
    assert_eq!(
        evse.pop_call().unwrap_err().0,
        LocalTime { secs: i64::MAX, subsec: 0 }
    );
    // the command is dropped
    assert_eq!(evse.pop_call(), Ok(None));
    assert_eq!(evse.charging_schedule().unwrap().periods(), far().periods());

    let mut evse = Evse::resume(battery(None), None, None, Database::new(1, 1));
    let mut interface = OcppInterface::new();
    interface.push_command(CommandToChargingPoint::SetChargingSchedule(far()));
    let end = NoSingleInstant(LocalTime { secs: i64::MAX, subsec: 0 });
    assert_eq!(
        interface.pending_calls_at(&mut evse, at(NOW)),
        Err(CallProblem::NoSingleInstant(end))
    );
    assert!(evse.charging_schedule().is_none());
    assert_eq!(interface.pending_calls_at(&mut evse, at(NOW)), Ok(vec![]));

    // what was pushed blocks charging, though no call is made
    let mut evse = Evse::resume(battery(None), None, Some(far()), Database::new(1, 1));
    evse.refresh_charging_schedule(Timestamp { secs: NOW, subsec: 0 });
    interface.push_command(CommandToChargingPoint::Reboot);
    assert_eq!(
        interface.pending_calls_at(&mut evse, at(NOW)),
        Err(CallProblem::NoSingleInstant(end))
    );
    assert!(evse.charging_schedule().unwrap().is_empty());
    assert_eq!(interface.pending_calls_at(&mut evse, at(NOW)), Ok(vec![]));
    // no number was spent on a call
    interface.push_command(CommandToChargingPoint::StopTransaction(4));
    assert_eq!(
        interface.pending_calls_at(&mut evse, at(NOW)),
        Ok(vec![
            "[2,\"1.occp-server-test\",\"RemoteStopTransaction\",{\"transactionId\":4}]".to_string()
        ])
    );
}

#[test]
fn session_survives_a_restart() {
    let cap = Some(FULL_CHARGE / 2);
    let mut evse = evse(cap);
    tell(&mut evse, &start(1_000));
    for energy in [1_000, 1_100, 1_200] {
        tell(&mut evse, &meter(Some(1), energy));
    }
    tell(&mut evse, &status(1, "SuspendedEVSE", "NoError", None));
    let session = evse.charging_session().unwrap();
    let snapshots = session.snapshots().clone();
    let bms = *session.bms();

    let mut state = String::new();
    let mut transaction = None;
    let mut rows = vec![];
    for write in evse.take_writes() {
        match write {
            Write::AddSession { session_id, state: first, transaction_id } => {
                assert_eq!(session_id, 1);
                state = first.to_string();
                transaction = transaction_id;
            }
            Write::SetSessionState { state: next, .. } => state = next.to_string(),
            Write::AddSnapshot { snapshot, .. } => rows.push(SnapshotRow::from_snapshot(&snapshot)),
            other => panic!("{other:?}"),
        }
    }
    let settings = Bms::builder(48_100, 400).soc_cap(cap).build();
    let mut db = Database::new(2, 1);
    let now = Timestamp { secs: NOW, subsec: 0 };
    let read = db
        .restore_last_session(settings, 1, transaction, &state, &rows, now)
        .unwrap();
    assert_eq!(read.transaction_id(), 1);
    assert_eq!(read.state(), &ChargingSessionState::SuspendedByEvse);
    assert_eq!(read.snapshots(), &snapshots);
    assert_eq!(read.bms(), &bms);
    assert!(db.take_writes().is_empty());

    let mut evse = Evse::resume(*read.bms(), Some(read), None, db);
    tell(&mut evse, &meter(Some(1), 1_200));
    tell(&mut evse, &meter(Some(1), 1_481));
    let session = evse.charging_session().unwrap();
    assert_eq!(session.session_id(), 1);
    // 481 Wh are 1 % of the battery
    assert_eq!(session.last_soc().absolute(), Some(FULL_CHARGE / 100 * 31));
}
