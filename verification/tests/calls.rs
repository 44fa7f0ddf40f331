use evse_server::calls::{CallTracker, OutgoingCall};
use evse_server::profile::{
    ProfileFilter, ProfileKind, ProfilePeriod, ProfilePurpose, ProfileRequest, RateUnit, Recurrence,
};
use evse_server::time::Timestamp;
use evse_server::wire::{IdTagStatus, Reply, ResetKind, TagInfo, TransferStatus, write_reply};
use serde_json::Value;

/// 2026-08-05T12:00:00Z.
const NOW: Timestamp = Timestamp { secs: 1_785_931_200, subsec: 0 };

fn json(text: &str) -> Value {
    serde_json::from_str(text).unwrap()
}

fn request() -> ProfileRequest {
    ProfileRequest {
        connector_id: 3,
        charging_profile_id: 4,
        stack_level: 5,
        transaction_id: Some(6),
        purpose: ProfilePurpose::Transaction,
        kind: ProfileKind::Recurring,
        recurrence: Some(Recurrence::Weekly),
        valid_from: Some(NOW),
        valid_to: Some(Timestamp { secs: NOW.secs + 60, subsec: 0 }),
        unit: RateUnit::Amperes,
        start_schedule: Timestamp { secs: NOW.secs + 1, subsec: 0 },
        duration: Some(7),
        min_charging_rate: Some(8),
        charging_schedule_period: vec![ProfilePeriod {
            start_period: 9,
            limit: 10,
            number_phases: None,
        }],
    }
}

#[test]
fn profile_is_written_as_requested() {
    let mut tracker = CallTracker::new();
    let text = tracker.send(OutgoingCall::SetChargingProfile(request())).unwrap();
    let call = json(&text);
    assert_eq!(call[1], "1.occp-server-test");
    assert_eq!(call[3]["connectorId"], 3);
    let profile = &call[3]["csChargingProfiles"];
    assert_eq!(profile["chargingProfileId"], 4);
    assert_eq!(profile["stackLevel"], 5);
    assert_eq!(profile["transactionId"], 6);
    assert_eq!(profile["chargingProfilePurpose"], "TxProfile");
    assert_eq!(profile["chargingProfileKind"], "Recurring");
    assert_eq!(profile["recurrencyKind"], "Weekly");
    assert_eq!(profile["validFrom"], "2026-08-05T12:00:00.000Z");
    assert_eq!(profile["validTo"], "2026-08-05T12:01:00.000Z");
    let schedule = &profile["chargingSchedule"];
    assert_eq!(schedule["chargingRateUnit"], "A");
    assert_eq!(schedule["startSchedule"], "2026-08-05T12:00:01.000Z");
    assert_eq!(schedule["duration"], 7);
    assert_eq!(schedule["minChargingRate"].as_f64(), Some(8.0));
    let periods = schedule["chargingSchedulePeriod"].as_array().unwrap();
    assert_eq!(periods.len(), 1);
    assert_eq!(periods[0]["startPeriod"], 9);
    assert_eq!(periods[0]["limit"].as_f64(), Some(10.0));
    assert!(periods[0].get("numberPhases").is_none());
}

#[test]
fn times_out_of_the_calendar_are_not_written() {
    let out = Timestamp { secs: i64::MAX, subsec: 0 };
    let mut tracker = CallTracker::new();
    for request in [
        ProfileRequest { start_schedule: out, ..request() },
        ProfileRequest { valid_from: Some(out), ..request() },
        ProfileRequest { valid_to: Some(out), ..request() },
    ] {
        assert_eq!(tracker.send(OutgoingCall::SetChargingProfile(request)), None);
    }
    // the numbers are spent
    let text = tracker.send(OutgoingCall::Reset { kind: ResetKind::Hard }).unwrap();
    assert_eq!(json(&text), json("[2,\"4.occp-server-test\",\"Reset\",{\"type\":\"Hard\"}]"));
}

#[test]
fn profiles_are_cleared_by_a_filter() {
    let mut tracker = CallTracker::new();
    let filter = ProfileFilter {
        id: Some(1),
        connector_id: Some(2),
        purpose: Some(ProfilePurpose::TransactionDefault),
        stack_level: Some(3),
    };
    let text = tracker.send(OutgoingCall::ClearChargingProfile(filter)).unwrap();
    let asked = &json(&text)[3];
    assert_eq!(asked["id"], 1);
    assert_eq!(asked["connectorId"], 2);
    assert_eq!(asked["chargingProfilePurpose"], "TxDefaultProfile");
    assert_eq!(asked["stackLevel"], 3);
    let text = tracker.send(OutgoingCall::ClearChargingProfile(ProfileFilter::all())).unwrap();
    assert_eq!(
        json(&text),
        json("[2,\"2.occp-server-test\",\"ClearChargingProfile\",{}]")
    );
}

#[test]
fn replies_say_what_they_are_given() {
    let write = |reply| write_reply("a".to_string(), reply).map(|text| json(&text));
    let info = |expiry_date| TagInfo {
        status: IdTagStatus::Blocked,
        expiry_date,
        parent_id_tag: Some("b".to_string()),
    };
    let said = "{\"expiryDate\":\"2026-08-05T12:00:00.000Z\",\"parentIdTag\":\"b\",\
        \"status\":\"Blocked\"}";
    assert_eq!(
        write(Reply::StartTransaction { transaction_id: 7, info: info(Some(NOW)) }),
        Some(json(&format!("[3,\"a\",{{\"transactionId\":7,\"idTagInfo\":{said}}}]")))
    );
    assert_eq!(
        write(Reply::StopTransaction { info: Some(info(Some(NOW))) }),
        Some(json(&format!("[3,\"a\",{{\"idTagInfo\":{said}}}]")))
    );
    assert_eq!(
        write(Reply::Authorize { info: info(Some(NOW)) }),
        Some(json(&format!("[3,\"a\",{{\"idTagInfo\":{said}}}]")))
    );
    assert_eq!(
        write(Reply::DataTransfer {
            outcome: TransferStatus::Rejected,
            data: Some("c".to_string())
        }),
        Some(json("[3,\"a\",{\"status\":\"Rejected\",\"data\":\"c\"}]"))
    );
    let out = Some(Timestamp { secs: i64::MAX, subsec: 0 });
    assert_eq!(write(Reply::StartTransaction { transaction_id: 7, info: info(out) }), None);
    assert_eq!(write(Reply::StopTransaction { info: Some(info(out)) }), None);
    assert_eq!(write(Reply::Authorize { info: info(out) }), None);
    assert_eq!(write(Reply::Heartbeat { current_time: out.unwrap() }), None);
}
