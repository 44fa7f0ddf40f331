use chrono::Utc;
use evse_server::measurements::{
    Dpm, DpmData, DpmSelection, MeterSample, MeterValue, MeterValueObserver, MeterValueSelection,
    SampledValue, dpm_energy_eq, dpm_power_eq, voltage_eq,
};
use evse_server::time::Timestamp;

fn now() -> Timestamp {
    let now = Utc::now();
    Timestamp {
        secs: now.timestamp(),
        subsec: now.timestamp_subsec_nanos(),
    }
}

#[test]
fn measure_eq() {
    assert!(dpm_energy_eq(10, 490));
    assert!(dpm_energy_eq(510, 990));
    assert!(dpm_energy_eq(510, 1_040));
    assert!(!dpm_energy_eq(490, 510));
    assert!(!dpm_energy_eq(510, 1_510));

    assert!(dpm_power_eq(10, 240));
    assert!(dpm_power_eq(250, 490));
    assert!(dpm_power_eq(500, 740));
    assert!(!dpm_power_eq(240, 490));
    assert!(!dpm_power_eq(500, 760));

    assert!(voltage_eq(229, 230));
    assert!(voltage_eq(231, 230));
    assert!(!voltage_eq(228, 230));
    assert!(!voltage_eq(229, 232));
    assert!(!voltage_eq(230, 232));
}

#[test]
fn meter_values_eq() {
    let now_ts = now();

    // exact match
    assert_eq!(
        MeterValueSelection {
            timestamp: now_ts,
            active_energy_import: Some(1_000),
            active_power_import: Some(100),
            voltage_l1: Some(230),
            temperature: Some(26),
            transaction_id: Some(1),
        },
        MeterValueSelection {
            timestamp: now_ts,
            active_energy_import: Some(1_000),
            active_power_import: Some(100),
            voltage_l1: Some(230),
            temperature: Some(26),
            transaction_id: Some(1),
        },
    );

    // exact match but one is missing power
    assert_eq!(
        MeterValueSelection {
            timestamp: now_ts,
            active_energy_import: Some(1_000),
            active_power_import: Some(100),
            voltage_l1: Some(230),
            temperature: Some(26),
            transaction_id: Some(1),
        },
        MeterValueSelection {
            timestamp: now_ts,
            active_energy_import: Some(1_000),
            active_power_import: None,
            voltage_l1: Some(230),
            temperature: Some(26),
            transaction_id: Some(1),
        },
    );

    // timestamps are excluded from comparison
    assert_eq!(
        MeterValueSelection {
            timestamp: now_ts,
            active_energy_import: Some(1_000),
            active_power_import: Some(100),
            voltage_l1: Some(230),
            temperature: Some(26),
            transaction_id: Some(1),
        },
        MeterValueSelection {
            timestamp: now(),
            active_energy_import: Some(1_000),
            active_power_import: Some(100),
            voltage_l1: Some(230),
            temperature: Some(26),
            transaction_id: Some(1),
        },
    );

    // temperature are excluded from comparison
    assert_eq!(
        MeterValueSelection {
            timestamp: now_ts,
            active_energy_import: Some(1_000),
            active_power_import: Some(100),
            voltage_l1: Some(230),
            temperature: Some(26),
            transaction_id: Some(1),
        },
        MeterValueSelection {
            timestamp: now(),
            active_energy_import: Some(1_000),
            active_power_import: Some(100),
            voltage_l1: Some(230),
            temperature: Some(27),
            transaction_id: Some(1),
        },
    );

    // transction_id are excluded from comparison
    assert_eq!(
        MeterValueSelection {
            timestamp: now_ts,
            active_energy_import: Some(1_000),
            active_power_import: Some(100),
            voltage_l1: Some(230),
            temperature: Some(26),
            transaction_id: None,
        },
        MeterValueSelection {
            timestamp: now(),
            active_energy_import: Some(1_000),
            active_power_import: Some(100),
            voltage_l1: Some(230),
            temperature: Some(27),
            transaction_id: Some(1),
        },
    );

    // different energy
    assert_ne!(
        MeterValueSelection {
            timestamp: now_ts,
            active_energy_import: Some(1_000),
            active_power_import: Some(100),
            voltage_l1: Some(230),
            temperature: Some(26),
            transaction_id: Some(1),
        },
        MeterValueSelection {
            timestamp: now_ts,
            active_energy_import: Some(1_100),
            active_power_import: Some(100),
            voltage_l1: Some(230),
            temperature: Some(26),
            transaction_id: Some(1),
        },
    );

    // different power
    assert_ne!(
        MeterValueSelection {
            timestamp: now_ts,
            active_energy_import: Some(1_000),
            active_power_import: Some(100),
            voltage_l1: Some(230),
            temperature: Some(26),
            transaction_id: Some(1),
        },
        MeterValueSelection {
            timestamp: now_ts,
            active_energy_import: Some(1_000),
            active_power_import: Some(110),
            voltage_l1: Some(230),
            temperature: Some(26),
            transaction_id: Some(1),
        },
    );

    // different voltage step
    assert_ne!(
        MeterValueSelection {
            timestamp: now_ts,
            active_energy_import: Some(1_000),
            active_power_import: Some(100),
            voltage_l1: Some(230),
            temperature: Some(26),
            transaction_id: Some(1),
        },
        MeterValueSelection {
            timestamp: now_ts,
            active_energy_import: Some(1_000),
            active_power_import: Some(100),
            voltage_l1: Some(232),
            temperature: Some(26),
            transaction_id: Some(1),
        },
    );
}

#[test]
fn metervalue_observer() {
    let mut mvo = MeterValueObserver::default();

    // initial
    let mut mv = MeterValueSelection {
        timestamp: now(),
        active_energy_import: Some(1_000),
        active_power_import: Some(100),
        voltage_l1: Some(230),
        temperature: Some(26),
        transaction_id: Some(1),
    };
    mvo.consolidate(&mut mv);
    assert!(mvo.pertinent_to_user(&mv));

    // different energy
    let mut mv = MeterValueSelection {
        timestamp: now(),
        active_energy_import: Some(1_100),
        active_power_import: Some(100),
        voltage_l1: Some(230),
        temperature: Some(26),
        transaction_id: Some(1),
    };
    mvo.consolidate(&mut mv);
    assert!(mvo.pertinent_to_user(&mv));

    // different power
    let mut mv = MeterValueSelection {
        timestamp: now(),
        active_energy_import: Some(1_100),
        active_power_import: Some(110),
        voltage_l1: Some(230),
        temperature: Some(26),
        transaction_id: Some(1),
    };
    mvo.consolidate(&mut mv);
    assert!(mvo.pertinent_to_user(&mv));

    // same as previous (no log)
    let mut mv = MeterValueSelection {
        timestamp: now(),
        active_energy_import: Some(1_100),
        active_power_import: Some(110),
        voltage_l1: None,
        temperature: Some(26),
        transaction_id: Some(1),
    };
    mvo.consolidate(&mut mv);
    assert!(!mvo.pertinent_to_user(&mv));

    // voltage, but no active power (no log, but consolidation on next MV)
    let mut mv = MeterValueSelection {
        timestamp: now(),
        active_energy_import: Some(1_110),
        active_power_import: None,
        voltage_l1: Some(230),
        temperature: Some(26),
        transaction_id: Some(1),
    };
    mvo.consolidate(&mut mv);
    assert!(!mvo.pertinent_to_user(&mv));

    // no voltage, but active power (consolidated voltage from MV and log)
    let mut mv = MeterValueSelection {
        timestamp: now(),
        active_energy_import: Some(1_110),
        active_power_import: Some(10),
        voltage_l1: None,
        temperature: Some(26),
        transaction_id: Some(1),
    };
    mvo.consolidate(&mut mv);
    assert_eq!(Some(230), mv.voltage_l1);
    assert!(mvo.pertinent_to_user(&mv));

    // different voltage step, no active power (no log, but consolidation on next MV)
    let mut mv = MeterValueSelection {
        timestamp: now(),
        active_energy_import: Some(1_110),
        active_power_import: None,
        voltage_l1: Some(232),
        temperature: None,
        transaction_id: None,
    };
    mvo.consolidate(&mut mv);
    assert!(!mvo.pertinent_to_user(&mv));

    // no voltage, but active power (consolidated voltage from MV and log)
    let mut mv = MeterValueSelection {
        timestamp: now(),
        active_energy_import: Some(1_110),
        active_power_import: Some(10),
        voltage_l1: None,
        temperature: Some(26),
        transaction_id: Some(1),
    };
    mvo.consolidate(&mut mv);
    assert_eq!(Some(232), mv.voltage_l1);
    assert!(mvo.pertinent_to_user(&mv));

    // same as previous, different temperature (log)
    let mut mv = MeterValueSelection {
        timestamp: now(),
        active_energy_import: Some(1_110),
        active_power_import: Some(110),
        voltage_l1: Some(232),
        temperature: Some(27),
        transaction_id: Some(1),
    };
    mvo.consolidate(&mut mv);
    assert!(mvo.pertinent_to_user(&mv));

    // same as previous, fluctuating temperature (no log)
    let mut mv = MeterValueSelection {
        timestamp: now(),
        active_energy_import: Some(1_110),
        active_power_import: Some(110),
        voltage_l1: None,
        temperature: Some(26),
        transaction_id: Some(1),
    };
    mvo.consolidate(&mut mv);
    assert!(!mvo.pertinent_to_user(&mv));

    // same as previous, fluctuating temperature again (no log)
    let mut mv = MeterValueSelection {
        timestamp: now(),
        active_energy_import: Some(1_110),
        active_power_import: Some(110),
        voltage_l1: None,
        temperature: Some(27),
        transaction_id: Some(1),
    };
    mvo.consolidate(&mut mv);
    assert!(!mvo.pertinent_to_user(&mv));

    // same as previous, raising temperature (log)
    let mut mv = MeterValueSelection {
        timestamp: now(),
        active_energy_import: Some(1_110),
        active_power_import: Some(110),
        voltage_l1: None,
        temperature: Some(28),
        transaction_id: Some(1),
    };
    mvo.consolidate(&mut mv);
    assert!(mvo.pertinent_to_user(&mv));
}

#[test]
fn dpm_selection_eq() {
    // Eq
    assert_eq!(
        DpmSelection {
            timestamp: Some(now()),
            active_energy_import: Some(1_500),
            active_power_import: Some(240),
        },
        DpmSelection {
            timestamp: Some(now()),
            active_energy_import: Some(1_550),
            active_power_import: Some(50),
        },
    );

    assert_eq!(
        DpmSelection {
            timestamp: Some(now()),
            active_energy_import: Some(1_500),
            active_power_import: Some(510),
        },
        DpmSelection {
            timestamp: None,
            active_energy_import: Some(1_990),
            active_power_import: Some(740),
        },
    );

    // !Eq energy
    assert_ne!(
        DpmSelection {
            timestamp: Some(now()),
            active_energy_import: Some(1_500),
            active_power_import: Some(730),
        },
        DpmSelection {
            timestamp: None,
            active_energy_import: Some(2_500),
            active_power_import: Some(730),
        },
    );

    // !Eq power
    assert_ne!(
        DpmSelection {
            timestamp: Some(now()),
            active_energy_import: Some(1_500),
            active_power_import: Some(740),
        },
        DpmSelection {
            timestamp: None,
            active_energy_import: Some(1_500),
            active_power_import: Some(760),
        },
    );
}

fn sampled(measurand: &str, unit: &str, value: &str) -> SampledValue {
    SampledValue {
        context: "Sample.Periodic".to_string(),
        format: "Raw".to_string(),
        location: "Inlet".to_string(),
        measurand: measurand.to_string(),
        unit: unit.to_string(),
        value: value.to_string(),
        phase: None,
    }
}

#[test]
fn dpm_is_selected() {
    let selection = DpmSelection::from(Dpm {
        data: DpmData {
            sampled_value: vec![
                sampled("Energy.Active.Import.Register", "Wh", "3190200"),
                sampled("Power.Active.Import", "W", "7525"),
            ],
            timestamp: "2026-07-31T13:31:58Z".to_string(),
            transaction_id: None,
        },
    });
    assert_eq!(
        selection.timestamp,
        Some(Timestamp { secs: 1_785_504_718, subsec: 0 })
    );
    assert_eq!(selection.active_energy_import, Some(3_190_200));
    assert_eq!(selection.active_power_import, Some(7_525));

    let selection = DpmSelection::from(Dpm {
        data: DpmData {
            sampled_value: vec![
                sampled("Voltage", "V", "234"),
                sampled("Power.Active.Import", "W", "x"),
            ],
            timestamp: "yesterday".to_string(),
            transaction_id: None,
        },
    });
    assert_eq!(selection.timestamp, None);
    assert_eq!(selection.active_energy_import, None);
    assert_eq!(selection.active_power_import, None);
}

fn sample(measurand: Option<&str>, phase: Option<&str>, value: &str) -> MeterSample {
    MeterSample {
        value: value.to_string(),
        measurand: measurand.map(|m| m.to_string()),
        phase: phase.map(|p| p.to_string()),
    }
}

#[test]
fn meter_value_is_selected() {
    let timestamp = Timestamp { secs: 1_000, subsec: 5 };
    let mv = MeterValue {
        timestamp,
        sampled_value: vec![
            sample(Some("Energy.Active.Import.Register"), None, "1200"),
            sample(Some("Energy.Active.Import.Register"), None, "1234"),
            sample(Some("Power.Active.Import"), None, "7000"),
            sample(Some("Voltage"), Some("L1"), "231"),
            sample(Some("Voltage"), Some("L2"), "11"),
            sample(Some("Voltage"), None, "12"),
            sample(Some("Temperature"), None, "27.5"),
            sample(Some("Current.Import"), None, "30"),
            sample(None, None, "31"),
        ],
    };
    let selection = MeterValueSelection::new(&mv, Some(9));
    assert_eq!(selection.timestamp, timestamp);
    assert_eq!(selection.transaction_id, Some(9));
    // the last reading counts
    assert_eq!(selection.active_energy_import, Some(1_234));
    assert_eq!(selection.active_power_import, Some(7_000));
    assert_eq!(selection.voltage_l1, Some(231));
    // not a number
    assert_eq!(selection.temperature, None);
}
