use evse_server::args::{Args, ChargingPlan, Command, InvalidServerIp, Ipv4Address, ServerIp};
use evse_server::bms::{Bms, FULL_CHARGE};
use evse_server::plan;
use evse_server::time::TimeOfDay;

fn args() -> Args {
    Args {
        battery_capacity: 48_100,
        power_limit: 7_400,
        constant_power_loss: 400,
        initial_soc: None,
        soc_cap: None,
        charging_plan: None,
        end_time: None,
        ocpp_port: 9_000,
        short_logs: false,
        command: None,
    }
}

fn ip(text: &str) -> ServerIp {
    ServerIp { ip_address: text.to_string() }
}

#[test]
fn addresses() {
    let address = ip("192.168.1.10").get_ip_address();
    assert_eq!(address, Ok(Ipv4Address(192, 168, 1, 10)));
    assert_eq!(address.unwrap().to_string(), "192.168.1.10");
    assert_eq!(ip("0.0.0.0").get_ip_address(), Ok(Ipv4Address(0, 0, 0, 0)));
    assert_eq!(
        ip("255.255.255.255").get_ip_address(),
        Ok(Ipv4Address(255, 255, 255, 255))
    );
    for text in [
        "", "1.2.3", "1.2.3.4.5", "256.1.1.1", "01.2.3.4", "1.2.3.4 ", "a.b.c.d", "1..2.3",
        "+1.2.3.4", "1.2.3.", "localhost",
    ] {
        assert_eq!(ip(text).get_ip_address(), Err(InvalidServerIp), "{text}");
    }
}

#[test]
fn commands() {
    assert!(Command::Run.is_run());
    assert!(Command::StopSession.is_stop_session());
    assert!(Command::Reboot.is_reboot());
    assert!(!Command::Reboot.is_run());
    assert!(!Command::SetServerIp(ServerIp::default()).is_reboot());

    assert!(args().is_dry_run());
    assert!(!args().is_run());
    let run = Args { command: Some(Command::Run), ..args() };
    assert!(run.is_run() && !run.is_dry_run() && !run.is_reboot() && !run.is_stop_session());
    let stop = Args { command: Some(Command::StopSession), ..args() };
    assert!(stop.is_stop_session());
    let reboot = Args { command: Some(Command::Reboot), ..args() };
    assert!(reboot.is_reboot());
}

#[test]
fn arguments_are_checked() {
    assert_eq!(args().check(), Ok(()));
    let good = Args { command: Some(Command::SetServerIp(ip("10.0.0.1"))), ..args() };
    assert_eq!(good.check(), Ok(()));
    let bad = Args { command: Some(Command::SetServerIp(ip("10.0.0"))), ..args() };
    assert_eq!(bad.check(), Err(InvalidServerIp));
}

#[test]
fn battery_of_the_arguments() {
    let bms = Bms::from(&Args {
        initial_soc: Some(30),
        soc_cap: Some(100),
        ..args()
    });
    assert_eq!(bms.capacity, 48_100);
    assert_eq!(bms.constant_power_loss, 400);
    assert_eq!(bms.initial_soc.absolute(), Some(FULL_CHARGE / 10 * 3));
    assert_eq!(bms.current_soc.absolute(), Some(FULL_CHARGE / 10 * 3));
    assert_eq!(bms.soc_cap, Some(FULL_CHARGE));
    let bms = Bms::from(&args());
    assert!(bms.initial_soc.is_unknown());
    assert_eq!(bms.soc_cap, None);
}

#[test]
fn plans_of_the_arguments() {
    assert_eq!(args().to_charging_plan(), Ok(None));
    let with = |charging_plan| Args { charging_plan: Some(charging_plan), ..args() };
    assert_eq!(
        with(ChargingPlan::Blocking).to_charging_plan(),
        Ok(Some(plan::ChargingPlan::Blocking))
    );
    assert_eq!(
        with(ChargingPlan::OffPeakToday).to_charging_plan(),
        Ok(Some(plan::ChargingPlan::OffPeakToday { power_limit: 7_400 }))
    );
    assert_eq!(
        with(ChargingPlan::OffPeakTomorrow).to_charging_plan(),
        Ok(Some(plan::ChargingPlan::OffPeakTomorrow { power_limit: 7_400 }))
    );
    assert_eq!(
        with(ChargingPlan::NoLimit).to_charging_plan(),
        Ok(Some(plan::ChargingPlan::NoLimit))
    );

    let reach = Args {
        soc_cap: Some(60),
        end_time: Some("07:15".to_string()),
        ..with(ChargingPlan::ReachSocCapBefore)
    };
    assert_eq!(
        reach.to_charging_plan(),
        Ok(Some(plan::ChargingPlan::ReachSocCapBefore {
            end_time: TimeOfDay { secs: 26_100, subsec: 0 },
            power_limit: 7_400
        }))
    );
}

#[test]
fn plans_that_lack_something() {
    let reach = |soc_cap, end_time: Option<&str>| {
        Args {
            charging_plan: Some(ChargingPlan::ReachSocCapBefore),
            soc_cap,
            end_time: end_time.map(|text| text.to_string()),
            ..args()
        }
        .to_charging_plan()
    };
    let no_cap = "'reach-soc-cap-before' requires soc-cap to be specified";
    assert_eq!(reach(None, Some("07:15")), Err(no_cap.to_string()));
    let no_end = "'reach-soc-cap-before' requires end-time to be specified";
    assert_eq!(reach(None, None), Err(format!("{no_cap}\n{no_end}")));
    assert_eq!(reach(Some(60), None), Err(no_end.to_string()));
    let reason = "late".parse::<chrono::NaiveTime>().unwrap_err();
    let unreadable = format!("'reach-soc-cap-before' failed to parse end_time: {reason}");
    assert_eq!(reach(Some(60), Some("late")), Err(unreadable.clone()));
    assert_eq!(reach(None, Some("late")), Err(format!("{no_cap}\n{unreadable}")));

    let given = Args {
        charging_plan: Some(ChargingPlan::ReachSocCapBefore),
        soc_cap: Some(60),
        ..args()
    };
    assert_eq!(
        given.plan_with_end_time(Some(Err("so".to_string()))),
        Err("'reach-soc-cap-before' failed to parse end_time: so".to_string())
    );
}
