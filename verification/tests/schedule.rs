use chrono::{Local, NaiveDateTime, NaiveTime, TimeDelta, Timelike};
use evse_server::bms::{Bms, FULL_CHARGE, SoC};
use evse_server::database::{Database, Write, schedule_from_rows};
use evse_server::plan::{ChargingPlan, ChargingScheduleError, charge_by_instants};
use evse_server::profile::{
    ProfilePeriod, SetChargingProfile, UtcPeriod, limits_between, request_between, resolve_periods,
};
use evse_server::schedule::{
    ChargingSchedule, ChargingSchedulePeriod, ChargingScheduleState, DEFAULT_LIMIT,
    OutstandingDurationEnergy,
};
use evse_server::time::{LocalTime, Moment, NoSingleInstant, TimeOfDay, Timestamp};

const NANOS: i128 = 1_000_000_000;

fn local(time: NaiveDateTime) -> LocalTime {
    LocalTime {
        secs: time.and_utc().timestamp(),
        subsec: time.and_utc().timestamp_subsec_nanos(),
    }
}

fn time_of_day(time: NaiveTime) -> TimeOfDay {
    TimeOfDay {
        secs: time.num_seconds_from_midnight(),
        subsec: time.nanosecond(),
    }
}

fn nanos(delta: TimeDelta) -> i128 {
    delta.num_seconds() as i128 * NANOS + delta.subsec_nanos() as i128
}

fn moment(now: chrono::DateTime<Local>) -> Moment {
    Moment {
        utc: Timestamp {
            secs: now.timestamp(),
            subsec: now.timestamp_subsec_nanos(),
        },
        local: local(now.naive_local()),
    }
}

fn profile_period(start: TimeDelta, limit: u32) -> ProfilePeriod {
    ProfilePeriod {
        start_period: start.num_seconds() as i32,
        limit,
        number_phases: Some(1),
    }
}

fn noon() -> NaiveDateTime {
    NaiveDateTime::new(
        Local::now().date_naive(),
        NaiveTime::from_hms_opt(12, 0, 0).unwrap(),
    )
}

#[test]
fn disjointed_in_the_future() {
    let set_schedule_instant = noon();

    let period1_start_delta = TimeDelta::hours(1);
    let period1_start = set_schedule_instant.time() + period1_start_delta;
    let period1_duration = TimeDelta::hours(2);
    let period1_end = period1_start + period1_duration;
    let period1_limit = 5_000;

    let period2_start_delta = TimeDelta::hours(6);
    let period2_start = set_schedule_instant.time() + period2_start_delta;
    let period2_duration = TimeDelta::hours(3);
    let period2_end = period2_start + period2_duration;

    let charging_schedule_today_hours = SetChargingProfile::builder(
        ChargingSchedule::new()
            .add_period(
                ChargingSchedulePeriod::builder_starting_today(time_of_day(period1_start))
                    .end_time(time_of_day(period1_end))
                    .limit(period1_limit)
                    .build(),
            )
            .add_period(
                ChargingSchedulePeriod::builder_starting_today(time_of_day(period2_start))
                    .end_time(time_of_day(period2_end))
                    .build(),
            ),
    )
    .set_schedule_instant(local(set_schedule_instant))
    .unwrap()
    .build_charging_schedule()
    .unwrap();

    let charging_schedule_today_duration = SetChargingProfile::builder(
        ChargingSchedule::new()
            .add_period(
                ChargingSchedulePeriod::builder_starting_today(time_of_day(period1_start))
                    .duration(nanos(period1_duration))
                    .limit(period1_limit)
                    .build(),
            )
            .add_period(
                ChargingSchedulePeriod::builder_starting_today(time_of_day(period2_start))
                    .duration(nanos(period2_duration))
                    .build(),
            ),
    )
    .set_schedule_instant(local(set_schedule_instant))
    .unwrap()
    .build_charging_schedule()
    .unwrap();

    assert_eq!(
        charging_schedule_today_hours,
        charging_schedule_today_duration
    );

    assert_eq!(
        charging_schedule_today_hours,
        vec![
            profile_period(TimeDelta::zero(), 0),
            profile_period(period1_start_delta, period1_limit),
            profile_period(period1_start_delta + period1_duration, 0),
            profile_period(period2_start_delta, DEFAULT_LIMIT),
            profile_period(period2_start_delta + period2_duration, 0),
        ],
    );
}

fn two_periods(
    set_schedule_instant: NaiveDateTime,
    period1_start: NaiveTime,
    period1_duration: TimeDelta,
    period1_limit: u32,
    period2_start: NaiveTime,
    period2_duration: TimeDelta,
) -> Vec<ProfilePeriod> {
    SetChargingProfile::builder(
        ChargingSchedule::new()
            .add_period(
                ChargingSchedulePeriod::builder_starting_today(time_of_day(period1_start))
                    .duration(nanos(period1_duration))
                    .limit(period1_limit)
                    .build(),
            )
            .add_period(
                ChargingSchedulePeriod::builder_starting_today(time_of_day(period2_start))
                    .duration(nanos(period2_duration))
                    .build(),
            ),
    )
    .set_schedule_instant(local(set_schedule_instant))
    .unwrap()
    .build_charging_schedule()
    .unwrap()
}

#[test]
fn disjointed_first_starting_in_the_past() {
    let set_schedule_instant = noon();

    let period1_start_delta = TimeDelta::hours(1);
    let period1_start = set_schedule_instant.time() - period1_start_delta;
    let period1_duration = TimeDelta::hours(2);
    let period1_limit = 5_000;

    let period2_start_delta = TimeDelta::hours(6);
    let period2_start = set_schedule_instant.time() + period2_start_delta;
    let period2_duration = TimeDelta::hours(3);

    let charging_schedule = two_periods(
        set_schedule_instant,
        period1_start,
        period1_duration,
        period1_limit,
        period2_start,
        period2_duration,
    );

    assert_eq!(
        charging_schedule,
        vec![
            profile_period(TimeDelta::zero(), period1_limit),
            profile_period(period1_duration - period1_start_delta, 0),
            profile_period(period2_start_delta, DEFAULT_LIMIT),
            profile_period(period2_start_delta + period2_duration, 0),
        ],
    );
}

#[test]
fn disjointed_first_entirely_in_the_past() {
    let set_schedule_instant = noon();

    let period1_start_delta = TimeDelta::hours(3);
    let period1_start = set_schedule_instant.time() - period1_start_delta;
    let period1_duration = TimeDelta::hours(2);
    let period1_limit = 5_000;

    let period2_start_delta = TimeDelta::hours(6);
    let period2_start = set_schedule_instant.time() + period2_start_delta;
    let period2_duration = TimeDelta::hours(3);

    let charging_schedule = two_periods(
        set_schedule_instant,
        period1_start,
        period1_duration,
        period1_limit,
        period2_start,
        period2_duration,
    );

    assert_eq!(
        charging_schedule,
        vec![
            profile_period(TimeDelta::zero(), 0),
            profile_period(period2_start_delta, DEFAULT_LIMIT),
            profile_period(period2_start_delta + period2_duration, 0),
        ],
    );
}

#[test]
fn second_partially_overlapping_first() {
    let set_schedule_instant = noon();

    let period1_start_delta = TimeDelta::hours(1);
    let period1_start = set_schedule_instant.time() + period1_start_delta;
    let period1_duration = TimeDelta::hours(2);
    let period1_limit = 5_000;

    let period2_start_delta = TimeDelta::hours(2);
    let period2_start = set_schedule_instant.time() + period2_start_delta;
    let period2_duration = TimeDelta::hours(3);

    let charging_schedule = two_periods(
        set_schedule_instant,
        period1_start,
        period1_duration,
        period1_limit,
        period2_start,
        period2_duration,
    );

    assert_eq!(
        charging_schedule,
        vec![
            profile_period(TimeDelta::zero(), 0),
            profile_period(period1_start_delta, period1_limit),
            profile_period(period1_start_delta + period1_duration, DEFAULT_LIMIT),
            profile_period(period2_start_delta + period2_duration, 0),
        ],
    );
}

#[test]
fn second_overlapping_first() {
    let set_schedule_instant = noon();

    let period1_start_delta = TimeDelta::hours(1);
    let period1_start = set_schedule_instant.time() + period1_start_delta;
    let period1_duration = TimeDelta::hours(2);
    let period1_limit = 5_000;

    let period2_start_delta = TimeDelta::hours(2);
    let period2_start = set_schedule_instant.time() + period2_start_delta;
    let period2_duration = TimeDelta::minutes(30);

    let charging_schedule = two_periods(
        set_schedule_instant,
        period1_start,
        period1_duration,
        period1_limit,
        period2_start,
        period2_duration,
    );

    assert_eq!(
        charging_schedule,
        vec![
            profile_period(TimeDelta::zero(), 0),
            profile_period(period1_start_delta, period1_limit),
            profile_period(period1_start_delta + period1_duration, 0),
        ],
    );
}

#[test]
fn reach_soc_before() {
    const BATTERY_CAPACITY: u32 = 48_100;
    const POWER_LIMIT: u32 = 7_400;
    const CONST_POWER_LOSS: u16 = 400;
    const INITIAL_SOC: f64 = 0.30;
    const SOC_CAP: f64 = 0.60;
    const ENERGY_TO_ADD: f64 = (SOC_CAP - INITIAL_SOC) * BATTERY_CAPACITY as f64;
    let duration_s = (60.0 * 60.0 * ENERGY_TO_ADD
        / (POWER_LIMIT - CONST_POWER_LOSS as u32) as f64)
        .round() as i64;
    let hours_needed_ceil = (duration_s as u64).div_ceil(60 * 60) as i64;
    let initial_soc = SoC::Absolute((INITIAL_SOC * FULL_CHARGE as f64) as i64);
    let soc_cap = Some((SOC_CAP * FULL_CHARGE as f64) as i64);

    let now = Local::now();

    let end_time_can_start_today = now + TimeDelta::hours(hours_needed_ceil);
    let end_time_can_not_start_today = now + TimeDelta::hours(hours_needed_ceil - 2);

    let can_start_today = ChargingPlan::ReachSocCapBefore {
        end_time: time_of_day(end_time_can_start_today.time()),
        power_limit: POWER_LIMIT,
    };
    let can_not_start_today = ChargingPlan::ReachSocCapBefore {
        end_time: time_of_day(end_time_can_not_start_today.time()),
        power_limit: POWER_LIMIT,
    };

    // unknown initial SoC & SoC cap
    let bms = Bms::builder(BATTERY_CAPACITY, CONST_POWER_LOSS).build();
    assert!(can_start_today.is_feasible(&bms));
    assert_eq!(Ok(None), can_start_today.to_charging_schedule(&bms));

    // unknown initial SoC
    let bms = Bms::builder(BATTERY_CAPACITY, CONST_POWER_LOSS)
        .soc_cap(soc_cap)
        .build();
    assert!(can_start_today.is_feasible(&bms));
    assert_eq!(Ok(None), can_start_today.to_charging_schedule(&bms));

    // unknown initial SoC cap
    let bms = Bms::builder(BATTERY_CAPACITY, CONST_POWER_LOSS)
        .initial_soc(initial_soc)
        .build();
    assert!(can_start_today.is_feasible(&bms));
    assert_eq!(Ok(None), can_start_today.to_charging_schedule(&bms));

    // known initial SoC, can start today
    let bms = Bms::builder(BATTERY_CAPACITY, CONST_POWER_LOSS)
        .initial_soc(initial_soc)
        .soc_cap(soc_cap)
        .build();
    assert!(can_start_today.is_feasible(&bms));
    let charging_schedule = can_start_today.to_charging_schedule(&bms).unwrap().unwrap();
    let mut ref_schedule = ChargingSchedule::new().add_period(
        ChargingSchedulePeriod::builder(local(
            end_time_can_start_today.naive_local() - TimeDelta::seconds(duration_s),
        ))
        .duration(duration_s as i128 * NANOS)
        .limit(POWER_LIMIT)
        .build(),
    );
    ref_schedule.set_time = charging_schedule.set_time;
    assert_eq!(ref_schedule, charging_schedule);

    // known initial SOC, can't start today
    assert!(can_not_start_today.is_feasible(&bms));
    let charging_schedule = can_not_start_today
        .to_charging_schedule(&bms)
        .unwrap()
        .unwrap();
    let mut ref_schedule = ChargingSchedule::new().add_period(
        ChargingSchedulePeriod::builder(local(
            // needs to start tomorrow
            (end_time_can_not_start_today + TimeDelta::days(1)).naive_local()
                - TimeDelta::seconds(duration_s),
        ))
        .duration(duration_s as i128 * NANOS)
        .limit(POWER_LIMIT)
        .build(),
    );
    ref_schedule.set_time = charging_schedule.set_time;
    assert_eq!(ref_schedule, charging_schedule);
}

#[test]
fn reach_soc_before_with_a_lower_limit() {
    let bms = Bms::builder(48_100, 400)
        .initial_soc(SoC::Absolute(FULL_CHARGE * 3 / 10))
        .soc_cap(Some(FULL_CHARGE * 6 / 10))
        .build();
    let now = moment(Local::now());
    let plan = ChargingPlan::ReachSocCapBefore {
        end_time: TimeOfDay { secs: 25_200, subsec: 0 },
        power_limit: 3_700,
    };
    let schedule = plan.to_charging_schedule_at(&bms, now).unwrap().unwrap();
    let periods = schedule.periods();
    assert_eq!(periods.len(), 1);
    assert_eq!(periods[0].limit, 3_700);
    // 14430 Wh with 3300 W
    assert_eq!(periods[0].end.nanos() - periods[0].start.nanos(), 15_741 * NANOS);
    assert_eq!(periods[0].end.time(), TimeOfDay { secs: 25_200, subsec: 0 });
    assert_eq!(schedule.set_time, now.utc);
}

#[test]
fn plans_that_cannot_be_made() {
    let bms = Bms::builder(48_100, 400)
        .initial_soc(SoC::Absolute(FULL_CHARGE * 3 / 10))
        .soc_cap(Some(FULL_CHARGE * 6 / 10))
        .build();
    let end_time = TimeOfDay { secs: 25_200, subsec: 0 };
    let plan = |power_limit| ChargingPlan::ReachSocCapBefore { end_time, power_limit };
    assert!(!plan(0).is_feasible(&bms));
    assert!(!plan(400).is_feasible(&bms));
    assert!(plan(401).is_feasible(&bms));
    assert!(
        !ChargingPlan::ReachSocCapBefore {
            end_time: TimeOfDay { secs: 86_400, subsec: 0 },
            power_limit: 7_400
        }
        .is_feasible(&bms)
    );
    assert!(ChargingPlan::Blocking.is_feasible(&bms));
}

#[test]
fn off_peak_hours() {
    let bms = Bms::builder(48_100, 400).build();
    let now = moment(Local::now());
    let day = now.local.day();
    let expected = |day| {
        vec![
            ChargingSchedulePeriod {
                start: LocalTime::on_day(day, TimeOfDay { secs: 5_280, subsec: 0 }),
                end: LocalTime::on_day(day, TimeOfDay { secs: 25_080, subsec: 0 }),
                limit: 6_000,
            },
            ChargingSchedulePeriod {
                start: LocalTime::on_day(day, TimeOfDay { secs: 50_280, subsec: 0 }),
                end: LocalTime::on_day(day, TimeOfDay { secs: 59_280, subsec: 0 }),
                limit: 6_000,
            },
        ]
    };
    let today = ChargingPlan::OffPeakToday { power_limit: 6_000 }
        .to_charging_schedule_at(&bms, now)
        .unwrap()
        .unwrap();
    assert_eq!(today.periods(), expected(day));
    assert!(today.is_active());
    let tomorrow = ChargingPlan::OffPeakTomorrow { power_limit: 6_000 }
        .to_charging_schedule_at(&bms, now)
        .unwrap()
        .unwrap();
    assert_eq!(tomorrow.periods(), expected(day + 1));
}

#[test]
fn blocking_and_no_limit() {
    let bms = Bms::builder(48_100, 400).build();
    let now = moment(Local::now());
    let blocking = ChargingPlan::Blocking
        .to_charging_schedule_at(&bms, now)
        .unwrap()
        .unwrap();
    assert!(blocking.is_empty());
    assert!(blocking.is_active());
    assert_eq!(
        ChargingPlan::NoLimit.to_charging_schedule_at(&bms, now),
        Ok(None)
    );
}

#[test]
fn persist_charging_schedule() {
    let period1_start = NaiveTime::from_hms_opt(1, 28, 0).unwrap();
    let period1_duration = TimeDelta::hours(2);
    let period1_limit = 5_000;

    let period2_start = NaiveTime::from_hms_opt(13, 58, 0).unwrap();
    let period2_duration = TimeDelta::minutes(30);

    let mut schedule = ChargingSchedule::new()
        .add_period(
            ChargingSchedulePeriod::builder_starting_today(time_of_day(period1_start))
                .duration(nanos(period1_duration))
                .limit(period1_limit)
                .build(),
        )
        .add_period(
            ChargingSchedulePeriod::builder_starting_today(time_of_day(period2_start))
                .duration(nanos(period2_duration))
                .build(),
        );

    let mut db = Database::new(1, 7);
    let schedule_id = db.add_new_charging_schedule(&schedule);
    schedule.id = schedule_id;
    assert_eq!(schedule_id, 7);

    let writes = db.take_writes();
    assert_eq!(writes.len(), 1);
    let Write::AddSchedule { schedule: kept } = &writes[0] else {
        panic!("{writes:?}");
    };
    let last_schedule =
        schedule_from_rows(kept.id, kept.set_time, kept.state.as_i32(), &kept.periods()).unwrap();

    assert_eq!(schedule, last_schedule);

    assert_eq!(schedule_from_rows(7, kept.set_time, 1, &vec![]), None);
}

#[test]
fn outstanding() {
    const CONST_POWER_LOSS: u16 = 400;

    let period1_start = NaiveTime::from_hms_opt(1, 28, 0).unwrap();
    let period1_duration = TimeDelta::hours(2);
    let period1_limit = 5_000;

    let period2_start = NaiveTime::from_hms_opt(13, 58, 0).unwrap();
    let period2_duration = TimeDelta::hours(1);

    let mut schedule = ChargingSchedule::new()
        .add_period(
            ChargingSchedulePeriod::builder_starting_today(time_of_day(period1_start))
                .duration(nanos(period1_duration))
                .limit(period1_limit)
                .build(),
        )
        .add_period(
            ChargingSchedulePeriod::builder_starting_today(time_of_day(period2_start))
                .duration(nanos(period2_duration))
                .build(),
        );

    let today = Local::now().date_naive();
    let period1_start = NaiveDateTime::new(today, period1_start);
    let period2_start = NaiveDateTime::new(today, period2_start);

    // the energy is counted in Ws
    let energy1 = |duration: TimeDelta| {
        (period1_limit as i128 - CONST_POWER_LOSS as i128) * duration.num_seconds() as i128
    };
    let energy2 = |duration: TimeDelta| {
        (DEFAULT_LIMIT as i128 - CONST_POWER_LOSS as i128) * duration.num_seconds() as i128
    };

    let before_period1 = period1_start - TimeDelta::minutes(30);
    assert!(schedule.is_countable(local(before_period1)));
    assert_eq!(
        OutstandingDurationEnergy {
            duration: nanos(period1_duration + period2_duration),
            energy: energy1(period1_duration) + energy2(period2_duration),
        },
        schedule.outstanding(local(before_period1), CONST_POWER_LOSS),
    );

    let during_period1 = period1_start + TimeDelta::minutes(30);
    let during_period1_dur = period1_start + period1_duration - during_period1;
    assert_eq!(
        OutstandingDurationEnergy {
            duration: nanos(during_period1_dur + period2_duration),
            energy: energy1(during_period1_dur) + energy2(period2_duration),
        },
        schedule.outstanding(local(during_period1), CONST_POWER_LOSS),
    );

    let between_periods = period1_start + period1_duration + TimeDelta::minutes(30);
    assert!(between_periods < period2_start);
    assert_eq!(
        OutstandingDurationEnergy {
            duration: nanos(period2_duration),
            energy: energy2(period2_duration),
        },
        schedule.outstanding(local(between_periods), CONST_POWER_LOSS),
    );

    let during_period2 = period2_start + TimeDelta::minutes(30);
    let during_period2_dur = period2_start + period2_duration - during_period2;
    assert_eq!(
        OutstandingDurationEnergy {
            duration: nanos(during_period2_dur),
            energy: energy2(during_period2_dur),
        },
        schedule.outstanding(local(during_period2), CONST_POWER_LOSS),
    );

    let after_period2 = period2_start + period2_duration + TimeDelta::minutes(30);
    assert!(
        schedule
            .outstanding(local(after_period2), CONST_POWER_LOSS)
            .is_zero(),
    );

    let mut db = Database::new(1, 1);
    schedule.inactivate(&mut db);
    assert!(
        schedule
            .outstanding(local(before_period1), CONST_POWER_LOSS)
            .is_zero(),
    );
    assert_eq!(
        db.take_writes(),
        vec![Write::InactivateSchedule { schedule_id: schedule.id }]
    );
}

#[test]
fn states_of_a_schedule() {
    assert_eq!(ChargingScheduleState::from(ChargingScheduleState::Active.as_i32()),
        ChargingScheduleState::Active);
    assert_eq!(ChargingScheduleState::from(ChargingScheduleState::Inactive.as_i32()),
        ChargingScheduleState::Inactive);
    assert!(ChargingScheduleState::Active.is_active());
    assert!(!ChargingScheduleState::Inactive.is_active());
    assert!(ChargingSchedule::new().is_active());
    assert!(ChargingSchedule::default().is_active());
    assert!(!ChargingSchedule::new_inactive().is_active());
}

#[test]
fn set_time_is_read_off_the_clock() {
    let before = chrono::Utc::now().timestamp();
    let mut schedule = ChargingSchedule::set_at(
        ChargingScheduleState::Active,
        Timestamp { secs: 0, subsec: 0 },
    );
    assert_eq!(schedule.set_time.secs, 0);
    schedule.reset_set_time();
    let after = chrono::Utc::now().timestamp();
    assert!(before <= schedule.set_time.secs && schedule.set_time.secs <= after);
    let built = SetChargingProfile::builder(ChargingSchedule::new()).build().unwrap();
    assert!(before <= built.start_schedule.secs);
}

#[test]
fn same_start_replaces_the_period() {
    let start = LocalTime { secs: 1_000, subsec: 0 };
    let schedule = ChargingSchedule::new()
        .add_period(ChargingSchedulePeriod::builder(start).duration(NANOS).build())
        .add_period(ChargingSchedulePeriod::builder(start).duration(2 * NANOS).limit(9).build());
    assert_eq!(
        schedule.periods(),
        vec![ChargingSchedulePeriod {
            start,
            end: LocalTime { secs: 1_002, subsec: 0 },
            limit: 9
        }]
    );
}

#[test]
fn periods_come_in_order() {
    let at = |secs| ChargingSchedulePeriod::builder(LocalTime { secs, subsec: 0 })
        .duration(NANOS)
        .build();
    let schedule = ChargingSchedule::new()
        .add_period(at(3_000))
        .add_period(at(-1_000))
        .add_period(at(2_000));
    let starts: Vec<i64> = schedule.periods().iter().map(|p| p.start.secs).collect();
    assert_eq!(starts, vec![-1_000, 2_000, 3_000]);
}

#[test]
fn end_of_a_period() {
    let start = LocalTime { secs: 1_000, subsec: 0 };
    let end = LocalTime { secs: 999, subsec: 0 };
    assert_eq!(
        ChargingSchedulePeriod::builder(start).end(end),
        Err(ChargingScheduleError::EndEarlierThanStart { start, end })
    );
    assert_eq!(
        ChargingSchedulePeriod::builder(start).end(start).unwrap().build().end,
        start
    );
    // the next day
    let time = TimeOfDay { secs: 1_000, subsec: 0 };
    assert_eq!(
        ChargingSchedulePeriod::builder(start).end_time(time).build().end,
        LocalTime { secs: 87_400, subsec: 0 }
    );
    // the same day
    let time = TimeOfDay { secs: 1_001, subsec: 0 };
    assert_eq!(
        ChargingSchedulePeriod::builder(start).end_time(time).build().end,
        LocalTime { secs: 1_001, subsec: 0 }
    );
}

#[test]
fn starting_tomorrow_is_a_day_later() {
    let time = TimeOfDay { secs: 43_200, subsec: 0 };
    let before = Local::now().date_naive();
    let today = ChargingSchedulePeriod::builder_starting_today(time);
    let tomorrow = ChargingSchedulePeriod::builder_starting_tomorrow(time);
    let after = Local::now().date_naive();
    if before == after {
        assert_eq!(tomorrow.start.secs - today.start.secs, 86_400);
        assert_eq!(
            today.start,
            local(NaiveDateTime::new(before, NaiveTime::from_hms_opt(12, 0, 0).unwrap()))
        );
    }
}

#[test]
fn wall_clock_times_become_instants() {
    let start = noon();
    let period = ChargingSchedulePeriod::builder(local(start)).duration(3_600 * NANOS).build();
    let resolved = resolve_periods(&vec![period]).unwrap();
    let expected = start.and_local_timezone(Local).unwrap().to_utc();
    assert_eq!(resolved.len(), 1);
    assert_eq!(resolved[0].start.secs, expected.timestamp());
    assert_eq!(resolved[0].end.secs, expected.timestamp() + 3_600);
    assert_eq!(resolved[0].limit, DEFAULT_LIMIT);

    // what the calendar does not hold
    let out = LocalTime { secs: i64::MAX, subsec: 0 };
    let period = ChargingSchedulePeriod { start: out, end: out, limit: 1 };
    let refused = resolve_periods(&vec![period]);
    assert_eq!(refused.unwrap_err().0, out);
}

#[test]
fn nothing_to_come_blocks() {
    let at = |secs| Timestamp { secs, subsec: 0 };
    let blocked = vec![ProfilePeriod {
        start_period: 0,
        limit: 0,
        number_phases: Some(1),
    }];
    assert_eq!(limits_between(at(1_000), &vec![]), blocked);
    let over = UtcPeriod { start: at(10), end: at(20), limit: 5 };
    assert_eq!(limits_between(at(1_000), &vec![over]), blocked);

    let request = request_between(at(1_000), &vec![]);
    assert_eq!(request.connector_id, 0);
    assert_eq!(request.charging_profile_id, 0);
    assert_eq!(request.stack_level, 0);
    assert_eq!(request.start_schedule, at(1_000));
    assert_eq!(request.charging_schedule_period, blocked);
}

#[test]
fn outstanding_never_grows() {
    let at = |secs| LocalTime { secs, subsec: 0 };
    let schedule = ChargingSchedule::new()
        .add_period(ChargingSchedulePeriod { start: at(100), end: at(200), limit: 1_000 })
        .add_period(ChargingSchedulePeriod { start: at(150), end: at(300), limit: 2_000 });
    // 50 s with 600 W, and 150 s with 1600 W
    let outstanding = schedule.outstanding(at(150), 400);
    assert_eq!(outstanding.duration, 200_000_000_000);
    assert_eq!(outstanding.energy, 270_000);
    let mut last: Option<OutstandingDurationEnergy> = None;
    for secs in [0, 100, 101, 150, 199, 200, 299, 300, 400] {
        let outstanding = schedule.outstanding(at(secs), 400);
        if let Some(last) = last {
            assert!(outstanding.duration <= last.duration);
            assert!(outstanding.energy <= last.energy);
        }
        last = Some(outstanding);
    }
    assert!(last.unwrap().is_zero());
    // less than a second is left
    let shortly = LocalTime { secs: 299, subsec: 1 };
    assert!(!schedule.is_countable(shortly));
}

#[test]
fn schedule_starts_at_no_instant() {
    let out = LocalTime { secs: i64::MIN, subsec: 0 };
    let builder = SetChargingProfile::builder(ChargingSchedule::new());
    assert_eq!(builder.set_schedule_instant(out).unwrap_err().0, out);
    let schedule = ChargingSchedule::new().add_period(ChargingSchedulePeriod {
        start: LocalTime { secs: 0, subsec: 0 },
        end: LocalTime { secs: i64::MAX, subsec: 0 },
        limit: 1,
    });
    assert!(SetChargingProfile::builder(schedule).build_charging_schedule().is_err());
}

#[test]
fn start_of_a_charge_leaves_a_margin() {
    let now = Moment {
        utc: Timestamp { secs: 1_000, subsec: 5 },
        local: LocalTime { secs: 4_600, subsec: 5 },
    };
    let end_time = TimeOfDay { secs: 9_600, subsec: 0 };
    let at = |secs, subsec| Some(Timestamp { secs, subsec });
    // the day on which the charge of 600 s starts
    let day = |instants: Vec<Option<Timestamp>>| {
        charge_by_instants(now, end_time, 600, 7_400, &instants).map(|charge| {
            charge.map(|schedule| {
                assert_eq!(schedule.set_time, now.utc);
                let periods = schedule.periods();
                assert_eq!(periods.len(), 1);
                assert_eq!(periods[0].end.time(), end_time);
                periods[0].start.secs - 9_000
            })
        })
    };
    assert_eq!(day(vec![]), None);
    assert_eq!(day(vec![at(1_120, 5)]), None);
    assert_eq!(day(vec![at(1_120, 6)]), Some(Ok(0)));
    assert_eq!(day(vec![at(1_121, 0), None]), Some(Ok(0)));
    assert_eq!(day(vec![at(1_120, 5), at(5_400, 0)]), Some(Ok(86_400)));
    let next = NoSingleInstant(LocalTime { secs: 95_400, subsec: 0 });
    assert_eq!(day(vec![at(1_120, 5), None, at(5_400, 0)]), Some(Err(next)));
    assert_eq!(day(vec![at(0, 0), at(1, 0), at(1_120, 6)]), Some(Ok(172_800)));
}

#[test]
fn charge_starts_on_the_earliest_day() {
    // 2026-01-05T10:00:00Z
    let now_secs = 1_767_607_200;
    let bms = Bms::builder(48_100, 400)
        .initial_soc(SoC::Absolute(FULL_CHARGE * 3 / 10))
        .soc_cap(Some(FULL_CHARGE * 6 / 10))
        .build();
    let midnight = now_secs - 36_000;
    // 14430 Wh with 7000 W take 7421 s
    for offset in [0i64, 3_600, -18_000] {
        let now = Moment {
            utc: Timestamp { secs: now_secs - offset, subsec: 0 },
            local: LocalTime { secs: now_secs, subsec: 0 },
        };
        for (hours, days) in [(13, 0), (11, 1)] {
            let end = midnight + days * 86_400 + hours * 3_600;
            let plan = ChargingPlan::ReachSocCapBefore {
                end_time: TimeOfDay { secs: hours as u32 * 3_600, subsec: 0 },
                power_limit: 7_400,
            };
            let instants: Vec<Option<Timestamp>> = (0..3)
                .map(|day| {
                    Some(Timestamp {
                        secs: midnight + day * 86_400 + hours * 3_600 - 7_421 - offset,
                        subsec: 0,
                    })
                })
                .collect();
            let schedule = plan
                .to_charging_schedule_by(&bms, now, &instants)
                .unwrap()
                .unwrap()
                .unwrap();
            assert!(schedule.is_active());
            assert_eq!(
                schedule.periods(),
                vec![ChargingSchedulePeriod {
                    start: LocalTime { secs: end - 7_421, subsec: 0 },
                    end: LocalTime { secs: end, subsec: 0 },
                    limit: 7_400,
                }]
            );
        }
    }
    // no instants are needed where there is nothing to charge, or no charge to schedule
    let now = Moment {
        utc: Timestamp { secs: now_secs, subsec: 0 },
        local: LocalTime { secs: now_secs, subsec: 0 },
    };
    let plan = ChargingPlan::ReachSocCapBefore {
        end_time: TimeOfDay { secs: 46_800, subsec: 0 },
        power_limit: 7_400,
    };
    let unknown = Bms::builder(48_100, 400).build();
    assert_eq!(plan.to_charging_schedule_by(&unknown, now, &vec![]), Some(Ok(None)));
    assert_eq!(plan.to_charging_schedule_by(&bms, now, &vec![]), None);
    assert_eq!(
        plan.to_charging_schedule_by(&bms, now, &vec![None]),
        Some(Err(NoSingleInstant(LocalTime {
            secs: midnight + 46_800 - 7_421,
            subsec: 0
        })))
    );
    assert_eq!(
        ChargingPlan::NoLimit.to_charging_schedule_by(&bms, now, &vec![]),
        Some(Ok(None))
    );
}

#[test]
fn leap_seconds_come_before_the_next_second() {
    let at = |secs, subsec| LocalTime { secs, subsec };
    // 23:59:60.5, and the day after
    let leap = at(86_399, 1_500_000_000);
    let midnight = at(86_400, 0);
    assert_eq!(
        ChargingSchedulePeriod::builder(leap).end(midnight).unwrap().build().end,
        midnight
    );
    assert_eq!(
        ChargingSchedulePeriod::builder(midnight).end(leap),
        Err(ChargingScheduleError::EndEarlierThanStart { start: midnight, end: leap })
    );
    // a second after the leap second
    assert_eq!(
        ChargingSchedulePeriod::builder(leap).duration(NANOS).build().end,
        at(86_400, 500_000_000)
    );
    let schedule = ChargingSchedule::new()
        .add_period(ChargingSchedulePeriod {
            start: at(86_400, 500_000_000),
            end: at(86_410, 0),
            limit: 2,
        })
        .add_period(ChargingSchedulePeriod { start: leap, end: at(86_399, 1_900_000_000), limit: 1 });
    let limits: Vec<u32> = schedule.periods().iter().map(|period| period.limit).collect();
    assert_eq!(limits, vec![1, 2]);
    // the first period is over
    assert_eq!(schedule.outstanding(midnight, 0).duration, 9_500_000_000);

    let utc = |secs, subsec| Timestamp { secs, subsec };
    let period = UtcPeriod { start: utc(86_399, 1_500_000_000), end: utc(86_460, 0), limit: 9 };
    // the period has started
    assert_eq!(
        limits_between(utc(86_400, 200_000_000), &vec![period])[0],
        profile_period(TimeDelta::zero(), 9)
    );
    // it starts 1.5 s after 23:59:59
    assert_eq!(
        limits_between(utc(86_399, 0), &vec![period])[1],
        profile_period(TimeDelta::seconds(1), 9)
    );
}

#[test]
fn charge_that_starts_before_the_calendar() {
    let bms = Bms::builder(u32::MAX, 400)
        .initial_soc(SoC::Absolute(0))
        .soc_cap(Some(FULL_CHARGE))
        .build();
    let plan = ChargingPlan::ReachSocCapBefore {
        end_time: TimeOfDay { secs: 25_200, subsec: 0 },
        power_limit: 401,
    };
    assert!(plan.is_feasible(&bms));
    let now = moment(Local::now());
    let start = now.local.day() * 86_400 + 25_200 - u32::MAX as i64 * 3_600;
    assert_eq!(
        plan.to_charging_schedule_at(&bms, now).unwrap_err().0,
        LocalTime { secs: start, subsec: 0 }
    );
}
