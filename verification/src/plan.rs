//! Charging plans: how the user wants the EV to be charged.
use vstd::prelude::*;

use crate::bms::{Bms, FULL_CHARGE, law_missing_energy_is_in_proportion};
use crate::schedule::{
    ChargingSchedule, ChargingSchedulePeriod, ChargingScheduleState, ScheduleView, DEFAULT_LIMIT,
    in_order, law_added_periods_in_order,
};
use crate::time::{
    CALENDAR_END, CALENDAR_START, LocalTime, Moment, NANOS_PER_DAY, NANOS_PER_SEC, NoSingleInstant,
    TimeOfDay, Timestamp, instant_of, read_clock,
};

verus! {

/// A period whose end comes before its start.
#[derive(Debug, Clone, Copy, PartialEq, Eq, Structural)]
pub enum ChargingScheduleError {
    EndEarlierThanStart { start: LocalTime, end: LocalTime },
}

/// A period of which the end is not chosen yet.
#[derive(Debug, Clone, Copy, PartialEq, Eq, Structural)]
pub struct ChargingSchedulePeriodBuilderNoEnd {
    pub start: LocalTime,
    pub limit: u32,
}

#[derive(Debug, Clone, Copy, PartialEq, Eq, Structural)]
pub struct ChargingSchedulePeriodBuilder(pub ChargingSchedulePeriod);

impl ChargingSchedulePeriod {
    pub fn builder(start: LocalTime) -> (r: ChargingSchedulePeriodBuilderNoEnd)
        ensures
            r == (ChargingSchedulePeriodBuilderNoEnd { start, limit: DEFAULT_LIMIT }),
    {
        ChargingSchedulePeriodBuilderNoEnd { start, limit: DEFAULT_LIMIT }
    }

    /// A period that starts at the given time of the given day.
    pub fn builder_starting_on(day: i64, start_time: TimeOfDay) -> (r:
        ChargingSchedulePeriodBuilderNoEnd)
        requires
            -1_000_000_000 < day < 1_000_000_000,
        ensures
            r == (ChargingSchedulePeriodBuilderNoEnd {
                start: LocalTime::spec_on_day(day as int, start_time),
                limit: DEFAULT_LIMIT,
            }),
    {
        ChargingSchedulePeriod::builder(LocalTime::on_day(day, start_time))
    }

    /// A period that starts at the given time of the day that the clock shows.
    pub fn builder_starting_today(start_time: TimeOfDay) -> (r: ChargingSchedulePeriodBuilderNoEnd)
        ensures
            exists|now: Moment| #[trigger]
                now.valid() && r == (ChargingSchedulePeriodBuilderNoEnd {
                    start: LocalTime::spec_on_day(now.local.spec_day(), start_time),
                    limit: DEFAULT_LIMIT,
                }),
    {
        let now = read_clock();
        ChargingSchedulePeriod::builder_starting_on(now.local.day(), start_time)
    }

    /// A period that starts at the given time of the day after the one that the clock shows.
    pub fn builder_starting_tomorrow(start_time: TimeOfDay) -> (r:
        ChargingSchedulePeriodBuilderNoEnd)
        ensures
            exists|now: Moment| #[trigger]
                now.valid() && r == (ChargingSchedulePeriodBuilderNoEnd {
                    start: LocalTime::spec_on_day(now.local.spec_day() + 1, start_time),
                    limit: DEFAULT_LIMIT,
                }),
    {
        let now = read_clock();
        ChargingSchedulePeriod::builder_starting_on(now.local.day() + 1, start_time)
    }
}

/// The first time after `start`, or at `start` a day later, at which the clock shows `end_time`.
pub open spec fn next_time(start: LocalTime, end_time: TimeOfDay) -> LocalTime {
    if start.spec_time().before(end_time) {
        LocalTime::spec_on_day(start.spec_day(), end_time)
    } else {
        LocalTime::spec_on_day(start.spec_day() + 1, end_time)
    }
}

impl ChargingSchedulePeriodBuilderNoEnd {
    pub fn limit(self, limit: u32) -> (r: Self)
        ensures
            r == (ChargingSchedulePeriodBuilderNoEnd { limit, ..self }),
    {
        ChargingSchedulePeriodBuilderNoEnd { limit, ..self }
    }

    /// Lets the period last for a number of nanoseconds.
    pub fn duration(self, duration: i128) -> (r: ChargingSchedulePeriodBuilder)
        requires
            LocalTime::holds(self.start@ + duration),
        ensures
            r.0 == (ChargingSchedulePeriod {
                start: self.start,
                end: self.start.spec_plus(duration as int),
                limit: self.limit,
            }),
    {
        ChargingSchedulePeriodBuilder(
            ChargingSchedulePeriod {
                start: self.start,
                end: self.start.plus(duration),
                limit: self.limit,
            },
        )
    }

    /// Lets the period last until a wall clock time, which must not come before its start.
    pub fn end(self, end: LocalTime) -> (r: Result<
        ChargingSchedulePeriodBuilder,
        ChargingScheduleError,
    >)
        ensures
            match r {
                Ok(builder) => !end.before(self.start) && builder.0 == (ChargingSchedulePeriod {
                    start: self.start,
                    end,
                    limit: self.limit,
                }),
                Err(e) => end.before(self.start) && e == (
                ChargingScheduleError::EndEarlierThanStart { start: self.start, end }),
            },
    {
        if end.is_before(self.start) {
            return Err(ChargingScheduleError::EndEarlierThanStart { start: self.start, end });
        }
        Ok(
            ChargingSchedulePeriodBuilder(
                ChargingSchedulePeriod { start: self.start, end, limit: self.limit },
            ),
        )
    }

    /// Lets the period last until the clock shows the given time, the next day if need be.
    pub fn end_time(self, end_time: TimeOfDay) -> (r: ChargingSchedulePeriodBuilder)
        requires
            i64::MIN + 100_000 <= self.start.secs <= i64::MAX - 200_000,
            end_time.valid(),
        ensures
            r.0 == (ChargingSchedulePeriod {
                start: self.start,
                end: next_time(self.start, end_time),
                limit: self.limit,
            }),
    {
        let end_day = if self.start.time().is_before(end_time) {
            self.start.day()
        } else {
            self.start.day() + 1
        };
        ChargingSchedulePeriodBuilder(
            ChargingSchedulePeriod {
                start: self.start,
                end: LocalTime::on_day(end_day, end_time),
                limit: self.limit,
            },
        )
    }
}

impl ChargingSchedulePeriodBuilder {
    pub fn limit(self, limit: u32) -> (r: Self)
        ensures
            r.0 == (ChargingSchedulePeriod { limit, ..self.0 }),
    {
        ChargingSchedulePeriodBuilder(ChargingSchedulePeriod { limit, ..self.0 })
    }

    pub fn build(self) -> (r: ChargingSchedulePeriod)
        ensures
            r == self.0,
    {
        self.0
    }
}

/// A period that lasts until a time of day ends less than or exactly a day after its start, and
/// never before it.
pub proof fn law_next_time_within_a_day(start: LocalTime, end_time: TimeOfDay)
    requires
        i64::MIN + 100_000 <= start.secs <= i64::MAX - 200_000,
        start.subsec < NANOS_PER_SEC,
        end_time.valid(),
        end_time.subsec < NANOS_PER_SEC,
    ensures
        start@ < next_time(start, end_time)@ <= start@ + NANOS_PER_DAY,
{
}

/// How the user wants the EV to be charged.
#[derive(Debug, Copy, Clone, PartialEq, Eq, Structural)]
pub enum ChargingPlan {
    /// Not at all.
    Blocking,
    /// During today's hours of low demand.
    OffPeakToday { power_limit: u32 },
    /// During tomorrow's hours of low demand.
    OffPeakTomorrow { power_limit: u32 },
    /// So that the limit on the state of charge is reached at the given time.
    ReachSocCapBefore { end_time: TimeOfDay, power_limit: u32 },
    /// At once.
    NoLimit,
}

pub open spec fn spec_hours_minutes(hours: u32, minutes: u32) -> TimeOfDay {
    TimeOfDay { secs: (hours * 3600 + minutes * 60) as u32, subsec: 0 }
}

fn hours_minutes(hours: u32, minutes: u32) -> (r: TimeOfDay)
    requires
        hours < 24,
        minutes < 60,
    ensures
        r == spec_hours_minutes(hours, minutes),
        r.valid(),
{
    TimeOfDay { secs: hours * 3600 + minutes * 60, subsec: 0 }
}

/// The period between two times of one day.
pub open spec fn period_on_day(
    day: int,
    start: TimeOfDay,
    end: TimeOfDay,
    limit: u32,
) -> ChargingSchedulePeriod {
    ChargingSchedulePeriod {
        start: LocalTime::spec_on_day(day, start),
        end: LocalTime::spec_on_day(day, end),
        limit,
    }
}

/// A schedule for a day's hours of low demand: 01:28 to 06:58, and 13:58 to 16:28.
pub open spec fn off_peak_schedule(set_time: Timestamp, day: int, limit: u32) -> ScheduleView {
    ScheduleView::blank(ChargingScheduleState::Active, set_time).with_period(
        period_on_day(day, spec_hours_minutes(1, 28), spec_hours_minutes(6, 58), limit),
    ).with_period(
        period_on_day(day, spec_hours_minutes(13, 58), spec_hours_minutes(16, 28), limit),
    )
}

fn off_peak(set_time: Timestamp, day: i64, limit: u32) -> (r: ChargingSchedule)
    requires
        -1_000_000_000 < day < 1_000_000_000,
    ensures
        r@ == off_peak_schedule(set_time, day as int, limit),
{
    let morning = period_between(day, hours_minutes(1, 28), hours_minutes(6, 58), limit);
    let afternoon = period_between(day, hours_minutes(13, 58), hours_minutes(16, 28), limit);
    ChargingSchedule::set_at(ChargingScheduleState::Active, set_time).add_period(
        morning,
    ).add_period(afternoon)
}

fn period_between(day: i64, start: TimeOfDay, end: TimeOfDay, limit: u32) -> (r:
    ChargingSchedulePeriod)
    requires
        -1_000_000_000 < day < 1_000_000_000,
        start.valid(),
        end.valid(),
        start.before(end),
    ensures
        r == period_on_day(day as int, start, end, limit),
{
    ChargingSchedulePeriod::builder_starting_on(day, start).end_time(end).limit(limit).build()
}

/// The seconds that it takes to add an energy, of which [`FULL_CHARGE`] units make one Wh, with
/// the given power (W).
pub open spec fn charge_seconds(energy: int, available_power: int) -> int {
    energy * 3600 / (available_power * FULL_CHARGE)
}

/// The longest charge that can be scheduled: the seconds of 2^63 - 1 milliseconds.
pub const MAX_CHARGE_SECONDS: i128 = 9_223_372_036_854_775;

/// A schedule must start later than this long (s) after it was computed.
pub const START_MARGIN: i64 = 120;

/// The start of a charge of the given duration (ns) that ends at `end_time`, a number of days after
/// today.
pub open spec fn reach_start(
    now: Moment,
    end_time: TimeOfDay,
    duration: int,
    days: int,
) -> LocalTime {
    LocalTime::spec_on_day(now.local.spec_day() + days, end_time).spec_plus(-duration)
}

/// Whether a charge that starts at an instant can still be scheduled.
pub open spec fn leaves_margin(now: Moment, instant: Timestamp) -> bool {
    ||| instant.secs > now.utc.secs + START_MARGIN
    ||| instant.secs == now.utc.secs + START_MARGIN && instant.subsec > now.utc.subsec
}

fn is_margin_left(now: Moment, instant: Timestamp) -> (r: bool)
    ensures
        r == leaves_margin(now, instant),
{
    let secs = now.utc.secs as i128 + START_MARGIN as i128;
    instant.secs as i128 > secs || (instant.secs as i128 == secs && instant.subsec
        > now.utc.subsec)
}

/// Whether a day, a number of days after today, is the one that decides on a charge, given the
/// instants of its start, one for each day from today on: on every day before, the charge would
/// have to start too early, and on that day it can still start, or its start is no single instant.
pub open spec fn decides(now: Moment, instants: Seq<Option<Timestamp>>, day: int) -> bool {
    &&& 0 <= day < instants.len()
    &&& instants[day] matches Some(instant) ==> leaves_margin(now, instant)
    &&& forall|i: int|
        #![trigger instants[i]]
        0 <= i < day ==> instants[i] is Some && !leaves_margin(now, instants[i]->0)
}

/// At most one day decides on a charge.
pub proof fn law_one_day_decides(
    now: Moment,
    instants: Seq<Option<Timestamp>>,
    day: int,
    other: int,
)
    requires
        decides(now, instants, day),
        decides(now, instants, other),
    ensures
        day == other,
{
    if day < other {
        assert(instants[day] is Some);
    }
    if other < day {
        assert(instants[other] is Some);
    }
}

/// A schedule with the one period of a charge.
pub open spec fn reach_schedule(
    set_time: Timestamp,
    start: LocalTime,
    duration: int,
    limit: u32,
) -> ScheduleView {
    ScheduleView::blank(ChargingScheduleState::Active, set_time).with_period(
        ChargingSchedulePeriod { start, end: start.spec_plus(duration), limit },
    )
}

/// Whether `schedule` is that of a charge, given the instants of its start, one for each day from
/// today on: the charge starts on the day that decides.
pub open spec fn is_charge(
    now: Moment,
    end_time: TimeOfDay,
    duration: int,
    power_limit: u32,
    instants: Seq<Option<Timestamp>>,
    schedule: ScheduleView,
) -> bool {
    exists|day: int| #[trigger]
        decides(now, instants, day) && instants[day] is Some && schedule == reach_schedule(
            now.utc,
            reach_start(now, end_time, duration, day),
            duration,
            power_limit,
        )
}

/// Whether a charge ends in the given error, given the instants of its start, one for each day from
/// today on: its start on the day that decides is no single instant, and the error names it.
pub open spec fn is_charge_error(
    now: Moment,
    end_time: TimeOfDay,
    duration: int,
    instants: Seq<Option<Timestamp>>,
    error: NoSingleInstant,
) -> bool {
    exists|day: int| #[trigger]
        decides(now, instants, day) && instants[day] is None && error.0 == reach_start(
            now,
            end_time,
            duration,
            day,
        )
}

/// Whether none of the days decides on a charge.
pub open spec fn is_undecided(now: Moment, instants: Seq<Option<Timestamp>>) -> bool {
    forall|day: int| !#[trigger] decides(now, instants, day)
}

/// What is known of the instants at which a charge would have to start, one for each day from today
/// on: those that there are belong to the calendar and are less than a day off the same reading in
/// UTC. The time zone decides on the rest.
pub open spec fn resolves_starts(
    now: Moment,
    end_time: TimeOfDay,
    duration: int,
    instants: Seq<Option<Timestamp>>,
) -> bool {
    forall|i: int|
        #![trigger instants[i]]
        0 <= i < instants.len() && instants[i] is Some ==> {
            &&& instants[i]->0.in_calendar()
            &&& -NANOS_PER_DAY < instants[i]->0@ - reach_start(now, end_time, duration, i)@
                < NANOS_PER_DAY
        }
}

impl ChargingPlan {
    /// Whether a charge can be scheduled: there is power to charge with, and the charge does not
    /// take too long.
    pub open spec fn feasible(self, bms: Bms) -> bool {
        self matches ChargingPlan::ReachSocCapBefore { end_time, power_limit } ==> {
            &&& end_time.valid()
            &&& bms.missing_energy(bms.spec_soc_cap()) matches Some(energy) ==> {
                &&& power_limit > bms.constant_power_loss
                &&& charge_seconds(energy, power_limit - bms.constant_power_loss)
                    <= MAX_CHARGE_SECONDS
            }
        }
    }

    pub fn is_feasible(&self, bms: &Bms) -> (r: bool)
        ensures
            r == self.feasible(*bms),
    {
        match *self {
            ChargingPlan::ReachSocCapBefore { end_time, power_limit } => {
                if !(end_time.secs < 86_400 && end_time.subsec < 2_000_000_000) {
                    return false;
                }
                match bms.energy_to_soc(bms.soc_cap()) {
                    Some(energy) => {
                        power_limit > bms.constant_power_loss as u32 && charge_duration(
                            energy,
                            power_limit - bms.constant_power_loss as u32,
                        ) <= MAX_CHARGE_SECONDS
                    },
                    None => true,
                }
            },
            _ => true,
        }
    }

    /// The duration (ns) of the charge that the plan asks for, where it adds the given energy.
    pub open spec fn charge_nanos(self, bms: Bms, energy: int) -> int {
        match self {
            ChargingPlan::ReachSocCapBefore { power_limit, .. } => charge_seconds(
                energy,
                power_limit - bms.constant_power_loss,
            ) * NANOS_PER_SEC,
            _ => 0,
        }
    }

    /// Whether `schedule` is what the plan comes to when it is made at `now`, given the instants of
    /// the start of its charge, one for each day from today on.
    pub open spec fn comes_to(
        self,
        bms: Bms,
        now: Moment,
        instants: Seq<Option<Timestamp>>,
        schedule: Option<ScheduleView>,
    ) -> bool {
        match self {
            ChargingPlan::Blocking => schedule == Some(
                ScheduleView::blank(ChargingScheduleState::Active, now.utc),
            ),
            ChargingPlan::OffPeakToday { power_limit } => schedule == Some(
                off_peak_schedule(now.utc, now.local.spec_day(), power_limit),
            ),
            ChargingPlan::OffPeakTomorrow { power_limit } => schedule == Some(
                off_peak_schedule(now.utc, now.local.spec_day() + 1, power_limit),
            ),
            ChargingPlan::ReachSocCapBefore { end_time, power_limit } => match bms.missing_energy(
                bms.spec_soc_cap(),
            ) {
                None => schedule is None,
                Some(energy) => schedule is Some && is_charge(
                    now,
                    end_time,
                    self.charge_nanos(bms, energy),
                    power_limit,
                    instants,
                    schedule->0,
                ),
            },
            ChargingPlan::NoLimit => schedule is None,
        }
    }

    /// Whether the plan ends in the given error when it is made at `now`, given the instants of the
    /// start of its charge, one for each day from today on.
    pub open spec fn fails_with(
        self,
        bms: Bms,
        now: Moment,
        instants: Seq<Option<Timestamp>>,
        error: NoSingleInstant,
    ) -> bool {
        match (self, bms.missing_energy(bms.spec_soc_cap())) {
            (ChargingPlan::ReachSocCapBefore { end_time, .. }, Some(energy)) => is_charge_error(
                now,
                end_time,
                self.charge_nanos(bms, energy),
                instants,
                error,
            ),
            _ => false,
        }
    }

    /// Whether the plan asks for a charge and none of the days decides on it.
    pub open spec fn undecided(
        self,
        bms: Bms,
        now: Moment,
        instants: Seq<Option<Timestamp>>,
    ) -> bool {
        &&& self is ReachSocCapBefore
        &&& bms.missing_energy(bms.spec_soc_cap()) is Some
        &&& is_undecided(now, instants)
    }

    /// What is known of the instants of the start of the charge that the plan asks for, if it does.
    pub open spec fn resolves(
        self,
        bms: Bms,
        now: Moment,
        instants: Seq<Option<Timestamp>>,
    ) -> bool {
        match (self, bms.missing_energy(bms.spec_soc_cap())) {
            (ChargingPlan::ReachSocCapBefore { end_time, .. }, Some(energy)) => resolves_starts(
                now,
                end_time,
                self.charge_nanos(bms, energy),
                instants,
            ),
            _ => true,
        }
    }

    /// Whether `schedule` is what the plan can come to in some time zone.
    pub open spec fn can_come_to(
        self,
        bms: Bms,
        now: Moment,
        schedule: Option<ScheduleView>,
    ) -> bool {
        exists|instants: Seq<Option<Timestamp>>| #[trigger]
            self.resolves(bms, now, instants) && self.comes_to(bms, now, instants, schedule)
    }

    /// Whether the plan can end in the given error in some time zone.
    pub open spec fn can_fail_with(self, bms: Bms, now: Moment, error: NoSingleInstant) -> bool {
        exists|instants: Seq<Option<Timestamp>>| #[trigger]
            self.resolves(bms, now, instants) && self.fails_with(bms, now, instants, error)
    }

    /// Makes the schedule that the plan comes to when the clock shows `now`, given the instants of
    /// the start of its charge, one for each day from today on. There is none where none of the days
    /// decides on the charge.
    pub fn to_charging_schedule_by(
        &self,
        bms: &Bms,
        now: Moment,
        instants: &Vec<Option<Timestamp>>,
    ) -> (r: Option<Result<Option<ChargingSchedule>, NoSingleInstant>>)
        requires
            now.valid(),
            self.feasible(*bms),
            instants@.len() <= MAX_CHARGE_DAYS,
        ensures
            match r {
                Some(Ok(schedule)) => self.comes_to(*bms, now, instants@, option_view(schedule)),
                Some(Err(e)) => self.fails_with(*bms, now, instants@, e),
                None => self.undecided(*bms, now, instants@),
            },
    {
        match *self {
            ChargingPlan::Blocking => Some(
                Ok(Some(ChargingSchedule::set_at(ChargingScheduleState::Active, now.utc))),
            ),
            ChargingPlan::OffPeakToday { power_limit } => Some(
                Ok(Some(off_peak(now.utc, now.local.day(), power_limit))),
            ),
            ChargingPlan::OffPeakTomorrow { power_limit } => Some(
                Ok(Some(off_peak(now.utc, now.local.day() + 1, power_limit))),
            ),
            ChargingPlan::ReachSocCapBefore { end_time, power_limit } => {
                let seconds = match self.needed_seconds(bms) {
                    Some(seconds) => seconds,
                    None => {
                        return Some(Ok(None));
                    },
                };
                match charge_by_instants(now, end_time, seconds, power_limit, instants) {
                    Some(Ok(schedule)) => Some(Ok(Some(schedule))),
                    Some(Err(e)) => Some(Err(e)),
                    None => None,
                }
            },
            ChargingPlan::NoLimit => Some(Ok(None)),
        }
    }

    /// The duration (s) of the charge that the plan asks for, where it does.
    fn needed_seconds(&self, bms: &Bms) -> (r: Option<i128>)
        requires
            self.feasible(*bms),
        ensures
            match (*self, bms.missing_energy(bms.spec_soc_cap())) {
                (ChargingPlan::ReachSocCapBefore { .. }, Some(energy)) => {
                    &&& r is Some
                    &&& r->0 * NANOS_PER_SEC == self.charge_nanos(*bms, energy)
                    &&& 0 <= r->0 <= MAX_CHARGE_SECONDS
                },
                _ => r is None,
            },
    {
        match *self {
            ChargingPlan::ReachSocCapBefore { power_limit, .. } => {
                match bms.energy_to_soc(bms.soc_cap()) {
                    Some(energy_to_add) => {
                        let available_power = power_limit - bms.constant_power_loss as u32;
                        Some(charge_duration(energy_to_add, available_power))
                    },
                    None => None,
                }
            },
            _ => None,
        }
    }

    /// Makes the schedule that the plan comes to when the clock shows `now`, in the machine's time
    /// zone.
    pub fn to_charging_schedule_at(&self, bms: &Bms, now: Moment) -> (r: Result<
        Option<ChargingSchedule>,
        NoSingleInstant,
    >)
        requires
            now.valid(),
            self.feasible(*bms),
        ensures
            r matches Ok(schedule) ==> self.can_come_to(*bms, now, option_view(schedule)),
            r matches Err(e) ==> self.can_fail_with(*bms, now, e),
    {
        let instants = match (*self, self.needed_seconds(bms)) {
            (ChargingPlan::ReachSocCapBefore { end_time, .. }, Some(seconds)) => {
                start_instants(now, end_time, seconds)
            },
            _ => Vec::new(),
        };
        assert(self.resolves(*bms, now, instants@));
        match self.to_charging_schedule_by(bms, now, &instants) {
            Some(r) => r,
            None => {
                // the last of the instants decides
                assert(false);
                Ok(None)
            },
        }
    }

    /// Makes the schedule that the plan comes to now, in the machine's time zone.
    pub fn to_charging_schedule(&self, bms: &Bms) -> (r: Result<
        Option<ChargingSchedule>,
        NoSingleInstant,
    >)
        requires
            self.feasible(*bms),
        ensures
            r matches Ok(schedule) ==> exists|now: Moment| #[trigger]
                now.valid() && self.can_come_to(*bms, now, option_view(schedule)),
            r matches Err(e) ==> exists|now: Moment| #[trigger]
                now.valid() && self.can_fail_with(*bms, now, e),
    {
        let now = read_clock();
        self.to_charging_schedule_at(bms, now)
    }
}

pub open spec fn option_view(schedule: Option<ChargingSchedule>) -> Option<ScheduleView> {
    match schedule {
        Some(schedule) => Some(schedule@),
        None => None,
    }
}

fn charge_duration(energy: i128, available_power: u32) -> (seconds: i128)
    requires
        0 <= energy <= u32::MAX * u64::MAX,
        available_power > 0,
    ensures
        seconds == charge_seconds(energy as int, available_power as int),
        seconds >= 0,
{
    let divisor = available_power as i128 * FULL_CHARGE as i128;
    proof {
        let e = energy * 3600;
        let d = divisor as int;
        assert(0 <= e / d <= e) by (nonlinear_arith)
            requires
                e >= 0,
                d >= 1,
        ;
    }
    energy * 3600 / divisor
}

/// The most days that a charge is looked for a start on. The calendar has less.
pub const MAX_CHARGE_DAYS: usize = 1_000_000_000;

fn start_on(now: Moment, end_time: TimeOfDay, duration: i128, days: i64) -> (r: LocalTime)
    requires
        now.valid(),
        end_time.valid(),
        0 <= duration <= MAX_CHARGE_SECONDS * NANOS_PER_SEC,
        0 <= days <= MAX_CHARGE_DAYS,
    ensures
        r == reach_start(now, end_time, duration as int, days as int),
        r@ == (now.local.spec_day() + days) * NANOS_PER_DAY + end_time@ - duration,
        LocalTime::holds(r@ + duration),
{
    LocalTime::on_day(now.local.day() + days, end_time).plus(-duration)
}

/// Schedules a charge of the given duration (s) and power, to end at `end_time`, given the instants
/// at which it would have to start, one for each day from today on: the first day on which the
/// charge can still start is the one. An error names the start of a day that comes before any such
/// day and is no single instant. Nothing comes of it where the charge would have to start too early
/// on all of the days.
pub fn charge_by_instants(
    now: Moment,
    end_time: TimeOfDay,
    seconds: i128,
    power_limit: u32,
    instants: &Vec<Option<Timestamp>>,
) -> (r: Option<Result<ChargingSchedule, NoSingleInstant>>)
    requires
        now.valid(),
        end_time.valid(),
        0 <= seconds <= MAX_CHARGE_SECONDS,
        instants@.len() <= MAX_CHARGE_DAYS,
    ensures
        match r {
            Some(Ok(schedule)) => is_charge(
                now,
                end_time,
                seconds * NANOS_PER_SEC,
                power_limit,
                instants@,
                schedule@,
            ),
            Some(Err(e)) => is_charge_error(
                now,
                end_time,
                seconds * NANOS_PER_SEC,
                instants@,
                e,
            ),
            None => is_undecided(now, instants@),
        },
{
    let duration = seconds * NANOS_PER_SEC;
    let mut day: usize = 0;
    while day < instants.len()
        invariant
            now.valid(),
            end_time.valid(),
            0 <= seconds <= MAX_CHARGE_SECONDS,
            duration == seconds * NANOS_PER_SEC,
            day <= instants@.len() <= MAX_CHARGE_DAYS,
            forall|i: int|
                #![trigger instants@[i]]
                0 <= i < day ==> instants@[i] is Some && !leaves_margin(now, instants@[i]->0),
        decreases instants.len() - day,
    {
        match instants[day] {
            Some(instant) => {
                if is_margin_left(now, instant) {
                    let start = start_on(now, end_time, duration, day as i64);
                    assert(decides(now, instants@, day as int));
                    let period = ChargingSchedulePeriod::builder(start).duration(duration).limit(
                        power_limit,
                    ).build();
                    return Some(
                        Ok(
                            ChargingSchedule::set_at(
                                ChargingScheduleState::Active,
                                now.utc,
                            ).add_period(period),
                        ),
                    );
                }
            },
            None => {
                assert(decides(now, instants@, day as int));
                return Some(Err(NoSingleInstant(start_on(now, end_time, duration, day as i64))));
            },
        }
        day = day + 1;
    }
    None
}

/// Finds the instants, in the machine's time zone, at which a charge of the given duration (s) would
/// have to start to end at `end_time`, one for each day from today on, up to the day that decides.
fn start_instants(now: Moment, end_time: TimeOfDay, seconds: i128) -> (r: Vec<Option<Timestamp>>)
    requires
        now.valid(),
        end_time.valid(),
        0 <= seconds <= MAX_CHARGE_SECONDS,
    ensures
        r@.len() <= MAX_CHARGE_DAYS,
        resolves_starts(now, end_time, seconds * NANOS_PER_SEC, r@),
        decides(now, r@, r@.len() - 1),
{
    let duration = seconds * NANOS_PER_SEC;
    let ghost first = now.local.spec_day() * NANOS_PER_DAY + end_time@ - duration;
    let mut instants: Vec<Option<Timestamp>> = Vec::new();
    let mut day: i64 = 0;
    loop
        invariant
            now.valid(),
            end_time.valid(),
            0 <= seconds <= MAX_CHARGE_SECONDS,
            duration == seconds * NANOS_PER_SEC,
            first == now.local.spec_day() * NANOS_PER_DAY + end_time@ - duration,
            day == instants@.len(),
            0 <= day <= 300_000_000,
            day > 0 ==> first > CALENDAR_START * NANOS_PER_SEC - NANOS_PER_DAY,
            resolves_starts(now, end_time, duration as int, instants@),
            forall|i: int|
                #![trigger instants@[i]]
                0 <= i < day ==> instants@[i] is Some && !leaves_margin(now, instants@[i]->0),
        decreases 300_000_000 - day,
    {
        let start = start_on(now, end_time, duration, day);
        let instant = instant_of(start);
        instants.push(instant);
        let decided = match instant {
            Some(instant) => is_margin_left(now, instant),
            None => true,
        };
        if decided {
            assert(decides(now, instants@, instants@.len() - 1));
            return instants;
        }
        proof {
            assert(start@ == first + day * NANOS_PER_DAY);
            assert(start@ < CALENDAR_END * NANOS_PER_SEC + 2 * NANOS_PER_DAY);
            assert(day < 300_000_000);
        }
        day = day + 1;
    }
}

/// A charge that is scheduled to reach the limit on the state of charge ends when the clock shows
/// the time asked for, today or on a later day, and its one period lasts exactly as long as the
/// charge, with the power that the charge was reckoned with.
pub proof fn law_reach_ends_on_time(
    now: Moment,
    end_time: TimeOfDay,
    duration: int,
    power_limit: u32,
    day: int,
)
    requires
        now.valid(),
        end_time.valid(),
        end_time.subsec < NANOS_PER_SEC,
        0 <= duration <= MAX_CHARGE_SECONDS * NANOS_PER_SEC,
        0 <= day <= MAX_CHARGE_DAYS,
    ensures
        ({
            let start = reach_start(now, end_time, duration, day);
            let schedule = reach_schedule(now.utc, start, duration, power_limit);
            let period = schedule.periods[start.spec_key() as i128];
            &&& schedule.periods.dom() =~= set![start.spec_key() as i128]
            &&& schedule.state is Active
            &&& period.start == start
            &&& period.limit == power_limit
            &&& period.end.spec_since(period.start) == duration
            &&& period.end.spec_time() == end_time
            &&& period.end.spec_day() == now.local.spec_day() + day
        }),
{
}

/// Whether the clocks are a constant number of nanoseconds ahead of UTC, at `now` and at each of the
/// instants at which a charge would have to start.
pub open spec fn offset_is_constant(
    now: Moment,
    end_time: TimeOfDay,
    duration: int,
    instants: Seq<Option<Timestamp>>,
    offset: int,
) -> bool {
    &&& now.local@ == now.utc@ + offset
    &&& forall|i: int|
        #![trigger instants[i]]
        0 <= i < instants.len() ==> {
            &&& instants[i] is Some
            &&& instants[i]->0.plain()
            &&& instants[i]->0@ + offset == reach_start(now, end_time, duration, i)@
        }
}

/// With a constant offset from UTC, the charge starts on the earliest day that leaves the margin: it
/// starts more than the margin from now, and a day earlier it would not have.
pub proof fn law_reach_starts_on_earliest_day(
    now: Moment,
    end_time: TimeOfDay,
    duration: int,
    instants: Seq<Option<Timestamp>>,
    offset: int,
    day: int,
)
    requires
        now.valid(),
        end_time.valid(),
        end_time.subsec < NANOS_PER_SEC,
        0 <= duration <= MAX_CHARGE_SECONDS * NANOS_PER_SEC,
        instants.len() <= MAX_CHARGE_DAYS,
        offset_is_constant(now, end_time, duration, instants, offset),
        decides(now, instants, day),
    ensures
        instants[day] is Some,
        ({
            let start = reach_start(now, end_time, duration, day);
            let margin = START_MARGIN * NANOS_PER_SEC;
            now.local@ + margin < start@ <= now.local@ + margin + NANOS_PER_DAY
        }),
{
    assert(instants[day] is Some);
    assert(reach_start(now, end_time, duration, day)@ == (now.local.spec_day() + day)
        * NANOS_PER_DAY + end_time@ - duration);
    if day > 0 {
        assert(instants[day - 1] is Some);
        assert(reach_start(now, end_time, duration, day - 1)@ == (now.local.spec_day() + day - 1)
            * NANOS_PER_DAY + end_time@ - duration);
    }
}

/// With a constant offset from UTC, a charge is always scheduled: there is a day that decides as
/// soon as the instants go on to one that leaves the margin.
pub proof fn law_reach_is_decided(
    now: Moment,
    end_time: TimeOfDay,
    duration: int,
    instants: Seq<Option<Timestamp>>,
    offset: int,
)
    requires
        now.valid(),
        offset_is_constant(now, end_time, duration, instants, offset),
        instants.len() > 0,
        reach_start(now, end_time, duration, instants.len() - 1)@ > now.local@ + START_MARGIN
            * NANOS_PER_SEC,
    ensures
        exists|day: int| #[trigger] decides(now, instants, day) && instants[day] is Some,
{
    assert(instants[instants.len() - 1] is Some);
    assert(leaves_margin(now, instants[instants.len() - 1]->0));
    let day = lemma_first_that_leaves_margin(now, instants, instants.len() - 1);
    assert(decides(now, instants, day) && instants[day] is Some);
}

proof fn lemma_first_that_leaves_margin(
    now: Moment,
    instants: Seq<Option<Timestamp>>,
    last: int,
) -> (day: int)
    requires
        0 <= last < instants.len(),
        forall|i: int| #![trigger instants[i]] 0 <= i < instants.len() ==> instants[i] is Some,
        leaves_margin(now, instants[last]->0),
    ensures
        decides(now, instants, day),
    decreases last,
{
    if exists|i: int| #![trigger instants[i]] 0 <= i < last && leaves_margin(now, instants[i]->0) {
        let i = choose|i: int|
            #![trigger instants[i]]
            0 <= i < last && leaves_margin(now, instants[i]->0);
        lemma_first_that_leaves_margin(now, instants, i)
    } else {
        assert(instants[last] is Some);
        last
    }
}

/// Whether a period is the stretch of a day between two times of it, in seconds since midnight, with
/// a power limit.
pub open spec fn is_stretch(
    period: ChargingSchedulePeriod,
    day: int,
    start: int,
    end: int,
    limit: u32,
) -> bool {
    &&& period.start.secs == 86_400 * day + start
    &&& period.start.subsec == 0
    &&& period.end.secs == 86_400 * day + end
    &&& period.end.subsec == 0
    &&& period.limit == limit
}

/// A plan to charge off the peak comes to a schedule in force, set now, with two periods: one from
/// 01:28 to 06:58, and one from 13:58 to 16:28, both with the power limit of the plan, on the day that
/// the clock on the wall shows, or on the day after it.
pub proof fn law_off_peak_hours(
    bms: Bms,
    now: Moment,
    instants: Seq<Option<Timestamp>>,
    power_limit: u32,
    today: Option<ScheduleView>,
    tomorrow: Option<ScheduleView>,
    day: int,
)
    requires
        now.valid(),
        86_400 * day <= now.local.secs < 86_400 * (day + 1),
        (ChargingPlan::OffPeakToday { power_limit }).comes_to(bms, now, instants, today),
        (ChargingPlan::OffPeakTomorrow { power_limit }).comes_to(bms, now, instants, tomorrow),
    ensures
        today is Some,
        tomorrow is Some,
        today->0.state is Active,
        tomorrow->0.state is Active,
        today->0.set_time == now.utc,
        tomorrow->0.set_time == now.utc,
        ({
            let periods = in_order(today->0.periods);
            &&& periods.len() == 2
            &&& is_stretch(periods[0], day, 5_280, 25_080, power_limit)
            &&& is_stretch(periods[1], day, 50_280, 59_280, power_limit)
        }),
        ({
            let periods = in_order(tomorrow->0.periods);
            &&& periods.len() == 2
            &&& is_stretch(periods[0], day + 1, 5_280, 25_080, power_limit)
            &&& is_stretch(periods[1], day + 1, 50_280, 59_280, power_limit)
        }),
{
    assert(now.local.spec_day() == day);
    lemma_off_peak(now.utc, day, power_limit);
    lemma_off_peak(now.utc, day + 1, power_limit);
}

proof fn lemma_off_peak(set_time: Timestamp, day: int, limit: u32)
    requires
        -1_000_000_000 < day < 1_000_000_000,
    ensures
        ({
            let periods = in_order(off_peak_schedule(set_time, day, limit).periods);
            &&& periods.len() == 2
            &&& is_stretch(periods[0], day, 5_280, 25_080, limit)
            &&& is_stretch(periods[1], day, 50_280, 59_280, limit)
        }),
{
    let first = period_on_day(day, spec_hours_minutes(1, 28), spec_hours_minutes(6, 58), limit);
    let second = period_on_day(day, spec_hours_minutes(13, 58), spec_hours_minutes(16, 28), limit);
    assert(is_stretch(first, day, 5_280, 25_080, limit));
    assert(is_stretch(second, day, 50_280, 59_280, limit));
    law_added_periods_in_order(ChargingScheduleState::Active, set_time, first, second);
}

/// A plan to block charging comes to a schedule in force without periods, set now. One without a
/// limit comes to none.
pub proof fn law_plans_without_a_power_limit(
    bms: Bms,
    now: Moment,
    instants: Seq<Option<Timestamp>>,
    blocking: Option<ScheduleView>,
    unlimited: Option<ScheduleView>,
)
    requires
        ChargingPlan::Blocking.comes_to(bms, now, instants, blocking),
        ChargingPlan::NoLimit.comes_to(bms, now, instants, unlimited),
    ensures
        blocking is Some,
        blocking->0.state is Active,
        blocking->0.set_time == now.utc,
        forall|key: i128| !#[trigger] blocking->0.periods.dom().contains(key),
        unlimited is None,
{
}

/// The time that a charge takes is that of its energy at the power that is left beside the loss, with
/// nothing lost but what does not make a second.
pub proof fn law_charge_takes_its_time(energy: int, available_power: int)
    requires
        energy >= 0,
        available_power > 0,
    ensures
        ({
            let seconds = charge_seconds(energy, available_power);
            &&& seconds >= 0
            &&& seconds * (available_power * 1_000_000_000_000) <= energy * 3_600
            &&& energy * 3_600 < (seconds + 1) * (available_power * 1_000_000_000_000)
        }),
{
    let work = energy * 3_600;
    let unit = available_power * 1_000_000_000_000;
    let seconds = work / unit;
    assert(seconds >= 0 && seconds * unit <= work < (seconds + 1) * unit) by (nonlinear_arith)
        requires
            unit > 0,
            work >= 0,
            seconds == work / unit,
    ;
}

/// An instant leaves the margin where it comes more than two minutes after now.
pub proof fn law_margin_is_two_minutes(now: Moment, instant: Timestamp)
    requires
        now.utc.plain(),
        instant.plain(),
    ensures
        leaves_margin(now, instant) <==> instant.secs * 1_000_000_000 + instant.subsec
            > now.utc.secs * 1_000_000_000 + now.utc.subsec + 120_000_000_000,
{
}

/// Whether a charge with the power limit of a plan has started late enough: its start, given the
/// instants of it one for each day from today on, is the first one that comes more than two minutes
/// after now.
pub open spec fn is_first_after_margin(
    now: Moment,
    instants: Seq<Option<Timestamp>>,
    day: int,
) -> bool {
    &&& 0 <= day < instants.len()
    &&& forall|i: int|
        #![trigger instants[i]]
        0 <= i <= day && instants[i] is Some && instants[i]->0.plain() ==> (
        instants[i]->0.secs * 1_000_000_000 + instants[i]->0.subsec > now.utc.secs * 1_000_000_000
            + now.utc.subsec + 120_000_000_000 <==> i == day)
    &&& forall|i: int| #![trigger instants[i]] 0 <= i < day ==> instants[i] is Some
}

/// A plan to reach the limit on the state of charge comes to a schedule in force, set now, with one
/// period. It has the power limit of the plan. It ends on the day that decides, at the time of the
/// plan, and lasts for as many seconds as the energy that is missing takes at the power that is left
/// beside the loss. The day that decides is the first one on which the period starts more than two
/// minutes after now. Where no energy is known to be missing, the plan comes to no schedule.
pub proof fn law_reach_comes_to_one_charge(
    bms: Bms,
    now: Moment,
    instants: Seq<Option<Timestamp>>,
    end_time: TimeOfDay,
    power_limit: u32,
    schedule: Option<ScheduleView>,
)
    requires
        now.valid(),
        end_time.secs < 86_400,
        end_time.subsec < 1_000_000_000,
        instants.len() <= 1_000_000_000,
        (ChargingPlan::ReachSocCapBefore { end_time, power_limit }).feasible(bms),
        (ChargingPlan::ReachSocCapBefore { end_time, power_limit }).comes_to(
            bms,
            now,
            instants,
            schedule,
        ),
    ensures
        ({
            let energy = bms.missing_energy(bms.spec_soc_cap());
            let periods = in_order(schedule->0.periods);
            let power = power_limit - bms.constant_power_loss;
            &&& energy is None ==> schedule is None
            &&& energy is Some ==> {
                &&& schedule is Some
                &&& schedule->0.state is Active
                &&& schedule->0.set_time == now.utc
                &&& periods.len() == 1
                &&& periods[0].limit == power_limit
                &&& periods[0].end.secs % 86_400 == end_time.secs
                &&& periods[0].end.subsec == end_time.subsec
                &&& exists|day: int|
                    {
                        &&& #[trigger] is_first_after_margin(now, instants, day)
                        &&& instants[day] is Some
                        &&& periods[0].end.secs == 86_400 * (now.local.spec_day() + day)
                            + end_time.secs
                    }
                &&& exists|seconds: int|
                    {
                        &&& #[trigger] takes(seconds, energy->0, power)
                        &&& periods[0].end@ - periods[0].start@ == seconds * 1_000_000_000
                    }
            }
        }),
{
    let plan = ChargingPlan::ReachSocCapBefore { end_time, power_limit };
    if let Some(energy) = bms.missing_energy(bms.spec_soc_cap()) {
        let power = power_limit - bms.constant_power_loss;
        let seconds = charge_seconds(energy, power);
        let duration = seconds * NANOS_PER_SEC;
        law_missing_energy_is_in_proportion(bms, bms.spec_soc_cap());
        let lack = bms.spec_soc_cap().spec_inner()->0 - bms.current_soc.spec_inner()->0;
        assert(energy >= 0) by {
            if lack > 0 {
                assert(lack * bms.capacity >= 0) by (nonlinear_arith)
                    requires
                        lack > 0,
                ;
            }
        }
        law_charge_takes_its_time(energy, power);
        assert(takes(seconds, energy, power));
        let day = choose|day: int| #[trigger]
            decides(now, instants, day) && instants[day] is Some && schedule->0 == reach_schedule(
                now.utc,
                reach_start(now, end_time, duration, day),
                duration,
                power_limit,
            );
        assert(decides(now, instants, day));
        assert(is_first_after_margin(now, instants, day)) by {
            assert forall|i: int|
                #![trigger instants[i]]
                0 <= i <= day && instants[i] is Some && instants[i]->0.plain() implies (
            instants[i]->0.secs * 1_000_000_000 + instants[i]->0.subsec > now.utc.secs
                * 1_000_000_000 + now.utc.subsec + 120_000_000_000 <==> i == day) by {
                law_margin_is_two_minutes(now, instants[i]->0);
            }
        }
        law_reach_ends_on_time(now, end_time, duration, power_limit, day);
        let start = reach_start(now, end_time, duration, day);
        let period = ChargingSchedulePeriod {
            start,
            end: start.spec_plus(duration),
            limit: power_limit,
        };
        let later = ChargingSchedulePeriod {
            start: LocalTime { secs: i64::MAX, subsec: u32::MAX },
            ..period
        };
        assert(start.subsec < 1_000_000_000);
        law_added_periods_in_order(ChargingScheduleState::Active, now.utc, period, later);
        assert(in_order(schedule->0.periods) == seq![period]);
        assert(period.end.spec_time() == end_time);
    }
}

/// Whether an energy takes a number of whole seconds to be charged with the given power.
pub open spec fn takes(seconds: int, energy: int, power: int) -> bool {
    &&& seconds * (power * 1_000_000_000_000) <= energy * 3_600
    &&& energy * 3_600 < (seconds + 1) * (power * 1_000_000_000_000)
}

/// A plan can be made wherever no charge is asked for. A charge needs a time of day to end at. Where
/// energy is known to be missing it needs more power than is lost, and must not take longer than the
/// seconds of 2^63 - 1 milliseconds.
pub proof fn law_when_feasible(plan: ChargingPlan, bms: Bms)
    ensures
        plan !is ReachSocCapBefore ==> plan.feasible(bms),
        plan matches ChargingPlan::ReachSocCapBefore { end_time, power_limit } ==> {
            let energy = bms.missing_energy(bms.spec_soc_cap());
            let power = power_limit - bms.constant_power_loss;
            let is_time = end_time.secs < 86_400 && end_time.subsec < 2_000_000_000;
            plan.feasible(bms) <==> is_time && (energy is Some ==> power > 0 && charge_seconds(
                energy->0,
                power,
            ) <= 9_223_372_036_854_775)
        },
{
}

/// A period that lasts until a time of day ends when the clock shows that time.
pub proof fn law_next_time_is_at_end_time(start: LocalTime, end_time: TimeOfDay)
    requires
        i64::MIN + 100_000 <= start.secs <= i64::MAX - 200_000,
        end_time.secs < 86_400,
    ensures
        next_time(start, end_time).secs % 86_400 == end_time.secs,
        next_time(start, end_time).subsec == end_time.subsec,
        start.before(next_time(start, end_time)),
        next_time(start, end_time).secs - start.secs <= 86_400,
{
}

/// A plan fails only where it asks for a charge, and where energy is known to be missing. The error
/// names the start on the day that decides, which is no single instant, with the days before it not
/// leaving the margin: what is left until the time of the plan on that day is the time that the charge
/// takes.
pub proof fn law_failure_names_the_start(
    plan: ChargingPlan,
    bms: Bms,
    now: Moment,
    instants: Seq<Option<Timestamp>>,
    error: NoSingleInstant,
)
    requires
        now.valid(),
        instants.len() <= 1_000_000_000,
        plan.feasible(bms),
        plan.fails_with(bms, now, instants, error),
    ensures
        plan is ReachSocCapBefore,
        bms.missing_energy(bms.spec_soc_cap()) is Some,
        plan matches ChargingPlan::ReachSocCapBefore { end_time, power_limit }
            ==> end_time.subsec < 1_000_000_000 ==> exists|day: int|
            {
                &&& #[trigger] is_first_after_margin(now, instants, day)
                &&& instants[day] is None
                &&& error.0@ == 86_400_000_000_000 * (now.local.spec_day() + day) + end_time.secs
                    * 1_000_000_000 + end_time.subsec - charge_seconds(
                    bms.missing_energy(bms.spec_soc_cap())->0,
                    power_limit - bms.constant_power_loss,
                ) * 1_000_000_000
            },
{
    if let ChargingPlan::ReachSocCapBefore { end_time, power_limit } = plan {
        let energy = bms.missing_energy(bms.spec_soc_cap())->0;
        let duration = plan.charge_nanos(bms, energy);
        let day = choose|day: int| #[trigger]
            decides(now, instants, day) && instants[day] is None && error.0 == reach_start(
                now,
                end_time,
                duration,
                day,
            );
        assert(decides(now, instants, day));
        if end_time.subsec < 1_000_000_000 {
            law_missing_energy_is_in_proportion(bms, bms.spec_soc_cap());
            let lack = bms.spec_soc_cap().spec_inner()->0 - bms.current_soc.spec_inner()->0;
            if lack > 0 {
                assert(lack * bms.capacity >= 0) by (nonlinear_arith)
                    requires
                        lack > 0,
                ;
            }
            law_charge_takes_its_time(energy, power_limit - bms.constant_power_loss);
            assert(is_first_after_margin(now, instants, day)) by {
                assert forall|i: int|
                    #![trigger instants[i]]
                    0 <= i <= day && instants[i] is Some && instants[i]->0.plain() implies (
                instants[i]->0.secs * 1_000_000_000 + instants[i]->0.subsec > now.utc.secs
                    * 1_000_000_000 + now.utc.subsec + 120_000_000_000 <==> i == day) by {
                    law_margin_is_two_minutes(now, instants[i]->0);
                }
            }
            law_reach_ends_on_time(now, end_time, duration, power_limit, day);
        }
    }
}

/// What a plan can come to is what it comes to given the instants of the start of its charge, one for
/// each day from today on: each, where there is one, belongs to the calendar, and is less than a day
/// off the same reading in UTC.
pub proof fn law_what_a_plan_can_come_to(
    plan: ChargingPlan,
    bms: Bms,
    now: Moment,
    schedule: Option<ScheduleView>,
)
    requires
        plan.can_come_to(bms, now, schedule),
    ensures
        exists|instants: Seq<Option<Timestamp>>|
            {
                &&& #[trigger] plan.comes_to(bms, now, instants, schedule)
                &&& plan is ReachSocCapBefore && bms.missing_energy(bms.spec_soc_cap()) is Some
                    ==> forall|i: int|
                    #![trigger instants[i]]
                    0 <= i < instants.len() && instants[i] is Some ==> {
                        let start = reach_start(
                            now,
                            plan->end_time,
                            plan.charge_nanos(bms, bms.missing_energy(bms.spec_soc_cap())->0),
                            i,
                        );
                        &&& -8_334_601_228_800 <= instants[i]->0.secs <= 8_210_266_876_799
                        &&& -86_400_000_000_000 < instants[i]->0@ - start@ < 86_400_000_000_000
                    }
            },
{
    let instants = choose|instants: Seq<Option<Timestamp>>| #[trigger]
        plan.resolves(bms, now, instants) && plan.comes_to(bms, now, instants, schedule);
    assert(plan.comes_to(bms, now, instants, schedule));
}

} // verus!
