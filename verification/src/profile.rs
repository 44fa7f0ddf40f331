//! Charging profiles: a schedule as the charging point is told it.
//!
//! The charging point takes a list of power limits, each in force from a number of seconds after
//! the start of the schedule until the next one.
use vstd::prelude::*;

use crate::schedule::{ChargingSchedule, ChargingSchedulePeriod, in_order, DEFAULT_NB_OF_PHASES};
use crate::time::{
    LocalTime, NoSingleInstant, Timestamp, duration_profile_seconds, duration_seconds, instant_of,
    law_profile_seconds_fit, profile_seconds, whole_seconds, NANOS_PER_DAY,
};

verus! {

/// A period of a schedule between two instants.
#[derive(Debug, Clone, Copy, PartialEq, Eq, Structural)]
pub struct UtcPeriod {
    pub start: Timestamp,
    pub end: Timestamp,
    /// Power limit (W).
    pub limit: u32,
}

/// A power limit of a charging profile.
#[derive(Debug, Clone, Copy, PartialEq, Eq, Structural)]
pub struct ProfilePeriod {
    /// Seconds after the start of the schedule.
    pub start_period: i32,
    /// Power limit (W).
    pub limit: u32,
    pub number_phases: Option<i32>,
}

/// A power limit in force from a number of nanoseconds after the start of the schedule.
pub struct Step {
    pub offset: int,
    pub limit: u32,
}

impl Step {
    /// The step as a charging profile holds it.
    pub open spec fn rounded(self) -> ProfilePeriod {
        ProfilePeriod {
            start_period: profile_seconds(self.offset),
            limit: self.limit,
            number_phases: Some(DEFAULT_NB_OF_PHASES),
        }
    }
}

/// The end of what the periods cover, going on from `start`.
pub open spec fn covered_until(start: Timestamp, periods: Seq<UtcPeriod>) -> Timestamp
    decreases periods.len(),
{
    if periods.len() == 0 {
        start
    } else {
        let until = covered_until(start, periods.drop_last());
        if until.before(periods.last().end) {
            periods.last().end
        } else {
            until
        }
    }
}

/// The steps that a period adds to a schedule that is covered until `until`.
///
/// A period that starts later is preceded by a pause. One that starts earlier is cut to what is
/// not covered yet.
pub open spec fn period_steps(start: Timestamp, until: Timestamp, period: UtcPeriod) -> Seq<Step> {
    if until.before(period.start) {
        seq![
            Step { offset: until.spec_since(start), limit: 0 },
            Step { offset: period.start.spec_since(start), limit: period.limit },
        ]
    } else if period.start == until {
        seq![Step { offset: period.start.spec_since(start), limit: period.limit }]
    } else if until.before(period.end) {
        seq![Step { offset: until.spec_since(start), limit: period.limit }]
    } else {
        Seq::empty()
    }
}

pub open spec fn covering_steps(start: Timestamp, periods: Seq<UtcPeriod>) -> Seq<Step>
    decreases periods.len(),
{
    if periods.len() == 0 {
        Seq::empty()
    } else {
        covering_steps(start, periods.drop_last()) + period_steps(
            start,
            covered_until(start, periods.drop_last()),
            periods.last(),
        )
    }
}

/// Whether a schedule ends with a limit of 0 W: it does when it covers a whole second or more,
/// and when it would be empty otherwise.
pub open spec fn terminated(start: Timestamp, periods: Seq<UtcPeriod>) -> bool {
    ||| whole_seconds(covered_until(start, periods).spec_since(start)) > 0
    ||| covering_steps(start, periods).len() == 0
}

/// The steps of a schedule.
pub open spec fn steps(start: Timestamp, periods: Seq<UtcPeriod>) -> Seq<Step> {
    if terminated(start, periods) {
        covering_steps(start, periods).push(
            Step { offset: covered_until(start, periods).spec_since(start), limit: 0 },
        )
    } else {
        covering_steps(start, periods)
    }
}

/// The power limits of a charging profile.
pub open spec fn profile_periods(start: Timestamp, periods: Seq<UtcPeriod>) -> Seq<ProfilePeriod> {
    steps(start, periods).map_values(|step: Step| step.rounded())
}

fn profile_period(offset: i128, limit: u32) -> (r: ProfilePeriod)
    requires
        offset > i128::MIN,
    ensures
        r == (Step { offset: offset as int, limit }).rounded(),
{
    ProfilePeriod {
        start_period: duration_profile_seconds(offset),
        limit,
        number_phases: Some(DEFAULT_NB_OF_PHASES),
    }
}

/// Computes the power limits of a charging profile that starts at `start`.
pub fn limits_between(start: Timestamp, periods: &Vec<UtcPeriod>) -> (r: Vec<ProfilePeriod>)
    ensures
        r@ == profile_periods(start, periods@),
{
    let mut limits: Vec<ProfilePeriod> = Vec::new();
    let mut until = start;
    let mut i: usize = 0;
    let ghost rounded = |step: Step| step.rounded();
    while i < periods.len()
        invariant
            i <= periods.len(),
            rounded == (|step: Step| step.rounded()),
            until == covered_until(start, periods@.take(i as int)),
            limits@ == covering_steps(start, periods@.take(i as int)).map_values(rounded),
        decreases periods.len() - i,
    {
        let ghost before = periods@.take(i as int);
        let ghost after = periods@.take(i + 1);
        let ghost had = limits@;
        let period = periods[i];
        proof {
            assert(after.drop_last() =~= before);
            assert(after.last() == period);
        }
        if !period.start.is_before(until) {
            if until.is_before(period.start) {
                limits.push(profile_period(until.since(start), 0));
            }
            limits.push(profile_period(period.start.since(start), period.limit));
        } else if until.is_before(period.end) {
            limits.push(profile_period(until.since(start), period.limit));
        }
        proof {
            let added = period_steps(start, until, period);
            assert(limits@ =~= had + added.map_values(rounded));
            assert(covering_steps(start, after).map_values(rounded) =~= covering_steps(
                start,
                before,
            ).map_values(rounded) + added.map_values(rounded));
        }
        if until.is_before(period.end) {
            until = period.end;
        }
        i = i + 1;
    }
    proof {
        assert(periods@.take(i as int) =~= periods@);
    }
    let offset = until.since(start);
    let ghost covering = limits@;
    if duration_seconds(offset) > 0 || limits.len() == 0 {
        limits.push(profile_period(offset, 0));
        proof {
            let last = Step { offset: offset as int, limit: 0 };
            assert(covering_steps(start, periods@).push(last).map_values(rounded)
                =~= covering.push(last.rounded()));
        }
    }
    limits
}

/// Whether `instants` can be the instants of the wall clock times in `periods`, limits included.
///
/// The time zone decides on the instants, which are known to be less than a day off.
pub open spec fn resolves(
    periods: Seq<ChargingSchedulePeriod>,
    instants: Seq<UtcPeriod>,
) -> bool {
    &&& instants.len() == periods.len()
    &&& forall|i: int|
        #![trigger instants[i]]
        0 <= i < periods.len() ==> {
            &&& instants[i].limit == periods[i].limit
            &&& -NANOS_PER_DAY < instants[i].start@ - periods[i].start@ < NANOS_PER_DAY
            &&& -NANOS_PER_DAY < instants[i].end@ - periods[i].end@ < NANOS_PER_DAY
        }
}

/// Whether an error names the start or the end of one of the periods.
pub open spec fn names_time(periods: Seq<ChargingSchedulePeriod>, error: NoSingleInstant) -> bool {
    exists|i: int|
        #![trigger periods[i]]
        0 <= i < periods.len() && (error.0 == periods[i].start || error.0 == periods[i].end)
}

/// Finds the instants of the periods in the machine's time zone.
pub fn resolve_periods(periods: &Vec<ChargingSchedulePeriod>) -> (r: Result<
    Vec<UtcPeriod>,
    NoSingleInstant,
>)
    ensures
        r matches Ok(instants) ==> resolves(periods@, instants@),
        r matches Err(e) ==> names_time(periods@, e),
{
    let mut instants: Vec<UtcPeriod> = Vec::new();
    let mut i: usize = 0;
    while i < periods.len()
        invariant
            i <= periods.len(),
            resolves(periods@.take(i as int), instants@),
        decreases periods.len() - i,
    {
        let period = periods[i];
        let start = match instant_of(period.start) {
            Some(start) => start,
            None => {
                return Err(NoSingleInstant(period.start));
            },
        };
        let end = match instant_of(period.end) {
            Some(end) => end,
            None => {
                return Err(NoSingleInstant(period.end));
            },
        };
        instants.push(UtcPeriod { start, end, limit: period.limit });
        i = i + 1;
    }
    proof {
        assert(periods@.take(i as int) =~= periods@);
    }
    Ok(instants)
}

/// The unit of the limits in a charging profile.
#[derive(Debug, Clone, Copy, PartialEq, Eq, Structural)]
pub enum RateUnit {
    Watts,
    Amperes,
}

/// What the periods of a charging profile are relative to.
#[derive(Debug, Clone, Copy, PartialEq, Eq, Structural)]
pub enum ProfileKind {
    /// The start of the schedule.
    Absolute,
    /// The start of the schedule, again and again.
    Recurring,
    /// The start of a transaction.
    Relative,
}

/// What a charging profile is for.
#[derive(Debug, Clone, Copy, PartialEq, Eq, Structural)]
pub enum ProfilePurpose {
    /// The whole charging point.
    ChargePointMax,
    /// Every transaction that has no profile of its own.
    TransactionDefault,
    /// One transaction.
    Transaction,
}

/// When a charging profile starts over.
#[derive(Debug, Clone, Copy, PartialEq, Eq, Structural)]
pub enum Recurrence {
    Daily,
    Weekly,
}

/// Which charging profiles are meant: those with the number, for the connector, for the purpose and
/// at the place in the stack that are given.
#[derive(Debug, Clone, Copy, PartialEq, Eq, Structural)]
pub struct ProfileFilter {
    pub id: Option<i32>,
    pub connector_id: Option<u32>,
    pub purpose: Option<ProfilePurpose>,
    pub stack_level: Option<i32>,
}

impl ProfileFilter {
    /// All charging profiles.
    pub open spec fn spec_all() -> Self {
        ProfileFilter { id: None, connector_id: None, purpose: None, stack_level: None }
    }

    pub fn all() -> (r: Self)
        ensures
            r == Self::spec_all(),
    {
        ProfileFilter { id: None, connector_id: None, purpose: None, stack_level: None }
    }
}

/// What the charging point is asked with a SetChargingProfile call.
#[derive(Debug, PartialEq)]
pub struct ProfileRequest {
    pub connector_id: u32,
    pub charging_profile_id: i32,
    pub stack_level: u32,
    /// The transaction that the profile is for, where it is for one.
    pub transaction_id: Option<i32>,
    pub purpose: ProfilePurpose,
    pub kind: ProfileKind,
    pub recurrence: Option<Recurrence>,
    /// The instant from which on the profile may be used, where there is one.
    pub valid_from: Option<Timestamp>,
    /// The instant from which on the profile may not be used any more, where there is one.
    pub valid_to: Option<Timestamp>,
    pub unit: RateUnit,
    pub start_schedule: Timestamp,
    /// How long (s) the profile lasts. Without a duration it goes on for good.
    pub duration: Option<i32>,
    /// The least rate that the EV can be charged with, where there is one.
    pub min_charging_rate: Option<u32>,
    pub charging_schedule_period: Vec<ProfilePeriod>,
}

/// The contents of a [`ProfileRequest`].
pub struct ProfileRequestView {
    pub connector_id: u32,
    pub charging_profile_id: i32,
    pub stack_level: u32,
    /// The transaction that the profile is for, where it is for one.
    pub transaction_id: Option<i32>,
    pub purpose: ProfilePurpose,
    pub kind: ProfileKind,
    pub recurrence: Option<Recurrence>,
    /// The instant from which on the profile may be used, where there is one.
    pub valid_from: Option<Timestamp>,
    /// The instant from which on the profile may not be used any more, where there is one.
    pub valid_to: Option<Timestamp>,
    pub unit: RateUnit,
    pub start_schedule: Timestamp,
    /// How long (s) the profile lasts. Without a duration it goes on for good.
    pub duration: Option<i32>,
    /// The least rate that the EV can be charged with, where there is one.
    pub min_charging_rate: Option<u32>,
    pub charging_schedule_period: Seq<ProfilePeriod>,
}

impl View for ProfileRequest {
    type V = ProfileRequestView;

    open spec fn view(&self) -> ProfileRequestView {
        ProfileRequestView {
            connector_id: self.connector_id,
            charging_profile_id: self.charging_profile_id,
            stack_level: self.stack_level,
            transaction_id: self.transaction_id,
            purpose: self.purpose,
            kind: self.kind,
            recurrence: self.recurrence,
            valid_from: self.valid_from,
            valid_to: self.valid_to,
            unit: self.unit,
            start_schedule: self.start_schedule,
            duration: self.duration,
            min_charging_rate: self.min_charging_rate,
            charging_schedule_period: self.charging_schedule_period@,
        }
    }
}

impl ProfileRequestView {
    /// Whether the time of validity starts and ends at times of the calendar.
    pub open spec fn validity_is_writable(self) -> bool {
        &&& self.valid_from matches Some(t) ==> t.representable()
        &&& self.valid_to matches Some(t) ==> t.representable()
    }
}

/// The request for the whole charging point to keep to the periods, in watts, from `start` on and
/// for good.
pub open spec fn profile_request(start: Timestamp, periods: Seq<UtcPeriod>) -> ProfileRequestView {
    ProfileRequestView {
        connector_id: 0,
        charging_profile_id: 0,
        stack_level: 0,
        transaction_id: None,
        purpose: ProfilePurpose::ChargePointMax,
        kind: ProfileKind::Absolute,
        recurrence: None,
        valid_from: None,
        valid_to: None,
        unit: RateUnit::Watts,
        start_schedule: start,
        duration: None,
        min_charging_rate: None,
        charging_schedule_period: profile_periods(start, periods),
    }
}

/// Makes the request for the whole charging point to keep to the periods, from `start` on and for
/// good.
pub fn request_between(start: Timestamp, periods: &Vec<UtcPeriod>) -> (r: ProfileRequest)
    ensures
        r@ == profile_request(start, periods@),
{
    ProfileRequest {
        connector_id: 0,
        charging_profile_id: 0,
        stack_level: 0,
        transaction_id: None,
        purpose: ProfilePurpose::ChargePointMax,
        kind: ProfileKind::Absolute,
        recurrence: None,
        valid_from: None,
        valid_to: None,
        unit: RateUnit::Watts,
        start_schedule: start,
        duration: None,
        min_charging_rate: None,
        charging_schedule_period: limits_between(start, periods),
    }
}

#[derive(Debug)]
pub struct SetChargingProfile;

impl SetChargingProfile {
    pub fn builder(schedule: ChargingSchedule) -> (r: SetChargingProfileBuilder)
        ensures
            r.start_schedule_utc == schedule.set_time,
            r.periods@ == in_order(schedule.periods@),
    {
        SetChargingProfileBuilder {
            start_schedule_utc: schedule.set_time,
            periods: schedule.periods(),
        }
    }
}

/// The start and the periods of a charging profile to be made.
#[derive(Debug)]
pub struct SetChargingProfileBuilder {
    pub start_schedule_utc: Timestamp,
    pub periods: Vec<ChargingSchedulePeriod>,
}

impl SetChargingProfileBuilder {
    /// Lets the schedule start when the clocks of the machine's time zone show the given time.
    pub fn set_schedule_instant(self, schedule_start: LocalTime) -> (r: Result<
        Self,
        NoSingleInstant,
    >)
        ensures
            match r {
                Ok(builder) => {
                    &&& builder.periods == self.periods
                    &&& -NANOS_PER_DAY < builder.start_schedule_utc@ - schedule_start@
                        < NANOS_PER_DAY
                },
                Err(e) => e.0 == schedule_start,
            },
    {
        match instant_of(schedule_start) {
            Some(start_schedule_utc) => Ok(
                SetChargingProfileBuilder { start_schedule_utc, periods: self.periods },
            ),
            None => Err(NoSingleInstant(schedule_start)),
        }
    }

    /// Computes the power limits, with the periods taken in the machine's time zone.
    pub fn build_charging_schedule(self) -> (r: Result<Vec<ProfilePeriod>, NoSingleInstant>)
        ensures
            r matches Ok(limits) ==> exists|instants: Seq<UtcPeriod>| #[trigger]
                resolves(self.periods@, instants) && limits@ == profile_periods(
                    self.start_schedule_utc,
                    instants,
                ),
            r matches Err(e) ==> names_time(self.periods@, e),
    {
        match resolve_periods(&self.periods) {
            Ok(instants) => Ok(limits_between(self.start_schedule_utc, &instants)),
            Err(e) => Err(e),
        }
    }

    /// Makes the request, with the periods taken in the machine's time zone.
    pub fn build(self) -> (r: Result<ProfileRequest, NoSingleInstant>)
        ensures
            r matches Ok(request) ==> exists|instants: Seq<UtcPeriod>| #[trigger]
                resolves(self.periods@, instants) && request@ == profile_request(
                    self.start_schedule_utc,
                    instants,
                ),
            r matches Err(e) ==> names_time(self.periods@, e),
    {
        match resolve_periods(&self.periods) {
            Ok(instants) => Ok(request_between(self.start_schedule_utc, &instants)),
            Err(e) => Err(e),
        }
    }
}

/// The limit that the steps put in force at an offset: that of the last step not after it.
pub open spec fn limit_at(steps: Seq<Step>, offset: int) -> Option<u32>
    decreases steps.len(),
{
    if steps.len() == 0 {
        None
    } else if steps.last().offset <= offset {
        Some(steps.last().limit)
    } else {
        limit_at(steps.drop_last(), offset)
    }
}

/// The limit of the first period that an instant belongs to.
pub open spec fn first_limit(periods: Seq<UtcPeriod>, instant: Timestamp) -> Option<u32>
    decreases periods.len(),
{
    if periods.len() == 0 {
        None
    } else {
        match first_limit(periods.drop_last(), instant) {
            Some(limit) => Some(limit),
            None => if !instant.before(periods.last().start) && instant.before(periods.last().end) {
                Some(periods.last().limit)
            } else {
                None
            },
        }
    }
}

/// The limit that a schedule is meant to put in force at an instant.
pub open spec fn intended_limit(periods: Seq<UtcPeriod>, instant: Timestamp) -> u32 {
    match first_limit(periods, instant) {
        Some(limit) => limit,
        None => 0,
    }
}

/// Whether the periods come in the order of their starts and none ends before it starts.
pub open spec fn orderly(periods: Seq<UtcPeriod>) -> bool {
    &&& forall|i: int, j: int|
        0 <= i <= j < periods.len() ==> !periods[j].start.before(periods[i].start)
    &&& forall|i: int| 0 <= i < periods.len() ==> !periods[i].end.before(periods[i].start)
}

/// Whether no period starts or ends in a leap second.
pub open spec fn are_plain(periods: Seq<UtcPeriod>) -> bool {
    forall|i: int|
        #![trigger periods[i]]
        0 <= i < periods.len() ==> periods[i].start.plain() && periods[i].end.plain()
}

proof fn lemma_plain_cover(start: Timestamp, periods: Seq<UtcPeriod>)
    requires
        start.plain(),
        are_plain(periods),
    ensures
        covered_until(start, periods).plain(),
        periods.len() > 0 ==> are_plain(periods.drop_last()) && periods.last().start.plain()
            && periods.last().end.plain(),
    decreases periods.len(),
{
    if periods.len() > 0 {
        let before = periods.drop_last();
        assert(are_plain(before)) by {
            assert forall|i: int| #![trigger before[i]] 0 <= i < before.len() implies before[i]
                == periods[i] by {}
        }
        lemma_plain_cover(start, before);
        assert(periods[periods.len() - 1] == periods.last());
    }
}

proof fn lemma_nothing_after_cover(start: Timestamp, periods: Seq<UtcPeriod>, instant: Timestamp)
    requires
        !instant.before(covered_until(start, periods)),
    ensures
        first_limit(periods, instant) is None,
    decreases periods.len(),
{
    if periods.len() > 0 {
        lemma_nothing_after_cover(start, periods.drop_last(), instant);
    }
}

proof fn lemma_started_is_covered(start: Timestamp, periods: Seq<UtcPeriod>, instant: Timestamp)
    requires
        !instant.before(start),
        instant.before(covered_until(start, periods)),
        forall|i: int| 0 <= i < periods.len() ==> !instant.before(periods[i].start),
    ensures
        first_limit(periods, instant) is Some,
    decreases periods.len(),
{
    if periods.len() > 0 {
        let before = periods.drop_last();
        if instant.before(covered_until(start, before)) {
            assert forall|i: int| 0 <= i < before.len() implies !instant.before(
                before[i].start,
            ) by {
                assert(before[i] == periods[i]);
            }
            lemma_started_is_covered(start, before, instant);
        }
    }
}

proof fn lemma_limit_at_appended(a: Seq<Step>, b: Seq<Step>, offset: int)
    requires
        b.len() <= 2,
    ensures
        limit_at(a + b, offset) == (if b.len() > 0 && b.last().offset <= offset {
            Some(b.last().limit)
        } else if b.len() == 2 && b[0].offset <= offset {
            Some(b[0].limit)
        } else {
            limit_at(a, offset)
        }),
{
    if b.len() == 0 {
        assert(a + b =~= a);
    } else {
        assert((a + b).drop_last() =~= a + b.drop_last());
        if b.len() == 1 {
            assert(a + b.drop_last() =~= a);
        } else {
            let c = b.drop_last();
            assert((a + c).drop_last() =~= a);
        }
    }
}

proof fn lemma_covering_limit(start: Timestamp, periods: Seq<UtcPeriod>, instant: Timestamp)
    requires
        start.plain(),
        instant.plain(),
        are_plain(periods),
        orderly(periods),
        !instant.before(start),
        instant.before(covered_until(start, periods)),
    ensures
        limit_at(covering_steps(start, periods), instant.spec_since(start)) == Some(
            intended_limit(periods, instant),
        ),
    decreases periods.len(),
{
    if periods.len() > 0 {
        let before = periods.drop_last();
        let period = periods.last();
        let until = covered_until(start, before);
        let added = period_steps(start, until, period);
        assert(orderly(before)) by {
            assert forall|i: int, j: int| 0 <= i <= j < before.len() implies !before[j].start.before(
                before[i].start,
            ) by {
                assert(before[i] == periods[i] && before[j] == periods[j]);
            }
            assert forall|i: int| 0 <= i < before.len() implies !before[i].end.before(
                before[i].start,
            ) by {
                assert(before[i] == periods[i]);
            }
        }
        lemma_plain_cover(start, periods);
        lemma_plain_cover(start, before);
        lemma_limit_at_appended(covering_steps(start, before), added, instant.spec_since(start));
        if instant.before(until) {
            lemma_covering_limit(start, before, instant);
            if !instant.before(period.start) {
                assert forall|i: int| 0 <= i < before.len() implies !instant.before(
                    before[i].start,
                ) by {
                    assert(before[i] == periods[i]);
                    assert(!periods[periods.len() - 1].start.before(periods[i].start));
                }
                lemma_started_is_covered(start, before, instant);
            }
        } else {
            lemma_nothing_after_cover(start, before, instant);
        }
    }
}

/// At every instant from the start on, the steps put in force the limit of the first period that
/// the instant belongs to, and 0 W where there is none.
///
/// A schedule whose periods are over within a second of its start is not terminated and left out,
/// and so are leap seconds.
pub proof fn law_intended_limit_in_force(start: Timestamp, periods: Seq<UtcPeriod>, instant: Timestamp)
    requires
        start.plain(),
        instant.plain(),
        are_plain(periods),
        orderly(periods),
        terminated(start, periods),
        !instant.before(start),
    ensures
        limit_at(steps(start, periods), instant.spec_since(start)) == Some(
            intended_limit(periods, instant),
        ),
{
    lemma_plain_cover(start, periods);
    let last = Step { offset: covered_until(start, periods).spec_since(start), limit: 0 };
    assert(covering_steps(start, periods).push(last).drop_last() =~= covering_steps(
        start,
        periods,
    ));
    if instant.before(covered_until(start, periods)) {
        lemma_covering_limit(start, periods, instant);
    } else {
        lemma_nothing_after_cover(start, periods, instant);
    }
}

proof fn lemma_first_step(start: Timestamp, periods: Seq<UtcPeriod>)
    ensures
        covering_steps(start, periods).len() == 0 ==> covered_until(start, periods) == start,
        covering_steps(start, periods).len() > 0 ==> covering_steps(start, periods)[0].offset == 0,
        !covered_until(start, periods).before(start),
    decreases periods.len(),
{
    if periods.len() > 0 {
        lemma_first_step(start, periods.drop_last());
    }
}

/// A charging profile is never empty, and its first limit is in force from the start.
pub proof fn law_profile_starts_at_once(start: Timestamp, periods: Seq<UtcPeriod>)
    ensures
        steps(start, periods).len() > 0,
        steps(start, periods)[0].offset == 0,
        profile_periods(start, periods)[0].start_period == 0,
{
    lemma_first_step(start, periods);
}

/// A schedule without periods, or with all of them over at its start, blocks charging for good.
pub proof fn law_nothing_to_come_blocks(start: Timestamp, periods: Seq<UtcPeriod>)
    requires
        forall|i: int|
            0 <= i < periods.len() ==> periods[i].start.before(start) && !start.before(
                periods[i].end,
            ),
    ensures
        profile_periods(start, periods) == seq![
            ProfilePeriod {
                start_period: 0,
                limit: 0,
                number_phases: Some(DEFAULT_NB_OF_PHASES),
            },
        ],
{
    lemma_over_covers_nothing(start, periods);
    assert(profile_periods(start, periods) =~= seq![(Step { offset: 0, limit: 0 }).rounded()]);
}

proof fn lemma_over_covers_nothing(start: Timestamp, periods: Seq<UtcPeriod>)
    requires
        forall|i: int|
            0 <= i < periods.len() ==> periods[i].start.before(start) && !start.before(
                periods[i].end,
            ),
    ensures
        covering_steps(start, periods).len() == 0,
        covered_until(start, periods) == start,
    decreases periods.len(),
{
    if periods.len() > 0 {
        let before = periods.drop_last();
        assert forall|i: int| 0 <= i < before.len() implies before[i].start.before(start)
            && !start.before(before[i].end) by {
            assert(before[i] == periods[i]);
        }
        lemma_over_covers_nothing(start, before);
        assert(periods[periods.len() - 1] == periods.last());
    }
}

proof fn lemma_covering_offsets(start: Timestamp, periods: Seq<UtcPeriod>)
    requires
        start.plain(),
        are_plain(periods),
        forall|i: int| 0 <= i < periods.len() ==> !periods[i].end.before(periods[i].start),
    ensures
        forall|i: int, j: int|
            #![trigger covering_steps(start, periods)[i], covering_steps(start, periods)[j]]
            0 <= i <= j < covering_steps(start, periods).len() ==> covering_steps(
                start,
                periods,
            )[i].offset <= covering_steps(start, periods)[j].offset,
        forall|i: int|
            #![trigger covering_steps(start, periods)[i]]
            0 <= i < covering_steps(start, periods).len() ==> covering_steps(
                start,
                periods,
            )[i].offset <= covered_until(start, periods).spec_since(start),
    decreases periods.len(),
{
    if periods.len() > 0 {
        let before = periods.drop_last();
        assert forall|i: int| 0 <= i < before.len() implies !before[i].end.before(
            before[i].start,
        ) by {
            assert(before[i] == periods[i]);
        }
        lemma_plain_cover(start, periods);
        lemma_plain_cover(start, before);
        lemma_covering_offsets(start, before);
        assert(periods[periods.len() - 1] == periods.last());
        let had = covering_steps(start, before);
        let added = period_steps(start, covered_until(start, before), periods.last());
        let all = covering_steps(start, periods);
        assert(all == had + added);
        assert forall|i: int, j: int| 0 <= i <= j < all.len() implies all[i].offset
            <= all[j].offset by {
            if j < had.len() {
                assert(all[i] == had[i] && all[j] == had[j]);
            } else {
                assert(all[j] == added[j - had.len()]);
                if i < had.len() {
                    assert(all[i] == had[i]);
                } else {
                    assert(all[i] == added[i - had.len()]);
                }
            }
        }
        assert forall|i: int| 0 <= i < all.len() implies all[i].offset <= covered_until(
            start,
            periods,
        ).spec_since(start) by {
            if i < had.len() {
                assert(all[i] == had[i]);
            } else {
                assert(all[i] == added[i - had.len()]);
            }
        }
    }
}

/// The limits of a profile come into force one after the other, unless a period ends before it
/// starts, or there are leap seconds.
pub proof fn law_steps_in_order(start: Timestamp, periods: Seq<UtcPeriod>, i: int, j: int)
    requires
        start.plain(),
        are_plain(periods),
        forall|i: int| 0 <= i < periods.len() ==> !periods[i].end.before(periods[i].start),
        0 <= i <= j < steps(start, periods).len(),
    ensures
        steps(start, periods)[i].offset <= steps(start, periods)[j].offset,
{
    lemma_covering_offsets(start, periods);
    let covering = covering_steps(start, periods);
    if j < covering.len() {
        assert(covering[i].offset <= covering[j].offset);
    } else if i < covering.len() {
        assert(covering[i].offset <= covered_until(start, periods).spec_since(start));
    }
}

/// A step that comes less than 2^31 seconds after the start is put into the profile with its own
/// limit, for one phase, and under the second that it comes in: the last whole second that is not
/// after it.
pub proof fn law_step_is_rounded_down(step: Step)
    requires
        0 <= step.offset < 2_147_483_648_000_000_000,
    ensures
        step.rounded().start_period * 1_000_000_000 <= step.offset < (step.rounded().start_period
            + 1) * 1_000_000_000,
        step.rounded().limit == step.limit,
        step.rounded().number_phases == Some(1i32),
{
    law_profile_seconds_fit(step.offset, step.offset);
}

/// Whether every period is over less than 2^31 seconds after the start.
pub open spec fn fits_profile(start: Timestamp, periods: Seq<UtcPeriod>) -> bool {
    forall|i: int|
        #![trigger periods[i]]
        0 <= i < periods.len() ==> periods[i].end.spec_since(start) < 2_147_483_648_000_000_000
}

proof fn lemma_cover_fits(start: Timestamp, periods: Seq<UtcPeriod>)
    requires
        start.plain(),
        are_plain(periods),
        fits_profile(start, periods),
    ensures
        0 <= covered_until(start, periods).spec_since(start) < 2_147_483_648_000_000_000,
    decreases periods.len(),
{
    lemma_plain_cover(start, periods);
    lemma_first_step(start, periods);
    if periods.len() > 0 {
        let before = periods.drop_last();
        assert(fits_profile(start, before)) by {
            assert forall|i: int| #![trigger before[i]] 0 <= i < before.len() implies before[i]
                == periods[i] by {}
        }
        lemma_cover_fits(start, before);
        assert(periods[periods.len() - 1] == periods.last());
    }
}

proof fn lemma_offsets_fit(start: Timestamp, periods: Seq<UtcPeriod>, i: int)
    requires
        start.plain(),
        are_plain(periods),
        fits_profile(start, periods),
        forall|i: int| 0 <= i < periods.len() ==> !periods[i].end.before(periods[i].start),
        0 <= i < steps(start, periods).len(),
    ensures
        0 <= steps(start, periods)[i].offset < 2_147_483_648_000_000_000,
{
    lemma_cover_fits(start, periods);
    law_profile_starts_at_once(start, periods);
    law_steps_in_order(start, periods, 0, i);
    lemma_covering_offsets(start, periods);
    let covering = covering_steps(start, periods);
    if i < covering.len() {
        assert(covering[i].offset <= covered_until(start, periods).spec_since(start));
    }
}

/// Each step of a schedule is in the profile, in the same place, with its own limit, for one phase,
/// and under the second that it comes in. The seconds of the profile never go down.
pub proof fn law_profile_holds_each_step(
    start: Timestamp,
    periods: Seq<UtcPeriod>,
    i: int,
    j: int,
)
    requires
        start.plain(),
        are_plain(periods),
        fits_profile(start, periods),
        forall|i: int| 0 <= i < periods.len() ==> !periods[i].end.before(periods[i].start),
        0 <= i <= j < steps(start, periods).len(),
    ensures
        ({
            let request = profile_request(start, periods).charging_schedule_period;
            let step = steps(start, periods)[i];
            &&& request.len() == steps(start, periods).len()
            &&& request[i].start_period * 1_000_000_000 <= step.offset < (request[i].start_period
                + 1) * 1_000_000_000
            &&& request[i].limit == step.limit
            &&& request[i].number_phases == Some(1i32)
            &&& 0 <= request[i].start_period <= request[j].start_period
        }),
{
    lemma_offsets_fit(start, periods, i);
    lemma_offsets_fit(start, periods, j);
    law_steps_in_order(start, periods, i, j);
    law_step_is_rounded_down(steps(start, periods)[i]);
    law_profile_seconds_fit(steps(start, periods)[i].offset, steps(start, periods)[j].offset);
}

/// The limit that a charging profile puts in force in a second after its start: that of the last
/// period that has started by then.
pub open spec fn requested_limit(periods: Seq<ProfilePeriod>, second: int) -> Option<u32>
    decreases periods.len(),
{
    if periods.len() == 0 {
        None
    } else if periods.last().start_period <= second {
        Some(periods.last().limit)
    } else {
        requested_limit(periods.drop_last(), second)
    }
}

proof fn lemma_requested_limit(steps: Seq<Step>, second: int)
    requires
        forall|i: int|
            #![trigger steps[i]]
            0 <= i < steps.len() ==> 0 <= steps[i].offset < 2_147_483_648_000_000_000,
    ensures
        requested_limit(steps.map_values(|step: Step| step.rounded()), second) == limit_at(
            steps,
            second * 1_000_000_000 + 999_999_999,
        ),
    decreases steps.len(),
{
    if steps.len() > 0 {
        let before = steps.drop_last();
        let rounded = |step: Step| step.rounded();
        assert(steps.map_values(rounded).drop_last() =~= before.map_values(rounded));
        assert(steps[steps.len() - 1] == steps.last());
        law_step_is_rounded_down(steps.last());
        assert forall|i: int| #![trigger before[i]] 0 <= i < before.len() implies 0
            <= before[i].offset < 2_147_483_648_000_000_000 by {
            assert(before[i] == steps[i]);
        }
        lemma_requested_limit(before, second);
    }
}

proof fn lemma_nothing_between(periods: Seq<UtcPeriod>, instant: Timestamp, last: Timestamp)
    requires
        !last.before(instant),
        forall|i: int|
            #![trigger periods[i]]
            0 <= i < periods.len() ==> (!instant.before(periods[i].start) || last.before(
                periods[i].start,
            )) && (!instant.before(periods[i].end) || last.before(periods[i].end)),
    ensures
        first_limit(periods, instant) == first_limit(periods, last),
    decreases periods.len(),
{
    if periods.len() > 0 {
        let before = periods.drop_last();
        assert forall|i: int| #![trigger before[i]] 0 <= i < before.len() implies before[i]
            == periods[i] by {}
        lemma_nothing_between(before, instant, last);
        assert(periods[periods.len() - 1] == periods.last());
    }
}

/// Whether the schedule goes on for a second or more, or has nothing to come at its start.
pub open spec fn lasts_or_is_over(start: Timestamp, periods: Seq<UtcPeriod>) -> bool {
    ||| exists|i: int|
        #![trigger periods[i]]
        0 <= i < periods.len() && periods[i].end.spec_since(start) >= 1_000_000_000
    ||| forall|i: int|
        0 <= i < periods.len() ==> periods[i].start.before(start) && !start.before(periods[i].end)
}

proof fn lemma_cover_lasts(start: Timestamp, periods: Seq<UtcPeriod>, i: int)
    requires
        start.plain(),
        are_plain(periods),
        0 <= i < periods.len(),
    ensures
        periods[i].end.spec_since(start) <= covered_until(start, periods).spec_since(start),
    decreases periods.len(),
{
    lemma_plain_cover(start, periods);
    let before = periods.drop_last();
    if i < before.len() {
        lemma_plain_cover(start, before);
        lemma_cover_lasts(start, before, i);
        assert(before[i] == periods[i]);
    } else {
        assert(periods[i] == periods.last());
        lemma_plain_cover(start, before);
    }
}

/// What the charging point is asked is what is meant: in each second after the start, the profile
/// puts in force the limit of the first period that the last instant of the second belongs to, and
/// 0 W where there is none. The same limit is the one meant at every earlier instant of the second,
/// as long as no period starts or ends in between. So where periods start and end on whole seconds
/// after the start, the limit in force is always the one meant.
///
/// A schedule whose periods are over within a second of its start is not terminated and left out,
/// and so are leap seconds, and periods that are over 2^31 seconds or more after the start.
pub proof fn law_request_puts_intended_limit_in_force(
    start: Timestamp,
    periods: Seq<UtcPeriod>,
    second: int,
    instant: Timestamp,
    last: Timestamp,
)
    requires
        start.plain(),
        are_plain(periods),
        orderly(periods),
        fits_profile(start, periods),
        lasts_or_is_over(start, periods),
        instant.plain(),
        last.plain(),
        second >= 0,
        last.spec_since(start) == second * 1_000_000_000 + 999_999_999,
        second * 1_000_000_000 <= instant.spec_since(start) <= last.spec_since(start),
        forall|i: int|
            #![trigger periods[i]]
            0 <= i < periods.len() ==> (!instant.before(periods[i].start) || last.before(
                periods[i].start,
            )) && (!instant.before(periods[i].end) || last.before(periods[i].end)),
    ensures
        requested_limit(profile_request(start, periods).charging_schedule_period, second) == Some(
            intended_limit(periods, instant),
        ),
{
    let all = steps(start, periods);
    assert forall|i: int| #![trigger all[i]] 0 <= i < all.len() implies 0 <= all[i].offset
        < 2_147_483_648_000_000_000 by {
        lemma_offsets_fit(start, periods, i);
    }
    lemma_requested_limit(all, second);
    if exists|i: int|
        #![trigger periods[i]]
        0 <= i < periods.len() && periods[i].end.spec_since(start) >= 1_000_000_000 {
        let i = choose|i: int|
            #![trigger periods[i]]
            0 <= i < periods.len() && periods[i].end.spec_since(start) >= 1_000_000_000;
        lemma_cover_lasts(start, periods, i);
    } else {
        lemma_over_covers_nothing(start, periods);
    }
    assert(terminated(start, periods));
    law_intended_limit_in_force(start, periods, last);
    lemma_nothing_between(periods, instant, last);
}

/// The profile that is asked for is one for the whole charging point, and the only one: it has the
/// number 0, at the bottom of the stack. It is in watts, starts at the given instant, and goes on for
/// good: it belongs to no transaction, does not start over, has no time of validity, no duration and
/// no least rate.
pub proof fn law_request_is_for_the_charging_point(start: Timestamp, periods: Seq<UtcPeriod>)
    ensures
        ({
            let request = profile_request(start, periods);
            &&& request.connector_id == 0
            &&& request.charging_profile_id == 0
            &&& request.stack_level == 0
            &&& request.transaction_id is None
            &&& request.purpose is ChargePointMax
            &&& request.kind is Absolute
            &&& request.recurrence is None
            &&& request.valid_from is None
            &&& request.valid_to is None
            &&& request.unit is Watts
            &&& request.start_schedule == start
            &&& request.duration is None
            &&& request.min_charging_rate is None
            &&& request.charging_schedule_period.len() > 0
        }),
{
    law_profile_starts_at_once(start, periods);
}

/// A filter without a condition lets every profile pass.
pub proof fn law_all_profiles_pass()
    ensures
        ({
            let filter = ProfileFilter::spec_all();
            &&& filter.id is None
            &&& filter.connector_id is None
            &&& filter.purpose is None
            &&& filter.stack_level is None
        }),
{
}

/// The instants that periods are taken to be at are in the order of the periods, as many as there
/// are, and each with the limit of its period. Each lies less than a day off the wall clock time.
pub proof fn law_resolved_periods_keep_limits(
    periods: Seq<ChargingSchedulePeriod>,
    instants: Seq<UtcPeriod>,
    i: int,
)
    requires
        resolves(periods, instants),
        0 <= i < periods.len(),
    ensures
        instants.len() == periods.len(),
        instants[i].limit == periods[i].limit,
        -86_400_000_000_000 < instants[i].start@ - periods[i].start@ < 86_400_000_000_000,
        -86_400_000_000_000 < instants[i].end@ - periods[i].end@ < 86_400_000_000_000,
{
}

/// A schedule of one period that is over within a second of its start is not ended: the limit of the
/// period stays in force, from its start on, after a pause where it does not start at once.
pub proof fn law_short_period_is_not_ended(start: Timestamp, period: UtcPeriod)
    requires
        start.plain(),
        period.start.plain(),
        period.end.plain(),
        !period.start.before(start),
        !period.end.before(period.start),
        period.end.spec_since(start) < 1_000_000_000,
    ensures
        ({
            let request = profile_request(start, seq![period]).charging_schedule_period;
            let limit = ProfilePeriod {
                start_period: 0,
                limit: period.limit,
                number_phases: Some(1i32),
            };
            let pause = ProfilePeriod { limit: 0, ..limit };
            &&& period.start == start ==> request == seq![limit]
            &&& period.start != start ==> request == seq![pause, limit]
        }),
{
    let periods = seq![period];
    let none = Seq::<UtcPeriod>::empty();
    assert(periods.drop_last() =~= none);
    assert(covered_until(start, none) == start);
    assert(covering_steps(start, none) == Seq::<Step>::empty());
    let added = period_steps(start, start, period);
    assert(covering_steps(start, periods) =~= added);
    assert(!terminated(start, periods));
    assert(profile_periods(start, periods) =~= added.map_values(|step: Step| step.rounded()));
    law_step_is_rounded_down(Step { offset: 0, limit: 0 });
    law_step_is_rounded_down(
        Step { offset: period.start.spec_since(start), limit: period.limit },
    );
}

} // verus!
