//! Instants, wall clock times and the clock.
//!
//! Inside the library time is made of plain integers. An instant or a wall clock time is a
//! number of whole seconds since 1970-01-01 00:00:00 together with the nanoseconds past that
//! second. Its view is the total number of nanoseconds.
//!
//! A fraction of a second or more stands for a leap second, which comes after the second and before
//! the next one. Times are therefore ordered by their second first and by their fraction then, and
//! the time between two of them counts a leap second only where one of them lies in it.
use chrono::{DateTime, Local, NaiveTime, Timelike, Utc};
use vstd::prelude::*;

verus! {

pub const NANOS_PER_SEC: i128 = 1_000_000_000;

pub const SECS_PER_DAY: i64 = 86_400;

pub const NANOS_PER_DAY: i128 = 86_400_000_000_000;

/// How many fractions of a second there are numbers for.
pub const KEYS_PER_SEC: i128 = 4_294_967_296;

/// The first second of the calendar, on 1 January of the year -262143.
pub const CALENDAR_START: i64 = -8_334_601_228_800;

/// The last second of the calendar, on 31 December of the year 262142.
pub const CALENDAR_END: i64 = 8_210_266_876_799;

/// An instant, counted in UTC.
#[derive(Clone, Copy, Debug, PartialEq, Eq, Structural)]
pub struct Timestamp {
    pub secs: i64,
    pub subsec: u32,
}

impl View for Timestamp {
    type V = int;

    open spec fn view(&self) -> int {
        self.secs * NANOS_PER_SEC + self.subsec
    }
}

/// A date and a time as a clock on the wall shows them, without a time zone.
#[derive(Clone, Copy, Debug, PartialEq, Eq, Structural)]
pub struct LocalTime {
    pub secs: i64,
    pub subsec: u32,
}

impl View for LocalTime {
    type V = int;

    open spec fn view(&self) -> int {
        self.secs * NANOS_PER_SEC + self.subsec
    }
}

/// A time of day, counted from midnight.
#[derive(Clone, Copy, Debug, PartialEq, Eq, Structural)]
pub struct TimeOfDay {
    pub secs: u32,
    pub subsec: u32,
}

impl View for TimeOfDay {
    type V = int;

    open spec fn view(&self) -> int {
        self.secs * NANOS_PER_SEC + self.subsec
    }
}

/// What the clock shows: the instant, and the wall clock time at that instant.
#[derive(Clone, Copy, Debug, PartialEq, Eq, Structural)]
pub struct Moment {
    pub utc: Timestamp,
    pub local: LocalTime,
}

/// A wall clock time that the clocks of the time zone show at no instant, or at more than one.
#[derive(Clone, Copy, Debug, PartialEq, Eq, Structural)]
pub struct NoSingleInstant(pub LocalTime);

/// Whether a second belongs to a date of the calendar.
pub open spec fn in_calendar(secs: i64) -> bool {
    CALENDAR_START <= secs <= CALENDAR_END
}

/// The whole seconds of a duration in nanoseconds, rounded toward zero.
pub open spec fn whole_seconds(nanos: int) -> int {
    if nanos >= 0 {
        nanos / NANOS_PER_SEC as int
    } else {
        -((-nanos) / NANOS_PER_SEC as int)
    }
}

/// The whole seconds of a duration in nanoseconds, as the 32 bits of a charging profile hold them.
pub open spec fn profile_seconds(nanos: int) -> i32 {
    whole_seconds(nanos) as i32
}

pub fn duration_seconds(nanos: i128) -> (secs: i128)
    requires
        nanos > i128::MIN,
    ensures
        secs == whole_seconds(nanos as int),
{
    if nanos >= 0 {
        nanos / NANOS_PER_SEC
    } else {
        -((-nanos) / NANOS_PER_SEC)
    }
}

pub fn duration_profile_seconds(nanos: i128) -> (secs: i32)
    requires
        nanos > i128::MIN,
    ensures
        secs == profile_seconds(nanos as int),
{
    #[verifier::truncate]
    (duration_seconds(nanos) as i32)
}

/// Whether a time comes before another one.
pub open spec fn comes_before(secs: i64, subsec: u32, other_secs: i64, other_subsec: u32) -> bool {
    secs < other_secs || (secs == other_secs && subsec < other_subsec)
}

/// The nanoseconds from a time to another one.
///
/// As `chrono` counts them, a leap second that the first time lies in counts where the other time is
/// later in the day, and one that the other time lies in is left out where that is earlier in the
/// day.
pub open spec fn nanos_between(
    from_secs: i64,
    from_subsec: u32,
    to_secs: i64,
    to_subsec: u32,
) -> int {
    let nanos = (to_secs - from_secs) * NANOS_PER_SEC + (to_subsec - from_subsec);
    if second_of_day(from_secs as int) < second_of_day(to_secs as int) && from_subsec
        >= NANOS_PER_SEC {
        nanos + NANOS_PER_SEC
    } else if second_of_day(to_secs as int) < second_of_day(from_secs as int) && to_subsec
        >= NANOS_PER_SEC {
        nanos - NANOS_PER_SEC
    } else {
        nanos
    }
}

fn count_nanos_between(from_secs: i64, from_subsec: u32, to_secs: i64, to_subsec: u32) -> (nanos:
    i128)
    ensures
        nanos == nanos_between(from_secs, from_subsec, to_secs, to_subsec),
        i128::MIN / 4 < nanos < i128::MAX / 4,
{
    let nanos = (to_secs as i128 - from_secs as i128) * NANOS_PER_SEC + (to_subsec as i128
        - from_subsec as i128);
    let from_second = seconds_since_midnight(from_secs);
    let to_second = seconds_since_midnight(to_secs);
    if from_second < to_second && from_subsec >= 1_000_000_000 {
        nanos + NANOS_PER_SEC
    } else if to_second < from_second && to_subsec >= 1_000_000_000 {
        nanos - NANOS_PER_SEC
    } else {
        nanos
    }
}

/// The number of the day that a second belongs to, 1970-01-01 being day 0.
pub open spec fn day_of(secs: int) -> int {
    secs / SECS_PER_DAY as int
}

/// The seconds since midnight of a second.
pub open spec fn second_of_day(secs: int) -> int {
    secs % SECS_PER_DAY as int
}

fn day_number(secs: i64) -> (day: i64)
    ensures
        day == day_of(secs as int),
{
    if secs >= 0 {
        secs / SECS_PER_DAY
    } else {
        -(-(secs + 1) / SECS_PER_DAY) - 1
    }
}

fn seconds_since_midnight(secs: i64) -> (seconds: u32)
    ensures
        seconds == second_of_day(secs as int),
        seconds < SECS_PER_DAY,
{
    if secs >= 0 {
        (secs % SECS_PER_DAY) as u32
    } else {
        (SECS_PER_DAY - 1 - -(secs + 1) % SECS_PER_DAY) as u32
    }
}

impl Timestamp {
    pub open spec fn in_calendar(self) -> bool {
        in_calendar(self.secs)
    }

    /// Whether this is no leap second.
    pub open spec fn plain(self) -> bool {
        self.subsec < NANOS_PER_SEC
    }

    pub open spec fn before(self, other: Timestamp) -> bool {
        comes_before(self.secs, self.subsec, other.secs, other.subsec)
    }

    pub fn is_before(self, other: Timestamp) -> (r: bool)
        ensures
            r == self.before(other),
    {
        self.secs < other.secs || (self.secs == other.secs && self.subsec < other.subsec)
    }

    /// The nanoseconds since another instant.
    pub open spec fn spec_since(self, other: Timestamp) -> int {
        nanos_between(other.secs, other.subsec, self.secs, self.subsec)
    }

    pub fn since(self, other: Timestamp) -> (nanos: i128)
        ensures
            nanos == self.spec_since(other),
            i128::MIN / 4 < nanos < i128::MAX / 4,
    {
        count_nanos_between(other.secs, other.subsec, self.secs, self.subsec)
    }

    /// Whether this is a time of the calendar. The fraction may exceed a second in the last second
    /// of a minute only, which is then a leap second.
    pub open spec fn representable(self) -> bool {
        &&& self.in_calendar()
        &&& self.subsec < NANOS_PER_SEC || (self.subsec < 2 * NANOS_PER_SEC && self.secs % 60 == 59)
    }

    pub fn is_representable(self) -> (r: bool)
        ensures
            r == self.representable(),
    {
        let second = seconds_since_midnight(self.secs) % 60;
        assert(second == self.secs % 60);
        CALENDAR_START <= self.secs && self.secs <= CALENDAR_END && (self.subsec < 1_000_000_000
            || (self.subsec < 2_000_000_000 && second == 59))
    }

    /// Whether the instant lies in the first minute of a Monday.
    ///
    /// 1970-01-01 was a Thursday, so that day 4 was the first Monday.
    pub open spec fn in_first_minute_of_monday(self) -> bool {
        &&& (day_of(self.secs as int) - 4) % 7 == 0
        &&& second_of_day(self.secs as int) < 60
    }

    pub fn is_first_minute_of_monday(self) -> (r: bool)
        ensures
            r == self.in_first_minute_of_monday(),
    {
        let day = day_number(self.secs);
        let second = seconds_since_midnight(self.secs);
        let week = if day >= 4 {
            (day - 4) % 7
        } else {
            (4 - day) % 7
        };
        week == 0 && second < 60
    }
}

impl LocalTime {
    pub open spec fn in_calendar(self) -> bool {
        in_calendar(self.secs)
    }

    /// Whether this is no leap second.
    pub open spec fn plain(self) -> bool {
        self.subsec < NANOS_PER_SEC
    }

    pub open spec fn before(self, other: LocalTime) -> bool {
        comes_before(self.secs, self.subsec, other.secs, other.subsec)
    }

    pub fn is_before(self, other: LocalTime) -> (r: bool)
        ensures
            r == self.before(other),
    {
        self.secs < other.secs || (self.secs == other.secs && self.subsec < other.subsec)
    }

    /// The nanoseconds since another wall clock time.
    pub open spec fn spec_since(self, other: LocalTime) -> int {
        nanos_between(other.secs, other.subsec, self.secs, self.subsec)
    }

    pub fn since(self, other: LocalTime) -> (nanos: i128)
        ensures
            nanos == self.spec_since(other),
            i128::MIN / 4 < nanos < i128::MAX / 4,
    {
        count_nanos_between(other.secs, other.subsec, self.secs, self.subsec)
    }

    /// A number for each wall clock time, which goes up in the order of the times.
    pub open spec fn spec_key(self) -> int {
        self.secs * KEYS_PER_SEC + self.subsec
    }

    pub fn key(self) -> (key: i128)
        ensures
            key == self.spec_key(),
    {
        self.secs as i128 * KEYS_PER_SEC + self.subsec as i128
    }

    /// The number of the day of this time.
    pub open spec fn spec_day(self) -> int {
        day_of(self.secs as int)
    }

    /// The time of day of this time.
    pub open spec fn spec_time(self) -> TimeOfDay {
        TimeOfDay { secs: second_of_day(self.secs as int) as u32, subsec: self.subsec }
    }

    /// The wall clock time in nanoseconds since 1970.
    pub fn nanos(self) -> (nanos: i128)
        ensures
            nanos == self@,
    {
        self.secs as i128 * NANOS_PER_SEC + self.subsec as i128
    }

    pub fn day(self) -> (day: i64)
        ensures
            day == self.spec_day(),
    {
        day_number(self.secs)
    }

    pub fn time(self) -> (time: TimeOfDay)
        ensures
            time == self.spec_time(),
            time.secs < SECS_PER_DAY,
    {
        TimeOfDay { secs: seconds_since_midnight(self.secs), subsec: self.subsec }
    }

    /// The given time on the given day.
    pub open spec fn spec_on_day(day: int, time: TimeOfDay) -> LocalTime {
        LocalTime { secs: (day * SECS_PER_DAY + time.secs) as i64, subsec: time.subsec }
    }

    pub fn on_day(day: i64, time: TimeOfDay) -> (r: LocalTime)
        requires
            i64::MIN <= day * SECS_PER_DAY,
            day * SECS_PER_DAY + time.secs <= i64::MAX,
        ensures
            r == Self::spec_on_day(day as int, time),
            r@ == day * NANOS_PER_DAY + time@,
    {
        LocalTime { secs: day * SECS_PER_DAY + time.secs as i64, subsec: time.subsec }
    }

    /// Whether a number of nanoseconds since 1970 can be held.
    pub open spec fn holds(nanos: int) -> bool {
        i64::MIN * NANOS_PER_SEC <= nanos < (i64::MAX + 1) * NANOS_PER_SEC
    }

    /// The wall clock time with the given number of nanoseconds since 1970.
    pub open spec fn spec_from_nanos(nanos: int) -> LocalTime {
        LocalTime {
            secs: (nanos / NANOS_PER_SEC as int) as i64,
            subsec: (nanos % NANOS_PER_SEC as int) as u32,
        }
    }

    pub fn from_nanos(nanos: i128) -> (r: LocalTime)
        requires
            Self::holds(nanos as int),
        ensures
            r == Self::spec_from_nanos(nanos as int),
            r@ == nanos,
            r.subsec < NANOS_PER_SEC,
    {
        let secs = if nanos >= 0 {
            nanos / NANOS_PER_SEC
        } else {
            -((-nanos - 1) / NANOS_PER_SEC) - 1
        };
        let subsec = nanos - secs * NANOS_PER_SEC;
        LocalTime { secs: secs as i64, subsec: subsec as u32 }
    }
}

impl LocalTime {
    /// The wall clock time that comes a number of nanoseconds later, or earlier where the number is
    /// negative.
    ///
    /// From within a leap second, one that is left behind does not count.
    pub open spec fn spec_plus(self, nanos: int) -> LocalTime {
        let subsec = self.subsec + nanos;
        if self.plain() || subsec < NANOS_PER_SEC {
            LocalTime::spec_from_nanos(self@ + nanos)
        } else if subsec < 2 * NANOS_PER_SEC {
            LocalTime { secs: self.secs, subsec: subsec as u32 }
        } else {
            LocalTime::spec_from_nanos(self@ - NANOS_PER_SEC + nanos)
        }
    }

    pub fn plus(self, nanos: i128) -> (r: LocalTime)
        requires
            LocalTime::holds(self@ + nanos),
        ensures
            r == self.spec_plus(nanos as int),
    {
        let subsec = self.subsec as i128 + nanos;
        if self.subsec < 1_000_000_000 || subsec < NANOS_PER_SEC {
            LocalTime::from_nanos(self.nanos() + nanos)
        } else if subsec < 2 * NANOS_PER_SEC {
            LocalTime { secs: self.secs, subsec: subsec as u32 }
        } else {
            LocalTime::from_nanos(self.nanos() - NANOS_PER_SEC + nanos)
        }
    }
}

/// The keys of two wall clock times are in the order of the times, and differ where the times do.
pub proof fn law_keys_are_in_order(a: LocalTime, b: LocalTime)
    ensures
        a.before(b) <==> a.spec_key() < b.spec_key(),
        a == b <==> a.spec_key() == b.spec_key(),
        i128::MIN < a.spec_key() < i128::MAX,
{
}

/// Of any two times, one comes before the other, unless they are the same.
pub proof fn law_times_are_ordered(a: LocalTime, b: LocalTime, c: LocalTime)
    ensures
        !(a.before(b) && b.before(a)),
        a.before(b) || b.before(a) || a == b,
        a.before(b) && b.before(c) ==> a.before(c),
{
}

/// Without leap seconds, times are ordered, and the time between them is counted, by their
/// nanoseconds, and going on for the time between two of them leads from the one to the other.
pub proof fn law_plain_times_count(a: LocalTime, b: LocalTime)
    requires
        a.plain(),
        b.plain(),
    ensures
        a.before(b) <==> a@ < b@,
        b.spec_since(a) == b@ - a@,
        a.spec_plus(b.spec_since(a)) == b,
{
}

impl TimeOfDay {
    pub open spec fn valid(self) -> bool {
        self.secs < SECS_PER_DAY && self.subsec < 2_000_000_000
    }

    pub open spec fn before(self, other: TimeOfDay) -> bool {
        self.secs < other.secs || (self.secs == other.secs && self.subsec < other.subsec)
    }

    pub fn is_before(self, other: TimeOfDay) -> (r: bool)
        ensures
            r == self.before(other),
    {
        self.secs < other.secs || (self.secs == other.secs && self.subsec < other.subsec)
    }
}

impl Moment {
    /// What every reading of the clock is known to meet: both times belong to the calendar, their
    /// fractions are less than a second, and the wall clock is less than a day off UTC.
    pub open spec fn valid(self) -> bool {
        &&& self.utc.in_calendar()
        &&& self.utc.subsec < NANOS_PER_SEC
        &&& self.local.in_calendar()
        &&& self.local.subsec < NANOS_PER_SEC
        &&& -NANOS_PER_DAY < self.local@ - self.utc@ < NANOS_PER_DAY
    }
}

/// Reads the clock with `chrono::Local::now`.
///
/// Nothing is known of the reading but that its dates are dates of the calendar, that the clock
/// counts nanoseconds within a second, and that the offset of a time zone is less than a day.
#[verifier::external_body]
pub(crate) fn read_clock() -> (now: Moment)
    ensures
        now.valid(),
{
    let now = Local::now();
    let local = now.naive_local().and_utc();
    Moment {
        utc: Timestamp { secs: now.timestamp(), subsec: now.timestamp_subsec_nanos() },
        local: LocalTime { secs: local.timestamp(), subsec: local.timestamp_subsec_nanos() },
    }
}

/// Finds with `chrono::NaiveDateTime::and_local_timezone` the instant at which the clocks of the
/// machine's time zone show the given time.
///
/// There is no such instant where the clocks are put forward, and no single one where they are
/// put back. The time zone is a matter of the machine, so nothing is known of the instant but
/// that it is less than a day off the same reading in UTC.
#[verifier::external_body]
pub(crate) fn instant_of(local: LocalTime) -> (instant: Option<Timestamp>)
    ensures
        instant matches Some(t) ==> t.in_calendar() && -NANOS_PER_DAY < t@ - local@
            < NANOS_PER_DAY,
{
    let naive = DateTime::from_timestamp(local.secs, local.subsec)?.naive_utc();
    let instant = naive.and_local_timezone(Local).single()?;
    Some(Timestamp { secs: instant.timestamp(), subsec: instant.timestamp_subsec_nanos() })
}

/// The instant that a text names, as `chrono` reads a `DateTime<Utc>`.
pub uninterp spec fn instant_in(text: Seq<char>) -> Option<Timestamp>;

/// Reads an instant out of a text with `chrono`'s `FromStr` of `DateTime<Utc>`.
#[verifier::external_body]
pub(crate) fn parse_instant(text: &str) -> (instant: Option<Timestamp>)
    ensures
        instant == instant_in(text@),
{
    let instant = text.parse::<DateTime<Utc>>().ok()?;
    Some(Timestamp { secs: instant.timestamp(), subsec: instant.timestamp_subsec_nanos() })
}

/// The time of day that a text names, as `chrono` reads a `NaiveTime`, or the words with which
/// `chrono` refuses the text.
pub uninterp spec fn time_of_day_in(text: Seq<char>) -> Result<TimeOfDay, Seq<char>>;

/// Reads a time of day out of a text with `chrono`'s `FromStr` of `NaiveTime`.
///
/// A time of day is less than a day, and its fraction is less than two seconds, the second of
/// which is there for leap seconds.
#[verifier::external_body]
pub(crate) fn parse_time_of_day(text: &str) -> (time: Result<TimeOfDay, String>)
    ensures
        match time {
            Ok(t) => time_of_day_in(text@) == Ok::<TimeOfDay, Seq<char>>(t) && t.valid(),
            Err(e) => time_of_day_in(text@) == Err::<TimeOfDay, Seq<char>>(e@),
        },
{
    match text.parse::<NaiveTime>() {
        Ok(t) => Ok(TimeOfDay { secs: t.num_seconds_from_midnight(), subsec: t.nanosecond() }),
        Err(e) => Err(e.to_string()),
    }
}

/// The whole seconds of a duration are those that fit into it, whichever way it goes.
pub proof fn law_whole_seconds_fit(nanos: int)
    ensures
        nanos >= 0 ==> whole_seconds(nanos) * 1_000_000_000 <= nanos < (whole_seconds(nanos) + 1)
            * 1_000_000_000,
        nanos <= 0 ==> (whole_seconds(nanos) - 1) * 1_000_000_000 < nanos <= whole_seconds(nanos)
            * 1_000_000_000,
        whole_seconds(-nanos) == -whole_seconds(nanos),
{
}

/// The seconds of a charging profile are the whole seconds of the duration, as long as 32 bits hold
/// them: they are over by the end of the duration, and one more would not be. They never go down as
/// the duration goes up.
pub proof fn law_profile_seconds_fit(nanos: int, longer: int)
    requires
        0 <= nanos < 2_147_483_648_000_000_000,
    ensures
        profile_seconds(nanos) * 1_000_000_000 <= nanos < (profile_seconds(nanos) + 1)
            * 1_000_000_000,
        nanos <= longer < 2_147_483_648_000_000_000 ==> profile_seconds(nanos) <= profile_seconds(
            longer,
        ),
{
    let seconds = whole_seconds(nanos);
    assert(0 <= seconds <= i32::MAX);
    if nanos <= longer < 2_147_483_648_000_000_000 {
        assert(seconds <= whole_seconds(longer) <= i32::MAX);
    }
}

/// A wall clock time is made of a day and of a time of that day, which lie a number of whole days
/// and less than a day after the start of 1970, and is what they make again.
pub proof fn law_day_and_time(time: LocalTime)
    ensures
        time.secs == 86_400 * time.spec_day() + time.spec_time().secs,
        time.spec_time().secs < 86_400,
        time.spec_time().subsec == time.subsec,
        LocalTime::spec_on_day(time.spec_day(), time.spec_time()) == time,
{
}

/// A time on a day is on that day, and at that time.
pub proof fn law_time_on_a_day(day: int, time: TimeOfDay)
    requires
        time.secs < 86_400,
        i64::MIN <= day * 86_400,
        day * 86_400 + 86_400 <= i64::MAX,
    ensures
        LocalTime::spec_on_day(day, time).spec_day() == day,
        LocalTime::spec_on_day(day, time).spec_time() == time,
        LocalTime::spec_on_day(day, time).secs == day * 86_400 + time.secs,
{
}

/// A wall clock time that is made of a number of nanoseconds lies as many after the start of 1970,
/// and is no leap second.
pub proof fn law_nanos_are_kept(nanos: int)
    requires
        LocalTime::holds(nanos),
    ensures
        ({
            let time = LocalTime::spec_from_nanos(nanos);
            &&& time.secs * 1_000_000_000 + time.subsec == nanos
            &&& time.subsec < 1_000_000_000
        }),
{
}

/// The first minute of Monday comes once a week, and lasts a minute: 1970-01-05 was a Monday.
pub proof fn law_first_minute_of_monday(instant: Timestamp)
    ensures
        instant.in_first_minute_of_monday() <==> (instant.secs - 345_600) % 604_800 < 60,
{
    let secs = instant.secs as int;
    let day = day_of(secs);
    let since = secs - 345_600;
    assert(secs == 86_400 * day + second_of_day(secs));
    assert(since == 604_800 * ((day - 4) / 7) + 86_400 * ((day - 4) % 7) + second_of_day(secs));
    assert(since % 604_800 == 86_400 * ((day - 4) % 7) + second_of_day(secs));
}

/// The time between two times is the same in both directions, and there is none from a time to
/// itself.
pub proof fn law_time_between_is_symmetric(a: LocalTime, b: LocalTime)
    ensures
        a.spec_since(b) == -b.spec_since(a),
        a.spec_since(a) == 0,
        (Timestamp { secs: a.secs, subsec: a.subsec }).spec_since(
            Timestamp { secs: b.secs, subsec: b.subsec },
        ) == a.spec_since(b),
        (Timestamp { secs: a.secs, subsec: a.subsec }).before(
            Timestamp { secs: b.secs, subsec: b.subsec },
        ) <==> a.before(b),
{
}

/// A leap second comes after the rest of its second and before the next one, and lasts a second, of
/// which the rest passes until the next one, unless that is on the next day.
pub proof fn law_leap_second_is_between(leap: LocalTime, plain: LocalTime, next: LocalTime)
    requires
        1_000_000_000 <= leap.subsec < 2_000_000_000,
        plain.secs == leap.secs,
        plain.subsec < 1_000_000_000,
        next.secs == leap.secs + 1,
        next.subsec < 1_000_000_000,
    ensures
        plain.before(leap),
        leap.before(next),
        leap.spec_since(plain) == leap.subsec - plain.subsec,
        next.spec_day() == leap.spec_day() ==> next.spec_since(leap) == 2_000_000_000 - leap.subsec
            + next.subsec,
{
    let secs = leap.secs as int;
    assert(second_of_day(secs + 1) == second_of_day(secs) + 1 || day_of(secs + 1) == day_of(secs)
        + 1);
}

/// Without leap seconds, the times of a day are ordered by how long after midnight they are.
pub proof fn law_times_of_day_are_ordered(a: TimeOfDay, b: TimeOfDay)
    requires
        a.subsec < 1_000_000_000,
        b.subsec < 1_000_000_000,
    ensures
        a.before(b) <==> a.secs * 1_000_000_000 + a.subsec < b.secs * 1_000_000_000 + b.subsec,
{
}

/// The calendar goes from the year -262143 to the year 262142. A time of it is one that belongs to it
/// and has less than a second as its fraction, or less than two in the last second of a minute.
pub proof fn law_times_of_the_calendar(time: Timestamp)
    ensures
        time.representable() <==> {
            &&& -8_334_601_228_800 <= time.secs <= 8_210_266_876_799
            &&& time.subsec < 1_000_000_000 || (time.subsec < 2_000_000_000 && time.secs % 60 == 59)
        },
{
}

/// A leap second counts between two times where the one after it is later in the day, whatever the
/// days are, and not otherwise.
pub proof fn law_leap_second_counts(leap: LocalTime, plain: LocalTime)
    requires
        1_000_000_000 <= leap.subsec < 2_000_000_000,
        plain.subsec < 1_000_000_000,
    ensures
        ({
            let nanos = (plain.secs - leap.secs) * 1_000_000_000 + plain.subsec - leap.subsec;
            let later = plain.secs % 86_400 > leap.secs % 86_400;
            &&& later ==> plain.spec_since(leap) == nanos + 1_000_000_000
            &&& !later ==> plain.spec_since(leap) == nanos
        }),
{
}

/// Going on from a leap second, or back from it, stays in it as long as it lasts. Going on beyond it
/// passes its second once more, and going back before it does not.
pub proof fn law_going_on_from_leap_second(leap: LocalTime, nanos: int)
    requires
        1_000_000_000 <= leap.subsec < 2_000_000_000,
        LocalTime::holds(leap@ + nanos),
        LocalTime::holds(leap@ + nanos - 1_000_000_000),
    ensures
        ({
            let after = leap.spec_plus(nanos);
            let fraction = leap.subsec + nanos;
            &&& 1_000_000_000 <= fraction < 2_000_000_000 ==> after.secs == leap.secs
                && after.subsec == fraction
            &&& fraction >= 2_000_000_000 ==> after.secs * 1_000_000_000 + after.subsec
                == leap.secs * 1_000_000_000 + fraction - 1_000_000_000
            &&& fraction < 1_000_000_000 ==> after.secs * 1_000_000_000 + after.subsec == leap.secs
                * 1_000_000_000 + fraction
        }),
{
}

} // verus!
