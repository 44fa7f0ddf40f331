//! Charging schedules: when to charge, and how much power to draw then.
use std::collections::BTreeMap;
use vstd::prelude::*;
use vstd::std_specs::cmp::OrdSpec;
use vstd::std_specs::convert::FromSpecImpl;

use crate::database::{Database, WriteView};
use crate::time::{
    LocalTime, Timestamp, duration_seconds, law_keys_are_in_order, read_clock, whole_seconds,
};

verus! {

/// Power limit (W) of a period for which none was chosen.
pub const DEFAULT_LIMIT: u32 = 7_400;

/// Number of phases to charge with.
pub const DEFAULT_NB_OF_PHASES: i32 = 1;

/// A stretch of wall clock time during which charging is allowed.
#[derive(Debug, Clone, Copy, PartialEq, Eq, Structural)]
pub struct ChargingSchedulePeriod {
    pub start: LocalTime,
    pub end: LocalTime,
    /// Power limit (W).
    pub limit: u32,
}

#[derive(Debug, Default, Copy, Clone, PartialEq, Eq, Structural)]
pub enum ChargingScheduleState {
    #[default]
    Active,
    Inactive,
}

/// A set of periods, each kept under the key of its start.
///
/// A schedule without any period blocks charging.
#[derive(Debug, PartialEq)]
pub struct ChargingSchedule {
    pub id: i32,
    pub set_time: Timestamp,
    pub state: ChargingScheduleState,
    pub periods: BTreeMap<i128, ChargingSchedulePeriod>,
}

/// The contents of a schedule.
pub struct ScheduleView {
    pub id: i32,
    pub set_time: Timestamp,
    pub state: ChargingScheduleState,
    pub periods: Map<i128, ChargingSchedulePeriod>,
}

impl View for ChargingSchedule {
    type V = ScheduleView;

    open spec fn view(&self) -> ScheduleView {
        ScheduleView {
            id: self.id,
            set_time: self.set_time,
            state: self.state,
            periods: self.periods@,
        }
    }
}

/// Whether the keys go up.
pub open spec fn ascending(keys: Seq<i128>) -> bool {
    forall|i: int, j: int| 0 <= i < j < keys.len() ==> keys[i] < keys[j]
}

/// Whether the keys go up and are those of the given set.
pub open spec fn lists(keys: Seq<i128>, dom: Set<i128>) -> bool {
    ascending(keys) && keys.to_set() == dom
}

/// The keys of a finite set, going up.
pub open spec fn keys_in_order(dom: Set<i128>) -> Seq<i128> {
    choose|keys: Seq<i128>| lists(keys, dom)
}

/// The periods of a schedule in the order of their starts.
pub open spec fn in_order(periods: Map<i128, ChargingSchedulePeriod>) -> Seq<
    ChargingSchedulePeriod,
> {
    keys_in_order(periods.dom()).map_values(|key: i128| periods[key])
}

proof fn lemma_lists_is_unique(a: Seq<i128>, b: Seq<i128>)
    requires
        ascending(a),
        ascending(b),
        a.to_set() == b.to_set(),
    ensures
        a == b,
    decreases a.len(),
{
    if a.len() == 0 {
        if b.len() > 0 {
            assert(b.to_set().contains(b[0]));
            assert(a.to_set().contains(b[0]));
        }
        assert(a =~= b);
    } else {
        assert(a.to_set().contains(a.last()));
        assert(b.to_set().contains(a.last()));
        let j = choose|j: int| 0 <= j < b.len() && b[j] == a.last();
        assert(b.to_set().contains(b.last()));
        assert(a.to_set().contains(b.last()));
        let i = choose|i: int| 0 <= i < a.len() && a[i] == b.last();
        assert(a.last() == b.last());
        let a0 = a.drop_last();
        let b0 = b.drop_last();
        assert forall|k: i128| a0.to_set().contains(k) == b0.to_set().contains(k) by {
            if a0.to_set().contains(k) {
                let i = choose|i: int| 0 <= i < a0.len() && a0[i] == k;
                assert(a[i] == k);
                assert(a.to_set().contains(k));
                assert(b.to_set().contains(k));
                let j = choose|j: int| 0 <= j < b.len() && b[j] == k;
                assert(b0[j] == k);
            }
            if b0.to_set().contains(k) {
                let j = choose|j: int| 0 <= j < b0.len() && b0[j] == k;
                assert(b[j] == k);
                assert(b.to_set().contains(k));
                assert(a.to_set().contains(k));
                let i = choose|i: int| 0 <= i < a.len() && a[i] == k;
                assert(a0[i] == k);
            }
        }
        assert(a0.to_set() =~= b0.to_set());
        lemma_lists_is_unique(a0, b0);
        assert(a =~= a0.push(a.last()));
        assert(b =~= b0.push(b.last()));
    }
}

proof fn lemma_keys_in_order_is(keys: Seq<i128>, dom: Set<i128>)
    requires
        lists(keys, dom),
    ensures
        keys_in_order(dom) == keys,
{
    lemma_lists_is_unique(keys, keys_in_order(dom));
}

/// What the keys of a map hand out in increasing order is what [`ascending`] says.
proof fn lemma_increasing_is_ascending(keys: Seq<i128>)
    requires
        vstd::std_specs::btree::increasing_seq(keys),
    ensures
        ascending(keys),
{
    broadcast use vstd::std_specs::btree::group_btree_axioms;

    assert forall|i: int, j: int| 0 <= i < j < keys.len() implies keys[i] < keys[j] by {
        assert(keys[i].cmp_spec(&keys[j]) is Less);
    }
}

impl ChargingScheduleState {
    pub fn is_active(self) -> (r: bool)
        ensures
            r == (self is Active),
    {
        matches!(self, ChargingScheduleState::Active)
    }

    pub open spec fn number(self) -> i32 {
        if self is Active {
            1
        } else {
            0
        }
    }

    /// The number under which the state is kept in the store.
    pub fn as_i32(self) -> (r: i32)
        ensures
            r == self.number(),
    {
        if !self.is_active() {
            return 0;
        }
        1
    }

    pub open spec fn of_number(value: i32) -> ChargingScheduleState {
        if value == 0 {
            ChargingScheduleState::Inactive
        } else {
            ChargingScheduleState::Active
        }
    }
}

impl From<i32> for ChargingScheduleState {
    fn from(value: i32) -> (r: Self) {
        if value == 0 {
            return ChargingScheduleState::Inactive;
        }
        ChargingScheduleState::Active
    }
}

impl FromSpecImpl<i32> for ChargingScheduleState {
    open spec fn obeys_from_spec() -> bool {
        true
    }

    open spec fn from_spec(value: i32) -> Self {
        ChargingScheduleState::of_number(value)
    }
}

/// A state read back from its number is the same state.
pub proof fn law_state_number_round_trip(state: ChargingScheduleState)
    ensures
        ChargingScheduleState::of_number(state.number()) == state,
{
}

/// What is left of a period from a wall clock time on, in nanoseconds.
pub open spec fn period_left(period: ChargingSchedulePeriod, from: LocalTime) -> int {
    if !from.before(period.end) {
        0
    } else if period.start.before(from) {
        period.end.spec_since(from)
    } else {
        period.end.spec_since(period.start)
    }
}

/// What is left of the periods from a wall clock time on, in nanoseconds.
pub open spec fn duration_left(periods: Seq<ChargingSchedulePeriod>, from: LocalTime) -> int
    decreases periods.len(),
{
    if periods.len() == 0 {
        0
    } else {
        duration_left(periods.drop_last(), from) + period_left(periods.last(), from)
    }
}

/// The energy (W s) that the periods still add from a wall clock time on, counting the whole
/// seconds of what is left of each.
pub open spec fn energy_left(
    periods: Seq<ChargingSchedulePeriod>,
    from: LocalTime,
    constant_power_loss: u16,
) -> int
    decreases periods.len(),
{
    if periods.len() == 0 {
        0
    } else {
        energy_left(periods.drop_last(), from, constant_power_loss) + (periods.last().limit
            - constant_power_loss) * whole_seconds(period_left(periods.last(), from))
    }
}

/// The longest time that can be left of a schedule: 2^63 - 1 milliseconds.
pub const MAX_DURATION: i128 = 9_223_372_036_854_775_807_000_000;

/// Whether what is left of the periods can be added up: of each period that is not over, there is
/// a whole second or more, and the sum is not too large.
pub open spec fn countable(periods: Seq<ChargingSchedulePeriod>, from: LocalTime) -> bool {
    &&& forall|i: int|
        #![trigger periods[i]]
        0 <= i < periods.len() && from.before(periods[i].end) ==> whole_seconds(
            period_left(periods[i], from),
        ) > 0
    &&& duration_left(periods, from) <= MAX_DURATION
}

/// How long, and with what energy, a schedule still charges.
#[derive(Debug, Copy, Clone, PartialEq, Eq, Structural)]
pub struct OutstandingDurationEnergy {
    /// Nanoseconds.
    pub duration: i128,
    /// Energy (W s).
    pub energy: i128,
}

impl OutstandingDurationEnergy {
    pub open spec fn spec_zero() -> Self {
        OutstandingDurationEnergy { duration: 0, energy: 0 }
    }

    fn zero() -> (r: Self)
        ensures
            r == Self::spec_zero(),
    {
        OutstandingDurationEnergy { duration: 0, energy: 0 }
    }

    pub fn is_zero(&self) -> (r: bool)
        ensures
            r == (*self == Self::spec_zero()),
    {
        *self == OutstandingDurationEnergy::zero()
    }

    /// Adds a duration during which the given power is drawn.
    fn add(&mut self, delta: i128, active_power: i64)
        requires
            whole_seconds(delta as int) > 0,
            0 <= old(self).duration,
            old(self).duration + delta <= MAX_DURATION,
            -u32::MAX <= active_power <= u32::MAX,
            -u32::MAX * old(self).duration <= old(self).energy <= u32::MAX * old(self).duration,
        ensures
            final(self).duration == old(self).duration + delta,
            final(self).energy == old(self).energy + active_power * whole_seconds(delta as int),
            -u32::MAX * final(self).duration <= final(self).energy <= u32::MAX
                * final(self).duration,
    {
        let seconds = duration_seconds(delta);
        proof {
            let power = active_power as int;
            let secs = seconds as int;
            assert(-u32::MAX * secs <= power * secs <= u32::MAX * secs) by (nonlinear_arith)
                requires
                    -u32::MAX <= power <= u32::MAX,
                    secs > 0,
            ;
        }
        self.duration = self.duration + delta;
        self.energy = self.energy + active_power as i128 * seconds;
    }
}

impl ScheduleView {
    /// A schedule without periods, set at the given instant.
    pub open spec fn blank(state: ChargingScheduleState, set_time: Timestamp) -> ScheduleView {
        ScheduleView { id: 0, set_time, state, periods: Map::empty() }
    }

    pub open spec fn with_period(self, period: ChargingSchedulePeriod) -> ScheduleView {
        ScheduleView { periods: self.periods.insert(period.start.spec_key() as i128, period), ..self }
    }

    /// Whether what is left of the schedule from a wall clock time on can be added up.
    pub open spec fn countable(self, from: LocalTime) -> bool {
        self.state is Active ==> countable(in_order(self.periods), from)
    }

    /// The energy (W s) that the schedule still adds from a wall clock time on.
    pub open spec fn energy_left(self, from: LocalTime, constant_power_loss: u16) -> int {
        if self.state is Active {
            energy_left(in_order(self.periods), from, constant_power_loss)
        } else {
            0
        }
    }

    /// How long the schedule still charges from a wall clock time on, in nanoseconds.
    pub open spec fn duration_left(self, from: LocalTime) -> int {
        if self.state is Active {
            duration_left(in_order(self.periods), from)
        } else {
            0
        }
    }

    /// Whether each period is kept under its own start.
    pub open spec fn well_formed(self) -> bool {
        &&& self.periods.dom().finite()
        &&& forall|key: i128| #[trigger]
            self.periods.dom().contains(key) ==> self.periods[key].start.spec_key() == key
    }
}

impl Clone for ChargingSchedule {
    fn clone(&self) -> (r: Self)
        ensures
            r@ == self@,
    {
        ChargingSchedule {
            id: self.id,
            set_time: self.set_time,
            state: self.state,
            periods: self.periods.clone(),
        }
    }
}

impl Default for ChargingSchedule {
    fn default() -> (r: Self)
        ensures
            r@ == ScheduleView::blank(ChargingScheduleState::Active, r.set_time),
            r.set_time.in_calendar(),
    {
        ChargingSchedule::set_at(ChargingScheduleState::Active, read_clock().utc)
    }
}

impl ChargingSchedule {
    /// A schedule without periods, set now.
    pub fn new() -> (r: Self)
        ensures
            r@ == ScheduleView::blank(ChargingScheduleState::Active, r.set_time),
            r.set_time.in_calendar(),
    {
        ChargingSchedule::default()
    }

    /// A schedule that is not applied, without periods, set now.
    pub fn new_inactive() -> (r: Self)
        ensures
            r@ == ScheduleView::blank(ChargingScheduleState::Inactive, r.set_time),
            r.set_time.in_calendar(),
    {
        ChargingSchedule::set_at(ChargingScheduleState::Inactive, read_clock().utc)
    }

    /// A schedule without periods, set at the given instant.
    pub fn set_at(state: ChargingScheduleState, set_time: Timestamp) -> (r: Self)
        ensures
            r@ == ScheduleView::blank(state, set_time),
    {
        ChargingSchedule { id: 0, set_time, state, periods: BTreeMap::new() }
    }

    /// Takes the schedule out of force, in the store too.
    pub fn inactivate(&mut self, db: &mut Database)
        ensures
            final(self)@ == (ScheduleView {
                state: ChargingScheduleState::Inactive,
                ..old(self)@
            }),
            final(db)@ == old(db)@.after(
                WriteView::InactivateSchedule { schedule_id: old(self).id },
            ),
    {
        self.state = ChargingScheduleState::Inactive;
        db.inactivate_charging_schedule(self.id);
    }

    pub fn is_active(&self) -> (r: bool)
        ensures
            r == (self.state is Active),
    {
        self.state.is_active()
    }

    /// The schedule with one more period, in place of one with the same start if there was any.
    pub fn add_period(self, period: ChargingSchedulePeriod) -> (r: Self)
        ensures
            r@ == self@.with_period(period),
    {
        broadcast use vstd::std_specs::btree::group_btree_axioms;

        let mut schedule = self;
        schedule.periods.insert(period.start.key(), period);
        schedule
    }

    pub fn is_empty(&self) -> (r: bool)
        ensures
            r == (self@.periods.dom() == Set::<i128>::empty()),
    {
        broadcast use vstd::std_specs::btree::group_btree_axioms;

        let r = self.periods.is_empty();
        proof {
            if self@.periods.dom() == Set::<i128>::empty() {
                assert(self@.periods =~= Map::empty());
            }
        }
        r
    }

    /// Lets the schedule be set now.
    pub fn reset_set_time(&mut self)
        ensures
            final(self)@ == (ScheduleView { set_time: final(self).set_time, ..old(self)@ }),
            final(self).set_time.in_calendar(),
    {
        self.set_time = read_clock().utc;
    }

    /// Whether what is left of the schedule from a wall clock time on can be added up.
    pub fn is_countable(&self, from: LocalTime) -> (r: bool)
        ensures
            r == self@.countable(from),
    {
        if !self.is_active() {
            return true;
        }
        let periods = self.periods();
        let mut total: i128 = 0;
        let mut i: usize = 0;
        while i < periods.len()
            invariant
                i <= periods.len(),
                self.state is Active,
                periods@ == in_order(self.periods@),
                0 <= total <= MAX_DURATION,
                total == duration_left(periods@.take(i as int), from),
                forall|j: int|
                    #![trigger periods@[j]]
                    0 <= j < i && from.before(periods@[j].end) ==> whole_seconds(
                        period_left(periods@[j], from),
                    ) > 0,
            decreases periods.len() - i,
        {
            let period = periods[i];
            let left = time_left(&period, from);
            proof {
                assert(periods@.take(i + 1).drop_last() =~= periods@.take(i as int));
            }
            if from.is_before(period.end) && duration_seconds(left) <= 0 {
                return false;
            }
            if left > MAX_DURATION - total {
                proof {
                    if countable(periods@, from) {
                        lemma_duration_left_at_most(periods@, from, i + 1);
                    }
                }
                return false;
            }
            total = total + left;
            i = i + 1;
        }
        proof {
            assert(periods@.take(i as int) =~= periods@);
        }
        true
    }

    /// How long, and with what energy, the schedule still charges from a wall clock time on.
    pub fn outstanding(&self, from_instant: LocalTime, constant_power_loss: u16) -> (r:
        OutstandingDurationEnergy)
        requires
            self@.countable(from_instant),
        ensures
            r.duration == self@.duration_left(from_instant),
            r.energy == self@.energy_left(from_instant, constant_power_loss),
            0 <= r.duration <= MAX_DURATION,
            -u32::MAX * MAX_DURATION <= r.energy <= u32::MAX * MAX_DURATION,
    {
        let mut rem = OutstandingDurationEnergy::zero();
        if !self.is_active() {
            return rem;
        }
        let periods = self.periods();
        let mut i: usize = 0;
        while i < periods.len()
            invariant
                i <= periods.len(),
                periods@ == in_order(self.periods@),
                countable(periods@, from_instant),
                rem.duration == duration_left(periods@.take(i as int), from_instant),
                rem.energy == energy_left(
                    periods@.take(i as int),
                    from_instant,
                    constant_power_loss,
                ),
                0 <= rem.duration,
                -u32::MAX * rem.duration <= rem.energy <= u32::MAX * rem.duration,
            decreases periods.len() - i,
        {
            let period = periods[i];
            proof {
                assert(periods@.take(i + 1).drop_last() =~= periods@.take(i as int));
                lemma_duration_left_at_most(periods@, from_instant, i + 1);
            }
            if from_instant.is_before(period.end) {
                rem.add(
                    time_left(&period, from_instant),
                    period.limit as i64 - constant_power_loss as i64,
                );
            } else {
                assert((period.limit - constant_power_loss) * 0 == 0);
            }
            i = i + 1;
        }
        proof {
            assert(periods@.take(i as int) =~= periods@);
        }
        rem
    }
}

/// What is left of a period from a wall clock time on, in nanoseconds.
fn time_left(period: &ChargingSchedulePeriod, from: LocalTime) -> (r: i128)
    ensures
        r == period_left(*period, from),
        i128::MIN / 4 < r < i128::MAX / 4,
{
    if !from.is_before(period.end) {
        0
    } else if period.start.is_before(from) {
        period.end.since(from)
    } else {
        period.end.since(period.start)
    }
}

proof fn lemma_duration_left_at_most(periods: Seq<ChargingSchedulePeriod>, from: LocalTime, n: int)
    requires
        0 <= n <= periods.len(),
        forall|i: int|
            #![trigger periods[i]]
            0 <= i < periods.len() && from.before(periods[i].end) ==> whole_seconds(
                period_left(periods[i], from),
            ) > 0,
    ensures
        0 <= duration_left(periods.take(n), from) <= duration_left(periods, from),
    decreases periods.len(),
{
    if periods.len() > 0 {
        let before = periods.drop_last();
        assert forall|i: int|
            #![trigger before[i]]
            0 <= i < before.len() && from.before(before[i].end) implies whole_seconds(
            period_left(before[i], from),
        ) > 0 by {
            assert(before[i] == periods[i]);
        }
        assert(periods[periods.len() - 1] == periods.last());
        if n == periods.len() {
            lemma_duration_left_at_most(before, from, n - 1);
            assert(periods.take(n) =~= periods);
        } else {
            lemma_duration_left_at_most(before, from, n);
            assert(periods.take(n) =~= before.take(n));
        }
    } else {
        assert(periods.take(n) =~= periods);
    }
}

impl ChargingSchedule {
    /// The periods in the order of their starts.
    pub fn periods(&self) -> (r: Vec<ChargingSchedulePeriod>)
        ensures
            r@ == in_order(self.periods@),
    {
        broadcast use vstd::std_specs::btree::group_btree_axioms;

        let mut periods: Vec<ChargingSchedulePeriod> = Vec::new();
        let values = self.periods.values();
        let ghost keys = choose|keys: Seq<i128>|
            {
                &&& vstd::std_specs::btree::increasing_seq(keys)
                &&& keys.to_set() == self.periods@.dom()
                &&& keys.no_duplicates()
                &&& vstd::std_specs::iter::IteratorSpec::remaining(&values) == keys.map(
                    |i: int, k| &self.periods@[k],
                )
            };
        for period in it: values
            invariant
                periods.len() == it.index(),
                forall|i: int| 0 <= i < periods.len() ==> periods@[i] == *it.seq()[i],
        {
            periods.push(*period);
        }
        proof {
            lemma_increasing_is_ascending(keys);
            lemma_keys_in_order_is(keys, self.periods@.dom());
            assert(periods@ =~= in_order(self.periods@));
        }
        periods
    }
}

proof fn lemma_max_key(dom: Set<i128>) -> (max: i128)
    requires
        dom.finite(),
        dom.len() > 0,
    ensures
        dom.contains(max),
        forall|key: i128| dom.contains(key) ==> key <= max,
    decreases dom.len(),
{
    let key = dom.choose();
    let rest = dom.remove(key);
    if rest.len() == 0 {
        assert forall|other: i128| dom.contains(other) implies other <= key by {
            if other != key {
                assert(rest.contains(other));
            }
        }
        key
    } else {
        let max = lemma_max_key(rest);
        let larger = if key > max {
            key
        } else {
            max
        };
        assert forall|other: i128| dom.contains(other) implies other <= larger by {
            if other != key {
                assert(rest.contains(other));
            }
        }
        larger
    }
}

proof fn lemma_can_be_listed(dom: Set<i128>) -> (keys: Seq<i128>)
    requires
        dom.finite(),
    ensures
        lists(keys, dom),
        keys.len() == dom.len(),
    decreases dom.len(),
{
    if dom.len() == 0 {
        let keys = Seq::<i128>::empty();
        assert(keys.to_set() =~= dom);
        keys
    } else {
        let max = lemma_max_key(dom);
        let before = lemma_can_be_listed(dom.remove(max));
        let keys = before.push(max);
        assert forall|i: int, j: int| 0 <= i < j < keys.len() implies keys[i] < keys[j] by {
            assert(before.to_set().contains(before[i]));
            if j < before.len() {
                assert(before[i] < before[j]);
            }
        }
        assert forall|key: i128| keys.to_set().contains(key) == dom.contains(key) by {
            if dom.contains(key) && key != max {
                assert(before.to_set().contains(key));
                let i = choose|i: int| 0 <= i < before.len() && before[i] == key;
                assert(keys[i] == key);
            }
            if key == max {
                assert(keys[before.len() as int] == max);
            }
            if keys.to_set().contains(key) {
                let i = choose|i: int| 0 <= i < keys.len() && keys[i] == key;
                if i < before.len() {
                    assert(before.to_set().contains(before[i]));
                }
            }
        }
        assert(keys.to_set() =~= dom);
        keys
    }
}

/// The periods of a schedule, taken in order, are all of its periods, each one once, and each
/// starts after the one before it.
pub proof fn law_periods_in_order(schedule: ScheduleView)
    requires
        schedule.well_formed(),
    ensures
        in_order(schedule.periods).len() == schedule.periods.dom().len(),
        forall|i: int, j: int|
            0 <= i < j < in_order(schedule.periods).len() ==> in_order(
                schedule.periods,
            )[i].start.before(in_order(schedule.periods)[j].start),
        forall|i: int|
            0 <= i < in_order(schedule.periods).len() ==> schedule.periods.contains_pair(
                (#[trigger] in_order(schedule.periods)[i]).start.spec_key() as i128,
                in_order(schedule.periods)[i],
            ),
        forall|key: i128| #[trigger]
            schedule.periods.dom().contains(key) ==> in_order(schedule.periods).contains(
                schedule.periods[key],
            ),
{
    let dom = schedule.periods.dom();
    let keys = lemma_can_be_listed(dom);
    lemma_keys_in_order_is(keys, dom);
    let periods = in_order(schedule.periods);
    assert forall|i: int| 0 <= i < periods.len() implies dom.contains(#[trigger] keys[i])
        && periods[i] == schedule.periods[keys[i]] && periods[i].start.spec_key() == keys[i] by {
        assert(keys.to_set().contains(keys[i]));
    }
    assert forall|i: int, j: int| 0 <= i < j < periods.len() implies periods[i].start.before(
        periods[j].start,
    ) by {
        assert(keys[i] < keys[j]);
        law_keys_are_in_order(periods[i].start, periods[j].start);
    }
    assert forall|key: i128| #[trigger] dom.contains(key) implies periods.contains(
        schedule.periods[key],
    ) by {
        assert(keys.to_set().contains(key));
        let i = choose|i: int| 0 <= i < keys.len() && keys[i] == key;
        assert(periods[i] == schedule.periods[key]);
    }
}

/// Adding a period leaves each period under its own start.
pub proof fn law_add_period_keeps_form(schedule: ScheduleView, period: ChargingSchedulePeriod)
    requires
        schedule.well_formed(),
    ensures
        schedule.with_period(period).well_formed(),
        schedule.with_period(period).periods[period.start.spec_key() as i128] == period,
{
}

/// Nothing is outstanding of a schedule that is out of force, nor of one whose periods are over.
pub proof fn law_nothing_outstanding(
    schedule: ScheduleView,
    from: LocalTime,
    constant_power_loss: u16,
)
    requires
        schedule.well_formed(),
        schedule.state is Inactive || forall|key: i128| #[trigger]
            schedule.periods.dom().contains(key) ==> !from.before(schedule.periods[key].end),
    ensures
        schedule.countable(from),
        schedule.duration_left(from) == 0,
        schedule.energy_left(from, constant_power_loss) == 0,
{
    if schedule.state is Active {
        law_periods_in_order(schedule);
        let periods = in_order(schedule.periods);
        assert forall|i: int| 0 <= i < periods.len() implies !from.before(
            (#[trigger] periods[i]).end,
        ) by {
            assert(schedule.periods.dom().contains(periods[i].start.spec_key() as i128));
        }
        lemma_over_is_nothing(periods, from, constant_power_loss);
    }
}

proof fn lemma_over_is_nothing(
    periods: Seq<ChargingSchedulePeriod>,
    from: LocalTime,
    constant_power_loss: u16,
)
    requires
        forall|i: int| 0 <= i < periods.len() ==> !from.before((#[trigger] periods[i]).end),
    ensures
        duration_left(periods, from) == 0,
        energy_left(periods, from, constant_power_loss) == 0,
    decreases periods.len(),
{
    if periods.len() > 0 {
        let before = periods.drop_last();
        assert forall|i: int| 0 <= i < before.len() implies !from.before(
            (#[trigger] before[i]).end,
        ) by {
            assert(before[i] == periods[i]);
        }
        lemma_over_is_nothing(before, from, constant_power_loss);
        assert(periods[periods.len() - 1] == periods.last());
        assert((periods.last().limit - constant_power_loss) * 0 == 0);
    }
}

/// The part of a period that comes after a wall clock time, in nanoseconds.
pub open spec fn rest_of(period: ChargingSchedulePeriod, from: LocalTime) -> int {
    let start = if period.start.before(from) {
        from
    } else {
        period.start
    };
    if start.before(period.end) {
        period.end.spec_since(start)
    } else {
        0
    }
}

/// Whether no period starts or ends in a leap second.
pub open spec fn all_plain(periods: Seq<ChargingSchedulePeriod>) -> bool {
    forall|i: int|
        #![trigger periods[i]]
        0 <= i < periods.len() ==> periods[i].start.plain() && periods[i].end.plain()
}

/// The sum of the parts of the periods that come after a wall clock time.
pub open spec fn sum_of_rests(periods: Seq<ChargingSchedulePeriod>, from: LocalTime) -> int {
    periods.fold_left(0int, |sum: int, period: ChargingSchedulePeriod| sum + rest_of(period, from))
}

/// The energy (W s) that the power of each period, less the loss, comes to in the whole seconds of
/// the part of it that comes after a wall clock time.
pub open spec fn energy_of_rests(
    periods: Seq<ChargingSchedulePeriod>,
    from: LocalTime,
    constant_power_loss: u16,
) -> int {
    periods.fold_left(
        0int,
        |sum: int, period: ChargingSchedulePeriod|
            sum + (period.limit - constant_power_loss) * whole_seconds(rest_of(period, from)),
    )
}

/// What is outstanding of a schedule in force is the sum of the parts of its periods that are still
/// to come, and the energy that they add, unless a period starts or ends in a leap second. Nothing
/// is outstanding of one that is out of force.
pub proof fn law_outstanding_is_what_is_to_come(
    schedule: ScheduleView,
    from: LocalTime,
    constant_power_loss: u16,
)
    requires
        schedule.countable(from),
        all_plain(in_order(schedule.periods)),
    ensures
        schedule.state is Active ==> {
            let periods = in_order(schedule.periods);
            &&& schedule.duration_left(from) == sum_of_rests(periods, from)
            &&& schedule.energy_left(from, constant_power_loss) == energy_of_rests(
                periods,
                from,
                constant_power_loss,
            )
        },
        schedule.state is Inactive ==> schedule.duration_left(from) == 0 && schedule.energy_left(
            from,
            constant_power_loss,
        ) == 0,
{
    if schedule.state is Active {
        lemma_rests(in_order(schedule.periods), from, constant_power_loss);
    }
}

/// Whether, of each period that is not over, there is a whole second or more.
spec fn seconds_left(periods: Seq<ChargingSchedulePeriod>, from: LocalTime) -> bool {
    forall|i: int|
        #![trigger periods[i]]
        0 <= i < periods.len() && from.before(periods[i].end) ==> whole_seconds(
            period_left(periods[i], from),
        ) > 0
}

proof fn lemma_rests(periods: Seq<ChargingSchedulePeriod>, from: LocalTime, constant_power_loss: u16)
    requires
        seconds_left(periods, from),
        all_plain(periods),
    ensures
        duration_left(periods, from) == sum_of_rests(periods, from),
        energy_left(periods, from, constant_power_loss) == energy_of_rests(
            periods,
            from,
            constant_power_loss,
        ),
    decreases periods.len(),
{
    if periods.len() > 0 {
        let before = periods.drop_last();
        assert(seconds_left(before, from)) by {
            assert forall|i: int|
                #![trigger before[i]]
                0 <= i < before.len() && from.before(before[i].end) implies whole_seconds(
                period_left(before[i], from),
            ) > 0 by {
                assert(before[i] == periods[i]);
            }
        }
        assert(all_plain(before)) by {
            assert forall|i: int| #![trigger before[i]] 0 <= i < before.len() implies before[i]
                == periods[i] by {}
        }
        lemma_rests(before, from, constant_power_loss);
        assert(periods[periods.len() - 1] == periods.last());
        assert(period_left(periods.last(), from) == rest_of(periods.last(), from));
    }
}

/// As time goes by, what is outstanding of a schedule never grows, neither the time nor, as long as
/// no period has a limit below the loss, the energy, unless there are leap seconds.
pub proof fn law_outstanding_never_grows(
    schedule: ScheduleView,
    earlier: LocalTime,
    later: LocalTime,
    constant_power_loss: u16,
)
    requires
        !later.before(earlier),
        earlier.plain(),
        later.plain(),
        schedule.countable(earlier),
        all_plain(in_order(schedule.periods)),
    ensures
        0 <= schedule.duration_left(later) <= schedule.duration_left(earlier),
        (forall|i: int|
            0 <= i < in_order(schedule.periods).len() ==> (#[trigger] in_order(
                schedule.periods,
            )[i]).limit >= constant_power_loss) ==> 0 <= schedule.energy_left(
            later,
            constant_power_loss,
        ) <= schedule.energy_left(earlier, constant_power_loss),
{
    if schedule.state is Active {
        lemma_never_grows(in_order(schedule.periods), earlier, later, constant_power_loss);
    }
}

proof fn lemma_never_grows(
    periods: Seq<ChargingSchedulePeriod>,
    earlier: LocalTime,
    later: LocalTime,
    constant_power_loss: u16,
)
    requires
        !later.before(earlier),
        earlier.plain(),
        later.plain(),
        seconds_left(periods, earlier),
        all_plain(periods),
    ensures
        0 <= duration_left(periods, later) <= duration_left(periods, earlier),
        (forall|i: int|
            0 <= i < periods.len() ==> (#[trigger] periods[i]).limit >= constant_power_loss) ==> 0
            <= energy_left(periods, later, constant_power_loss) <= energy_left(
            periods,
            earlier,
            constant_power_loss,
        ),
    decreases periods.len(),
{
    if periods.len() > 0 {
        let before = periods.drop_last();
        assert forall|i: int| #![trigger before[i]] 0 <= i < before.len() implies before[i]
            == periods[i] by {}
        assert(seconds_left(before, earlier));
        assert(all_plain(before));
        lemma_never_grows(before, earlier, later, constant_power_loss);
        let last = periods.last();
        assert(periods[periods.len() - 1] == last);
        let less = whole_seconds(period_left(last, later));
        let more = whole_seconds(period_left(last, earlier));
        assert(0 <= period_left(last, later) <= period_left(last, earlier));
        assert(0 <= less <= more);
        if last.limit >= constant_power_loss {
            let power = last.limit - constant_power_loss;
            assert(0 <= power * less <= power * more) by (nonlinear_arith)
                requires
                    0 <= power,
                    0 <= less <= more,
            ;
        }
    }
}

/// Where no power limit was chosen it is 7400 W, and charging takes one phase.
pub proof fn law_defaults()
    ensures
        DEFAULT_LIMIT == 7_400,
        DEFAULT_NB_OF_PHASES == 1,
{
}

/// A schedule in force is kept under the number 1, and one out of force under 0. Any other number is
/// taken for one in force.
pub proof fn law_numbers_of_states(value: i32)
    ensures
        ChargingScheduleState::Active.number() == 1,
        ChargingScheduleState::Inactive.number() == 0,
        ChargingScheduleState::of_number(value) is Inactive <==> value == 0,
{
}

/// A schedule is made without periods, in the state and at the time that are given, and without a
/// number.
pub proof fn law_blank_schedule(state: ChargingScheduleState, set_time: Timestamp)
    ensures
        ({
            let schedule = ScheduleView::blank(state, set_time);
            &&& schedule.id == 0
            &&& schedule.set_time == set_time
            &&& schedule.state == state
            &&& forall|key: i128| !#[trigger] schedule.periods.dom().contains(key)
        }),
{
}

/// A period that is added takes the place of the one that starts at the same time, if there is any.
/// All other periods stay, and so does the rest of the schedule.
pub proof fn law_period_is_added(
    schedule: ScheduleView,
    period: ChargingSchedulePeriod,
    other: LocalTime,
)
    ensures
        ({
            let after = schedule.with_period(period);
            let key = period.start.spec_key() as i128;
            let other_key = other.spec_key() as i128;
            &&& after.id == schedule.id
            &&& after.set_time == schedule.set_time
            &&& after.state == schedule.state
            &&& after.periods.dom().contains(key)
            &&& after.periods[key] == period
            &&& other != period.start ==> {
                &&& after.periods.dom().contains(other_key) <==> schedule.periods.dom().contains(
                    other_key,
                )
                &&& schedule.periods.dom().contains(other_key) ==> after.periods[other_key]
                    == schedule.periods[other_key]
            }
        }),
{
    law_keys_are_in_order(period.start, other);
    law_keys_are_in_order(other, period.start);
}

/// The periods of a schedule to which one period, or two, were added are those periods, the one that
/// starts earlier coming first.
pub proof fn law_added_periods_in_order(
    state: ChargingScheduleState,
    set_time: Timestamp,
    first: ChargingSchedulePeriod,
    second: ChargingSchedulePeriod,
)
    requires
        first.start.before(second.start),
    ensures
        ({
            let blank = ScheduleView::blank(state, set_time);
            &&& in_order(blank.periods) == Seq::<ChargingSchedulePeriod>::empty()
            &&& in_order(blank.with_period(first).periods) == seq![first]
            &&& in_order(blank.with_period(first).with_period(second).periods) == seq![first, second]
            &&& in_order(blank.with_period(second).with_period(first).periods) == seq![first, second]
        }),
{
    law_keys_are_in_order(first.start, second.start);
    law_keys_are_in_order(second.start, first.start);
    let blank = ScheduleView::blank(state, set_time);
    let a = first.start.spec_key() as i128;
    let b = second.start.spec_key() as i128;
    assert(a < b);
    let none = Seq::<i128>::empty();
    assert(none.to_set() =~= blank.periods.dom());
    lemma_keys_in_order_is(none, blank.periods.dom());
    assert(in_order(blank.periods) =~= Seq::<ChargingSchedulePeriod>::empty());
    let one = seq![a];
    let with_one = blank.with_period(first).periods;
    assert(one[0] == a);
    assert(one.to_set() =~= with_one.dom());
    lemma_keys_in_order_is(one, with_one.dom());
    assert(in_order(with_one) =~= seq![first]);
    let two = seq![a, b];
    assert(two[0] == a && two[1] == b);
    let with_two = blank.with_period(first).with_period(second).periods;
    assert(two.to_set() =~= with_two.dom());
    lemma_keys_in_order_is(two, with_two.dom());
    assert(in_order(with_two) =~= seq![first, second]);
    let reversed = blank.with_period(second).with_period(first).periods;
    assert(two.to_set() =~= reversed.dom());
    lemma_keys_in_order_is(two, reversed.dom());
    assert(in_order(reversed) =~= seq![first, second]);
}

/// What is left of a schedule can be added up unless the schedule is in force and there is less than
/// a second left of a period that is not over, or more than 2^63 - 1 milliseconds in all.
pub proof fn law_when_countable(schedule: ScheduleView, from: LocalTime)
    ensures
        schedule.countable(from) <==> schedule.state is Inactive || {
            let periods = in_order(schedule.periods);
            &&& forall|i: int|
                #![trigger periods[i]]
                0 <= i < periods.len() && from.before(periods[i].end) ==> periods[i].end.spec_since(
                    if periods[i].start.before(from) {
                        from
                    } else {
                        periods[i].start
                    },
                ) >= 1_000_000_000
            &&& schedule.duration_left(from) <= 9_223_372_036_854_775_807_000_000
        },
{
    if schedule.state is Active {
        let periods = in_order(schedule.periods);
        assert forall|i: int|
            #![trigger periods[i]]
            0 <= i < periods.len() && from.before(periods[i].end) implies (whole_seconds(
            period_left(periods[i], from),
        ) > 0) == (periods[i].end.spec_since(
            if periods[i].start.before(from) {
                from
            } else {
                periods[i].start
            },
        ) >= 1_000_000_000) by {}
    }
}

} // verus!
