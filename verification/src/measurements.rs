//! What the charging point measures.
use vstd::prelude::*;
use vstd::std_specs::cmp::PartialEqSpecImpl;
use vstd::std_specs::convert::FromSpecImpl;

use crate::text::{number_in, parse_number, same_text};
use crate::time::{Timestamp, instant_in, parse_instant};

verus! {

/// Voltage floor step from which to report a difference when computing Eq
pub const VOLTAGE_DIFF_STEP: u64 = 3;

/// Voltage offset to add when computing Eq, so the steps are centered around 230 V
pub const VOLTAGE_DIFF_OFFSET: u64 = 2;

/// DPM energy rounding step from which to report a difference when computing Eq
pub const DPM_ENERGY_DIFF_STEP: u64 = 1_000;

/// DPM power rounding step from which to report a difference when computing Eq
pub const DPM_POWER_DIFF_STEP: u64 = 500;

/// The step that a value belongs to, the steps being shifted down by an offset.
pub open spec fn step_of(value: u64, offset: int, step: u64) -> int {
    (value + offset) / step as int
}

fn same_step(lhs: u64, rhs: u64, offset: u64, step: u64) -> (r: bool)
    requires
        step > 0,
    ensures
        r == (step_of(lhs, offset as int, step) == step_of(rhs, offset as int, step)),
{
    let offset = offset as u128;
    let step = step as u128;
    (lhs as u128 + offset) / step == (rhs as u128 + offset) / step
}

pub open spec fn spec_voltage_eq(lhs: u64, rhs: u64) -> bool {
    step_of(lhs, 2, VOLTAGE_DIFF_STEP) == step_of(rhs, 2, VOLTAGE_DIFF_STEP)
}

pub fn voltage_eq(lhs: u64, rhs: u64) -> (r: bool)
    ensures
        r == spec_voltage_eq(lhs, rhs),
{
    same_step(lhs, rhs, VOLTAGE_DIFF_OFFSET, VOLTAGE_DIFF_STEP)
}

pub open spec fn spec_dpm_energy_eq(lhs: u64, rhs: u64) -> bool {
    step_of(lhs, 500, DPM_ENERGY_DIFF_STEP) == step_of(rhs, 500, DPM_ENERGY_DIFF_STEP)
}

pub fn dpm_energy_eq(lhs: u64, rhs: u64) -> (r: bool)
    ensures
        r == spec_dpm_energy_eq(lhs, rhs),
{
    same_step(lhs, rhs, DPM_ENERGY_DIFF_STEP / 2, DPM_ENERGY_DIFF_STEP)
}

pub open spec fn spec_dpm_power_eq(lhs: u64, rhs: u64) -> bool {
    step_of(lhs, 250, DPM_POWER_DIFF_STEP) == step_of(rhs, 250, DPM_POWER_DIFF_STEP)
}

pub fn dpm_power_eq(lhs: u64, rhs: u64) -> (r: bool)
    ensures
        r == spec_dpm_power_eq(lhs, rhs),
{
    same_step(lhs, rhs, DPM_POWER_DIFF_STEP / 2, DPM_POWER_DIFF_STEP)
}

/// A value that the charging point has sampled, as it reports it.
#[derive(Debug, PartialEq, Eq)]
pub struct MeterSample {
    pub value: String,
    pub measurand: Option<String>,
    pub phase: Option<String>,
}

/// The contents of a [`MeterSample`].
pub struct SampleView {
    pub value: Seq<char>,
    pub measurand: Option<Seq<char>>,
    pub phase: Option<Seq<char>>,
}

pub open spec fn option_text(text: Option<String>) -> Option<Seq<char>> {
    match text {
        Some(text) => Some(text@),
        None => None,
    }
}

impl View for MeterSample {
    type V = SampleView;

    open spec fn view(&self) -> SampleView {
        SampleView {
            value: self.value@,
            measurand: option_text(self.measurand),
            phase: option_text(self.phase),
        }
    }
}

/// The values that the charging point has sampled at an instant.
#[derive(Debug, PartialEq, Eq)]
pub struct MeterValue {
    pub timestamp: Timestamp,
    pub sampled_value: Vec<MeterSample>,
}

/// The contents of a [`MeterValue`].
pub struct MeterValueView {
    pub timestamp: Timestamp,
    pub sampled_value: Seq<SampleView>,
}

impl View for MeterValue {
    type V = MeterValueView;

    open spec fn view(&self) -> MeterValueView {
        MeterValueView {
            timestamp: self.timestamp,
            sampled_value: self.sampled_value@.map_values(|sample: MeterSample| sample@),
        }
    }
}

/// What the library reads out of the sampled values.
pub enum Measure {
    Energy,
    Power,
    VoltageL1,
    Temperature,
}

impl SampleView {
    /// What the sample measures.
    pub open spec fn measure(self) -> Option<Measure> {
        if self.measurand == Some("Energy.Active.Import.Register"@) {
            Some(Measure::Energy)
        } else if self.measurand == Some("Power.Active.Import"@) {
            Some(Measure::Power)
        } else if self.measurand == Some("Voltage"@) {
            if self.phase == Some("L1"@) {
                Some(Measure::VoltageL1)
            } else {
                None
            }
        } else if self.measurand == Some("Temperature"@) {
            Some(Measure::Temperature)
        } else {
            None
        }
    }
}

/// The last sample of a measure, as a number.
pub open spec fn last_reading(samples: Seq<SampleView>, measure: Measure) -> Option<u64>
    decreases samples.len(),
{
    if samples.len() == 0 {
        None
    } else if samples.last().measure() == Some(measure) {
        number_in(samples.last().value)
    } else {
        last_reading(samples.drop_last(), measure)
    }
}

fn is_text(text: &Option<String>, expected: &str) -> (r: bool)
    ensures
        r == (option_text(*text) == Some(expected@)),
{
    match text {
        Some(text) => same_text(text.as_str(), expected),
        None => false,
    }
}

/// What the library keeps of the sampled values.
#[derive(Debug, Clone, Copy)]
pub struct MeterValueSelection {
    pub timestamp: Timestamp,
    pub transaction_id: Option<i32>,
    pub active_energy_import: Option<u64>,
    pub active_power_import: Option<u64>,
    pub voltage_l1: Option<u64>,
    pub temperature: Option<u64>,
}

impl Default for MeterValueSelection {
    fn default() -> (r: Self)
        ensures
            r == (MeterValueSelection {
                timestamp: Timestamp { secs: 0, subsec: 0 },
                transaction_id: None,
                active_energy_import: None,
                active_power_import: None,
                voltage_l1: None,
                temperature: None,
            }),
    {
        MeterValueSelection {
            timestamp: Timestamp { secs: 0, subsec: 0 },
            transaction_id: None,
            active_energy_import: None,
            active_power_import: None,
            voltage_l1: None,
            temperature: None,
        }
    }
}

impl MeterValueSelection {
    pub open spec fn spec_new(mv: MeterValueView, transaction_id: Option<i32>) -> Self {
        MeterValueSelection {
            timestamp: mv.timestamp,
            transaction_id,
            active_energy_import: last_reading(mv.sampled_value, Measure::Energy),
            active_power_import: last_reading(mv.sampled_value, Measure::Power),
            voltage_l1: last_reading(mv.sampled_value, Measure::VoltageL1),
            temperature: last_reading(mv.sampled_value, Measure::Temperature),
        }
    }

    pub fn new(mv: &MeterValue, transaction_id: Option<i32>) -> (r: Self)
        ensures
            r == Self::spec_new(mv@, transaction_id),
    {
        let mut selection = MeterValueSelection {
            timestamp: mv.timestamp,
            transaction_id,
            ..Default::default()
        };
        let ghost samples = mv@.sampled_value;
        let mut i: usize = 0;
        assert(samples.take(0) =~= Seq::empty());
        while i < mv.sampled_value.len()
            invariant
                i <= mv.sampled_value.len(),
                samples == mv@.sampled_value,
                selection == Self::spec_new(
                    MeterValueView {
                        timestamp: mv.timestamp,
                        sampled_value: samples.take(i as int),
                    },
                    transaction_id,
                ),
            decreases mv.sampled_value.len() - i,
        {
            let sample = &mv.sampled_value[i];
            assert(samples[i as int] == sample@);
            assert(samples.take(i + 1).drop_last() =~= samples.take(i as int));
            if is_text(&sample.measurand, "Energy.Active.Import.Register") {
                selection.active_energy_import = parse_number(sample.value.as_str());
            } else if is_text(&sample.measurand, "Power.Active.Import") {
                selection.active_power_import = parse_number(sample.value.as_str());
            } else if is_text(&sample.measurand, "Voltage") {
                if is_text(&sample.phase, "L1") {
                    selection.voltage_l1 = parse_number(sample.value.as_str());
                }
            } else if is_text(&sample.measurand, "Temperature") {
                selection.temperature = parse_number(sample.value.as_str());
            }
            i = i + 1;
        }
        assert(samples.take(i as int) =~= samples);
        selection
    }

    /// Whether two selections make no difference to the user: the same energy, and no difference
    /// in the power nor in the step of the voltage where both are known.
    pub open spec fn same_as(self, other: Self) -> bool {
        &&& self.active_energy_import == other.active_energy_import
        &&& match (self.active_power_import, other.active_power_import) {
            (Some(a), Some(b)) => a == b,
            _ => true,
        }
        &&& match (self.voltage_l1, other.voltage_l1) {
            (Some(a), Some(b)) => spec_voltage_eq(a, b),
            _ => true,
        }
    }
}

impl PartialEq for MeterValueSelection {
    fn eq(&self, other: &Self) -> (r: bool) {
        let same_energy = match (self.active_energy_import, other.active_energy_import) {
            (Some(a), Some(b)) => a == b,
            (None, None) => true,
            _ => false,
        };
        let same_power = match (self.active_power_import, other.active_power_import) {
            (Some(a), Some(b)) => a == b,
            _ => true,
        };
        let same_voltage = match (self.voltage_l1, other.voltage_l1) {
            (Some(a), Some(b)) => voltage_eq(a, b),
            _ => true,
        };
        same_energy && same_power && same_voltage
    }
}

impl PartialEqSpecImpl for MeterValueSelection {
    open spec fn obeys_eq_spec() -> bool {
        true
    }

    open spec fn eq_spec(&self, other: &Self) -> bool {
        self.same_as(*other)
    }
}

/// Meter Value Temperature observer
/// Avoids logging when temperature fluctuates between two values
#[derive(Debug, Clone, Copy)]
pub struct MeterValueObserver {
    pub prev_meter_val: Option<MeterValueSelection>,
    /// Sum of the last two temperatures, twice their mean.
    pub prev_temp_sum: Option<u128>,
    pub last_voltage: Option<u64>,
}

impl Default for MeterValueObserver {
    fn default() -> (r: Self)
        ensures
            r == (MeterValueObserver {
                prev_meter_val: None,
                prev_temp_sum: None,
                last_voltage: None,
            }),
    {
        MeterValueObserver { prev_meter_val: None, prev_temp_sum: None, last_voltage: None }
    }
}

/// The sum of two temperatures, where both are known.
pub open spec fn temperature_sum(a: MeterValueSelection, b: MeterValueSelection) -> Option<u128> {
    match (a.temperature, b.temperature) {
        (Some(a), Some(b)) => Some((a + b) as u128),
        _ => None,
    }
}

impl MeterValueObserver {
    /// The meter value, with the voltage that came with an earlier one.
    pub open spec fn consolidated(self, mv: MeterValueSelection) -> MeterValueSelection {
        if mv.voltage_l1 is None && mv.active_power_import is Some {
            MeterValueSelection { voltage_l1: self.last_voltage, ..mv }
        } else {
            mv
        }
    }

    pub open spec fn after_consolidation(self, mv: MeterValueSelection) -> MeterValueObserver {
        match (mv.voltage_l1, mv.active_power_import) {
            (Some(voltage), None) => MeterValueObserver { last_voltage: Some(voltage), ..self },
            (None, Some(_)) => MeterValueObserver { last_voltage: None, ..self },
            _ => self,
        }
    }

    /// Consolidates successive meter values
    ///
    /// Some MeterValues come with voltage but no power measure,
    /// and they are usually followed by another MeterValue set
    /// containing power but no voltages.
    ///
    /// This function keep track of voltage when present and
    /// adds it to the next MeterValue set, so only the
    /// consolidated one will be selected for log.
    pub fn consolidate(&mut self, mv: &mut MeterValueSelection)
        ensures
            *final(mv) == old(self).consolidated(*old(mv)),
            *final(self) == old(self).after_consolidation(*old(mv)),
    {
        match (mv.voltage_l1, mv.active_power_import) {
            (Some(voltage), None) => {
                self.last_voltage = Some(voltage);
            },
            (None, Some(_)) => {
                mv.voltage_l1 = self.last_voltage;
                self.last_voltage = None;
            },
            _ => {},
        }
    }

    /// Whether a meter value tells the user anything new: it comes with a power, and differs from
    /// the previous one, be it by a temperature that does not merely go back and forth.
    pub open spec fn pertinent(self, mv: MeterValueSelection) -> bool {
        &&& mv.active_power_import is Some
        &&& match self.prev_meter_val {
            None => true,
            Some(prev) => {
                ||| !prev.same_as(mv)
                ||| {
                    &&& !(prev.temperature is Some && prev.temperature == mv.temperature)
                    &&& !(self.prev_temp_sum is Some && self.prev_temp_sum == temperature_sum(
                        prev,
                        mv,
                    ))
                }
            },
        }
    }

    pub open spec fn after_observation(self, mv: MeterValueSelection) -> MeterValueObserver {
        if mv.active_power_import is None {
            self
        } else {
            MeterValueObserver {
                prev_meter_val: Some(mv),
                prev_temp_sum: match self.prev_meter_val {
                    Some(prev) => temperature_sum(prev, mv),
                    None => None,
                },
                ..self
            }
        }
    }

    pub fn pertinent_to_user(&mut self, mv: &MeterValueSelection) -> (r: bool)
        ensures
            r == old(self).pertinent(*mv),
            *final(self) == old(self).after_observation(*mv),
    {
        if mv.active_power_import.is_none() {
            return false;
        }
        let prev_mv = match self.prev_meter_val {
            Some(prev_mv) => prev_mv,
            None => {
                self.prev_meter_val = Some(*mv);
                self.prev_temp_sum = None;
                return true;
            },
        };
        self.prev_meter_val = Some(*mv);
        let temp_sum = match (prev_mv.temperature, mv.temperature) {
            (Some(prev_temp), Some(temp)) => Some(prev_temp as u128 + temp as u128),
            _ => None,
        };
        let prev_temp_sum = self.prev_temp_sum;
        self.prev_temp_sum = temp_sum;
        if prev_mv == *mv {
            let same_temperature = match (prev_mv.temperature, mv.temperature) {
                (Some(prev_temp), Some(temp)) => prev_temp == temp,
                _ => false,
            };
            let same_mean = match (prev_temp_sum, temp_sum) {
                (Some(prev_sum), Some(sum)) => prev_sum == sum,
                _ => false,
            };
            !same_temperature && !same_mean
        } else {
            true
        }
    }
}

/// A value sampled by the dynamic power management (DPM).
#[derive(Debug, Eq, PartialEq)]
pub struct SampledValue {
    pub context: String,
    pub format: String,
    pub location: String,
    pub measurand: String,
    pub unit: String,
    pub value: String,
    pub phase: Option<String>,
}

/// A report of the dynamic power management.
#[derive(Debug, Eq, PartialEq)]
pub struct Dpm {
    pub data: DpmData,
}

#[derive(Debug, Eq, PartialEq)]
pub struct DpmData {
    pub sampled_value: Vec<SampledValue>,
    pub timestamp: String,
    pub transaction_id: Option<i32>,
}

#[derive(Debug)]
pub struct DataTransfer {
    pub timestamp: String,
    pub transaction_id: Option<i32>,
    pub sampled_values: Vec<String>,
}

/// The last value with the given measurand, as a number.
pub open spec fn last_dpm_reading(samples: Seq<SampledValue>, measurand: Seq<char>) -> Option<u64>
    decreases samples.len(),
{
    if samples.len() == 0 {
        None
    } else if samples.last().measurand@ == measurand {
        number_in(samples.last().value@)
    } else {
        last_dpm_reading(samples.drop_last(), measurand)
    }
}

/// What the library keeps of a report of the dynamic power management.
#[derive(Debug, Clone, Copy)]
pub struct DpmSelection {
    pub timestamp: Option<Timestamp>,
    pub active_energy_import: Option<u64>,
    pub active_power_import: Option<u64>,
}

impl DpmSelection {
    pub open spec fn selected(
        timestamp: Option<Timestamp>,
        samples: Seq<SampledValue>,
    ) -> DpmSelection {
        DpmSelection {
            timestamp,
            active_energy_import: last_dpm_reading(samples, "Energy.Active.Import.Register"@),
            active_power_import: last_dpm_reading(samples, "Power.Active.Import"@),
        }
    }

    /// Selects the readings of a report that was made at the given instant.
    pub fn select(timestamp: Option<Timestamp>, samples: &Vec<SampledValue>) -> (r: Self)
        ensures
            r == Self::selected(timestamp, samples@),
    {
        let mut selection = DpmSelection {
            timestamp,
            active_energy_import: None,
            active_power_import: None,
        };
        let mut i: usize = 0;
        proof {
            reveal_strlit("Energy.Active.Import.Register");
            reveal_strlit("Power.Active.Import");
            assert("Energy.Active.Import.Register"@.len() != "Power.Active.Import"@.len());
            assert(samples@.take(0) =~= Seq::empty());
        }
        while i < samples.len()
            invariant
                i <= samples.len(),
                "Energy.Active.Import.Register"@ != "Power.Active.Import"@,
                selection == Self::selected(timestamp, samples@.take(i as int)),
            decreases samples.len() - i,
        {
            let sample = &samples[i];
            assert(samples@.take(i + 1).drop_last() =~= samples@.take(i as int));
            if same_text(sample.measurand.as_str(), "Energy.Active.Import.Register") {
                selection.active_energy_import = parse_number(sample.value.as_str());
            } else if same_text(sample.measurand.as_str(), "Power.Active.Import") {
                selection.active_power_import = parse_number(sample.value.as_str());
            }
            i = i + 1;
        }
        assert(samples@.take(i as int) =~= samples@);
        selection
    }

    /// Whether two reports make no difference to the user: the rounded energies and powers are the
    /// same where both are known.
    pub open spec fn same_as(self, other: Self) -> bool {
        &&& match (self.active_energy_import, other.active_energy_import) {
            (Some(a), Some(b)) => spec_dpm_energy_eq(a, b),
            _ => true,
        }
        &&& match (self.active_power_import, other.active_power_import) {
            (Some(a), Some(b)) => spec_dpm_power_eq(a, b),
            _ => true,
        }
    }
}

impl From<Dpm> for DpmSelection {
    fn from(dpm: Dpm) -> (r: Self) {
        let timestamp = parse_instant(dpm.data.timestamp.as_str());
        DpmSelection::select(timestamp, &dpm.data.sampled_value)
    }
}

impl FromSpecImpl<Dpm> for DpmSelection {
    open spec fn obeys_from_spec() -> bool {
        true
    }

    open spec fn from_spec(dpm: Dpm) -> Self {
        DpmSelection::selected(instant_in(dpm.data.timestamp@), dpm.data.sampled_value@)
    }
}

impl PartialEq for DpmSelection {
    fn eq(&self, other: &Self) -> (r: bool) {
        let same_energy = match (self.active_energy_import, other.active_energy_import) {
            (Some(a), Some(b)) => dpm_energy_eq(a, b),
            _ => true,
        };
        let same_power = match (self.active_power_import, other.active_power_import) {
            (Some(a), Some(b)) => dpm_power_eq(a, b),
            _ => true,
        };
        same_energy && same_power
    }
}

impl PartialEqSpecImpl for DpmSelection {
    open spec fn obeys_eq_spec() -> bool {
        true
    }

    open spec fn eq_spec(&self, other: &Self) -> bool {
        self.same_as(*other)
    }
}

/// The rounded comparisons sort the values into classes: each value is in the class of itself, of
/// two values each is in the class of the other, and classes do not overlap.
pub proof fn law_rounded_comparisons_are_equivalences(a: u64, b: u64, c: u64)
    ensures
        spec_voltage_eq(a, a) && spec_dpm_energy_eq(a, a) && spec_dpm_power_eq(a, a),
        spec_voltage_eq(a, b) == spec_voltage_eq(b, a),
        spec_dpm_energy_eq(a, b) == spec_dpm_energy_eq(b, a),
        spec_dpm_power_eq(a, b) == spec_dpm_power_eq(b, a),
        spec_voltage_eq(a, b) && spec_voltage_eq(b, c) ==> spec_voltage_eq(a, c),
        spec_dpm_energy_eq(a, b) && spec_dpm_energy_eq(b, c) ==> spec_dpm_energy_eq(a, c),
        spec_dpm_power_eq(a, b) && spec_dpm_power_eq(b, c) ==> spec_dpm_power_eq(a, c),
{
}

/// Values that compare as the same are less than a step apart.
pub proof fn law_same_step_is_close(a: u64, b: u64)
    ensures
        spec_voltage_eq(a, b) ==> -(VOLTAGE_DIFF_STEP as int) < a - b < VOLTAGE_DIFF_STEP,
        spec_dpm_energy_eq(a, b) ==> -(DPM_ENERGY_DIFF_STEP as int) < a - b < DPM_ENERGY_DIFF_STEP,
        spec_dpm_power_eq(a, b) ==> -(DPM_POWER_DIFF_STEP as int) < a - b < DPM_POWER_DIFF_STEP,
{
}

/// A selection compares as the same as itself, and the order of a comparison is of no matter.
/// Timestamps, transactions and temperatures do not count.
pub proof fn law_selection_comparison(
    a: MeterValueSelection,
    b: MeterValueSelection,
    timestamp: Timestamp,
    transaction_id: Option<i32>,
    temperature: Option<u64>,
)
    ensures
        a.same_as(a),
        a.same_as(b) == b.same_as(a),
        a.same_as(MeterValueSelection { timestamp, transaction_id, temperature, ..a }),
{
}

/// A voltage that comes without a power is handed to the next meter value with a power and no
/// voltage, whatever meter values without either come in between, and only to that one.
pub proof fn law_voltage_is_handed_on(
    observer: MeterValueObserver,
    first: MeterValueSelection,
    neither: MeterValueSelection,
    second: MeterValueSelection,
    third: MeterValueSelection,
)
    requires
        first.voltage_l1 is Some && first.active_power_import is None,
        neither.voltage_l1 is None && neither.active_power_import is None,
        second.voltage_l1 is None && second.active_power_import is Some,
        third.voltage_l1 is None && third.active_power_import is Some,
    ensures
        ({
            let noted = observer.after_consolidation(first).after_consolidation(neither);
            let handed_on = noted.after_consolidation(second);
            &&& noted.consolidated(second).voltage_l1 == first.voltage_l1
            &&& handed_on.consolidated(third).voltage_l1 is None
        }),
{
}

/// A meter value that is repeated tells the user nothing, provided that its temperature is known.
pub proof fn law_repetition_is_not_pertinent(
    observer: MeterValueObserver,
    mv: MeterValueSelection,
)
    requires
        mv.temperature is Some,
    ensures
        !observer.after_observation(mv).pertinent(mv),
{
}

/// A temperature that goes back and forth between two values, all else being the same, tells the
/// user nothing from its return on.
pub proof fn law_fluctuation_is_not_pertinent(
    observer: MeterValueObserver,
    a: MeterValueSelection,
    b: MeterValueSelection,
)
    requires
        a.temperature is Some,
        b.temperature is Some,
        a.same_as(b),
    ensures
        ({
            let back = observer.after_observation(a).after_observation(b);
            let forth = back.after_observation(a);
            &&& !back.pertinent(a)
            &&& !forth.pertinent(b)
        }),
{
}

/// A meter value with another temperature, after one that was repeated, is told to the user.
pub proof fn law_new_temperature_is_pertinent(
    observer: MeterValueObserver,
    a: MeterValueSelection,
    b: MeterValueSelection,
)
    requires
        a.active_power_import is Some,
        b.active_power_import is Some,
        a.temperature is Some,
        b.temperature is Some,
        a.temperature != b.temperature,
    ensures
        observer.after_observation(a).after_observation(a).pertinent(b),
{
}

/// Voltages make no difference where they are within the same three volts, the last of which is a
/// multiple of three, as those from 229 to 231 are.
///
/// Energies and powers of the dynamic power management make no difference where they are nearest to
/// the same thousand, and to the same five hundred.
pub proof fn law_classes_of_values(a: u64, b: u64, k: int)
    requires
        k >= 0,
    ensures
        3 * k - 2 <= a <= 3 * k ==> (spec_voltage_eq(a, b) <==> 3 * k - 2 <= b <= 3 * k),
        1_000 * k - 500 <= a < 1_000 * k + 500 ==> (spec_dpm_energy_eq(a, b) <==> 1_000 * k - 500
            <= b < 1_000 * k + 500),
        500 * k - 250 <= a < 500 * k + 250 ==> (spec_dpm_power_eq(a, b) <==> 500 * k - 250 <= b
            < 500 * k + 250),
{
    lemma_step(a, 2, 3, k);
    lemma_step(b, 2, 3, k);
    lemma_step(a, 500, 1_000, k);
    lemma_step(b, 500, 1_000, k);
    lemma_step(a, 250, 500, k);
    lemma_step(b, 250, 500, k);
}

proof fn lemma_step(value: u64, offset: int, step: u64, k: int)
    requires
        step > 0,
    ensures
        step_of(value, offset, step) == k <==> step * k <= value + offset < step * k + step,
{
    let sum = value + offset;
    let step = step as int;
    assert(sum / step == k <==> step * k <= sum < step * k + step) by (nonlinear_arith)
        requires
            step > 0,
    ;
}

/// Of the values that were sampled, the last one of each measurand counts: one more value is the one
/// that counts for its own measurand, and leaves the others as they are. The energy is that of the
/// import register, the power that of the import, and the voltage that of the first phase. What
/// cannot be read as a number counts as nothing known.
pub proof fn law_last_sample_counts(
    mv: MeterValueView,
    transaction_id: Option<i32>,
    sample: SampleView,
)
    ensures
        ({
            let before = MeterValueSelection::spec_new(mv, transaction_id);
            let after = MeterValueSelection::spec_new(
                MeterValueView { sampled_value: mv.sampled_value.push(sample), ..mv },
                transaction_id,
            );
            let value = number_in(sample.value);
            &&& after.timestamp == mv.timestamp
            &&& after.transaction_id == transaction_id
            &&& after.active_energy_import == if sample.measurand == Some(
                "Energy.Active.Import.Register"@,
            ) {
                value
            } else {
                before.active_energy_import
            }
            &&& after.active_power_import == if sample.measurand == Some("Power.Active.Import"@) {
                value
            } else {
                before.active_power_import
            }
            &&& after.voltage_l1 == if sample.measurand == Some("Voltage"@) && sample.phase == Some(
                "L1"@,
            ) {
                value
            } else {
                before.voltage_l1
            }
            &&& after.temperature == if sample.measurand == Some("Temperature"@) {
                value
            } else {
                before.temperature
            }
        }),
{
    let longer = mv.sampled_value.push(sample);
    assert(longer.drop_last() =~= mv.sampled_value);
    lemma_measurands_differ();
}

proof fn lemma_measurands_differ()
    ensures
        "Energy.Active.Import.Register"@.len() == 29,
        "Power.Active.Import"@.len() == 19,
        "Voltage"@.len() == 7,
        "Temperature"@.len() == 11,
{
    reveal_strlit("Energy.Active.Import.Register");
    reveal_strlit("Power.Active.Import");
    reveal_strlit("Voltage");
    reveal_strlit("Temperature");
}

/// Nothing is known of what was not sampled.
pub proof fn law_no_sample_tells_nothing(timestamp: Timestamp, transaction_id: Option<i32>)
    ensures
        ({
            let selection = MeterValueSelection::spec_new(
                MeterValueView { timestamp, sampled_value: Seq::empty() },
                transaction_id,
            );
            &&& selection.timestamp == timestamp
            &&& selection.transaction_id == transaction_id
            &&& selection.active_energy_import is None
            &&& selection.active_power_import is None
            &&& selection.voltage_l1 is None
            &&& selection.temperature is None
        }),
        ({
            let selection = DpmSelection::selected(Some(timestamp), Seq::empty());
            &&& selection.timestamp == Some(timestamp)
            &&& selection.active_energy_import is None
            &&& selection.active_power_import is None
        }),
{
}

/// The same of a report of the dynamic power management.
pub proof fn law_last_dpm_sample_counts(
    timestamp: Option<Timestamp>,
    samples: Seq<SampledValue>,
    sample: SampledValue,
)
    ensures
        ({
            let before = DpmSelection::selected(timestamp, samples);
            let after = DpmSelection::selected(timestamp, samples.push(sample));
            let value = number_in(sample.value@);
            &&& after.timestamp == timestamp
            &&& after.active_energy_import == if sample.measurand@
                == "Energy.Active.Import.Register"@ {
                value
            } else {
                before.active_energy_import
            }
            &&& after.active_power_import == if sample.measurand@ == "Power.Active.Import"@ {
                value
            } else {
                before.active_power_import
            }
        }),
{
    assert(samples.push(sample).drop_last() =~= samples);
}

/// Two selections that differ in their energy, in a power that both have, or in the three volts of a
/// voltage that both have, are told apart. Nothing else tells them apart.
pub proof fn law_selections_are_told_apart(a: MeterValueSelection, b: MeterValueSelection)
    ensures
        !a.same_as(b) <==> {
            ||| a.active_energy_import != b.active_energy_import
            ||| a.active_power_import is Some && b.active_power_import is Some
                && a.active_power_import != b.active_power_import
            ||| a.voltage_l1 is Some && b.voltage_l1 is Some && (a.voltage_l1->0 + 2) / 3 != (
            b.voltage_l1->0 + 2) / 3
        },
{
}

/// Two reports of the dynamic power management are told apart where the thousands that their
/// energies are nearest to, or the five hundreds that their powers are nearest to, differ and are
/// known.
pub proof fn law_dpm_reports_are_told_apart(a: DpmSelection, b: DpmSelection)
    ensures
        !a.same_as(b) <==> {
            ||| a.active_energy_import is Some && b.active_energy_import is Some && (
            a.active_energy_import->0 + 500) / 1_000 != (b.active_energy_import->0 + 500) / 1_000
            ||| a.active_power_import is Some && b.active_power_import is Some && (
            a.active_power_import->0 + 250) / 500 != (b.active_power_import->0 + 250) / 500
        },
{
}

/// Handing on a voltage changes nothing else of a meter value, and never a voltage that came with
/// it. A meter value with a power is otherwise left as it is, and so is one without.
pub proof fn law_consolidation_adds_voltage_only(
    observer: MeterValueObserver,
    mv: MeterValueSelection,
)
    ensures
        ({
            let shown = observer.consolidated(mv);
            &&& shown.timestamp == mv.timestamp
            &&& shown.transaction_id == mv.transaction_id
            &&& shown.active_energy_import == mv.active_energy_import
            &&& shown.active_power_import == mv.active_power_import
            &&& shown.temperature == mv.temperature
            &&& mv.voltage_l1 is Some ==> shown.voltage_l1 == mv.voltage_l1
            &&& mv.active_power_import is None ==> shown.voltage_l1 == mv.voltage_l1
        }),
        observer.after_consolidation(mv).prev_meter_val == observer.prev_meter_val,
        observer.after_consolidation(mv).prev_temp_sum == observer.prev_temp_sum,
        (mv.voltage_l1 is Some <==> mv.active_power_import is Some)
            ==> observer.after_consolidation(mv) == observer,
        mv.voltage_l1 is Some && mv.active_power_import is None ==> observer.after_consolidation(
            mv,
        ).last_voltage == mv.voltage_l1,
        mv.voltage_l1 is None && mv.active_power_import is Some ==> observer.consolidated(
            mv,
        ).voltage_l1 == observer.last_voltage && observer.after_consolidation(
            mv,
        ).last_voltage is None,
{
}

/// A meter value without a power tells the user nothing, and is not remembered. The first one with a
/// power is told. A later one is told where it differs from the last one that had a power. Where it
/// does not, it is told for its temperature alone, unless that is the one of the last one, or the one
/// of the one before, with that of the last one known.
pub proof fn law_what_is_told(
    observer: MeterValueObserver,
    before: MeterValueSelection,
    last: MeterValueSelection,
    mv: MeterValueSelection,
)
    requires
        before.active_power_import is Some,
        last.active_power_import is Some,
    ensures
        mv.active_power_import is None ==> !observer.pertinent(mv) && observer.after_observation(mv)
            == observer,
        observer.after_observation(last).last_voltage == observer.last_voltage,
        observer.prev_meter_val is None ==> (observer.pertinent(mv) <==> mv.active_power_import
            is Some),
        observer.prev_meter_val is None && mv.active_power_import is Some ==> (
        observer.after_observation(last).pertinent(mv) <==> !(last.same_as(mv) && last.temperature
            is Some && mv.temperature == last.temperature)),
        ({
            let observed = observer.after_observation(before).after_observation(last);
            let repeated = last.temperature is Some && (mv.temperature == last.temperature || (
            before.temperature is Some && mv.temperature == before.temperature));
            mv.active_power_import is Some ==> (observed.pertinent(mv) <==> !(last.same_as(mv)
                && repeated))
        }),
{
}

} // verus!
