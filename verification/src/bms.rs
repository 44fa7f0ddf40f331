//! The battery of the EV: its capacity, its state of charge and the limit set on it.
//!
//! A state of charge is a share of the battery's capacity. It is counted in units of which
//! [`FULL_CHARGE`] make a full battery, so that shares add up and compare exactly.
use core::ops::{Add, Sub};
use vstd::prelude::*;
use vstd::std_specs::cmp::PartialEqSpecImpl;
use vstd::std_specs::ops::{AddSpecImpl, SubSpecImpl};

verus! {

/// The state of charge of a full battery.
pub const FULL_CHARGE: i64 = 1_000_000_000_000;

/// Two states of charge that are closer than this, 1 % of the battery, count as the same.
pub const SOC_TOLERANCE: i64 = 10_000_000_000;

/// The nearest value that a state of charge can hold.
pub open spec fn saturated(soc: int) -> i64 {
    if soc > i64::MAX {
        i64::MAX
    } else if soc < i64::MIN {
        i64::MIN
    } else {
        soc as i64
    }
}

/// The share of a battery with the given capacity (Wh) that an energy (Wh) makes, rounded down.
///
/// Of a battery without any capacity, an energy makes the largest share there is.
pub open spec fn share_of(energy: int, capacity: u32) -> i64 {
    if capacity == 0 {
        if energy >= 0 {
            i64::MAX
        } else {
            i64::MIN
        }
    } else {
        saturated(energy * FULL_CHARGE / capacity as int)
    }
}

fn saturate(soc: i128) -> (r: i64)
    ensures
        r == saturated(soc as int),
{
    if soc > i64::MAX as i128 {
        i64::MAX
    } else if soc < i64::MIN as i128 {
        i64::MIN
    } else {
        soc as i64
    }
}

proof fn lemma_rounded_down(a: int, b: int)
    by (nonlinear_arith)
    requires
        a < 0,
        b > 0,
    ensures
        a / b == -((-a - 1) / b) - 1,
{
}

pub fn energy_share(energy: i128, capacity: u32) -> (r: i64)
    requires
        -u64::MAX <= energy <= u64::MAX,
    ensures
        r == share_of(energy as int, capacity),
{
    if capacity == 0 {
        return if energy >= 0 {
            i64::MAX
        } else {
            i64::MIN
        };
    }
    proof {
        let full = FULL_CHARGE as int;
        assert(-u64::MAX * full <= energy * full <= u64::MAX * full) by (nonlinear_arith)
            requires
                -u64::MAX <= energy <= u64::MAX,
                full > 0,
        ;
    }
    let scaled = energy * FULL_CHARGE as i128;
    let divisor = capacity as i128;
    if scaled >= 0 {
        proof {
            assert(scaled / divisor <= scaled) by (nonlinear_arith)
                requires
                    scaled >= 0,
                    divisor >= 1,
            ;
        }
        saturate(scaled / divisor)
    } else {
        let below = -scaled - 1;
        proof {
            lemma_rounded_down(scaled as int, divisor as int);
            assert(0 <= below / divisor <= below) by (nonlinear_arith)
                requires
                    below >= 0,
                    divisor >= 1,
            ;
        }
        saturate(-(below / divisor) - 1)
    }
}

/// A state of charge.
#[derive(Debug, Default, Copy, Clone)]
pub enum SoC {
    #[default]
    Unknown,
    /// The charge of the battery.
    Absolute(i64),
    /// The charge that was added to a battery whose charge is not known.
    Relative(i64),
}

impl SoC {
    pub open spec fn spec_new(is_absolute: bool, soc: Option<i64>) -> SoC {
        match soc {
            Some(soc) => if is_absolute {
                SoC::Absolute(soc)
            } else {
                SoC::Relative(soc)
            },
            None => SoC::Unknown,
        }
    }

    pub fn new(is_absolute: bool, soc: Option<i64>) -> (r: SoC)
        ensures
            r == Self::spec_new(is_absolute, soc),
    {
        match soc {
            Some(soc) => if is_absolute {
                SoC::Absolute(soc)
            } else {
                SoC::Relative(soc)
            },
            None => SoC::Unknown,
        }
    }

    pub fn new_absolute(soc: Option<i64>) -> (r: SoC)
        ensures
            r == Self::spec_new(true, soc),
    {
        SoC::new(true, soc)
    }

    pub fn new_relative(soc: Option<i64>) -> (r: SoC)
        ensures
            r == Self::spec_new(false, soc),
    {
        SoC::new(false, soc)
    }

    pub fn is_absolute(self) -> (r: bool)
        ensures
            r == (self is Absolute),
    {
        matches!(self, SoC::Absolute(_))
    }

    pub fn is_relative(self) -> (r: bool)
        ensures
            r == (self is Relative),
    {
        matches!(self, SoC::Relative(_))
    }

    pub fn is_unknown(self) -> (r: bool)
        ensures
            r == (self is Unknown),
    {
        matches!(self, SoC::Unknown)
    }

    pub open spec fn spec_absolute(self) -> Option<i64> {
        match self {
            SoC::Absolute(soc) => Some(soc),
            _ => None,
        }
    }

    pub fn absolute(self) -> (r: Option<i64>)
        ensures
            r == self.spec_absolute(),
    {
        match self {
            SoC::Absolute(soc) => Some(soc),
            _ => None,
        }
    }

    pub fn relative(self) -> (r: Option<i64>)
        ensures
            r == (match self {
                SoC::Relative(soc) => Some(soc),
                _ => None,
            }),
    {
        match self {
            SoC::Relative(soc) => Some(soc),
            _ => None,
        }
    }

    pub open spec fn spec_inner(self) -> Option<i64> {
        match self {
            SoC::Absolute(soc) => Some(soc),
            SoC::Relative(soc) => Some(soc),
            SoC::Unknown => None,
        }
    }

    pub fn inner(self) -> (r: Option<i64>)
        ensures
            r == self.spec_inner(),
    {
        match self {
            SoC::Absolute(soc) => Some(soc),
            SoC::Relative(soc) => Some(soc),
            SoC::Unknown => None,
        }
    }

    /// Replaces this state of charge with another one.
    pub fn update(&mut self, new_soc: SoC)
        ensures
            *final(self) == new_soc,
    {
        *self = new_soc;
    }

    /// This state of charge, raised by the given share of the battery.
    pub open spec fn raised(self, added_soc: i64) -> SoC {
        match self {
            SoC::Absolute(soc) => SoC::Absolute(saturated(soc + added_soc)),
            SoC::Relative(soc) => SoC::Relative(saturated(soc + added_soc)),
            SoC::Unknown => SoC::Relative(added_soc),
        }
    }

    /// This state of charge, lowered by the given share of the battery.
    pub open spec fn lowered(self, soc_delta: i64) -> SoC {
        match self {
            SoC::Absolute(soc) => SoC::Absolute(saturated(soc - soc_delta)),
            SoC::Relative(soc) => SoC::Relative(saturated(soc - soc_delta)),
            SoC::Unknown => SoC::Relative(soc_delta),
        }
    }

    /// Whether two states of charge are of one kind and less than 1 % apart.
    pub open spec fn same_as(self, other: SoC) -> bool {
        match (self, other) {
            (SoC::Absolute(a), SoC::Absolute(b)) => -SOC_TOLERANCE < a - b < SOC_TOLERANCE,
            (SoC::Relative(a), SoC::Relative(b)) => -SOC_TOLERANCE < a - b < SOC_TOLERANCE,
            (SoC::Unknown, SoC::Unknown) => true,
            _ => false,
        }
    }
}

fn close(a: i64, b: i64) -> (r: bool)
    ensures
        r == (-SOC_TOLERANCE < a - b < SOC_TOLERANCE),
{
    let delta = a as i128 - b as i128;
    -(SOC_TOLERANCE as i128) < delta && delta < SOC_TOLERANCE as i128
}

impl Add<i64> for SoC {
    type Output = SoC;

    fn add(self, added_soc: i64) -> SoC {
        match self {
            SoC::Absolute(soc) => SoC::Absolute(saturate(soc as i128 + added_soc as i128)),
            SoC::Relative(soc) => SoC::Relative(saturate(soc as i128 + added_soc as i128)),
            SoC::Unknown => SoC::Relative(added_soc),
        }
    }
}

impl AddSpecImpl<i64> for SoC {
    open spec fn obeys_add_spec() -> bool {
        true
    }

    open spec fn add_req(self, added_soc: i64) -> bool {
        true
    }

    open spec fn add_spec(self, added_soc: i64) -> SoC {
        self.raised(added_soc)
    }
}

impl Sub<i64> for SoC {
    type Output = SoC;

    fn sub(self, soc_delta: i64) -> SoC {
        match self {
            SoC::Absolute(soc) => SoC::Absolute(saturate(soc as i128 - soc_delta as i128)),
            SoC::Relative(soc) => SoC::Relative(saturate(soc as i128 - soc_delta as i128)),
            SoC::Unknown => SoC::Relative(soc_delta),
        }
    }
}

impl SubSpecImpl<i64> for SoC {
    open spec fn obeys_sub_spec() -> bool {
        true
    }

    open spec fn sub_req(self, soc_delta: i64) -> bool {
        true
    }

    open spec fn sub_spec(self, soc_delta: i64) -> SoC {
        self.lowered(soc_delta)
    }
}

impl PartialEq for SoC {
    fn eq(&self, other: &Self) -> (r: bool) {
        match (*self, *other) {
            (SoC::Absolute(a), SoC::Absolute(b)) => close(a, b),
            (SoC::Relative(a), SoC::Relative(b)) => close(a, b),
            (SoC::Unknown, SoC::Unknown) => true,
            _ => false,
        }
    }
}

impl PartialEqSpecImpl for SoC {
    open spec fn obeys_eq_spec() -> bool {
        true
    }

    open spec fn eq_spec(&self, other: &Self) -> bool {
        self.same_as(*other)
    }
}

/// How far a state of charge is from the limit set on it.
#[derive(Debug, Copy, Clone, PartialEq, Eq, Structural)]
pub enum SoCProgress {
    Unknown,
    AbsoluteUncapped(i64),
    AbsoluteCap(i64),
    AbsoluteCapNotReached { soc: i64, cap: i64 },
    AbsoluteCapReached { soc: i64, cap: i64 },
    RelativeUncapped(i64),
    RelativeCap(i64),
    RelativeCapNotReached { rel_soc: i64, cap: i64 },
    RelativeCapReached { rel_soc: i64, cap: i64 },
}

/// A state of charge between an empty and a full battery.
pub open spec fn clamped(soc: i64) -> i64 {
    if soc < 0 {
        0
    } else if soc > FULL_CHARGE {
        FULL_CHARGE
    } else {
        soc
    }
}

pub open spec fn clamped_option(soc: Option<i64>) -> Option<i64> {
    match soc {
        Some(soc) => Some(clamped(soc)),
        None => None,
    }
}

fn clamp_option(soc: Option<i64>) -> (r: Option<i64>)
    ensures
        r == clamped_option(soc),
{
    match soc {
        Some(soc) => Some(
            if soc < 0 {
                0
            } else if soc > FULL_CHARGE {
                FULL_CHARGE
            } else {
                soc
            },
        ),
        None => None,
    }
}

impl SoCProgress {
    pub open spec fn spec_new(is_absolute: bool, soc: Option<i64>, cap: Option<i64>) -> SoCProgress {
        match (clamped_option(soc), clamped_option(cap)) {
            (Some(soc), Some(cap)) => if is_absolute {
                if soc < cap {
                    SoCProgress::AbsoluteCapNotReached { soc, cap }
                } else {
                    SoCProgress::AbsoluteCapReached { soc, cap }
                }
            } else {
                if soc < cap {
                    SoCProgress::RelativeCapNotReached { rel_soc: soc, cap }
                } else {
                    SoCProgress::RelativeCapReached { rel_soc: soc, cap }
                }
            },
            (Some(soc), None) => if is_absolute {
                SoCProgress::AbsoluteUncapped(soc)
            } else {
                SoCProgress::RelativeUncapped(soc)
            },
            (None, Some(cap)) => if is_absolute {
                SoCProgress::AbsoluteCap(cap)
            } else {
                SoCProgress::RelativeCap(cap)
            },
            (None, None) => SoCProgress::Unknown,
        }
    }

    pub fn new(is_absolute: bool, soc: Option<i64>, cap: Option<i64>) -> (r: SoCProgress)
        ensures
            r == Self::spec_new(is_absolute, soc, cap),
    {
        let soc = clamp_option(soc);
        let cap = clamp_option(cap);
        if is_absolute {
            match (soc, cap) {
                (Some(soc), Some(cap)) => if soc < cap {
                    SoCProgress::AbsoluteCapNotReached { soc, cap }
                } else {
                    SoCProgress::AbsoluteCapReached { soc, cap }
                },
                (Some(soc), None) => SoCProgress::AbsoluteUncapped(soc),
                (None, Some(cap)) => SoCProgress::AbsoluteCap(cap),
                (None, None) => SoCProgress::Unknown,
            }
        } else {
            match (soc, cap) {
                (Some(rel_soc), Some(cap)) => if rel_soc < cap {
                    SoCProgress::RelativeCapNotReached { rel_soc, cap }
                } else {
                    SoCProgress::RelativeCapReached { rel_soc, cap }
                },
                (Some(rel_soc), None) => SoCProgress::RelativeUncapped(rel_soc),
                (None, Some(cap)) => SoCProgress::RelativeCap(cap),
                (None, None) => SoCProgress::Unknown,
            }
        }
    }

    pub open spec fn spec_from_soc_and_cap(soc: SoC, cap: Option<i64>) -> SoCProgress {
        Self::spec_new(soc is Absolute, soc.spec_inner(), cap)
    }

    pub fn from_soc_and_cap(soc: SoC, cap: Option<i64>) -> (r: SoCProgress)
        ensures
            r == Self::spec_from_soc_and_cap(soc, cap),
    {
        SoCProgress::new(soc.is_absolute(), soc.inner(), cap)
    }

    /// Whether the limit is reached.
    pub open spec fn complete(self) -> bool {
        self is AbsoluteCapReached || self is RelativeCapReached
    }

    pub fn is_complete(self) -> (r: bool)
        ensures
            r == self.complete(),
    {
        matches!(
            self,
            SoCProgress::AbsoluteCapReached { .. } | SoCProgress::RelativeCapReached { .. }
        )
    }

    pub open spec fn spec_soc(self) -> SoC {
        match self {
            SoCProgress::AbsoluteUncapped(soc) => SoC::Absolute(soc),
            SoCProgress::AbsoluteCapNotReached { soc, .. } => SoC::Absolute(soc),
            SoCProgress::AbsoluteCapReached { soc, .. } => SoC::Absolute(soc),
            SoCProgress::RelativeUncapped(rel_soc) => SoC::Relative(rel_soc),
            SoCProgress::RelativeCapNotReached { rel_soc, .. } => SoC::Relative(rel_soc),
            SoCProgress::RelativeCapReached { rel_soc, .. } => SoC::Relative(rel_soc),
            _ => SoC::Unknown,
        }
    }

    pub fn soc(self) -> (r: SoC)
        ensures
            r == self.spec_soc(),
    {
        match self {
            SoCProgress::Unknown => SoC::Unknown,
            SoCProgress::AbsoluteUncapped(soc) => SoC::Absolute(soc),
            SoCProgress::AbsoluteCap(_) => SoC::Unknown,
            SoCProgress::AbsoluteCapNotReached { soc, .. } => SoC::Absolute(soc),
            SoCProgress::AbsoluteCapReached { soc, .. } => SoC::Absolute(soc),
            SoCProgress::RelativeUncapped(rel_soc) => SoC::Relative(rel_soc),
            SoCProgress::RelativeCap(_) => SoC::Unknown,
            SoCProgress::RelativeCapNotReached { rel_soc, .. } => SoC::Relative(rel_soc),
            SoCProgress::RelativeCapReached { rel_soc, .. } => SoC::Relative(rel_soc),
        }
    }

    pub open spec fn spec_cap(self) -> SoC {
        match self {
            SoCProgress::AbsoluteCap(cap) => SoC::Absolute(cap),
            SoCProgress::AbsoluteCapNotReached { cap, .. } => SoC::Absolute(cap),
            SoCProgress::AbsoluteCapReached { cap, .. } => SoC::Absolute(cap),
            SoCProgress::RelativeCap(cap) => SoC::Relative(cap),
            SoCProgress::RelativeCapNotReached { cap, .. } => SoC::Relative(cap),
            SoCProgress::RelativeCapReached { cap, .. } => SoC::Relative(cap),
            _ => SoC::Unknown,
        }
    }

    pub fn cap(self) -> (r: SoC)
        ensures
            r == self.spec_cap(),
    {
        match self {
            SoCProgress::Unknown => SoC::Unknown,
            SoCProgress::AbsoluteUncapped(_) => SoC::Unknown,
            SoCProgress::AbsoluteCap(cap) => SoC::Absolute(cap),
            SoCProgress::AbsoluteCapNotReached { cap, .. } => SoC::Absolute(cap),
            SoCProgress::AbsoluteCapReached { cap, .. } => SoC::Absolute(cap),
            SoCProgress::RelativeUncapped(_) => SoC::Unknown,
            SoCProgress::RelativeCap(cap) => SoC::Relative(cap),
            SoCProgress::RelativeCapNotReached { cap, .. } => SoC::Relative(cap),
            SoCProgress::RelativeCapReached { cap, .. } => SoC::Relative(cap),
        }
    }

    pub fn absolute_soc(self) -> (r: Option<i64>)
        ensures
            r == self.spec_soc().spec_absolute(),
    {
        self.soc().absolute()
    }
}

/// The battery management data of the EV.
#[derive(Clone, Copy, Debug, PartialEq)]
pub struct Bms {
    /// Capacity of the battery (Wh).
    pub capacity: u32,
    /// Power that is lost while charging (W).
    pub constant_power_loss: u16,
    /// Reading of the meter (Wh) at which the battery was in its initial state of charge.
    pub initial_energy: Option<u64>,
    /// Last reading of the meter (Wh) that the state of charge was computed from.
    pub current_energy: Option<u64>,
    pub initial_soc: SoC,
    pub current_soc: SoC,
    pub soc_cap: Option<i64>,
}

impl Bms {
    pub fn builder(capacity: u32, constant_power_loss: u16) -> (r: BmsBuilder)
        ensures
            r@ == (Bms {
                capacity,
                constant_power_loss,
                initial_energy: None,
                current_energy: None,
                initial_soc: SoC::Unknown,
                current_soc: SoC::Unknown,
                soc_cap: None,
            }),
    {
        BmsBuilder(
            Bms {
                capacity,
                constant_power_loss,
                initial_energy: None,
                current_energy: None,
                initial_soc: SoC::Unknown,
                current_soc: SoC::Unknown,
                soc_cap: None,
            },
        )
    }

    /// Whether a reading of the meter advances the state of charge: the initial reading is known
    /// and the new one is above the last one taken into account.
    pub open spec fn advances(self, energy: u64) -> bool {
        match (self.initial_energy, self.current_energy) {
            (None, _) => false,
            (Some(_), Some(prev)) => prev < energy,
            (Some(initial), None) => initial < energy,
        }
    }

    /// The battery once the meter shows `energy`.
    pub open spec fn with_energy(self, energy: u64) -> Bms {
        if self.advances(energy) {
            Bms {
                current_energy: Some(energy),
                current_soc: self.initial_soc.raised(
                    share_of(energy - self.initial_energy->0, self.capacity),
                ),
                ..self
            }
        } else {
            self
        }
    }

    /// Takes a reading of the meter (Wh) into account.
    ///
    /// A reading that is not above the previous one changes nothing.
    pub fn have_energy(&mut self, energy: u64)
        ensures
            *final(self) == old(self).with_energy(energy),
    {
        let initial_energy = match self.initial_energy {
            Some(initial_energy) => initial_energy,
            None => {
                return ;
            },
        };
        match self.current_energy {
            Some(prev_energy) => if prev_energy >= energy {
                return ;
            },
            None => if initial_energy >= energy {
                return ;
            },
        }
        let added_energy = energy as i128 - initial_energy as i128;
        self.current_energy = Some(energy);
        self.current_soc = self.initial_soc + energy_share(added_energy, self.capacity);
    }

    /// How far the state of charge is from the limit set on it.
    pub open spec fn progress(self) -> SoCProgress {
        SoCProgress::spec_from_soc_and_cap(self.current_soc, self.soc_cap)
    }

    pub fn soc_progress(&self) -> (r: SoCProgress)
        ensures
            r == self.progress(),
    {
        SoCProgress::from_soc_and_cap(self.current_soc, self.soc_cap)
    }

    /// The energy needed to bring the battery to the target, in units of which [`FULL_CHARGE`]
    /// make one Wh, without what is lost on the way.
    pub open spec fn missing_energy(self, target_soc: SoC) -> Option<int> {
        match (self.current_soc, target_soc) {
            (SoC::Absolute(current), SoC::Absolute(target)) => Some(
                self.capacity * missing_soc(current, target),
            ),
            (SoC::Relative(current), SoC::Relative(target)) => Some(
                self.capacity * missing_soc(current, target),
            ),
            _ => None,
        }
    }

    /// Computes the raw energy to add to reach the target SoC,
    /// not including constant power loss
    ///
    /// The energy is counted in units of which [`FULL_CHARGE`] make one Wh.
    pub fn energy_to_soc(&self, target_soc: SoC) -> (r: Option<i128>)
        ensures
            match r {
                Some(energy) => self.missing_energy(target_soc) == Some(energy as int)
                    && 0 <= energy <= u32::MAX * u64::MAX,
                None => self.missing_energy(target_soc) is None,
            },
    {
        let soc_to_add = match (self.current_soc, target_soc) {
            (SoC::Absolute(current), SoC::Absolute(target)) => soc_difference(current, target),
            (SoC::Relative(current), SoC::Relative(target)) => soc_difference(current, target),
            _ => {
                return None;
            },
        };
        proof {
            let capacity = self.capacity as int;
            let soc = soc_to_add as int;
            assert(0 <= capacity * soc <= u32::MAX * u64::MAX) by (nonlinear_arith)
                requires
                    0 <= capacity <= u32::MAX,
                    0 <= soc <= u64::MAX,
            ;
        }
        Some(self.capacity as i128 * soc_to_add)
    }

    pub open spec fn spec_soc_cap(self) -> SoC {
        SoC::spec_new(self.current_soc is Absolute, self.soc_cap)
    }

    /// The limit set on the state of charge, of the same kind as the state of charge.
    pub fn soc_cap(&self) -> (r: SoC)
        ensures
            r == self.spec_soc_cap(),
    {
        match self.current_soc {
            SoC::Absolute(_) => SoC::new_absolute(self.soc_cap),
            SoC::Relative(_) => SoC::new_relative(self.soc_cap),
            SoC::Unknown => SoC::new_relative(self.soc_cap),
        }
    }
}

/// What a state of charge lacks to the target.
pub open spec fn missing_soc(current: i64, target: i64) -> int {
    if current >= target {
        0
    } else {
        target - current
    }
}

fn soc_difference(current: i64, target: i64) -> (r: i128)
    ensures
        r == missing_soc(current, target),
        0 <= r <= u64::MAX,
{
    if current >= target {
        0
    } else {
        target as i128 - current as i128
    }
}

pub struct BmsBuilder(Bms);

impl View for BmsBuilder {
    type V = Bms;

    closed spec fn view(&self) -> Bms {
        self.0
    }
}

impl BmsBuilder {
    pub fn initial_energy(self, energy: u64) -> (r: Self)
        ensures
            r@ == (Bms { initial_energy: Some(energy), ..self@ }),
    {
        BmsBuilder(Bms { initial_energy: Some(energy), ..self.0 })
    }

    pub fn current_energy(self, energy: u64) -> (r: Self)
        ensures
            r@ == (Bms { current_energy: Some(energy), ..self@ }),
    {
        BmsBuilder(Bms { current_energy: Some(energy), ..self.0 })
    }

    pub fn initial_soc(self, soc: SoC) -> (r: Self)
        ensures
            r@ == (Bms { initial_soc: soc, ..self@ }),
    {
        BmsBuilder(Bms { initial_soc: soc, ..self.0 })
    }

    pub fn current_soc(self, soc: SoC) -> (r: Self)
        ensures
            r@ == (Bms { current_soc: soc, ..self@ }),
    {
        BmsBuilder(Bms { current_soc: soc, ..self.0 })
    }

    pub fn soc_cap(self, soc_cap: Option<i64>) -> (r: Self)
        ensures
            r@ == (Bms { soc_cap, ..self@ }),
    {
        BmsBuilder(Bms { soc_cap, ..self.0 })
    }

    /// The battery, in its initial state of charge unless another one was set.
    pub fn build(self) -> (r: Bms)
        ensures
            r == (Bms {
                current_soc: if self@.current_soc is Unknown {
                    self@.initial_soc
                } else {
                    self@.current_soc
                },
                ..self@
            }),
    {
        let mut bms = self.0;
        if bms.current_soc.is_unknown() {
            bms.current_soc = bms.initial_soc;
        }
        bms
    }
}

/// A larger energy never makes a smaller share of the battery.
proof fn lemma_share_grows(a: int, b: int, capacity: u32)
    requires
        a <= b,
    ensures
        share_of(a, capacity) <= share_of(b, capacity),
{
    let full = FULL_CHARGE as int;
    let divisor = capacity as int;
    if capacity > 0 {
        assert(a * full / divisor <= b * full / divisor) by (nonlinear_arith)
            requires
                a <= b,
                full > 0,
                divisor > 0,
        ;
    }
}

/// The limit is reached if and only if a state of charge and a limit are known and the state of
/// charge, taken between empty and full, is not below the limit, taken so too.
pub proof fn law_complete_iff_cap_reached(bms: Bms)
    ensures
        bms.progress().complete() <==> {
            &&& bms.current_soc.spec_inner() is Some
            &&& bms.soc_cap is Some
            &&& clamped(bms.current_soc.spec_inner()->0) >= clamped(bms.soc_cap->0)
        },
{
}

/// The progress tells the state of charge that it was made of, taken between empty and full, and
/// of the same kind.
pub proof fn law_progress_keeps_soc(soc: SoC, cap: Option<i64>)
    ensures
        SoCProgress::spec_from_soc_and_cap(soc, cap).spec_soc() == SoC::spec_new(
            soc is Absolute,
            clamped_option(soc.spec_inner()),
        ),
{
}

/// Taking the same reading twice into account is the same as taking it once.
pub proof fn law_energy_idempotent(bms: Bms, energy: u64)
    ensures
        bms.with_energy(energy).with_energy(energy) == bms.with_energy(energy),
{
}

/// A reading that was missed makes no difference once a later one is taken into account.
pub proof fn law_missed_energy_is_made_up(bms: Bms, missed: u64, energy: u64)
    requires
        missed < energy,
    ensures
        bms.with_energy(missed).with_energy(energy) == bms.with_energy(energy),
{
}

/// Once the battery has taken a reading into account, further readings never lower its state of
/// charge, and never change its kind.
pub proof fn law_charge_never_drops(bms: Bms, first: u64, second: u64)
    requires
        bms.advances(first),
    ensures
        ({
            let before = bms.with_energy(first).current_soc;
            let after = bms.with_energy(first).with_energy(second).current_soc;
            &&& (before is Absolute <==> after is Absolute)
            &&& before.spec_inner()->0 <= after.spec_inner()->0
        }),
{
    let initial = bms.initial_energy->0;
    if second > first {
        lemma_share_grows(first - initial, second - initial, bms.capacity);
    }
}

/// Of a battery whose initial state of charge is known, the limit is reached with no rounding:
/// exactly when the energy added makes up for what the initial state of charge lacked.
pub proof fn law_cap_reached_exactly(bms: Bms, initial: i64, cap: i64, energy: u64)
    requires
        bms.capacity > 0,
        bms.advances(energy),
        bms.initial_energy->0 <= energy,
        bms.initial_soc == SoC::Absolute(initial),
        bms.soc_cap == Some(cap),
        0 <= initial,
        0 <= cap <= FULL_CHARGE,
    ensures
        bms.with_energy(energy).progress().complete() <==> (energy - bms.initial_energy->0)
            * FULL_CHARGE >= (cap - initial) * bms.capacity,
{
    let added = (energy - bms.initial_energy->0) * FULL_CHARGE;
    let divisor = bms.capacity as int;
    let missing = cap - initial;
    let rounded = added / divisor;
    let full = FULL_CHARGE as int;
    assert(added >= 0) by (nonlinear_arith)
        requires
            added == (energy - bms.initial_energy->0) * full,
            energy >= bms.initial_energy->0,
            full > 0,
    ;
    assert(rounded >= missing <==> added >= missing * divisor) by (nonlinear_arith)
        requires
            rounded == added / divisor,
            divisor > 0,
    ;
    assert(rounded >= 0) by (nonlinear_arith)
        requires
            rounded == added / divisor,
            divisor > 0,
            added >= 0,
    ;
}

/// Every state of charge counts as the same as itself, and the order of a comparison is of no
/// matter.
pub proof fn law_soc_equality(a: SoC, b: SoC)
    ensures
        a.same_as(a),
        a.same_as(b) == b.same_as(a),
{
}

/// Lowering a known state of charge by what it was raised by gives it back, as long as neither
/// exceeds what can be held.
pub proof fn law_raise_then_lower(soc: SoC, share: i64)
    requires
        soc !is Unknown,
        i64::MIN <= soc.spec_inner()->0 + share <= i64::MAX,
    ensures
        soc.raised(share).lowered(share) == soc,
{
}

/// Whether a state of charge is what another one becomes when a battery of the given capacity (Wh)
/// is given an energy (Wh): a battery that is given its whole capacity goes from empty to full, the
/// rest is in proportion, and what does not make a unit is left out. What exceeds the largest state
/// of charge makes the largest one.
pub open spec fn is_charged_to(before: i64, after: i64, energy: int, capacity: u32) -> bool {
    ||| (after - before) * capacity <= energy * 1_000_000_000_000 < (after - before + 1) * capacity
    ||| after == i64::MAX && (after - before) * capacity <= energy * 1_000_000_000_000
}

/// The same of states of charge of any kind: an absolute one stays absolute, a relative one stays
/// relative, and of one that is not known the energy alone counts, and makes a relative one.
pub open spec fn is_charged_by(before: SoC, after: SoC, energy: int, capacity: u32) -> bool {
    match (before, after) {
        (SoC::Absolute(before), SoC::Absolute(after)) => is_charged_to(
            before,
            after,
            energy,
            capacity,
        ),
        (SoC::Relative(before), SoC::Relative(after)) => is_charged_to(
            before,
            after,
            energy,
            capacity,
        ),
        (SoC::Unknown, SoC::Relative(after)) => is_charged_to(0, after, energy, capacity),
        _ => false,
    }
}

/// Whether an energy (Wh) makes a share of a battery that can be held: it is less than nine million
/// times the capacity.
pub open spec fn share_is_held(energy: int, capacity: u32) -> bool {
    0 <= energy && energy <= 9_000_000 * capacity
}

proof fn lemma_share_in_proportion(energy: int, capacity: u32)
    requires
        capacity > 0,
        share_is_held(energy, capacity),
    ensures
        0 <= share_of(energy, capacity) < i64::MAX,
        share_of(energy, capacity) * capacity <= energy * 1_000_000_000_000,
        energy * 1_000_000_000_000 < (share_of(energy, capacity) + 1) * capacity,
{
    let scaled = energy * 1_000_000_000_000;
    let divisor = capacity as int;
    let share = scaled / divisor;
    assert(share * divisor <= scaled < (share + 1) * divisor && 0 <= share
        <= 9_000_000_000_000_000_000) by (nonlinear_arith)
        requires
            divisor > 0,
            share == scaled / divisor,
            0 <= scaled <= 9_000_000_000_000_000_000 * divisor,
    ;
}

/// The share of a battery that an energy makes is in proportion to its capacity, with nothing lost
/// but what does not make a unit. An energy that is taken away makes the same share, rounded down.
pub proof fn law_share_is_in_proportion(energy: int, capacity: u32)
    requires
        capacity > 0,
        -9_000_000 * capacity <= energy <= 9_000_000 * capacity,
    ensures
        share_of(energy, capacity) * capacity <= energy * 1_000_000_000_000 < (share_of(
            energy,
            capacity,
        ) + 1) * capacity,
{
    let scaled = energy * 1_000_000_000_000;
    let divisor = capacity as int;
    let share = scaled / divisor;
    assert(share * divisor <= scaled < (share + 1) * divisor && -9_000_000_000_000_000_000 <= share
        <= 9_000_000_000_000_000_000) by (nonlinear_arith)
        requires
            divisor > 0,
            share == scaled / divisor,
            -9_000_000_000_000_000_000 * divisor <= scaled <= 9_000_000_000_000_000_000 * divisor,
    ;
}

/// What is added to a state of charge, and taken from one, is the share that is given, without a
/// change of kind, as long as the result can be held. Nothing but the share itself is known where
/// the state of charge is not.
pub proof fn law_soc_adds_up(soc: SoC, share: i64)
    ensures
        soc is Absolute <==> soc.raised(share) is Absolute,
        soc is Absolute <==> soc.lowered(share) is Absolute,
        soc.raised(share) !is Unknown,
        soc.lowered(share) !is Unknown,
        soc is Unknown ==> soc.raised(share).spec_inner() == Some(share),
        soc is Unknown ==> soc.lowered(share).spec_inner() == Some(share),
        soc !is Unknown && i64::MIN <= soc.spec_inner()->0 + share <= i64::MAX ==> soc.raised(
            share,
        ).spec_inner()->0 - soc.spec_inner()->0 == share,
        soc !is Unknown && i64::MIN <= soc.spec_inner()->0 - share <= i64::MAX
            ==> soc.spec_inner()->0 - soc.lowered(share).spec_inner()->0 == share,
        soc !is Unknown && soc.spec_inner()->0 + share > i64::MAX ==> soc.raised(share).spec_inner()
            == Some(i64::MAX),
        soc !is Unknown && soc.spec_inner()->0 + share < i64::MIN ==> soc.raised(share).spec_inner()
            == Some(i64::MIN),
        soc !is Unknown && soc.spec_inner()->0 - share > i64::MAX ==> soc.lowered(
            share,
        ).spec_inner() == Some(i64::MAX),
        soc !is Unknown && soc.spec_inner()->0 - share < i64::MIN ==> soc.lowered(
            share,
        ).spec_inner() == Some(i64::MIN),
{
}

/// A state of charge is made of a number and of its kind, and both are found in it again.
pub proof fn law_soc_is_what_it_is_made_of(is_absolute: bool, soc: Option<i64>)
    ensures
        SoC::spec_new(is_absolute, soc).spec_inner() == soc,
        SoC::spec_new(is_absolute, soc) is Unknown <==> soc is None,
        soc is Some ==> (SoC::spec_new(is_absolute, soc) is Absolute <==> is_absolute),
        SoC::spec_new(is_absolute, soc).spec_absolute() == if is_absolute {
            soc
        } else {
            None
        },
{
}

/// Two states of charge count as the same where they are of one kind and less than a hundredth of a
/// full battery apart, and where neither is known.
pub proof fn law_soc_tolerance(a: SoC, b: SoC)
    ensures
        a.same_as(b) <==> {
            &&& a is Absolute <==> b is Absolute
            &&& a is Unknown <==> b is Unknown
            &&& a is Unknown || (100 * (a.spec_inner()->0 - b.spec_inner()->0) < 1_000_000_000_000
                && 100 * (b.spec_inner()->0 - a.spec_inner()->0) < 1_000_000_000_000)
        },
{
}

/// A reading of the meter above the last one brings the battery to the state of charge that the
/// energy since its initial reading makes of its initial state of charge. Any other reading, and one
/// of which nothing is known at the start, leaves the battery as it is. Nothing else changes.
pub proof fn law_reading_charges_battery(bms: Bms, energy: u64)
    requires
        bms.capacity > 0,
        bms.initial_energy is Some ==> share_is_held(
            energy - bms.initial_energy->0,
            bms.capacity,
        ) || energy < bms.initial_energy->0,
        bms.current_energy is Some && bms.initial_energy is Some ==> bms.initial_energy->0
            <= bms.current_energy->0,
    ensures
        ({
            let after = bms.with_energy(energy);
            let last = if bms.current_energy is Some {
                bms.current_energy
            } else {
                bms.initial_energy
            };
            &&& after == (Bms {
                current_energy: after.current_energy,
                current_soc: after.current_soc,
                ..bms
            })
            &&& bms.initial_energy is None || energy <= last->0 ==> after == bms
            &&& bms.initial_energy is Some && energy > last->0 ==> {
                &&& after.current_energy == Some(energy)
                &&& is_charged_by(
                    bms.initial_soc,
                    after.current_soc,
                    energy - bms.initial_energy->0,
                    bms.capacity,
                )
            }
        }),
{
    if bms.initial_energy is Some && bms.advances(energy) {
        let added = energy - bms.initial_energy->0;
        lemma_share_in_proportion(added, bms.capacity);
        lemma_charged(bms.initial_soc, added, bms.capacity);
    }
}

pub(crate) proof fn lemma_charged(before: SoC, energy: int, capacity: u32)
    requires
        capacity > 0,
        share_is_held(energy, capacity),
    ensures
        is_charged_by(before, before.raised(share_of(energy, capacity)), energy, capacity),
{
    lemma_share_in_proportion(energy, capacity);
    let share = share_of(energy, capacity) as int;
    let scaled = energy * 1_000_000_000_000;
    let divisor = capacity as int;
    if let Some(soc) = before.spec_inner() {
        if soc + share > i64::MAX {
            let room = i64::MAX - soc;
            assert(room * divisor <= share * divisor) by (nonlinear_arith)
                requires
                    room <= share,
                    divisor > 0,
            ;
        }
    }
}

/// The limit on the state of charge is reached where both are known and the state of charge is not
/// below the limit. A full battery has reached every limit, and a limit of nothing is always reached.
pub proof fn law_limit_is_reached(bms: Bms)
    ensures
        bms.progress().complete() <==> {
            &&& bms.current_soc !is Unknown
            &&& bms.soc_cap is Some
            &&& bms.current_soc.spec_inner()->0 >= bms.soc_cap->0 || bms.current_soc.spec_inner()->0
                >= 1_000_000_000_000 || bms.soc_cap->0 <= 0
        },
{
}

/// The progress shows the state of charge and the limit, each between empty and full, and each of
/// the kind of the state of charge. A limit is relative where the state of charge is not known.
pub proof fn law_progress_shows_soc_and_cap(soc: SoC, cap: Option<i64>)
    ensures
        ({
            let progress = SoCProgress::spec_from_soc_and_cap(soc, cap);
            &&& progress.spec_soc() is Absolute <==> soc is Absolute
            &&& progress.spec_soc() is Unknown <==> soc is Unknown
            &&& progress.spec_cap() is Unknown <==> cap is None
            &&& cap is Some ==> (progress.spec_cap() is Absolute <==> soc is Absolute)
            &&& soc !is Unknown ==> {
                let shown = progress.spec_soc().spec_inner()->0;
                let soc = soc.spec_inner()->0;
                &&& 0 <= shown <= 1_000_000_000_000
                &&& 0 <= soc <= 1_000_000_000_000 ==> shown == soc
                &&& soc < 0 ==> shown == 0
                &&& soc > 1_000_000_000_000 ==> shown == 1_000_000_000_000
            }
            &&& cap is Some ==> {
                let shown = progress.spec_cap().spec_inner()->0;
                &&& 0 <= shown <= 1_000_000_000_000
                &&& 0 <= cap->0 <= 1_000_000_000_000 ==> shown == cap->0
                &&& cap->0 < 0 ==> shown == 0
                &&& cap->0 > 1_000_000_000_000 ==> shown == 1_000_000_000_000
            }
        }),
{
}

/// The energy that a battery lacks to a target is the part of its capacity that the difference of
/// the two states of charge makes. Nothing is lacking at the target or above. The energy is known
/// where both states of charge are known and of one kind.
pub proof fn law_missing_energy_is_in_proportion(bms: Bms, target: SoC)
    ensures
        bms.missing_energy(target) is Some <==> (bms.current_soc is Absolute && target is Absolute)
            || (bms.current_soc is Relative && target is Relative),
        bms.missing_energy(target) is Some ==> {
            let lack = target.spec_inner()->0 - bms.current_soc.spec_inner()->0;
            &&& lack <= 0 ==> bms.missing_energy(target) == Some(0int)
            &&& lack > 0 ==> bms.missing_energy(target) == Some(lack * bms.capacity)
        },
{
    if bms.missing_energy(target) is Some {
        let lack = target.spec_inner()->0 - bms.current_soc.spec_inner()->0;
        assert(bms.capacity * 0 == 0);
        assert(bms.capacity * lack == lack * bms.capacity) by (nonlinear_arith);
    }
}

/// A battery that is given the energy which it lacks to its limit reaches the limit, and with a Wh
/// less than what it lacks it does not.
pub proof fn law_missing_energy_reaches_limit(bms: Bms, initial: i64, cap: i64, energy: u64)
    requires
        bms.capacity > 0,
        bms.initial_energy is Some,
        bms.advances(energy),
        bms.initial_energy->0 <= energy,
        bms.initial_soc == SoC::Absolute(initial),
        bms.current_soc == SoC::Absolute(initial),
        bms.soc_cap == Some(cap),
        0 <= initial < cap <= 1_000_000_000_000,
    ensures
        bms.missing_energy(bms.spec_soc_cap()) is Some,
        bms.with_energy(energy).progress().complete() <==> (energy - bms.initial_energy->0)
            * 1_000_000_000_000 >= bms.missing_energy(bms.spec_soc_cap())->0,
{
    law_cap_reached_exactly(bms, initial, cap, energy);
    law_missing_energy_is_in_proportion(bms, bms.spec_soc_cap());
}

/// The limit is of the kind of the state of charge, and of the value that was set. Where the state
/// of charge is not known it is relative, as what is added will be.
pub proof fn law_limit_is_of_the_kind_of_the_charge(bms: Bms)
    ensures
        bms.spec_soc_cap().spec_inner() == bms.soc_cap,
        bms.soc_cap is Some ==> (bms.spec_soc_cap() is Absolute <==> bms.current_soc is Absolute),
{
}

/// The share that an energy makes is in proportion to the capacity as far as it can be held, and is
/// the largest or the least there is where it cannot. Of a battery without any capacity, an energy
/// makes the largest share, and one that is taken away the least.
pub proof fn law_share_is_held_or_extreme(energy: int, capacity: u32)
    ensures
        ({
            let share = share_of(energy, capacity);
            let scaled = energy * 1_000_000_000_000;
            &&& capacity == 0 && energy >= 0 ==> share == 9_223_372_036_854_775_807
            &&& capacity == 0 && energy < 0 ==> share == -9_223_372_036_854_775_808
            &&& capacity > 0 && -9_223_372_036_854_775_808 < share < 9_223_372_036_854_775_807
                ==> share * capacity <= scaled < (share + 1) * capacity
            &&& capacity > 0 && share == 9_223_372_036_854_775_807 ==> share * capacity <= scaled
            &&& capacity > 0 && share == -9_223_372_036_854_775_808 ==> scaled < (share + 1)
                * capacity
        }),
{
    if capacity > 0 {
        let scaled = energy * 1_000_000_000_000;
        let divisor = capacity as int;
        let quotient = scaled / divisor;
        let share = share_of(energy, capacity) as int;
        assert(quotient * divisor <= scaled < (quotient + 1) * divisor) by (nonlinear_arith)
            requires
                divisor > 0,
                quotient == scaled / divisor,
        ;
        if share < quotient {
            assert(share * divisor <= quotient * divisor) by (nonlinear_arith)
                requires
                    share <= quotient,
                    divisor > 0,
            ;
        }
        if share > quotient {
            assert((quotient + 1) * divisor <= (share + 1) * divisor) by (nonlinear_arith)
                requires
                    quotient <= share,
                    divisor > 0,
            ;
        }
    }
}

/// A reading above the last one charges a battery that is not below empty by the energy since its
/// initial reading, however much that is. A battery without any capacity is then as full as can be.
pub proof fn law_any_reading_charges_battery(bms: Bms, energy: u64)
    requires
        bms.initial_energy is Some,
        energy > if bms.current_energy is Some {
            bms.current_energy->0
        } else {
            bms.initial_energy->0
        },
        energy >= bms.initial_energy->0,
        bms.initial_soc is Unknown || bms.initial_soc.spec_inner()->0 >= 0,
    ensures
        ({
            let after = bms.with_energy(energy);
            &&& after.current_energy == Some(energy)
            &&& bms.capacity > 0 ==> is_charged_by(
                bms.initial_soc,
                after.current_soc,
                energy - bms.initial_energy->0,
                bms.capacity,
            )
            &&& bms.capacity == 0 ==> after.current_soc.spec_inner() == Some(i64::MAX)
        }),
{
    let added = energy - bms.initial_energy->0;
    let share = share_of(added, bms.capacity) as int;
    law_share_is_held_or_extreme(added, bms.capacity);
    let scaled = added * 1_000_000_000_000;
    let divisor = bms.capacity as int;
    if divisor > 0 {
        if share < 0 {
            assert((share + 1) * divisor <= 0) by (nonlinear_arith)
                requires
                    share + 1 <= 0,
                    divisor > 0,
            ;
        }
        if let Some(soc) = bms.initial_soc.spec_inner() {
            if soc + share > i64::MAX {
                let room = i64::MAX - soc;
                assert(room * divisor <= share * divisor) by (nonlinear_arith)
                    requires
                        room <= share,
                        divisor > 0,
                ;
            }
        }
    }
}

} // verus!
