//! The parameter bundle: one typed value per form field, plus what the
//! sampler is asked for.

use crate::form::Slot;
use crate::scalar::{Scalar, ONE_BITS, TENTH_BITS, TWO_BITS, ZERO_BITS};
use crate::types::{strictly_increasing, AccelMode, CapMode, Point, PointScaling};
use vstd::prelude::*;

verus! {

/// Smallest resolution that the bundle may carry.
pub const MIN_DPI: u32 = 1;

/// Smallest number of samples that the bundle may ask for.
pub const MIN_POINT_COUNT: u32 = 2;

/// Bit pattern of 0.005 rounded to nearest, the initial acceleration.
pub const FIVE_THOUSANDTHS_BITS: u64 = 0x3F74_7AE1_47AE_147B;

/// Bit pattern of 15, the initial input cap.
pub const FIFTEEN_BITS: u64 = 0x402E_0000_0000_0000;

/// Bit pattern of 1.5, the initial output cap, limit and motivity.
pub const THREE_HALVES_BITS: u64 = 0x3FF8_0000_0000_0000;

/// Bit pattern of 0.5, the initial smoothing.
pub const HALF_BITS: u64 = 0x3FE0_0000_0000_0000;

/// Bit pattern of 5, the initial synchronous speed.
pub const FIVE_BITS: u64 = 0x4014_0000_0000_0000;

/// Bit pattern of 0.05 rounded to nearest, the initial power exponent.
pub const FIVE_HUNDREDTHS_BITS: u64 = 0x3FA9_9999_9999_999A;

/// Resolution of a bundle that nobody has touched yet.
pub const INITIAL_DPI: u32 = 1200;

/// Number of samples of a bundle that nobody has touched yet.
pub const INITIAL_POINT_COUNT: u32 = 64;

/// The typed configuration of one curve.
///
/// Every field keeps the last valid value entered for it, whether or not the
/// active mode reads it.
pub struct AccelArgs {
    pub mode: AccelMode,
    pub dpi: u32,
    pub sens_multiplier: Scalar,
    pub gain: bool,
    pub cap: Point,
    pub cap_mode: CapMode,
    pub acceleration: Scalar,
    pub input_offset: Scalar,
    pub exponent_classic: Scalar,
    pub smooth: Scalar,
    pub decay_rate: Scalar,
    pub limit: Scalar,
    pub gamma: Scalar,
    pub motivity: Scalar,
    pub sync_speed: Scalar,
    pub scale: Scalar,
    pub exponent_power: Scalar,
    pub output_offset: Scalar,
    pub lookup_data: Vec<Point>,
    pub point_count: u32,
    pub point_scaling: PointScaling,
    pub optimize_curve: bool,
}

/// The bundle as a mathematical value.
pub struct AccelArgsView {
    pub mode: AccelMode,
    pub dpi: u32,
    pub sens_multiplier: Scalar,
    pub gain: bool,
    pub cap: Point,
    pub cap_mode: CapMode,
    pub acceleration: Scalar,
    pub input_offset: Scalar,
    pub exponent_classic: Scalar,
    pub smooth: Scalar,
    pub decay_rate: Scalar,
    pub limit: Scalar,
    pub gamma: Scalar,
    pub motivity: Scalar,
    pub sync_speed: Scalar,
    pub scale: Scalar,
    pub exponent_power: Scalar,
    pub output_offset: Scalar,
    pub lookup_data: Seq<Point>,
    pub point_count: u32,
    pub point_scaling: PointScaling,
    pub optimize_curve: bool,
}

impl View for AccelArgs {
    type V = AccelArgsView;

    open spec fn view(&self) -> AccelArgsView {
        AccelArgsView {
            mode: self.mode,
            dpi: self.dpi,
            sens_multiplier: self.sens_multiplier,
            gain: self.gain,
            cap: self.cap,
            cap_mode: self.cap_mode,
            acceleration: self.acceleration,
            input_offset: self.input_offset,
            exponent_classic: self.exponent_classic,
            smooth: self.smooth,
            decay_rate: self.decay_rate,
            limit: self.limit,
            gamma: self.gamma,
            motivity: self.motivity,
            sync_speed: self.sync_speed,
            scale: self.scale,
            exponent_power: self.exponent_power,
            output_offset: self.output_offset,
            lookup_data: self.lookup_data@,
            point_count: self.point_count,
            point_scaling: self.point_scaling,
            optimize_curve: self.optimize_curve,
        }
    }
}

/// Whether two point sequences are equal point by point, under IEEE equality.
pub open spec fn same_points(a: Seq<Point>, b: Seq<Point>) -> bool {
    &&& a.len() == b.len()
    &&& forall|i: int| 0 <= i < a.len() ==> (#[trigger] a[i]).same(b[i])
}

impl AccelArgsView {
    /// What a bundle must satisfy before it is handed to the sampler: a
    /// positive resolution, at least two samples, finite global factors and
    /// caps, and a lookup table whose `x` strictly increase.
    pub open spec fn valid(self) -> bool {
        &&& self.dpi >= MIN_DPI
        &&& self.point_count >= MIN_POINT_COUNT
        &&& self.sens_multiplier.finite()
        &&& self.cap.x.finite()
        &&& self.cap.y.finite()
        &&& strictly_increasing(self.lookup_data)
    }

    /// Field-by-field equality, numbers compared as IEEE does: two bundles
    /// that hold a value that is not a number are never the same, not even a
    /// bundle and itself.
    pub open spec fn same(self, other: AccelArgsView) -> bool {
        &&& self.mode == other.mode
        &&& self.dpi == other.dpi
        &&& self.sens_multiplier.same(other.sens_multiplier)
        &&& self.gain == other.gain
        &&& self.cap.same(other.cap)
        &&& self.cap_mode == other.cap_mode
        &&& self.acceleration.same(other.acceleration)
        &&& self.input_offset.same(other.input_offset)
        &&& self.exponent_classic.same(other.exponent_classic)
        &&& self.smooth.same(other.smooth)
        &&& self.decay_rate.same(other.decay_rate)
        &&& self.limit.same(other.limit)
        &&& self.gamma.same(other.gamma)
        &&& self.motivity.same(other.motivity)
        &&& self.sync_speed.same(other.sync_speed)
        &&& self.scale.same(other.scale)
        &&& self.exponent_power.same(other.exponent_power)
        &&& self.output_offset.same(other.output_offset)
        &&& same_points(self.lookup_data, other.lookup_data)
        &&& self.point_count == other.point_count
        &&& self.point_scaling == other.point_scaling
        &&& self.optimize_curve == other.optimize_curve
    }
}

/// Whether two point vectors are equal point by point, under IEEE equality.
pub fn points_are_same(a: &Vec<Point>, b: &Vec<Point>) -> (r: bool)
    ensures
        r == same_points(a@, b@),
{
    if a.len() != b.len() {
        return false;
    }
    let n: usize = a.len();
    let mut i: usize = 0;
    while i < n
        invariant
            n == a.len(),
            n == b.len(),
            i <= n,
            forall|k: int| 0 <= k < i ==> (#[trigger] a@[k]).same(b@[k]),
        decreases n - i,
    {
        if !a[i].is_same_as(&b[i]) {
            return false;
        }
        i = i + 1;
    }
    true
}

/// A copy of the points.
pub fn copy_points(points: &Vec<Point>) -> (r: Vec<Point>)
    ensures
        r@ == points@,
{
    let mut out: Vec<Point> = Vec::new();
    let n: usize = points.len();
    let mut i: usize = 0;
    while i < n
        invariant
            n == points.len(),
            i <= n,
            out@ == points@.take(i as int),
        decreases n - i,
    {
        out.push(points[i]);
        i = i + 1;
    }
    out
}

impl AccelArgs {
    pub open spec fn valid(&self) -> bool {
        self@.valid()
    }

    /// A copy of the bundle.
    pub fn duplicate(&self) -> (r: AccelArgs)
        ensures
            r@ == self@,
    {
        AccelArgs {
            mode: self.mode,
            dpi: self.dpi,
            sens_multiplier: self.sens_multiplier,
            gain: self.gain,
            cap: self.cap,
            cap_mode: self.cap_mode,
            acceleration: self.acceleration,
            input_offset: self.input_offset,
            exponent_classic: self.exponent_classic,
            smooth: self.smooth,
            decay_rate: self.decay_rate,
            limit: self.limit,
            gamma: self.gamma,
            motivity: self.motivity,
            sync_speed: self.sync_speed,
            scale: self.scale,
            exponent_power: self.exponent_power,
            output_offset: self.output_offset,
            lookup_data: copy_points(&self.lookup_data),
            point_count: self.point_count,
            point_scaling: self.point_scaling,
            optimize_curve: self.optimize_curve,
        }
    }

    /// Field-by-field IEEE equality with another bundle.
    pub fn is_same_as(&self, other: &AccelArgs) -> (r: bool)
        ensures
            r == self@.same(other@),
    {
        self.mode == other.mode && self.dpi == other.dpi && self.sens_multiplier.is_same_as(
            &other.sens_multiplier,
        ) && self.gain == other.gain && self.cap.is_same_as(&other.cap) && self.cap_mode
            == other.cap_mode && self.acceleration.is_same_as(&other.acceleration)
            && self.input_offset.is_same_as(&other.input_offset)
            && self.exponent_classic.is_same_as(&other.exponent_classic)
            && self.smooth.is_same_as(&other.smooth) && self.decay_rate.is_same_as(
            &other.decay_rate,
        ) && self.limit.is_same_as(&other.limit) && self.gamma.is_same_as(&other.gamma)
            && self.motivity.is_same_as(&other.motivity) && self.sync_speed.is_same_as(
            &other.sync_speed,
        ) && self.scale.is_same_as(&other.scale) && self.exponent_power.is_same_as(
            &other.exponent_power,
        ) && self.output_offset.is_same_as(&other.output_offset) && points_are_same(
            &self.lookup_data,
            &other.lookup_data,
        ) && self.point_count == other.point_count && self.point_scaling == other.point_scaling
            && self.optimize_curve == other.optimize_curve
    }

    /// Whether the bundle may be handed to the sampler.
    pub fn is_valid(&self) -> (r: bool)
        ensures
            r == self.valid(),
    {
        self.dpi >= MIN_DPI && self.point_count >= MIN_POINT_COUNT
            && self.sens_multiplier.is_finite() && self.cap.x.is_finite()
            && self.cap.y.is_finite() && crate::types::is_strictly_increasing(&self.lookup_data)
    }
}

/// The bundle behind an untouched form: the identity curve at 1200 dpi, every
/// number at the value that the form first shows for it.
pub open spec fn initial_args() -> AccelArgsView {
    AccelArgsView {
        mode: AccelMode::Noaccel,
        dpi: INITIAL_DPI,
        sens_multiplier: Scalar { bits: ONE_BITS },
        gain: false,
        cap: Point { x: Scalar { bits: FIFTEEN_BITS }, y: Scalar { bits: THREE_HALVES_BITS } },
        cap_mode: CapMode::Output,
        acceleration: Scalar { bits: FIVE_THOUSANDTHS_BITS },
        input_offset: Scalar { bits: ZERO_BITS },
        exponent_classic: Scalar { bits: TWO_BITS },
        smooth: Scalar { bits: HALF_BITS },
        decay_rate: Scalar { bits: TENTH_BITS },
        limit: Scalar { bits: THREE_HALVES_BITS },
        gamma: Scalar { bits: ONE_BITS },
        motivity: Scalar { bits: THREE_HALVES_BITS },
        sync_speed: Scalar { bits: FIVE_BITS },
        scale: Scalar { bits: ONE_BITS },
        exponent_power: Scalar { bits: FIVE_HUNDREDTHS_BITS },
        output_offset: Scalar { bits: ZERO_BITS },
        lookup_data: Seq::empty(),
        point_count: INITIAL_POINT_COUNT,
        point_scaling: PointScaling::Sens,
        optimize_curve: false,
    }
}

/// The initial bundle may be handed to the sampler.
pub proof fn lemma_initial_args_valid()
    ensures
        initial_args().valid(),
{
}

impl Default for AccelArgs {
    fn default() -> (r: Self)
        ensures
            r@ == initial_args(),
    {
        AccelArgs {
            mode: AccelMode::Noaccel,
            dpi: INITIAL_DPI,
            sens_multiplier: Scalar::from_bits(ONE_BITS),
            gain: false,
            cap: Point {
                x: Scalar::from_bits(FIFTEEN_BITS),
                y: Scalar::from_bits(THREE_HALVES_BITS),
            },
            cap_mode: CapMode::Output,
            acceleration: Scalar::from_bits(FIVE_THOUSANDTHS_BITS),
            input_offset: Scalar::from_bits(ZERO_BITS),
            exponent_classic: Scalar::from_bits(TWO_BITS),
            smooth: Scalar::from_bits(HALF_BITS),
            decay_rate: Scalar::from_bits(TENTH_BITS),
            limit: Scalar::from_bits(THREE_HALVES_BITS),
            gamma: Scalar::from_bits(ONE_BITS),
            motivity: Scalar::from_bits(THREE_HALVES_BITS),
            sync_speed: Scalar::from_bits(FIVE_BITS),
            scale: Scalar::from_bits(ONE_BITS),
            exponent_power: Scalar::from_bits(FIVE_HUNDREDTHS_BITS),
            output_offset: Scalar::from_bits(ZERO_BITS),
            lookup_data: Vec::new(),
            point_count: INITIAL_POINT_COUNT,
            point_scaling: PointScaling::Sens,
            optimize_curve: false,
        }
    }
}

impl AccelArgsView {
    /// The number that the bundle holds in a slot.
    pub open spec fn slot_value(self, slot: Slot) -> Scalar {
        match slot {
            Slot::SensMultiplier => self.sens_multiplier,
            Slot::Acceleration => self.acceleration,
            Slot::CapX => self.cap.x,
            Slot::CapY => self.cap.y,
            Slot::InputOffset => self.input_offset,
            Slot::ExponentClassic => self.exponent_classic,
            Slot::Smooth => self.smooth,
            Slot::DecayRate => self.decay_rate,
            Slot::Limit => self.limit,
            Slot::Gamma => self.gamma,
            Slot::Motivity => self.motivity,
            Slot::SyncSpeed => self.sync_speed,
            Slot::Scale => self.scale,
            Slot::ExponentPower => self.exponent_power,
            Slot::OutputOffset => self.output_offset,
        }
    }

    /// The bundle with one slot replaced and nothing else changed.
    pub open spec fn with_slot(self, slot: Slot, value: Scalar) -> AccelArgsView {
        match slot {
            Slot::SensMultiplier => AccelArgsView { sens_multiplier: value, ..self },
            Slot::Acceleration => AccelArgsView { acceleration: value, ..self },
            Slot::CapX => AccelArgsView { cap: Point { x: value, y: self.cap.y }, ..self },
            Slot::CapY => AccelArgsView { cap: Point { x: self.cap.x, y: value }, ..self },
            Slot::InputOffset => AccelArgsView { input_offset: value, ..self },
            Slot::ExponentClassic => AccelArgsView { exponent_classic: value, ..self },
            Slot::Smooth => AccelArgsView { smooth: value, ..self },
            Slot::DecayRate => AccelArgsView { decay_rate: value, ..self },
            Slot::Limit => AccelArgsView { limit: value, ..self },
            Slot::Gamma => AccelArgsView { gamma: value, ..self },
            Slot::Motivity => AccelArgsView { motivity: value, ..self },
            Slot::SyncSpeed => AccelArgsView { sync_speed: value, ..self },
            Slot::Scale => AccelArgsView { scale: value, ..self },
            Slot::ExponentPower => AccelArgsView { exponent_power: value, ..self },
            Slot::OutputOffset => AccelArgsView { output_offset: value, ..self },
        }
    }
}

/// Whether a valid bundle needs the number in the slot to be finite: the
/// global multiplier and the two caps.
pub open spec fn must_be_finite(slot: Slot) -> bool {
    slot == Slot::SensMultiplier || slot == Slot::CapX || slot == Slot::CapY
}

/// Whether a number may be stored in a slot.
pub open spec fn fits_slot(slot: Slot, value: Scalar) -> bool {
    must_be_finite(slot) ==> value.finite()
}

/// Storing a fitting number keeps a valid bundle valid, and the number can be
/// read back from the slot.
pub proof fn lemma_with_slot(args: AccelArgsView, slot: Slot, value: Scalar)
    ensures
        args.with_slot(slot, value).slot_value(slot) == value,
        args.valid() && fits_slot(slot, value) ==> args.with_slot(slot, value).valid(),
        forall|other: Slot|
            other != slot ==> args.with_slot(slot, value).slot_value(other) == args.slot_value(
                other,
            ),
{
}

impl AccelArgs {
    /// The number held in a slot.
    pub fn slot(&self, slot: Slot) -> (r: Scalar)
        ensures
            r == self@.slot_value(slot),
    {
        match slot {
            Slot::SensMultiplier => self.sens_multiplier,
            Slot::Acceleration => self.acceleration,
            Slot::CapX => self.cap.x,
            Slot::CapY => self.cap.y,
            Slot::InputOffset => self.input_offset,
            Slot::ExponentClassic => self.exponent_classic,
            Slot::Smooth => self.smooth,
            Slot::DecayRate => self.decay_rate,
            Slot::Limit => self.limit,
            Slot::Gamma => self.gamma,
            Slot::Motivity => self.motivity,
            Slot::SyncSpeed => self.sync_speed,
            Slot::Scale => self.scale,
            Slot::ExponentPower => self.exponent_power,
            Slot::OutputOffset => self.output_offset,
        }
    }

    /// Stores a number in a slot, if it fits there. Says whether it did;
    /// if not, the bundle is unchanged.
    pub fn set_slot(&mut self, slot: Slot, value: Scalar) -> (stored: bool)
        ensures
            stored == fits_slot(slot, value),
            stored ==> final(self)@ == old(self)@.with_slot(slot, value),
            !stored ==> final(self)@ == old(self)@,
    {
        match slot {
            Slot::SensMultiplier => {
                if !value.is_finite() {
                    return false;
                }
                self.sens_multiplier = value;
            },
            Slot::Acceleration => {
                self.acceleration = value;
            },
            Slot::CapX => {
                if !value.is_finite() {
                    return false;
                }
                self.cap = Point { x: value, y: self.cap.y };
            },
            Slot::CapY => {
                if !value.is_finite() {
                    return false;
                }
                self.cap = Point { x: self.cap.x, y: value };
            },
            Slot::InputOffset => {
                self.input_offset = value;
            },
            Slot::ExponentClassic => {
                self.exponent_classic = value;
            },
            Slot::Smooth => {
                self.smooth = value;
            },
            Slot::DecayRate => {
                self.decay_rate = value;
            },
            Slot::Limit => {
                self.limit = value;
            },
            Slot::Gamma => {
                self.gamma = value;
            },
            Slot::Motivity => {
                self.motivity = value;
            },
            Slot::SyncSpeed => {
                self.sync_speed = value;
            },
            Slot::Scale => {
                self.scale = value;
            },
            Slot::ExponentPower => {
                self.exponent_power = value;
            },
            Slot::OutputOffset => {
                self.output_offset = value;
            },
        }
        true
    }
}

} // verus!
