//! What the sampler is asked for: the active curve family with exactly the
//! parameters it reads, and the sampling parameters that go with it.
//!
//! The bundle keeps a value for every field of the form, stale or not. A
//! request is built from the bundle by dropping whatever the active family and
//! cap mode do not read, so nothing stale can reach a computation.

use crate::args::{copy_points, AccelArgs, AccelArgsView};
use crate::form::{lemma_mode_rows_are_shown, lemma_shared_rows_write, mode_rows, shows, Slot};
use crate::scalar::{
    is_whole, lemma_whole_is_unique, lemma_whole_order, spells_whole, Scalar, ONE_BITS,
    TENTH_BITS, TWO_BITS, ZERO_BITS,
};
use vstd::arithmetic::power2::lemma2_to64;
use crate::types::{AccelMode, CapMode, Point, PointScaling};
use vstd::prelude::*;

verus! {

/// Number of samples that the two libinput scalings always carry.
pub const LIBINPUT_POINT_COUNT: u32 = 64;

/// Divisor that turns a resolution into the upper end of the sampled range.
pub const DPI_PER_SPEED_UNIT: u32 = 20;

/// The capping parameters of a capped family, by cap mode. `rate` is the
/// family's growth parameter: the acceleration of the classic family, the
/// scale of the power family.
#[derive(Clone, Copy, Debug, PartialEq, Eq, Structural)]
pub enum Caps {
    InputOutput { input: Scalar, output: Scalar },
    Input { rate: Scalar, input: Scalar },
    Output { rate: Scalar, output: Scalar },
}

/// A curve family together with the parameters it reads.
pub enum Curve {
    Noaccel,
    Classic { caps: Caps, input_offset: Scalar, exponent: Scalar },
    Jump { smooth: Scalar, input: Scalar, output: Scalar },
    Natural { decay_rate: Scalar, input_offset: Scalar, limit: Scalar },
    Synchronous { gamma: Scalar, smooth: Scalar, motivity: Scalar, sync_speed: Scalar },
    Motivity { growth_rate: Scalar, motivity: Scalar, midpoint: Scalar },
    Power { caps: Caps, exponent: Scalar, output_offset: Scalar },
    Lookup { points: Vec<Point> },
}

/// A curve as a mathematical value.
pub enum CurveView {
    Noaccel,
    Classic { caps: Caps, input_offset: Scalar, exponent: Scalar },
    Jump { smooth: Scalar, input: Scalar, output: Scalar },
    Natural { decay_rate: Scalar, input_offset: Scalar, limit: Scalar },
    Synchronous { gamma: Scalar, smooth: Scalar, motivity: Scalar, sync_speed: Scalar },
    Motivity { growth_rate: Scalar, motivity: Scalar, midpoint: Scalar },
    Power { caps: Caps, exponent: Scalar, output_offset: Scalar },
    Lookup { points: Seq<Point> },
}

impl View for Curve {
    type V = CurveView;

    open spec fn view(&self) -> CurveView {
        match *self {
            Curve::Noaccel => CurveView::Noaccel,
            Curve::Classic { caps, input_offset, exponent } => CurveView::Classic {
                caps,
                input_offset,
                exponent,
            },
            Curve::Jump { smooth, input, output } => CurveView::Jump { smooth, input, output },
            Curve::Natural { decay_rate, input_offset, limit } => CurveView::Natural {
                decay_rate,
                input_offset,
                limit,
            },
            Curve::Synchronous { gamma, smooth, motivity, sync_speed } => CurveView::Synchronous {
                gamma,
                smooth,
                motivity,
                sync_speed,
            },
            Curve::Motivity { growth_rate, motivity, midpoint } => CurveView::Motivity {
                growth_rate,
                motivity,
                midpoint,
            },
            Curve::Power { caps, exponent, output_offset } => CurveView::Power {
                caps,
                exponent,
                output_offset,
            },
            Curve::Lookup { points } => CurveView::Lookup { points: points@ },
        }
    }
}

/// One request to the sampler.
pub struct CurveRequest {
    pub curve: Curve,
    pub dpi: u32,
    pub sens_multiplier: Scalar,
    pub gain: bool,
    pub point_count: u32,
    pub point_scaling: PointScaling,
    pub optimize_curve: bool,
}

/// A request as a mathematical value.
pub struct CurveRequestView {
    pub curve: CurveView,
    pub dpi: u32,
    pub sens_multiplier: Scalar,
    pub gain: bool,
    pub point_count: u32,
    pub point_scaling: PointScaling,
    pub optimize_curve: bool,
}

impl View for CurveRequest {
    type V = CurveRequestView;

    open spec fn view(&self) -> CurveRequestView {
        CurveRequestView {
            curve: self.curve@,
            dpi: self.dpi,
            sens_multiplier: self.sens_multiplier,
            gain: self.gain,
            point_count: self.point_count,
            point_scaling: self.point_scaling,
            optimize_curve: self.optimize_curve,
        }
    }
}

/// Whether the scaling is one of the two that feed libinput.
pub open spec fn is_libinput(scaling: PointScaling) -> bool {
    scaling == PointScaling::Libinput || scaling == PointScaling::LibinputDebug
}

/// The number of samples that a request carries: 64 under the libinput
/// scalings, whatever was configured, and the configured number otherwise.
pub open spec fn effective_point_count(scaling: PointScaling, configured: u32) -> u32 {
    if is_libinput(scaling) {
        LIBINPUT_POINT_COUNT
    } else {
        configured
    }
}

/// The capping parameters that a cap mode makes a capped family read.
pub open spec fn caps_of(cap_mode: CapMode, rate: Scalar, cap: Point) -> Caps {
    match cap_mode {
        CapMode::InputOutput => Caps::InputOutput { input: cap.x, output: cap.y },
        CapMode::Input => Caps::Input { rate, input: cap.x },
        CapMode::Output => Caps::Output { rate, output: cap.y },
    }
}

/// The active family of a bundle with the parameters it reads. The linear
/// family is the classic one with exponent two.
pub open spec fn curve_of(args: AccelArgsView) -> CurveView {
    match args.mode {
        AccelMode::Noaccel => CurveView::Noaccel,
        AccelMode::Linear => CurveView::Classic {
            caps: caps_of(args.cap_mode, args.acceleration, args.cap),
            input_offset: args.input_offset,
            exponent: Scalar { bits: TWO_BITS },
        },
        AccelMode::Classic => CurveView::Classic {
            caps: caps_of(args.cap_mode, args.acceleration, args.cap),
            input_offset: args.input_offset,
            exponent: args.exponent_classic,
        },
        AccelMode::Jump => CurveView::Jump {
            smooth: args.smooth,
            input: args.cap.x,
            output: args.cap.y,
        },
        AccelMode::Natural => CurveView::Natural {
            decay_rate: args.decay_rate,
            input_offset: args.input_offset,
            limit: args.limit,
        },
        AccelMode::Synchronous => CurveView::Synchronous {
            gamma: args.gamma,
            smooth: args.smooth,
            motivity: args.motivity,
            sync_speed: args.sync_speed,
        },
        AccelMode::Motivity => CurveView::Motivity {
            growth_rate: args.gamma,
            motivity: args.motivity,
            midpoint: args.sync_speed,
        },
        AccelMode::Power => CurveView::Power {
            caps: caps_of(args.cap_mode, args.scale, args.cap),
            exponent: args.exponent_power,
            output_offset: args.output_offset,
        },
        AccelMode::Lookup => CurveView::Lookup { points: args.lookup_data },
    }
}

/// The request that a bundle stands for: its active curve, the global
/// factors, and the number of samples pinned where the scaling fixes it.
/// The identity curve has no gain variant, so its request never asks for one.
pub open spec fn request_of(args: AccelArgsView) -> CurveRequestView {
    CurveRequestView {
        curve: curve_of(args),
        dpi: args.dpi,
        sens_multiplier: args.sens_multiplier,
        gain: args.mode != AccelMode::Noaccel && args.gain,
        point_count: effective_point_count(args.point_scaling, args.point_count),
        point_scaling: args.point_scaling,
        optimize_curve: args.optimize_curve,
    }
}

/// Whether the scaling is one of the two that feed libinput.
pub fn scaling_is_libinput(scaling: PointScaling) -> (r: bool)
    ensures
        r == is_libinput(scaling),
{
    match scaling {
        PointScaling::Libinput | PointScaling::LibinputDebug => true,
        _ => false,
    }
}

/// The number of samples to take under a scaling, given the configured one.
pub fn pinned_point_count(scaling: PointScaling, configured: u32) -> (r: u32)
    ensures
        r == effective_point_count(scaling, configured),
        is_libinput(scaling) ==> r == 64,
        !is_libinput(scaling) ==> r == configured,
{
    if scaling_is_libinput(scaling) {
        LIBINPUT_POINT_COUNT
    } else {
        configured
    }
}

fn read_caps(cap_mode: CapMode, rate: Scalar, cap: Point) -> (r: Caps)
    ensures
        r == caps_of(cap_mode, rate, cap),
{
    match cap_mode {
        CapMode::InputOutput => Caps::InputOutput { input: cap.x, output: cap.y },
        CapMode::Input => Caps::Input { rate, input: cap.x },
        CapMode::Output => Caps::Output { rate, output: cap.y },
    }
}

impl AccelArgs {
    /// The active curve family with the parameters it reads.
    pub fn curve(&self) -> (r: Curve)
        ensures
            r@ == curve_of(self@),
    {
        match self.mode {
            AccelMode::Noaccel => Curve::Noaccel,
            AccelMode::Linear => Curve::Classic {
                caps: read_caps(self.cap_mode, self.acceleration, self.cap),
                input_offset: self.input_offset,
                exponent: Scalar::from_bits(TWO_BITS),
            },
            AccelMode::Classic => Curve::Classic {
                caps: read_caps(self.cap_mode, self.acceleration, self.cap),
                input_offset: self.input_offset,
                exponent: self.exponent_classic,
            },
            AccelMode::Jump => Curve::Jump {
                smooth: self.smooth,
                input: self.cap.x,
                output: self.cap.y,
            },
            AccelMode::Natural => Curve::Natural {
                decay_rate: self.decay_rate,
                input_offset: self.input_offset,
                limit: self.limit,
            },
            AccelMode::Synchronous => Curve::Synchronous {
                gamma: self.gamma,
                smooth: self.smooth,
                motivity: self.motivity,
                sync_speed: self.sync_speed,
            },
            AccelMode::Motivity => Curve::Motivity {
                growth_rate: self.gamma,
                motivity: self.motivity,
                midpoint: self.sync_speed,
            },
            AccelMode::Power => Curve::Power {
                caps: read_caps(self.cap_mode, self.scale, self.cap),
                exponent: self.exponent_power,
                output_offset: self.output_offset,
            },
            AccelMode::Lookup => Curve::Lookup { points: copy_points(&self.lookup_data) },
        }
    }

    /// The request to the sampler that the bundle stands for.
    pub fn request(&self) -> (r: CurveRequest)
        ensures
            r@ == request_of(self@),
            is_libinput(self.point_scaling) ==> r.point_count == 64,
    {
        let gain: bool = match self.mode {
            AccelMode::Noaccel => false,
            _ => self.gain,
        };
        CurveRequest {
            curve: self.curve(),
            dpi: self.dpi,
            sens_multiplier: self.sens_multiplier,
            gain,
            point_count: pinned_point_count(self.point_scaling, self.point_count),
            point_scaling: self.point_scaling,
            optimize_curve: self.optimize_curve,
        }
    }
}

/// Under the input-only cap mode the output cap is not read: two bundles that
/// differ in nothing but `cap.y` stand for the same request. The jump family
/// is left out: it has no cap mode and keeps its output level in `cap.y`.
pub proof fn lemma_input_cap_ignores_output_cap(a: AccelArgsView, b: AccelArgsView)
    requires
        a.cap_mode == CapMode::Input,
        a.mode != AccelMode::Jump,
        b == (AccelArgsView { cap: Point { x: a.cap.x, y: b.cap.y }, ..a }),
    ensures
        request_of(a) == request_of(b),
{
}

/// Under the output-only cap mode the input cap is not read, again for every
/// family but the jump, which keeps its input threshold in `cap.x`.
pub proof fn lemma_output_cap_ignores_input_cap(a: AccelArgsView, b: AccelArgsView)
    requires
        a.cap_mode == CapMode::Output,
        a.mode != AccelMode::Jump,
        b == (AccelArgsView { cap: Point { x: b.cap.x, y: a.cap.y }, ..a }),
    ensures
        request_of(a) == request_of(b),
{
}

/// With both caps given, neither the acceleration nor the scale is read.
pub proof fn lemma_both_caps_ignore_rate(a: AccelArgsView, b: AccelArgsView)
    requires
        a.cap_mode == CapMode::InputOutput,
        b == (AccelArgsView { acceleration: b.acceleration, scale: b.scale, ..a }),
    ensures
        request_of(a) == request_of(b),
{
}

/// Under either libinput scaling a request asks for exactly 64 samples,
/// whatever the bundle was configured with.
pub proof fn lemma_libinput_request_has_64_points(args: AccelArgsView)
    requires
        is_libinput(args.point_scaling),
    ensures
        request_of(args).point_count == 64,
{
}

/// The range of input speeds that a curve is sampled over.
#[derive(Clone, Copy, Debug, PartialEq, Eq, Structural)]
pub struct SampleRange {
    /// The lower end: zero, or one tenth for the families that are singular
    /// at zero.
    pub from: Scalar,
    /// The upper end, a whole number of speed units.
    pub upto: Scalar,
}

/// Whether the family cannot be sampled at zero.
pub open spec fn singular_at_zero(mode: AccelMode) -> bool {
    mode == AccelMode::Power || mode == AccelMode::Lookup
}

/// The pattern of the lower end of the sampled range of a family.
pub open spec fn lower_bound_bits(mode: AccelMode) -> u64 {
    if singular_at_zero(mode) {
        TENTH_BITS
    } else {
        ZERO_BITS
    }
}

/// Whether the range is the sampled range of a family at a resolution: from
/// zero, or from one tenth for the power and lookup families, up to a
/// twentieth of the resolution, rounded down.
pub open spec fn is_range_of(range: SampleRange, mode: AccelMode, dpi: u32) -> bool {
    &&& range.from.bits == lower_bound_bits(mode)
    &&& is_whole(range.upto.bits, (dpi / DPI_PER_SPEED_UNIT) as nat)
}

/// A family has one sampled range at a resolution.
pub proof fn lemma_range_is_unique(a: SampleRange, b: SampleRange, mode: AccelMode, dpi: u32)
    requires
        is_range_of(a, mode, dpi),
        is_range_of(b, mode, dpi),
    ensures
        a == b,
{
    lemma_whole_is_unique(a.upto.bits, b.upto.bits, (dpi / DPI_PER_SPEED_UNIT) as nat);
}

/// From a resolution of twenty on, the sampled range is not empty: its lower
/// end is below its upper end. Below twenty the upper end is zero.
pub proof fn lemma_range_not_empty(range: SampleRange, mode: AccelMode, dpi: u32)
    requires
        is_range_of(range, mode, dpi),
    ensures
        dpi >= DPI_PER_SPEED_UNIT ==> range.from.lt(range.upto),
        dpi < DPI_PER_SPEED_UNIT ==> range.upto.bits == ZERO_BITS,
{
    if dpi >= DPI_PER_SPEED_UNIT {
        let units = dpi / DPI_PER_SPEED_UNIT;
        assert(spells_whole(0, 0, 1)) by {
            lemma2_to64();
        }
        if units > 1 {
            lemma_whole_order(ONE_BITS, 1, range.upto.bits, units);
        } else {
            lemma_whole_is_unique(ONE_BITS, range.upto.bits, 1);
        }
    }
}

/// The range of input speeds over which a family is sampled at a resolution.
pub fn sample_range(mode: AccelMode, dpi: u32) -> (r: SampleRange)
    ensures
        is_range_of(r, mode, dpi),
{
    let from: u64 = match mode {
        AccelMode::Power | AccelMode::Lookup => TENTH_BITS,
        _ => ZERO_BITS,
    };
    SampleRange {
        from: Scalar::from_bits(from),
        upto: Scalar::from_u32(dpi / DPI_PER_SPEED_UNIT),
    }
}

/// Whether points exported under a scaling go through the optimizer: all but
/// the libinput scalings, which need every one of their 64 samples.
pub fn optimizes(export_scaling: PointScaling) -> (r: bool)
    ensures
        r == !is_libinput(export_scaling),
{
    !scaling_is_libinput(export_scaling)
}

/// A request is made of what the form shows. Two bundles that agree on every
/// choice, on the table where the lookup family is active, and on every
/// number that the form has a row for, stand for the same request.
pub proof fn lemma_request_reads_shown_fields(a: AccelArgsView, b: AccelArgsView)
    requires
        a.mode == b.mode,
        a.cap_mode == b.cap_mode,
        a.dpi == b.dpi,
        a.gain == b.gain,
        a.point_count == b.point_count,
        a.point_scaling == b.point_scaling,
        a.optimize_curve == b.optimize_curve,
        a.mode == AccelMode::Lookup ==> a.lookup_data == b.lookup_data,
        forall|slot: Slot| #[trigger]
            shows(a.mode, a.cap_mode, slot) ==> a.slot_value(slot) == b.slot_value(slot),
    ensures
        request_of(a) == request_of(b),
{
    lemma_shared_rows_write(Slot::SensMultiplier);
    assert(shows(a.mode, a.cap_mode, Slot::SensMultiplier));
    lemma_mode_rows_are_shown(a.mode, a.cap_mode);
    let own = mode_rows(a.mode, a.cap_mode);
    // naming the rows lets the solver look each of them up
    let named = (own[0], own[1], own[2], own[3], own[4], own[5]);
}

/// The form shows nothing that a request drops. Two bundles of one family and
/// cap mode that stand for the same request agree on every number that the
/// form has a row for.
pub proof fn lemma_request_keeps_shown_fields(a: AccelArgsView, b: AccelArgsView, slot: Slot)
    requires
        a.mode == b.mode,
        a.cap_mode == b.cap_mode,
        request_of(a) == request_of(b),
        shows(a.mode, a.cap_mode, slot),
    ensures
        a.slot_value(slot) == b.slot_value(slot),
{
    lemma_shared_rows_write(slot);
    if slot != Slot::SensMultiplier {
        let own = mode_rows(a.mode, a.cap_mode);
        lemma_mode_rows_are_shown(a.mode, a.cap_mode);
        let i = choose|i: int| 0 <= i < own.len() && (#[trigger] own[i]).slot() == Some(slot);
        assert(i == 0 || i == 1 || i == 2 || i == 3 || i == 4 || i == 5);
    }
}

} // verus!
