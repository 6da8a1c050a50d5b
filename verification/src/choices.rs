//! What the form offers to choose from, in the order offered, and what each
//! choice and each row is called.

use crate::form::Row;
use crate::sample::conversion_of;
use crate::types::{AccelMode, CapMode, PointScaling};
use vstd::prelude::*;

verus! {

/// The curve families in the order offered.
pub open spec fn curve_types() -> Seq<AccelMode> {
    seq![
        AccelMode::Noaccel,
        AccelMode::Linear,
        AccelMode::Classic,
        AccelMode::Jump,
        AccelMode::Natural,
        AccelMode::Synchronous,
        AccelMode::Power,
        AccelMode::Motivity,
        AccelMode::Lookup,
    ]
}

/// The cap modes in the order offered.
pub open spec fn cap_types() -> Seq<CapMode> {
    seq![CapMode::Input, CapMode::Output, CapMode::InputOutput]
}

/// The scalings that the graph can be shown in.
pub open spec fn graph_scalings() -> Seq<PointScaling> {
    seq![PointScaling::Sens, PointScaling::Velocity]
}

/// The scalings that points can be exported in. The gain scaling is not
/// among them.
pub open spec fn export_scalings() -> Seq<PointScaling> {
    seq![
        PointScaling::Sens,
        PointScaling::Velocity,
        PointScaling::Libinput,
        PointScaling::LibinputDebug,
        PointScaling::LookupVelocity,
        PointScaling::LookupSens,
    ]
}

/// The name of a curve family.
pub open spec fn curve_type_name(mode: AccelMode) -> Seq<char> {
    match mode {
        AccelMode::Noaccel => "Off"@,
        AccelMode::Linear => "Linear"@,
        AccelMode::Classic => "Classic"@,
        AccelMode::Jump => "Jump"@,
        AccelMode::Natural => "Natural"@,
        AccelMode::Synchronous => "Synchronous"@,
        AccelMode::Power => "Power"@,
        AccelMode::Motivity => "Motivity"@,
        AccelMode::Lookup => "Look Up Table"@,
    }
}

/// The name of a cap mode.
pub open spec fn cap_type_name(cap_mode: CapMode) -> Seq<char> {
    match cap_mode {
        CapMode::Input => "Input"@,
        CapMode::Output => "Output"@,
        CapMode::InputOutput => "Both"@,
    }
}

/// The name of a scaling.
pub open spec fn scaling_name(scaling: PointScaling) -> Seq<char> {
    match scaling {
        PointScaling::Sens => "Sens"@,
        PointScaling::Velocity => "Velocity"@,
        PointScaling::Gain => "Gain"@,
        PointScaling::Libinput => "Libinput"@,
        PointScaling::LibinputDebug => "LibinputDebug"@,
        PointScaling::LookupVelocity => "LookupVelocity"@,
        PointScaling::LookupSens => "LookupSens"@,
    }
}

/// What a lookup table is applied as: a velocity curve with gain, a
/// sensitivity curve without.
pub open spec fn apply_as_name(gain: bool) -> Seq<char> {
    if gain {
        "Velocity"@
    } else {
        "Sens"@
    }
}

/// The caption of a row.
pub open spec fn row_caption(row: Row) -> Seq<char> {
    match row {
        Row::Dpi => "DPI"@,
        Row::SensMultiplier => "Sens Multiplier"@,
        Row::CurveType => "Curve Type"@,
        Row::Gain => "Gain"@,
        Row::Acceleration => "Acceleration"@,
        Row::CapType => "Cap Type"@,
        Row::CapInput => "Cap: Input"@,
        Row::CapOutput => "Cap: Output"@,
        Row::InputOffset => "Input Offset"@,
        Row::PowerClassic => "Power"@,
        Row::Smooth => "Smooth"@,
        Row::Input => "Input"@,
        Row::Output => "Output"@,
        Row::Decay => "Decay Rate"@,
        Row::Limit => "Limit"@,
        Row::Gamma => "Gamma"@,
        Row::GrowthRate => "Growth Rate"@,
        Row::Motivity => "Motivity"@,
        Row::SyncSpeed => "SyncSpeed"@,
        Row::Midpoint => "Midpoint"@,
        Row::Scale => "Scale"@,
        Row::Exponent => "Exponent"@,
        Row::OutputOffset => "Output Offset"@,
        Row::LookupTableBox => "LUT Points"@,
        Row::ApplyAs => "Apply As"@,
    }
}

/// The curve families in the order offered.
pub fn curve_type_choices() -> (r: Vec<AccelMode>)
    ensures
        r@ == curve_types(),
{
    let mut out: Vec<AccelMode> = Vec::new();
    out.push(AccelMode::Noaccel);
    out.push(AccelMode::Linear);
    out.push(AccelMode::Classic);
    out.push(AccelMode::Jump);
    out.push(AccelMode::Natural);
    out.push(AccelMode::Synchronous);
    out.push(AccelMode::Power);
    out.push(AccelMode::Motivity);
    out.push(AccelMode::Lookup);
    out
}

/// The cap modes in the order offered.
pub fn cap_type_choices() -> (r: Vec<CapMode>)
    ensures
        r@ == cap_types(),
{
    let mut out: Vec<CapMode> = Vec::new();
    out.push(CapMode::Input);
    out.push(CapMode::Output);
    out.push(CapMode::InputOutput);
    out
}

/// The scalings that the graph can be shown in.
pub fn graph_scaling_choices() -> (r: Vec<PointScaling>)
    ensures
        r@ == graph_scalings(),
{
    let mut out: Vec<PointScaling> = Vec::new();
    out.push(PointScaling::Sens);
    out.push(PointScaling::Velocity);
    out
}

/// The scalings that points can be exported in.
pub fn export_scaling_choices() -> (r: Vec<PointScaling>)
    ensures
        r@ == export_scalings(),
{
    let mut out: Vec<PointScaling> = Vec::new();
    out.push(PointScaling::Sens);
    out.push(PointScaling::Velocity);
    out.push(PointScaling::Libinput);
    out.push(PointScaling::LibinputDebug);
    out.push(PointScaling::LookupVelocity);
    out.push(PointScaling::LookupSens);
    out
}

/// Every scaling that the form offers, for the graph or for an export, has a
/// conversion: the gain scaling, which has none, is never offered.
pub proof fn lemma_offered_scalings_convert()
    ensures
        forall|i: int|
            0 <= i < graph_scalings().len() ==> conversion_of(
                #[trigger] graph_scalings()[i],
            ).is_some(),
        forall|i: int|
            0 <= i < export_scalings().len() ==> conversion_of(
                #[trigger] export_scalings()[i],
            ).is_some(),
{
}

/// The name of a curve family.
pub fn curve_type_label(mode: AccelMode) -> (r: &'static str)
    ensures
        r@ == curve_type_name(mode),
{
    match mode {
        AccelMode::Noaccel => "Off",
        AccelMode::Linear => "Linear",
        AccelMode::Classic => "Classic",
        AccelMode::Jump => "Jump",
        AccelMode::Natural => "Natural",
        AccelMode::Synchronous => "Synchronous",
        AccelMode::Power => "Power",
        AccelMode::Motivity => "Motivity",
        AccelMode::Lookup => "Look Up Table",
    }
}

/// The name of a cap mode.
pub fn cap_type_label(cap_mode: CapMode) -> (r: &'static str)
    ensures
        r@ == cap_type_name(cap_mode),
{
    match cap_mode {
        CapMode::Input => "Input",
        CapMode::Output => "Output",
        CapMode::InputOutput => "Both",
    }
}

/// The name of a scaling.
pub fn scaling_label(scaling: PointScaling) -> (r: &'static str)
    ensures
        r@ == scaling_name(scaling),
{
    match scaling {
        PointScaling::Sens => "Sens",
        PointScaling::Velocity => "Velocity",
        PointScaling::Gain => "Gain",
        PointScaling::Libinput => "Libinput",
        PointScaling::LibinputDebug => "LibinputDebug",
        PointScaling::LookupVelocity => "LookupVelocity",
        PointScaling::LookupSens => "LookupSens",
    }
}

/// What a lookup table is applied as.
pub fn apply_as_label(gain: bool) -> (r: &'static str)
    ensures
        r@ == apply_as_name(gain),
{
    if gain {
        "Velocity"
    } else {
        "Sens"
    }
}

/// The caption of a row.
pub fn row_label(row: Row) -> (r: &'static str)
    ensures
        r@ == row_caption(row),
{
    match row {
        Row::Dpi => "DPI",
        Row::SensMultiplier => "Sens Multiplier",
        Row::CurveType => "Curve Type",
        Row::Gain => "Gain",
        Row::Acceleration => "Acceleration",
        Row::CapType => "Cap Type",
        Row::CapInput => "Cap: Input",
        Row::CapOutput => "Cap: Output",
        Row::InputOffset => "Input Offset",
        Row::PowerClassic => "Power",
        Row::Smooth => "Smooth",
        Row::Input => "Input",
        Row::Output => "Output",
        Row::Decay => "Decay Rate",
        Row::Limit => "Limit",
        Row::Gamma => "Gamma",
        Row::GrowthRate => "Growth Rate",
        Row::Motivity => "Motivity",
        Row::SyncSpeed => "SyncSpeed",
        Row::Midpoint => "Midpoint",
        Row::Scale => "Scale",
        Row::Exponent => "Exponent",
        Row::OutputOffset => "Output Offset",
        Row::LookupTableBox => "LUT Points",
        Row::ApplyAs => "Apply As",
    }
}

} // verus!
