//! Which rows the form shows for a curve family, in which order, and what
//! each row edits.

use crate::types::{AccelMode, CapMode};
use vstd::prelude::*;

verus! {

/// One row of the form.
#[derive(Clone, Copy, Debug, PartialEq, Eq, Structural)]
pub enum Row {
    Dpi,
    SensMultiplier,
    CurveType,
    Gain,
    Acceleration,
    CapType,
    CapInput,
    CapOutput,
    InputOffset,
    PowerClassic,
    Smooth,
    Input,
    Output,
    Decay,
    Limit,
    Gamma,
    GrowthRate,
    Motivity,
    SyncSpeed,
    Midpoint,
    Scale,
    Exponent,
    OutputOffset,
    LookupTableBox,
    ApplyAs,
}

/// A number of the bundle that a row can write.
#[derive(Clone, Copy, Debug, PartialEq, Eq, Structural)]
pub enum Slot {
    SensMultiplier,
    Acceleration,
    CapX,
    CapY,
    InputOffset,
    ExponentClassic,
    Smooth,
    DecayRate,
    Limit,
    Gamma,
    Motivity,
    SyncSpeed,
    Scale,
    ExponentPower,
    OutputOffset,
}

/// A string of the settings that a row can edit.
#[derive(Clone, Copy, Debug, PartialEq, Eq, Structural)]
pub enum Text {
    PointCount,
    Dpi,
    SensMultiplier,
    Acceleration,
    CapOutput,
    CapInput,
    InputOffset,
    ExponentClassic,
    Smooth,
    Input,
    Output,
    Decay,
    Limit,
    Gamma,
    Motivity,
    SyncSpeed,
    Scale,
    ExponentPower,
    OutputOffset,
    LookupTable,
}

/// The capping rows of a capped family. With both caps given the growth rate
/// follows from them, so its row is absent; with one cap the rate's row
/// comes first and only the active cap is shown.
pub open spec fn cap_rows(rate: Row, cap_mode: CapMode) -> Seq<Row> {
    match cap_mode {
        CapMode::InputOutput => seq![Row::CapType, Row::CapInput, Row::CapOutput],
        CapMode::Input => seq![rate, Row::CapType, Row::CapInput],
        CapMode::Output => seq![rate, Row::CapType, Row::CapOutput],
    }
}

/// The rows that belong to a curve family, top to bottom.
pub open spec fn mode_rows(mode: AccelMode, cap_mode: CapMode) -> Seq<Row> {
    match mode {
        AccelMode::Linear => seq![Row::Gain] + cap_rows(Row::Acceleration, cap_mode)
            + seq![Row::InputOffset],
        AccelMode::Classic => seq![Row::Gain] + cap_rows(Row::Acceleration, cap_mode)
            + seq![Row::InputOffset, Row::PowerClassic],
        AccelMode::Jump => seq![Row::Gain, Row::Smooth, Row::Input, Row::Output],
        AccelMode::Natural => seq![Row::Gain, Row::Decay, Row::InputOffset, Row::Limit],
        AccelMode::Synchronous => seq![
            Row::Gain,
            Row::Gamma,
            Row::Smooth,
            Row::Motivity,
            Row::SyncSpeed,
        ],
        AccelMode::Motivity => seq![Row::Gain, Row::GrowthRate, Row::Motivity, Row::Midpoint],
        AccelMode::Power => seq![Row::Gain] + cap_rows(Row::Scale, cap_mode)
            + seq![Row::Exponent, Row::OutputOffset],
        AccelMode::Lookup => seq![Row::LookupTableBox, Row::ApplyAs],
        AccelMode::Noaccel => Seq::empty(),
    }
}

/// The rows that every family has, top to bottom.
pub open spec fn shared_rows() -> Seq<Row> {
    seq![Row::Dpi, Row::SensMultiplier, Row::CurveType]
}

/// The whole form, top to bottom: the rows that every family has, then the
/// family's own.
pub open spec fn rows(mode: AccelMode, cap_mode: CapMode) -> Seq<Row> {
    shared_rows() + mode_rows(mode, cap_mode)
}

fn push_cap_rows(out: &mut Vec<Row>, rate: Row, cap_mode: CapMode)
    ensures
        final(out)@ == old(out)@ + cap_rows(rate, cap_mode),
{
    match cap_mode {
        CapMode::InputOutput => {
            out.push(Row::CapType);
            out.push(Row::CapInput);
            out.push(Row::CapOutput);
        },
        CapMode::Input => {
            out.push(rate);
            out.push(Row::CapType);
            out.push(Row::CapInput);
        },
        CapMode::Output => {
            out.push(rate);
            out.push(Row::CapType);
            out.push(Row::CapOutput);
        },
    }
}

/// The rows that every family has, top to bottom. The last of them chooses
/// the family, so the rows below it are those of the family just chosen.
pub fn common_rows() -> (r: Vec<Row>)
    ensures
        r@ == shared_rows(),
{
    let mut out: Vec<Row> = Vec::new();
    out.push(Row::Dpi);
    out.push(Row::SensMultiplier);
    out.push(Row::CurveType);
    out
}

/// The rows that belong to a curve family under a cap mode, top to bottom.
pub fn family_rows(mode: AccelMode, cap_mode: CapMode) -> (r: Vec<Row>)
    ensures
        r@ == mode_rows(mode, cap_mode),
{
    let mut out: Vec<Row> = Vec::new();
    match mode {
        AccelMode::Linear => {
            out.push(Row::Gain);
            push_cap_rows(&mut out, Row::Acceleration, cap_mode);
            out.push(Row::InputOffset);
        },
        AccelMode::Classic => {
            out.push(Row::Gain);
            push_cap_rows(&mut out, Row::Acceleration, cap_mode);
            out.push(Row::InputOffset);
            out.push(Row::PowerClassic);
        },
        AccelMode::Jump => {
            out.push(Row::Gain);
            out.push(Row::Smooth);
            out.push(Row::Input);
            out.push(Row::Output);
        },
        AccelMode::Natural => {
            out.push(Row::Gain);
            out.push(Row::Decay);
            out.push(Row::InputOffset);
            out.push(Row::Limit);
        },
        AccelMode::Synchronous => {
            out.push(Row::Gain);
            out.push(Row::Gamma);
            out.push(Row::Smooth);
            out.push(Row::Motivity);
            out.push(Row::SyncSpeed);
        },
        AccelMode::Motivity => {
            out.push(Row::Gain);
            out.push(Row::GrowthRate);
            out.push(Row::Motivity);
            out.push(Row::Midpoint);
        },
        AccelMode::Power => {
            out.push(Row::Gain);
            push_cap_rows(&mut out, Row::Scale, cap_mode);
            out.push(Row::Exponent);
            out.push(Row::OutputOffset);
        },
        AccelMode::Lookup => {
            out.push(Row::LookupTableBox);
            out.push(Row::ApplyAs);
        },
        AccelMode::Noaccel => {},
    }
    out
}

/// The rows of the whole form for a curve family and cap mode, top to bottom.
pub fn form_rows(mode: AccelMode, cap_mode: CapMode) -> (r: Vec<Row>)
    ensures
        r@ == rows(mode, cap_mode),
{
    let mut out: Vec<Row> = common_rows();
    let mut own: Vec<Row> = family_rows(mode, cap_mode);
    out.append(&mut own);
    out
}

impl Row {
    /// The number that the row writes, for the rows that hold a real number.
    pub open spec fn slot(self) -> Option<Slot> {
        match self {
            Row::SensMultiplier => Some(Slot::SensMultiplier),
            Row::Acceleration => Some(Slot::Acceleration),
            Row::CapInput => Some(Slot::CapX),
            Row::CapOutput => Some(Slot::CapY),
            Row::InputOffset => Some(Slot::InputOffset),
            Row::PowerClassic => Some(Slot::ExponentClassic),
            Row::Smooth => Some(Slot::Smooth),
            Row::Input => Some(Slot::CapX),
            Row::Output => Some(Slot::CapY),
            Row::Decay => Some(Slot::DecayRate),
            Row::Limit => Some(Slot::Limit),
            Row::Gamma => Some(Slot::Gamma),
            Row::GrowthRate => Some(Slot::Gamma),
            Row::Motivity => Some(Slot::Motivity),
            Row::SyncSpeed => Some(Slot::SyncSpeed),
            Row::Midpoint => Some(Slot::SyncSpeed),
            Row::Scale => Some(Slot::Scale),
            Row::Exponent => Some(Slot::ExponentPower),
            Row::OutputOffset => Some(Slot::OutputOffset),
            _ => None,
        }
    }

    /// The string that the row edits, for the rows that are typed into.
    pub open spec fn text(self) -> Option<Text> {
        match self {
            Row::Dpi => Some(Text::Dpi),
            Row::SensMultiplier => Some(Text::SensMultiplier),
            Row::Acceleration => Some(Text::Acceleration),
            Row::CapInput => Some(Text::CapInput),
            Row::CapOutput => Some(Text::CapOutput),
            Row::InputOffset => Some(Text::InputOffset),
            Row::PowerClassic => Some(Text::ExponentClassic),
            Row::Smooth => Some(Text::Smooth),
            Row::Input => Some(Text::Input),
            Row::Output => Some(Text::Output),
            Row::Decay => Some(Text::Decay),
            Row::Limit => Some(Text::Limit),
            Row::Gamma => Some(Text::Gamma),
            Row::GrowthRate => Some(Text::Gamma),
            Row::Motivity => Some(Text::Motivity),
            Row::SyncSpeed => Some(Text::SyncSpeed),
            Row::Midpoint => Some(Text::SyncSpeed),
            Row::Scale => Some(Text::Scale),
            Row::Exponent => Some(Text::ExponentPower),
            Row::OutputOffset => Some(Text::OutputOffset),
            Row::LookupTableBox => Some(Text::LookupTable),
            _ => None,
        }
    }

    /// The number that the row writes, if it holds a real number.
    pub fn number_slot(&self) -> (r: Option<Slot>)
        ensures
            r == self.slot(),
    {
        match self {
            Row::SensMultiplier => Some(Slot::SensMultiplier),
            Row::Acceleration => Some(Slot::Acceleration),
            Row::CapInput => Some(Slot::CapX),
            Row::CapOutput => Some(Slot::CapY),
            Row::InputOffset => Some(Slot::InputOffset),
            Row::PowerClassic => Some(Slot::ExponentClassic),
            Row::Smooth => Some(Slot::Smooth),
            Row::Input => Some(Slot::CapX),
            Row::Output => Some(Slot::CapY),
            Row::Decay => Some(Slot::DecayRate),
            Row::Limit => Some(Slot::Limit),
            Row::Gamma => Some(Slot::Gamma),
            Row::GrowthRate => Some(Slot::Gamma),
            Row::Motivity => Some(Slot::Motivity),
            Row::SyncSpeed => Some(Slot::SyncSpeed),
            Row::Midpoint => Some(Slot::SyncSpeed),
            Row::Scale => Some(Slot::Scale),
            Row::Exponent => Some(Slot::ExponentPower),
            Row::OutputOffset => Some(Slot::OutputOffset),
            _ => None,
        }
    }

    /// The string that the row edits, if it is typed into.
    pub fn edited_text(&self) -> (r: Option<Text>)
        ensures
            r == self.text(),
    {
        match self {
            Row::Dpi => Some(Text::Dpi),
            Row::SensMultiplier => Some(Text::SensMultiplier),
            Row::Acceleration => Some(Text::Acceleration),
            Row::CapInput => Some(Text::CapInput),
            Row::CapOutput => Some(Text::CapOutput),
            Row::InputOffset => Some(Text::InputOffset),
            Row::PowerClassic => Some(Text::ExponentClassic),
            Row::Smooth => Some(Text::Smooth),
            Row::Input => Some(Text::Input),
            Row::Output => Some(Text::Output),
            Row::Decay => Some(Text::Decay),
            Row::Limit => Some(Text::Limit),
            Row::Gamma => Some(Text::Gamma),
            Row::GrowthRate => Some(Text::Gamma),
            Row::Motivity => Some(Text::Motivity),
            Row::SyncSpeed => Some(Text::SyncSpeed),
            Row::Midpoint => Some(Text::SyncSpeed),
            Row::Scale => Some(Text::Scale),
            Row::Exponent => Some(Text::ExponentPower),
            Row::OutputOffset => Some(Text::OutputOffset),
            Row::LookupTableBox => Some(Text::LookupTable),
            _ => None,
        }
    }
}

/// Whether one of the rows writes the slot.
pub open spec fn writes(rows: Seq<Row>, slot: Slot) -> bool {
    exists|i: int| 0 <= i < rows.len() && (#[trigger] rows[i]).slot() == Some(slot)
}

/// Whether the form for a family and cap mode has a row that writes the slot.
pub open spec fn shows(mode: AccelMode, cap_mode: CapMode, slot: Slot) -> bool {
    writes(shared_rows(), slot) || writes(mode_rows(mode, cap_mode), slot)
}

/// The slot of a row is written by the rows it is among.
pub proof fn lemma_row_writes(rows: Seq<Row>, i: int)
    requires
        0 <= i < rows.len(),
    ensures
        rows[i].slot() matches Some(slot) ==> writes(rows, slot),
{
    let row = rows[i];
}

/// Of the rows that every family has, only the multiplier's writes a slot.
pub proof fn lemma_shared_rows_write(slot: Slot)
    ensures
        writes(shared_rows(), slot) == (slot == Slot::SensMultiplier),
{
    lemma_row_writes(shared_rows(), 1);
    if writes(shared_rows(), slot) {
        let i = choose|i: int|
            0 <= i < shared_rows().len() && (#[trigger] shared_rows()[i]).slot() == Some(slot);
        assert(i == 0 || i == 1 || i == 2);
    }
}

/// No family has more than six rows of its own, and the form shows the
/// slot of each of them.
pub proof fn lemma_mode_rows_are_shown(mode: AccelMode, cap_mode: CapMode)
    ensures
        mode_rows(mode, cap_mode).len() <= 6,
        forall|i: int|
            0 <= i < mode_rows(mode, cap_mode).len() ==> ((#[trigger] mode_rows(
                mode,
                cap_mode,
            )[i]).slot() matches Some(slot) ==> shows(mode, cap_mode, slot)),
{
    assert forall|i: int| 0 <= i < mode_rows(mode, cap_mode).len() implies ((#[trigger] mode_rows(
        mode,
        cap_mode,
    )[i]).slot() matches Some(slot) ==> shows(mode, cap_mode, slot)) by {
        lemma_row_writes(mode_rows(mode, cap_mode), i);
    }
}

} // verus!
