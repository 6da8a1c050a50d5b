use rawaccel_convert_gui::form::Row::{
    Acceleration, ApplyAs, CapInput, CapOutput, CapType, CurveType, Decay, Dpi, Exponent, Gain,
    Gamma, GrowthRate, Input, InputOffset, Limit, LookupTableBox, Midpoint, Motivity, Output,
    OutputOffset, PowerClassic, Scale, SensMultiplier, Smooth, SyncSpeed,
};
use rawaccel_convert_gui::form::{common_rows, family_rows, form_rows, Row, Slot, Text};
use rawaccel_convert_gui::types::{AccelMode, CapMode};

const CAP_MODES: [CapMode; 3] = [CapMode::InputOutput, CapMode::Input, CapMode::Output];

#[test]
fn every_form_starts_with_the_three_common_rows() {
    for mode in [
        AccelMode::Linear,
        AccelMode::Classic,
        AccelMode::Jump,
        AccelMode::Natural,
        AccelMode::Synchronous,
        AccelMode::Power,
        AccelMode::Motivity,
        AccelMode::Lookup,
        AccelMode::Noaccel,
    ] {
        for cap_mode in CAP_MODES {
            let rows = form_rows(mode, cap_mode);
            assert_eq!(rows[..3], [Row::Dpi, Row::SensMultiplier, Row::CurveType]);
        }
    }
}

#[test]
fn the_identity_curve_has_no_rows_of_its_own() {
    for cap_mode in CAP_MODES {
        assert_eq!(
            form_rows(AccelMode::Noaccel, cap_mode),
            vec![Row::Dpi, Row::SensMultiplier, Row::CurveType]
        );
    }
}

#[test]
fn linear_rows_follow_the_cap_mode() {
    assert_eq!(
        form_rows(AccelMode::Linear, CapMode::InputOutput),
        vec![Dpi, SensMultiplier, CurveType, Gain, CapType, CapInput, CapOutput, InputOffset]
    );
    assert_eq!(
        form_rows(AccelMode::Linear, CapMode::Input),
        vec![Dpi, SensMultiplier, CurveType, Gain, Acceleration, CapType, CapInput, InputOffset]
    );
    assert_eq!(
        form_rows(AccelMode::Linear, CapMode::Output),
        vec![Dpi, SensMultiplier, CurveType, Gain, Acceleration, CapType, CapOutput, InputOffset]
    );
}

#[test]
fn classic_rows_add_the_exponent() {
    assert_eq!(
        form_rows(AccelMode::Classic, CapMode::InputOutput),
        vec![
            Dpi, SensMultiplier, CurveType, Gain, CapType, CapInput, CapOutput, InputOffset,
            PowerClassic
        ]
    );
    assert_eq!(
        form_rows(AccelMode::Classic, CapMode::Input),
        vec![
            Dpi, SensMultiplier, CurveType, Gain, Acceleration, CapType, CapInput, InputOffset,
            PowerClassic
        ]
    );
    assert_eq!(
        form_rows(AccelMode::Classic, CapMode::Output),
        vec![
            Dpi, SensMultiplier, CurveType, Gain, Acceleration, CapType, CapOutput, InputOffset,
            PowerClassic
        ]
    );
}

#[test]
fn power_rows_use_the_scale_as_rate() {
    assert_eq!(
        form_rows(AccelMode::Power, CapMode::InputOutput),
        vec![
            Dpi, SensMultiplier, CurveType, Gain, CapType, CapInput, CapOutput, Exponent,
            OutputOffset
        ]
    );
    assert_eq!(
        form_rows(AccelMode::Power, CapMode::Input),
        vec![
            Dpi, SensMultiplier, CurveType, Gain, Scale, CapType, CapInput, Exponent, OutputOffset
        ]
    );
    assert_eq!(
        form_rows(AccelMode::Power, CapMode::Output),
        vec![
            Dpi, SensMultiplier, CurveType, Gain, Scale, CapType, CapOutput, Exponent,
            OutputOffset
        ]
    );
}

#[test]
fn uncapped_families_ignore_the_cap_mode() {
    for cap_mode in CAP_MODES {
        assert_eq!(
            form_rows(AccelMode::Jump, cap_mode),
            vec![Dpi, SensMultiplier, CurveType, Gain, Smooth, Input, Output]
        );
        assert_eq!(
            form_rows(AccelMode::Natural, cap_mode),
            vec![Dpi, SensMultiplier, CurveType, Gain, Decay, InputOffset, Limit]
        );
        assert_eq!(
            form_rows(AccelMode::Synchronous, cap_mode),
            vec![Dpi, SensMultiplier, CurveType, Gain, Gamma, Smooth, Motivity, SyncSpeed]
        );
        assert_eq!(
            form_rows(AccelMode::Motivity, cap_mode),
            vec![Dpi, SensMultiplier, CurveType, Gain, GrowthRate, Motivity, Midpoint]
        );
        assert_eq!(
            form_rows(AccelMode::Lookup, cap_mode),
            vec![Dpi, SensMultiplier, CurveType, LookupTableBox, ApplyAs]
        );
    }
}

#[test]
fn rows_write_their_slots() {
    let table = [
        (Row::Dpi, None),
        (Row::SensMultiplier, Some(Slot::SensMultiplier)),
        (Row::CurveType, None),
        (Row::Gain, None),
        (Row::Acceleration, Some(Slot::Acceleration)),
        (Row::CapType, None),
        (Row::CapInput, Some(Slot::CapX)),
        (Row::CapOutput, Some(Slot::CapY)),
        (Row::InputOffset, Some(Slot::InputOffset)),
        (Row::PowerClassic, Some(Slot::ExponentClassic)),
        (Row::Smooth, Some(Slot::Smooth)),
        (Row::Input, Some(Slot::CapX)),
        (Row::Output, Some(Slot::CapY)),
        (Row::Decay, Some(Slot::DecayRate)),
        (Row::Limit, Some(Slot::Limit)),
        (Row::Gamma, Some(Slot::Gamma)),
        (Row::GrowthRate, Some(Slot::Gamma)),
        (Row::Motivity, Some(Slot::Motivity)),
        (Row::SyncSpeed, Some(Slot::SyncSpeed)),
        (Row::Midpoint, Some(Slot::SyncSpeed)),
        (Row::Scale, Some(Slot::Scale)),
        (Row::Exponent, Some(Slot::ExponentPower)),
        (Row::OutputOffset, Some(Slot::OutputOffset)),
        (Row::LookupTableBox, None),
        (Row::ApplyAs, None),
    ];
    for (row, slot) in table {
        assert_eq!(row.number_slot(), slot, "{row:?}");
    }
}

#[test]
fn rows_edit_their_texts() {
    let table = [
        (Row::Dpi, Some(Text::Dpi)),
        (Row::SensMultiplier, Some(Text::SensMultiplier)),
        (Row::CurveType, None),
        (Row::Gain, None),
        (Row::Acceleration, Some(Text::Acceleration)),
        (Row::CapType, None),
        (Row::CapInput, Some(Text::CapInput)),
        (Row::CapOutput, Some(Text::CapOutput)),
        (Row::InputOffset, Some(Text::InputOffset)),
        (Row::PowerClassic, Some(Text::ExponentClassic)),
        (Row::Smooth, Some(Text::Smooth)),
        (Row::Input, Some(Text::Input)),
        (Row::Output, Some(Text::Output)),
        (Row::Decay, Some(Text::Decay)),
        (Row::Limit, Some(Text::Limit)),
        (Row::Gamma, Some(Text::Gamma)),
        (Row::GrowthRate, Some(Text::Gamma)),
        (Row::Motivity, Some(Text::Motivity)),
        (Row::SyncSpeed, Some(Text::SyncSpeed)),
        (Row::Midpoint, Some(Text::SyncSpeed)),
        (Row::Scale, Some(Text::Scale)),
        (Row::Exponent, Some(Text::ExponentPower)),
        (Row::OutputOffset, Some(Text::OutputOffset)),
        (Row::LookupTableBox, Some(Text::LookupTable)),
        (Row::ApplyAs, None),
    ];
    for (row, text) in table {
        assert_eq!(row.edited_text(), text, "{row:?}");
    }
}

#[test]
fn the_form_is_the_common_rows_and_then_the_family_rows() {
    assert_eq!(common_rows(), vec![Dpi, SensMultiplier, CurveType]);
    for mode in [
        AccelMode::Linear,
        AccelMode::Classic,
        AccelMode::Jump,
        AccelMode::Natural,
        AccelMode::Synchronous,
        AccelMode::Power,
        AccelMode::Motivity,
        AccelMode::Lookup,
        AccelMode::Noaccel,
    ] {
        for cap_mode in CAP_MODES {
            let mut whole = common_rows();
            whole.extend(family_rows(mode, cap_mode));
            assert_eq!(form_rows(mode, cap_mode), whole);
        }
    }
}

#[test]
fn a_family_shows_the_numbers_that_its_curve_reads() {
    assert_eq!(family_rows(AccelMode::Noaccel, CapMode::Input), vec![]);
    assert_eq!(
        family_rows(AccelMode::Linear, CapMode::Input),
        vec![Gain, Acceleration, CapType, CapInput, InputOffset]
    );
    assert_eq!(
        family_rows(AccelMode::Power, CapMode::InputOutput),
        vec![Gain, CapType, CapInput, CapOutput, Exponent, OutputOffset]
    );
}
