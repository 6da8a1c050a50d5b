use rawaccel_convert_gui::form::Text;
use rawaccel_convert_gui::settings::RawaccelConvertSettings;

#[test]
fn default_settings_show_the_initial_texts() {
    let s = RawaccelConvertSettings::default();
    assert!(s.dark_mode);
    assert_eq!(s.point_count_string, "64");
    assert_eq!(s.dpi_string, "1200");
    assert_eq!(s.sens_multiplier_string, "1.0");
    assert_eq!(s.curve_type_string, "Off");
    assert_eq!(s.acceleration_string, "0.005");
    assert_eq!(s.cap_output_string, "1.5");
    assert_eq!(s.cap_input_string, "15");
    assert_eq!(s.input_offset_string, "0");
    assert_eq!(s.exponent_classic_string, "2");
    assert_eq!(s.smooth_string, "0.5");
    assert_eq!(s.input_string, "15");
    assert_eq!(s.output_string, "1.5");
    assert_eq!(s.decay_string, "0.1");
    assert_eq!(s.limit_string, "1.5");
    assert_eq!(s.gamma_string, "1");
    assert_eq!(s.motivity_string, "1.5");
    assert_eq!(s.syncspeed_string, "5");
    assert_eq!(s.scale_string, "1");
    assert_eq!(s.exponent_power_string, "0.05");
    assert_eq!(s.output_offset_string, "0");
    assert_eq!(s.lookup_table_string, "");
}

#[test]
fn settings_can_be_cloned() {
    let mut s = RawaccelConvertSettings::default();
    s.dpi_string = "800".to_string();
    let copy = s.clone();
    assert_eq!(copy.dpi_string, "800");
    assert_eq!(copy.point_count_string, "64");
}

const TEXTS: [Text; 20] = [
    Text::PointCount,
    Text::Dpi,
    Text::SensMultiplier,
    Text::Acceleration,
    Text::CapOutput,
    Text::CapInput,
    Text::InputOffset,
    Text::ExponentClassic,
    Text::Smooth,
    Text::Input,
    Text::Output,
    Text::Decay,
    Text::Limit,
    Text::Gamma,
    Text::Motivity,
    Text::SyncSpeed,
    Text::Scale,
    Text::ExponentPower,
    Text::OutputOffset,
    Text::LookupTable,
];

#[test]
fn texts_are_found_by_name() {
    let s = RawaccelConvertSettings::default();
    assert_eq!(s.text(Text::PointCount), "64");
    assert_eq!(s.text(Text::Dpi), "1200");
    assert_eq!(s.text(Text::SensMultiplier), "1.0");
    assert_eq!(s.text(Text::Acceleration), "0.005");
    assert_eq!(s.text(Text::CapOutput), "1.5");
    assert_eq!(s.text(Text::CapInput), "15");
    assert_eq!(s.text(Text::ExponentPower), "0.05");
    assert_eq!(s.text(Text::SyncSpeed), "5");
    assert_eq!(s.text(Text::LookupTable), "");
}

#[test]
fn an_edit_changes_the_named_text_and_no_other() {
    for (i, name) in TEXTS.into_iter().enumerate() {
        let mut s = RawaccelConvertSettings::default();
        let typed = format!("typed {i}");
        *s.text_mut(name) = typed.clone();
        assert_eq!(s.text(name), &typed);
        for other in TEXTS {
            if other != name {
                assert_eq!(s.text(other), RawaccelConvertSettings::default().text(other));
            }
        }
    }
}

#[test]
fn names_lead_to_their_fields() {
    let mut s = RawaccelConvertSettings::default();
    *s.text_mut(Text::Input) = "a".to_string();
    *s.text_mut(Text::Output) = "b".to_string();
    *s.text_mut(Text::CapInput) = "c".to_string();
    *s.text_mut(Text::CapOutput) = "d".to_string();
    *s.text_mut(Text::Decay) = "e".to_string();
    *s.text_mut(Text::ExponentClassic) = "f".to_string();
    assert_eq!(s.input_string, "a");
    assert_eq!(s.output_string, "b");
    assert_eq!(s.cap_input_string, "c");
    assert_eq!(s.cap_output_string, "d");
    assert_eq!(s.decay_string, "e");
    assert_eq!(s.exponent_classic_string, "f");
}
