use rawaccel_convert_gui::args::{copy_points, points_are_same, AccelArgs};
use rawaccel_convert_gui::form::Slot;
use rawaccel_convert_gui::scalar::Scalar;
use rawaccel_convert_gui::types::{AccelMode, CapMode, Point, PointScaling};

fn scalar(value: f64) -> Scalar {
    Scalar::from_bits(value.to_bits())
}

fn point(x: f64, y: f64) -> Point {
    Point { x: scalar(x), y: scalar(y) }
}

const SLOTS: [Slot; 15] = [
    Slot::SensMultiplier,
    Slot::Acceleration,
    Slot::CapX,
    Slot::CapY,
    Slot::InputOffset,
    Slot::ExponentClassic,
    Slot::Smooth,
    Slot::DecayRate,
    Slot::Limit,
    Slot::Gamma,
    Slot::Motivity,
    Slot::SyncSpeed,
    Slot::Scale,
    Slot::ExponentPower,
    Slot::OutputOffset,
];

#[test]
fn default_args_hold_the_initial_values() {
    let args = AccelArgs::default();
    assert_eq!(args.mode, AccelMode::Noaccel);
    assert_eq!(args.dpi, 1200);
    assert_eq!(args.sens_multiplier, scalar(1.0));
    assert!(!args.gain);
    assert_eq!(args.cap, point(15.0, 1.5));
    assert_eq!(args.cap_mode, CapMode::Output);
    assert_eq!(args.acceleration, scalar(0.005));
    assert_eq!(args.input_offset, scalar(0.0));
    assert_eq!(args.exponent_classic, scalar(2.0));
    assert_eq!(args.smooth, scalar(0.5));
    assert_eq!(args.decay_rate, scalar(0.1));
    assert_eq!(args.limit, scalar(1.5));
    assert_eq!(args.gamma, scalar(1.0));
    assert_eq!(args.motivity, scalar(1.5));
    assert_eq!(args.sync_speed, scalar(5.0));
    assert_eq!(args.scale, scalar(1.0));
    assert_eq!(args.exponent_power, scalar(0.05));
    assert_eq!(args.output_offset, scalar(0.0));
    assert!(args.lookup_data.is_empty());
    assert_eq!(args.point_count, 64);
    assert_eq!(args.point_scaling, PointScaling::Sens);
    assert!(!args.optimize_curve);
}

#[test]
fn default_args_agree_with_the_default_texts() {
    let args = AccelArgs::default();
    let s = rawaccel_convert_gui::settings::RawaccelConvertSettings::default();
    let read = |text: &String| scalar(text.parse::<f64>().unwrap());
    assert_eq!(args.dpi, s.dpi_string.parse::<u32>().unwrap());
    assert_eq!(args.point_count, s.point_count_string.parse::<u32>().unwrap());
    assert_eq!(args.sens_multiplier, read(&s.sens_multiplier_string));
    assert_eq!(args.acceleration, read(&s.acceleration_string));
    assert_eq!(args.cap.x, read(&s.cap_input_string));
    assert_eq!(args.cap.y, read(&s.cap_output_string));
    assert_eq!(args.cap.x, read(&s.input_string));
    assert_eq!(args.cap.y, read(&s.output_string));
    assert_eq!(args.input_offset, read(&s.input_offset_string));
    assert_eq!(args.exponent_classic, read(&s.exponent_classic_string));
    assert_eq!(args.smooth, read(&s.smooth_string));
    assert_eq!(args.decay_rate, read(&s.decay_string));
    assert_eq!(args.limit, read(&s.limit_string));
    assert_eq!(args.gamma, read(&s.gamma_string));
    assert_eq!(args.motivity, read(&s.motivity_string));
    assert_eq!(args.sync_speed, read(&s.syncspeed_string));
    assert_eq!(args.scale, read(&s.scale_string));
    assert_eq!(args.exponent_power, read(&s.exponent_power_string));
    assert_eq!(args.output_offset, read(&s.output_offset_string));
}

#[test]
fn default_args_are_valid() {
    assert!(AccelArgs::default().is_valid());
}

#[test]
fn args_with_zero_dpi_are_invalid() {
    let mut args = AccelArgs::default();
    args.dpi = 0;
    assert!(!args.is_valid());
}

#[test]
fn args_with_fewer_than_two_points_are_invalid() {
    let mut args = AccelArgs::default();
    args.point_count = 1;
    assert!(!args.is_valid());
    args.point_count = 2;
    assert!(args.is_valid());
}

#[test]
fn args_with_an_infinite_multiplier_or_cap_are_invalid() {
    for bad in [f64::INFINITY, f64::NEG_INFINITY, f64::NAN] {
        let mut args = AccelArgs::default();
        args.sens_multiplier = scalar(bad);
        assert!(!args.is_valid());
        let mut args = AccelArgs::default();
        args.cap.x = scalar(bad);
        assert!(!args.is_valid());
        let mut args = AccelArgs::default();
        args.cap.y = scalar(bad);
        assert!(!args.is_valid());
    }
}

#[test]
fn args_with_an_unordered_table_are_invalid() {
    let mut args = AccelArgs::default();
    args.lookup_data = vec![point(5.0, 1.0), point(3.0, 2.0)];
    assert!(!args.is_valid());
    args.lookup_data = vec![point(3.0, 1.0), point(3.0, 2.0)];
    assert!(!args.is_valid());
    args.lookup_data = vec![point(1.0, 2.0), point(3.0, 4.0)];
    assert!(args.is_valid());
}

#[test]
fn a_duplicate_is_the_same_bundle() {
    let mut args = AccelArgs::default();
    args.mode = AccelMode::Lookup;
    args.lookup_data = vec![point(1.0, 2.0), point(3.0, 4.0)];
    args.gain = true;
    args.dpi = 800;
    let copy = args.duplicate();
    assert!(copy.is_same_as(&args));
    assert_eq!(copy.lookup_data, args.lookup_data);
    assert_eq!(copy.mode, AccelMode::Lookup);
    assert_eq!(copy.dpi, 800);
    assert!(copy.gain);
}

#[test]
fn bundles_differ_when_any_field_differs() {
    let base = AccelArgs::default();
    for slot in SLOTS {
        let mut other = base.duplicate();
        assert!(other.set_slot(slot, scalar(7.25)));
        assert!(!other.is_same_as(&base), "{slot:?}");
        assert!(!base.is_same_as(&other), "{slot:?}");
    }
    let mut other = base.duplicate();
    other.mode = AccelMode::Jump;
    assert!(!other.is_same_as(&base));
    let mut other = base.duplicate();
    other.cap_mode = CapMode::Input;
    assert!(!other.is_same_as(&base));
    let mut other = base.duplicate();
    other.dpi = 1201;
    assert!(!other.is_same_as(&base));
    let mut other = base.duplicate();
    other.gain = true;
    assert!(!other.is_same_as(&base));
    let mut other = base.duplicate();
    other.point_count = 65;
    assert!(!other.is_same_as(&base));
    let mut other = base.duplicate();
    other.point_scaling = PointScaling::Velocity;
    assert!(!other.is_same_as(&base));
    let mut other = base.duplicate();
    other.optimize_curve = true;
    assert!(!other.is_same_as(&base));
    let mut other = base.duplicate();
    other.lookup_data = vec![point(1.0, 1.0)];
    assert!(!other.is_same_as(&base));
}

#[test]
fn a_bundle_with_a_value_that_is_no_number_differs_from_itself() {
    let mut args = AccelArgs::default();
    args.acceleration = scalar(f64::NAN);
    let copy = args.duplicate();
    assert!(!args.is_same_as(&copy));
    assert!(!args.is_same_as(&args));
}

#[test]
fn the_two_zeros_are_the_same_value_in_a_bundle() {
    let mut a = AccelArgs::default();
    let mut b = AccelArgs::default();
    a.input_offset = scalar(0.0);
    b.input_offset = scalar(-0.0);
    assert!(a.is_same_as(&b));
}

#[test]
fn a_slot_gives_back_what_was_stored() {
    for (i, slot) in SLOTS.into_iter().enumerate() {
        let mut args = AccelArgs::default();
        let value = scalar(100.0 + i as f64);
        assert!(args.set_slot(slot, value));
        assert_eq!(args.slot(slot), value);
        for other in SLOTS {
            if other != slot {
                assert_eq!(args.slot(other), AccelArgs::default().slot(other));
            }
        }
    }
}

#[test]
fn slots_name_the_fields() {
    let mut args = AccelArgs::default();
    args.set_slot(Slot::CapX, scalar(11.0));
    args.set_slot(Slot::CapY, scalar(12.0));
    args.set_slot(Slot::Gamma, scalar(13.0));
    args.set_slot(Slot::SyncSpeed, scalar(14.0));
    args.set_slot(Slot::ExponentClassic, scalar(3.0));
    args.set_slot(Slot::ExponentPower, scalar(0.25));
    assert_eq!(args.cap, point(11.0, 12.0));
    assert_eq!(args.gamma, scalar(13.0));
    assert_eq!(args.sync_speed, scalar(14.0));
    assert_eq!(args.exponent_classic, scalar(3.0));
    assert_eq!(args.exponent_power, scalar(0.25));
}

#[test]
fn the_multiplier_and_the_caps_take_finite_values_only() {
    for slot in [Slot::SensMultiplier, Slot::CapX, Slot::CapY] {
        for bad in [f64::INFINITY, f64::NEG_INFINITY, f64::NAN] {
            let mut args = AccelArgs::default();
            assert!(!args.set_slot(slot, scalar(bad)));
            assert_eq!(args.slot(slot), AccelArgs::default().slot(slot));
            assert!(args.is_valid());
        }
    }
}

#[test]
fn the_other_slots_take_any_value() {
    for slot in SLOTS {
        if matches!(slot, Slot::SensMultiplier | Slot::CapX | Slot::CapY) {
            continue;
        }
        let mut args = AccelArgs::default();
        assert!(args.set_slot(slot, scalar(f64::INFINITY)));
        assert_eq!(args.slot(slot), scalar(f64::INFINITY));
        assert!(args.is_valid());
    }
}

#[test]
fn points_compare_as_values() {
    let a = vec![point(0.0, 1.0), point(2.0, 3.0)];
    assert!(points_are_same(&a, &copy_points(&a)));
    assert!(points_are_same(&a, &vec![point(-0.0, 1.0), point(2.0, 3.0)]));
    assert!(!points_are_same(&a, &vec![point(0.0, 1.0)]));
    assert!(!points_are_same(&a, &vec![point(0.0, 1.0), point(2.0, 3.5)]));
    assert!(!points_are_same(&vec![point(f64::NAN, 1.0)], &vec![point(f64::NAN, 1.0)]));
    assert!(points_are_same(&vec![], &vec![]));
    assert_eq!(copy_points(&a), a);
}
