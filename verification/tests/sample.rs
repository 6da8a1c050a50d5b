use rawaccel_convert_gui::sample::{conversion, sample_or_zero, Conversion};
use rawaccel_convert_gui::scalar::Scalar;
use rawaccel_convert_gui::types::PointScaling;

fn scalar(value: f64) -> Scalar {
    Scalar::from_bits(value.to_bits())
}

#[test]
fn a_missing_sample_is_zero() {
    assert_eq!(sample_or_zero(None), scalar(0.0));
    assert_eq!(sample_or_zero(None).to_bits(), f64::default().to_bits());
}

#[test]
fn a_present_sample_is_kept() {
    for v in [0.0, -0.0, 1.5, -3.25, f64::INFINITY] {
        assert_eq!(sample_or_zero(Some(scalar(v))), scalar(v));
    }
    assert_eq!(sample_or_zero(Some(scalar(f64::NAN))).to_bits(), f64::NAN.to_bits());
}

#[test]
fn sensitivity_keeps_the_sample() {
    assert_eq!(conversion(PointScaling::Sens), Some(Conversion::Keep));
}

#[test]
fn every_other_scaling_goes_through_velocity() {
    for scaling in [
        PointScaling::Velocity,
        PointScaling::Libinput,
        PointScaling::LibinputDebug,
        PointScaling::LookupVelocity,
        PointScaling::LookupSens,
    ] {
        assert_eq!(conversion(scaling), Some(Conversion::ToVelocity));
    }
}

#[test]
fn the_gain_scaling_has_no_conversion() {
    assert_eq!(conversion(PointScaling::Gain), None);
}
