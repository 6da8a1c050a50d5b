//! The text that the form holds, one string per field, exactly as typed.

use crate::form::Text;
use vstd::prelude::*;
use vstd::string::*;

verus! {

/// What the form shows: every field as the text last typed into it.
///
/// The strings are kept as typed, valid or not; the typed values live in the
/// parameter bundle and change only when a string parses.
#[derive(Clone)]
pub struct RawaccelConvertSettings {
    pub dark_mode: bool,
    pub point_count_string: String,
    pub dpi_string: String,
    pub sens_multiplier_string: String,
    pub curve_type_string: String,
    pub acceleration_string: String,
    pub cap_output_string: String,
    pub cap_input_string: String,
    pub input_offset_string: String,
    pub exponent_classic_string: String,
    pub smooth_string: String,
    pub input_string: String,
    pub output_string: String,
    pub decay_string: String,
    pub limit_string: String,
    pub gamma_string: String,
    pub motivity_string: String,
    pub syncspeed_string: String,
    pub scale_string: String,
    pub exponent_power_string: String,
    pub output_offset_string: String,
    pub lookup_table_string: String,
}

impl RawaccelConvertSettings {
    /// The settings of a form that nobody has touched yet.
    pub open spec fn is_initial(self) -> bool {
        &&& self.dark_mode
        &&& self.point_count_string@ == "64"@
        &&& self.dpi_string@ == "1200"@
        &&& self.sens_multiplier_string@ == "1.0"@
        &&& self.curve_type_string@ == "Off"@
        &&& self.acceleration_string@ == "0.005"@
        &&& self.cap_output_string@ == "1.5"@
        &&& self.cap_input_string@ == "15"@
        &&& self.input_offset_string@ == "0"@
        &&& self.exponent_classic_string@ == "2"@
        &&& self.smooth_string@ == "0.5"@
        &&& self.input_string@ == "15"@
        &&& self.output_string@ == "1.5"@
        &&& self.decay_string@ == "0.1"@
        &&& self.limit_string@ == "1.5"@
        &&& self.gamma_string@ == "1"@
        &&& self.motivity_string@ == "1.5"@
        &&& self.syncspeed_string@ == "5"@
        &&& self.scale_string@ == "1"@
        &&& self.exponent_power_string@ == "0.05"@
        &&& self.output_offset_string@ == "0"@
        &&& self.lookup_table_string@ == ""@
    }
}

impl Default for RawaccelConvertSettings {
    fn default() -> (r: Self)
        ensures
            r.is_initial(),
    {
        RawaccelConvertSettings {
            dark_mode: true,
            point_count_string: String::from_str("64"),
            dpi_string: String::from_str("1200"),
            sens_multiplier_string: String::from_str("1.0"),
            curve_type_string: String::from_str("Off"),
            acceleration_string: String::from_str("0.005"),
            cap_output_string: String::from_str("1.5"),
            cap_input_string: String::from_str("15"),
            input_offset_string: String::from_str("0"),
            exponent_classic_string: String::from_str("2"),
            smooth_string: String::from_str("0.5"),
            input_string: String::from_str("15"),
            output_string: String::from_str("1.5"),
            decay_string: String::from_str("0.1"),
            limit_string: String::from_str("1.5"),
            gamma_string: String::from_str("1"),
            motivity_string: String::from_str("1.5"),
            syncspeed_string: String::from_str("5"),
            scale_string: String::from_str("1"),
            exponent_power_string: String::from_str("0.05"),
            output_offset_string: String::from_str("0"),
            lookup_table_string: String::from_str(""),
        }
    }
}

impl RawaccelConvertSettings {
    /// The string that a name stands for.
    pub open spec fn text_of(self, text: Text) -> String {
        match text {
            Text::PointCount => self.point_count_string,
            Text::Dpi => self.dpi_string,
            Text::SensMultiplier => self.sens_multiplier_string,
            Text::Acceleration => self.acceleration_string,
            Text::CapOutput => self.cap_output_string,
            Text::CapInput => self.cap_input_string,
            Text::InputOffset => self.input_offset_string,
            Text::ExponentClassic => self.exponent_classic_string,
            Text::Smooth => self.smooth_string,
            Text::Input => self.input_string,
            Text::Output => self.output_string,
            Text::Decay => self.decay_string,
            Text::Limit => self.limit_string,
            Text::Gamma => self.gamma_string,
            Text::Motivity => self.motivity_string,
            Text::SyncSpeed => self.syncspeed_string,
            Text::Scale => self.scale_string,
            Text::ExponentPower => self.exponent_power_string,
            Text::OutputOffset => self.output_offset_string,
            Text::LookupTable => self.lookup_table_string,
        }
    }

    /// The settings with one string replaced and nothing else changed.
    pub open spec fn with_text(self, text: Text, value: String) -> RawaccelConvertSettings {
        match text {
            Text::PointCount => RawaccelConvertSettings { point_count_string: value, ..self },
            Text::Dpi => RawaccelConvertSettings { dpi_string: value, ..self },
            Text::SensMultiplier => RawaccelConvertSettings {
                sens_multiplier_string: value,
                ..self
            },
            Text::Acceleration => RawaccelConvertSettings { acceleration_string: value, ..self },
            Text::CapOutput => RawaccelConvertSettings { cap_output_string: value, ..self },
            Text::CapInput => RawaccelConvertSettings { cap_input_string: value, ..self },
            Text::InputOffset => RawaccelConvertSettings { input_offset_string: value, ..self },
            Text::ExponentClassic => RawaccelConvertSettings {
                exponent_classic_string: value,
                ..self
            },
            Text::Smooth => RawaccelConvertSettings { smooth_string: value, ..self },
            Text::Input => RawaccelConvertSettings { input_string: value, ..self },
            Text::Output => RawaccelConvertSettings { output_string: value, ..self },
            Text::Decay => RawaccelConvertSettings { decay_string: value, ..self },
            Text::Limit => RawaccelConvertSettings { limit_string: value, ..self },
            Text::Gamma => RawaccelConvertSettings { gamma_string: value, ..self },
            Text::Motivity => RawaccelConvertSettings { motivity_string: value, ..self },
            Text::SyncSpeed => RawaccelConvertSettings { syncspeed_string: value, ..self },
            Text::Scale => RawaccelConvertSettings { scale_string: value, ..self },
            Text::ExponentPower => RawaccelConvertSettings { exponent_power_string: value, ..self },
            Text::OutputOffset => RawaccelConvertSettings { output_offset_string: value, ..self },
            Text::LookupTable => RawaccelConvertSettings { lookup_table_string: value, ..self },
        }
    }

    /// The string that a name stands for.
    pub fn text(&self, text: Text) -> (r: &String)
        ensures
            *r == self.text_of(text),
    {
        match text {
            Text::PointCount => &self.point_count_string,
            Text::Dpi => &self.dpi_string,
            Text::SensMultiplier => &self.sens_multiplier_string,
            Text::Acceleration => &self.acceleration_string,
            Text::CapOutput => &self.cap_output_string,
            Text::CapInput => &self.cap_input_string,
            Text::InputOffset => &self.input_offset_string,
            Text::ExponentClassic => &self.exponent_classic_string,
            Text::Smooth => &self.smooth_string,
            Text::Input => &self.input_string,
            Text::Output => &self.output_string,
            Text::Decay => &self.decay_string,
            Text::Limit => &self.limit_string,
            Text::Gamma => &self.gamma_string,
            Text::Motivity => &self.motivity_string,
            Text::SyncSpeed => &self.syncspeed_string,
            Text::Scale => &self.scale_string,
            Text::ExponentPower => &self.exponent_power_string,
            Text::OutputOffset => &self.output_offset_string,
            Text::LookupTable => &self.lookup_table_string,
        }
    }

    /// The string that a name stands for, to be edited in place.
    pub fn text_mut(&mut self, text: Text) -> (r: &mut String)
        ensures
            *r == old(self).text_of(text),
            *final(self) == old(self).with_text(text, *final(r)),
    {
        match text {
            Text::PointCount => &mut self.point_count_string,
            Text::Dpi => &mut self.dpi_string,
            Text::SensMultiplier => &mut self.sens_multiplier_string,
            Text::Acceleration => &mut self.acceleration_string,
            Text::CapOutput => &mut self.cap_output_string,
            Text::CapInput => &mut self.cap_input_string,
            Text::InputOffset => &mut self.input_offset_string,
            Text::ExponentClassic => &mut self.exponent_classic_string,
            Text::Smooth => &mut self.smooth_string,
            Text::Input => &mut self.input_string,
            Text::Output => &mut self.output_string,
            Text::Decay => &mut self.decay_string,
            Text::Limit => &mut self.limit_string,
            Text::Gamma => &mut self.gamma_string,
            Text::Motivity => &mut self.motivity_string,
            Text::SyncSpeed => &mut self.syncspeed_string,
            Text::Scale => &mut self.scale_string,
            Text::ExponentPower => &mut self.exponent_power_string,
            Text::OutputOffset => &mut self.output_offset_string,
            Text::LookupTable => &mut self.lookup_table_string,
        }
    }
}

} // verus!
