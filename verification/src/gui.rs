//! The state behind the form and the steps that change it.
//!
//! Nothing here draws or reads anything. The caller shows the rows, turns
//! typed text into numbers where a number is a real, runs the sampler on the
//! requests handed out here, and hands the results back.

use crate::args::{
    fits_slot, initial_args, AccelArgs, AccelArgsView, INITIAL_DPI, INITIAL_POINT_COUNT, MIN_DPI,
    MIN_POINT_COUNT,
};
use crate::curve::{
    is_libinput, optimizes, request_of, scaling_is_libinput, CurveRequest, LIBINPUT_POINT_COUNT,
};
use crate::export::{export_text, format_points, PointText};
use crate::form::Slot;
use crate::lookup::{lookup_entries, lookup_table, table_entries, table_of, LookupEntry};
use crate::number::{digits_value, parse_u32, parsed_u32};
use crate::scalar::{Scalar, TWO_BITS};
use crate::settings::RawaccelConvertSettings;
use crate::types::{AccelMode, CurvegenResult, Point, PointScaling};
use vstd::prelude::*;
use vstd::string::*;
use vstd::utf8::*;

verus! {

/// Everything the form remembers between two frames.
pub struct RawaccelConvertGui {
    /// The text of every field, as typed.
    pub settings: RawaccelConvertSettings,
    /// The last valid value of every field.
    pub accel_args: AccelArgs,
    /// The bundle that the shown curve was last sampled from.
    pub export_accel_args_cache: AccelArgs,
    /// The exported points, as text.
    pub points: String,
    /// The grid spacing of the exported curve, as text.
    pub libinput_steps: String,
    /// The curve that is shown.
    pub curvegen: CurvegenResult,
    /// The curve that was last exported.
    pub curvegen_export: CurvegenResult,
    /// The scaling that the next export will use.
    pub export_point_scaling: PointScaling,
}

/// The resolution that a text enters into the bundle, if any: a whole number
/// of at least one.
pub open spec fn accepted_dpi(text: Seq<u8>) -> Option<u32> {
    match parsed_u32(text) {
        Some(v) => if v >= MIN_DPI {
            Some(v)
        } else {
            None
        },
        None => None,
    }
}

/// Whether the text of the point count is in order under an export scaling:
/// exactly 64 under the libinput scalings, a whole number of at least two
/// otherwise.
pub open spec fn point_count_in_order(text: Seq<u8>, export_scaling: PointScaling) -> bool {
    match parsed_u32(text) {
        Some(v) => if is_libinput(export_scaling) {
            v == LIBINPUT_POINT_COUNT
        } else {
            v >= MIN_POINT_COUNT
        },
        None => false,
    }
}

/// The point count of the bundle after its text was looked at: the number
/// typed, if it is in order and the export scaling leaves the count free.
pub open spec fn point_count_after(
    text: Seq<u8>,
    export_scaling: PointScaling,
    before: u32,
) -> u32 {
    if !is_libinput(export_scaling) && point_count_in_order(text, export_scaling) {
        parsed_u32(text).unwrap()
    } else {
        before
    }
}

/// Whether the text of the point count is put back to `64`: under the
/// libinput scalings, when it spells another number.
pub open spec fn point_count_text_is_reset(text: Seq<u8>, export_scaling: PointScaling) -> bool {
    is_libinput(export_scaling) && parsed_u32(text).is_some() && parsed_u32(text).unwrap()
        != LIBINPUT_POINT_COUNT
}

/// Whether the shown curve no longer belongs to the bundle: the graph
/// scaling was just changed, or the bundle is not the one last sampled.
pub open spec fn curve_is_stale(
    previous_scaling: PointScaling,
    args: AccelArgsView,
    cache: AccelArgsView,
) -> bool {
    previous_scaling != args.point_scaling || !cache.same(args)
}

/// The bundle that an export is sampled from: the form's bundle under the
/// export scaling.
pub open spec fn export_args(args: AccelArgsView, export_scaling: PointScaling) -> AccelArgsView {
    AccelArgsView { point_scaling: export_scaling, ..args }
}

impl RawaccelConvertGui {
    /// The state of a form that nobody has touched yet.
    pub open spec fn is_initial(&self) -> bool {
        &&& self.settings.is_initial()
        &&& self.has_initial_session()
    }

    /// Whether everything but the settings is as in an untouched form.
    pub open spec fn has_initial_session(&self) -> bool {
        &&& self.accel_args@ == initial_args()
        &&& self.export_accel_args_cache@ == initial_args()
        &&& self.points@ == Seq::<char>::empty()
        &&& self.libinput_steps@ == Seq::<char>::empty()
        &&& self.curvegen.is_blank()
        &&& self.curvegen_export.is_blank()
        &&& self.export_point_scaling == PointScaling::Sens
    }

    /// Starts a session: with the settings that were stored, if any were,
    /// and with everything else as in an untouched form.
    pub fn new(stored: Option<RawaccelConvertSettings>) -> (r: Self)
        ensures
            r.has_initial_session(),
            match stored {
                Some(settings) => r.settings == settings,
                None => r.settings.is_initial(),
            },
    {
        let settings: RawaccelConvertSettings = match stored {
            Some(settings) => settings,
            None => RawaccelConvertSettings::default(),
        };
        RawaccelConvertGui {
            settings,
            accel_args: AccelArgs::default(),
            export_accel_args_cache: AccelArgs::default(),
            points: String::new(),
            libinput_steps: String::new(),
            curvegen: CurvegenResult::blank(),
            curvegen_export: CurvegenResult::blank(),
            export_point_scaling: PointScaling::Sens,
        }
    }

    /// Puts the settings and the bundle back to their initial values. What
    /// was sampled and exported stays.
    pub fn reset(&mut self)
        ensures
            final(self).settings.is_initial(),
            final(self).accel_args@ == initial_args(),
            *final(self) == (RawaccelConvertGui {
                settings: final(self).settings,
                accel_args: final(self).accel_args,
                ..*old(self)
            }),
    {
        self.settings = RawaccelConvertSettings::default();
        self.accel_args = AccelArgs::default();
    }

    /// Looks at the text of the resolution. If it spells a whole number of at
    /// least one, the bundle takes it; if not, the bundle keeps what it has.
    /// Says whether the text was in order.
    pub fn add_dpi(&mut self) -> (valid: bool)
        ensures
            valid == accepted_dpi(encode_utf8(old(self).settings.dpi_string@)).is_some(),
            valid ==> final(self).accel_args@ == (AccelArgsView {
                dpi: accepted_dpi(encode_utf8(old(self).settings.dpi_string@)).unwrap(),
                ..old(self).accel_args@
            }),
            !valid ==> final(self).accel_args@ == old(self).accel_args@,
            old(self).accel_args.valid() ==> final(self).accel_args.valid(),
            *final(self) == (RawaccelConvertGui {
                accel_args: final(self).accel_args,
                ..*old(self)
            }),
    {
        match parse_u32(self.settings.dpi_string.as_str()) {
            Some(v) => {
                if v >= MIN_DPI {
                    self.accel_args.dpi = v;
                    true
                } else {
                    false
                }
            },
            None => false,
        }
    }

    /// Takes what the text of a real-number field was read as. A number that
    /// fits its slot is stored; without a number, or with one that does not
    /// fit, the bundle keeps what it has. Says whether the field was in order.
    pub fn add_number(&mut self, slot: Slot, parsed: Option<Scalar>) -> (valid: bool)
        ensures
            valid == (parsed.is_some() && fits_slot(slot, parsed.unwrap())),
            valid ==> final(self).accel_args@ == old(self).accel_args@.with_slot(
                slot,
                parsed.unwrap(),
            ),
            !valid ==> final(self).accel_args@ == old(self).accel_args@,
            old(self).accel_args.valid() ==> final(self).accel_args.valid(),
            *final(self) == (RawaccelConvertGui {
                accel_args: final(self).accel_args,
                ..*old(self)
            }),
    {
        match parsed {
            Some(value) => self.accel_args.set_slot(slot, value),
            None => false,
        }
    }

    /// Fixes what the active family fixes: the linear family is the classic
    /// one with exponent two, so under it the classic exponent is two.
    pub fn settle_mode(&mut self)
        ensures
            final(self).accel_args@ == (if old(self).accel_args.mode == AccelMode::Linear {
                AccelArgsView {
                    exponent_classic: Scalar { bits: TWO_BITS },
                    ..old(self).accel_args@
                }
            } else {
                old(self).accel_args@
            }),
            old(self).accel_args.valid() ==> final(self).accel_args.valid(),
            *final(self) == (RawaccelConvertGui {
                accel_args: final(self).accel_args,
                ..*old(self)
            }),
    {
        match self.accel_args.mode {
            AccelMode::Linear => {
                self.accel_args.exponent_classic = Scalar::from_bits(TWO_BITS);
            },
            _ => {},
        }
    }
}

impl RawaccelConvertGui {
    /// Looks at the text of the point count. Under the libinput scalings the
    /// count is fixed: a text that spells another number is put back to `64`,
    /// and the bundle is left alone. Otherwise a whole number of at least two
    /// enters the bundle. Says whether the text was in order.
    pub fn add_point_count(&mut self) -> (valid: bool)
        ensures
            valid == point_count_in_order(
                encode_utf8(old(self).settings.point_count_string@),
                old(self).export_point_scaling,
            ),
            final(self).accel_args@ == (AccelArgsView {
                point_count: point_count_after(
                    encode_utf8(old(self).settings.point_count_string@),
                    old(self).export_point_scaling,
                    old(self).accel_args.point_count,
                ),
                ..old(self).accel_args@
            }),
            final(self).settings.point_count_string@ == (if point_count_text_is_reset(
                encode_utf8(old(self).settings.point_count_string@),
                old(self).export_point_scaling,
            ) {
                "64"@
            } else {
                old(self).settings.point_count_string@
            }),
            old(self).accel_args.valid() ==> final(self).accel_args.valid(),
            final(self).settings == (RawaccelConvertSettings {
                point_count_string: final(self).settings.point_count_string,
                ..old(self).settings
            }),
            *final(self) == (RawaccelConvertGui {
                settings: final(self).settings,
                accel_args: final(self).accel_args,
                ..*old(self)
            }),
    {
        match parse_u32(self.settings.point_count_string.as_str()) {
            Some(v) => {
                if scaling_is_libinput(self.export_point_scaling) {
                    if v != LIBINPUT_POINT_COUNT {
                        self.settings.point_count_string = String::from_str("64");
                        false
                    } else {
                        true
                    }
                } else if v >= MIN_POINT_COUNT {
                    self.accel_args.point_count = v;
                    true
                } else {
                    false
                }
            },
            None => false,
        }
    }

    /// Splits the text of the lookup table into its entries.
    pub fn lookup_table_entries(&self) -> (r: Option<Vec<LookupEntry>>)
        ensures
            r.is_some() == table_entries(encode_utf8(self.settings.lookup_table_string@)).is_some(),
            r.is_some() ==> r.unwrap().deep_view() == table_entries(
                encode_utf8(self.settings.lookup_table_string@),
            ).unwrap(),
    {
        lookup_entries(self.settings.lookup_table_string.as_str())
    }

    /// Takes what the entries of the lookup table were read as: nothing, if
    /// the text was malformed, and else for each entry a point, or nothing
    /// where a number was malformed. If the readings make up a table, it
    /// becomes the table of the bundle; if not, the bundle keeps the table it
    /// has. Says whether the field was in order.
    pub fn add_lookup_table_box(&mut self, readings: Option<Vec<Option<Point>>>) -> (valid: bool)
        ensures
            valid == (readings.is_some() && table_of(readings.unwrap()@).is_some()),
            valid ==> final(self).accel_args@ == (AccelArgsView {
                lookup_data: table_of(readings.unwrap()@).unwrap(),
                ..old(self).accel_args@
            }),
            !valid ==> final(self).accel_args@ == old(self).accel_args@,
            old(self).accel_args.valid() ==> final(self).accel_args.valid(),
            *final(self) == (RawaccelConvertGui {
                accel_args: final(self).accel_args,
                ..*old(self)
            }),
    {
        match readings {
            Some(readings) => match lookup_table(&readings) {
                Some(table) => {
                    self.accel_args.lookup_data = table;
                    true
                },
                None => false,
            },
            None => false,
        }
    }

    /// Decides whether the shown curve has to be sampled again, and if so
    /// hands out the request for it. Before that the bundle is remembered as
    /// the one sampled, and its optimizer flag is set as the export scaling
    /// wants it.
    pub fn refresh_curve(&mut self, previous_scaling: PointScaling) -> (r: Option<CurveRequest>)
        ensures
            r.is_some() == curve_is_stale(
                previous_scaling,
                old(self).accel_args@,
                old(self).export_accel_args_cache@,
            ),
            r.is_some() ==> {
                &&& final(self).export_accel_args_cache@ == old(self).accel_args@
                &&& final(self).accel_args@ == (AccelArgsView {
                    optimize_curve: !is_libinput(old(self).export_point_scaling),
                    ..old(self).accel_args@
                })
                &&& r.unwrap()@ == request_of(final(self).accel_args@)
            },
            r.is_none() ==> *final(self) == *old(self),
            old(self).accel_args.valid() ==> final(self).accel_args.valid(),
            *final(self) == (RawaccelConvertGui {
                accel_args: final(self).accel_args,
                export_accel_args_cache: final(self).export_accel_args_cache,
                ..*old(self)
            }),
    {
        let unchanged: bool = self.export_accel_args_cache.is_same_as(&self.accel_args);
        if previous_scaling != self.accel_args.point_scaling || !unchanged {
            self.export_accel_args_cache = self.accel_args.duplicate();
            self.accel_args.optimize_curve = optimizes(self.export_point_scaling);
            Some(self.accel_args.request())
        } else {
            None
        }
    }

    /// Takes the curve that was sampled for the last request as the one shown.
    pub fn set_curve(&mut self, curve: CurvegenResult)
        ensures
            *final(self) == (RawaccelConvertGui { curvegen: curve, ..*old(self) }),
    {
        self.curvegen = curve;
    }

    /// The request for an export: the bundle under the export scaling. Under
    /// either libinput scaling it asks for exactly 64 samples.
    pub fn export_request(&self) -> (r: CurveRequest)
        ensures
            r@ == request_of(export_args(self.accel_args@, self.export_point_scaling)),
            is_libinput(self.export_point_scaling) ==> r.point_count == 64,
    {
        let mut args: AccelArgs = self.accel_args.duplicate();
        args.point_scaling = self.export_point_scaling;
        args.request()
    }

    /// Takes the curve that was sampled for an export, with its points and
    /// its grid spacing written out, and writes the export.
    pub fn finish_export(&mut self, curve: CurvegenResult, texts: &Vec<PointText>, step: String)
        ensures
            final(self).points@ == export_text(texts.deep_view(), old(self).export_point_scaling),
            *final(self) == (RawaccelConvertGui {
                points: final(self).points,
                libinput_steps: step,
                curvegen_export: curve,
                ..*old(self)
            }),
    {
        self.curvegen_export = curve;
        self.libinput_steps = step;
        self.points = format_points(texts, self.export_point_scaling);
    }
}

impl Default for RawaccelConvertGui {
    fn default() -> (r: Self)
        ensures
            r.is_initial(),
    {
        RawaccelConvertGui::new(None)
    }
}

/// The texts of an untouched form spell the whole numbers of the initial
/// bundle, and the text that the libinput scalings put back is in order
/// under every scaling.
pub proof fn lemma_initial_texts_are_in_order(settings: RawaccelConvertSettings)
    requires
        settings.is_initial(),
    ensures
        accepted_dpi(encode_utf8(settings.dpi_string@)) == Some(INITIAL_DPI),
        parsed_u32(encode_utf8(settings.point_count_string@)) == Some(INITIAL_POINT_COUNT),
        forall|scaling: PointScaling| #[trigger] point_count_in_order(encode_utf8("64"@), scaling),
{
    reveal_strlit("1200");
    reveal_strlit("64");
    is_ascii_spec_bytes("1200");
    is_ascii_spec_bytes("64");
    let dpi = encode_utf8("1200"@);
    let count = encode_utf8("64"@);
    assert(dpi =~= seq![49u8, 50u8, 48u8, 48u8]);
    assert(count =~= seq![54u8, 52u8]);
    reveal_with_fuel(digits_value, 5);
    assert(dpi.drop_last() =~= seq![49u8, 50u8, 48u8]);
    assert(dpi.drop_last().drop_last() =~= seq![49u8, 50u8]);
    assert(dpi.drop_last().drop_last().drop_last() =~= seq![49u8]);
    assert(count.drop_last() =~= seq![54u8]);
    assert(digits_value(dpi) == 1200);
    assert(digits_value(count) == 64);
}

} // verus!
