use vstd::prelude::*;
use crate::scaled::{scale_value, ScaledValue, SCALED_VALUE_MISSING, SCALE_FACTOR_MISSING};
use crate::templates::product::{
    category_name_for, fixed_surface_type_of, generating_process_of, meteorological_category,
    meteorological_parameter, oceanographic_category, oceanographic_parameter,
    parameter_entry_for, time_unit_of, time_unit_seconds, FixedSurfaceTypes, GeneratingProcess,
    Parameter, TimeUnit, ORDERED_SEQUENCE_SURFACE_CODE,
};
use crate::time::{civil_shifted, shift_civil, DateTime};
use crate::utils::{
    be_bytes_to_nat, lemma_be_bytes_bound, pow256, read_sign_magnitude_i32, read_u16_from_bytes,
    read_u32_from_bytes, sign_magnitude_val, to_signed_i8,
};

verus! {

/// The fewest bytes a product-definition section must hold for every fixed
/// field of the horizontal analysis or forecast template to lie inside it.
pub const HORIZONTAL_ANALYSIS_TEMPLATE_LEN: usize = 34;

/// The product-definition template for an analysis or forecast at a
/// horizontal level or layer at a point in time: a view of the
/// product-definition section's bytes together with the message's
/// discipline, which selects the parameter table.
pub struct HorizontalAnalysisForecastTemplate {
    data: Vec<u8>,
    discipline: u8,
}

impl View for HorizontalAnalysisForecastTemplate {
    type V = Seq<u8>;

    closed spec fn view(&self) -> Seq<u8> {
        self.data@
    }
}

/// The signed scaled value of a fixed-surface descriptor, after the two
/// missing-value sentinels are honored.
pub open spec fn fixed_surface_value_of(factor: int, value: int) -> Option<ScaledValue> {
    if value == SCALED_VALUE_MISSING {
        None
    } else {
        Some(
            ScaledValue {
                value: value as i32,
                factor: (if factor == SCALE_FACTOR_MISSING as int {
                    0int
                } else {
                    factor
                }) as i32,
            },
        )
    }
}

impl HorizontalAnalysisForecastTemplate {
    /// The view always covers all fixed template fields.
    #[verifier::type_invariant]
    pub open spec fn wf(&self) -> bool {
        self@.len() >= 34
    }

    /// The discipline this template was read under.
    pub closed spec fn spec_discipline(&self) -> u8 {
        self.discipline
    }

    /// Wraps the bytes of a product-definition section that carries this
    /// template, together with the discipline from the indicator section.
    pub fn new(data: Vec<u8>, discipline: u8) -> (r: Self)
        requires
            data@.len() >= HORIZONTAL_ANALYSIS_TEMPLATE_LEN,
        ensures
            r@ == data@,
            r.spec_discipline() == discipline,
    {
        HorizontalAnalysisForecastTemplate { data, discipline }
    }

    /// The bytes this template is a view of.
    pub fn data(&self) -> (r: &[u8])
        ensures
            r@ == self@,
    {
        self.data.as_slice()
    }

    /// The discipline code this template was read under.
    pub fn discipline_value(&self) -> (r: u8)
        ensures
            r == self.spec_discipline(),
    {
        self.discipline
    }

    /// The parameter-category code at its fixed offset.
    pub fn category_value(&self) -> (r: u8)
        ensures
            r == self@[9],
    {
        proof {
            use_type_invariant(self);
        }
        self.data[9]
    }

    /// The parameter code at its fixed offset.
    pub fn parameter_value(&self) -> (r: u8)
        ensures
            r == self@[10],
    {
        proof {
            use_type_invariant(self);
        }
        self.data[10]
    }

    /// The name of this template's parameter category under the template's
    /// discipline; empty when no table covers it.
    pub fn category(&self) -> (r: &'static str)
        ensures
            r@ == category_name_for(self.spec_discipline(), self@[9]),
    {
        let category = self.category_value();
        if self.discipline == 0 {
            meteorological_category(category)
        } else if self.discipline == 10 {
            oceanographic_category(category)
        } else {
            ""
        }
    }

    /// Looks up the parameter record for this template's discipline,
    /// category and parameter codes; nothing when the pair is unmapped.
    pub fn parameter(&self) -> (r: Option<Parameter>)
        ensures
            r is Some <==> parameter_entry_for(self.spec_discipline(), self@[9], self@[10])
                is Some,
            r matches Some(p) ==> parameter_entry_for(self.spec_discipline(), self@[9], self@[10])
                == Some(p.entry()),
    {
        let category = self.category_value();
        let parameter = self.parameter_value();
        if self.discipline == 0 {
            meteorological_parameter(category, parameter)
        } else if self.discipline == 10 {
            oceanographic_parameter(category, parameter)
        } else {
            None
        }
    }

    /// The generating-process code at its fixed offset, decoded.
    pub fn generating_process(&self) -> (r: Option<GeneratingProcess>)
        ensures
            r == generating_process_of(self@[12]),
    {
        proof {
            use_type_invariant(self);
        }
        GeneratingProcess::from_value(self.data[12])
    }

    /// The observation cutoff, in hours after the reference time.
    pub fn observation_cutoff_hours_after_reference_time(&self) -> (r: u16)
        ensures
            r as nat == be_bytes_to_nat(self@, 14, 2),
    {
        proof {
            use_type_invariant(self);
            lemma_be_bytes_bound(self@, 14, 2);
            assert(pow256(2) == 0x1_0000) by {
                reveal_with_fuel(pow256, 3);
            }
        }
        match read_u16_from_bytes(self.data.as_slice(), 14) {
            Some(v) => v,
            None => 0,
        }
    }

    /// The observation cutoff, in minutes after the cutoff hour.
    pub fn observation_cutoff_minutes_after_cutoff_time(&self) -> (r: u8)
        ensures
            r == self@[16],
    {
        proof {
            use_type_invariant(self);
        }
        self.data[16]
    }

    /// The time-unit code at its fixed offset, decoded.
    pub fn time_unit(&self) -> (r: Option<TimeUnit>)
        ensures
            r == time_unit_of(self@[17]),
    {
        proof {
            use_type_invariant(self);
        }
        TimeUnit::from_value(self.data[17])
    }

    /// The forecast offset, as a count of time-unit steps.
    pub fn forecast_time(&self) -> (r: u32)
        ensures
            r as nat == be_bytes_to_nat(self@, 18, 4),
    {
        proof {
            use_type_invariant(self);
            lemma_be_bytes_bound(self@, 18, 4);
            assert(pow256(4) == 0x1_0000_0000) by {
                reveal_with_fuel(pow256, 5);
            }
        }
        match read_u32_from_bytes(self.data.as_slice(), 18) {
            Some(v) => v,
            None => 0,
        }
    }

    /// The forecast offset in seconds: the step count times the length of
    /// one step; nothing when the time-unit code is unmapped.
    pub fn forecast_offset_seconds(&self) -> (r: Option<u64>)
        ensures
            r == (match time_unit_of(self@[17]) {
                Some(u) => Some((time_unit_seconds(u) * be_bytes_to_nat(self@, 18, 4)) as u64),
                None => None::<u64>,
            }),
    {
        proof {
            lemma_be_bytes_bound(self@, 18, 4);
            assert(pow256(4) == 0x1_0000_0000) by {
                reveal_with_fuel(pow256, 5);
            }
        }
        match self.time_unit() {
            Some(u) => {
                let unit_seconds = u.seconds();
                let steps = self.forecast_time() as u64;
                assert(unit_seconds * steps <= 3153600000 * 0xffff_ffffu64) by (nonlinear_arith)
                    requires
                        unit_seconds <= 3153600000,
                        steps <= 0xffff_ffffu64,
                ;
                Some(unit_seconds * steps)
            },
            None => None,
        }
    }

    /// The forecast date: the reference date shifted forward by the
    /// forecast offset; nothing when the time-unit code is unmapped, the
    /// reference date is not a real instant, or the shift leaves the
    /// calendar range.
    pub fn forecast_datetime(&self, reference_date: DateTime) -> (r: Option<DateTime>)
        ensures
            r == (match time_unit_of(self@[17]) {
                Some(u) => civil_shifted(
                    reference_date,
                    (time_unit_seconds(u) * be_bytes_to_nat(self@, 18, 4)) as u64,
                ),
                None => None::<DateTime>,
            }),
    {
        match self.forecast_offset_seconds() {
            Some(secs) => shift_civil(reference_date, secs),
            None => None,
        }
    }

    /// The first fixed-surface type code, decoded.
    pub fn first_fixed_surface_type(&self) -> (r: Option<FixedSurfaceTypes>)
        ensures
            r == fixed_surface_type_of(self@[22]),
    {
        proof {
            use_type_invariant(self);
        }
        FixedSurfaceTypes::from_value(self.data[22])
    }

    /// The scale factor of the first fixed surface.
    pub fn first_fixed_surface_scale_factor(&self) -> (r: i8)
        ensures
            r as int == sign_magnitude_val(self@[23] as nat, 0x80),
    {
        proof {
            use_type_invariant(self);
        }
        to_signed_i8(self.data[23])
    }

    /// The scaled value of the first fixed surface.
    pub fn first_fixed_surface_scaled_value(&self) -> (r: i32)
        ensures
            r as int == sign_magnitude_val(be_bytes_to_nat(self@, 24, 4), 0x8000_0000),
    {
        proof {
            use_type_invariant(self);
        }
        read_sign_magnitude_i32(self.data.as_slice(), 24)
    }

    /// The decoded value of the first fixed surface, with both
    /// missing-value sentinels honored.
    pub fn first_fixed_surface_value(&self) -> (r: Option<ScaledValue>)
        ensures
            r == fixed_surface_value_of(
                sign_magnitude_val(self@[23] as nat, 0x80),
                sign_magnitude_val(be_bytes_to_nat(self@, 24, 4), 0x8000_0000),
            ),
    {
        scale_value(self.first_fixed_surface_scale_factor(), self.first_fixed_surface_scaled_value())
    }

    /// The second fixed-surface type code, decoded.
    pub fn second_fixed_surface_type(&self) -> (r: Option<FixedSurfaceTypes>)
        ensures
            r == fixed_surface_type_of(self@[28]),
    {
        proof {
            use_type_invariant(self);
        }
        FixedSurfaceTypes::from_value(self.data[28])
    }

    /// The scale factor of the second fixed surface.
    pub fn second_fixed_surface_scale_factor(&self) -> (r: i8)
        ensures
            r as int == sign_magnitude_val(self@[29] as nat, 0x80),
    {
        proof {
            use_type_invariant(self);
        }
        to_signed_i8(self.data[29])
    }

    /// The scaled value of the second fixed surface.
    pub fn second_fixed_surface_scaled_value(&self) -> (r: i32)
        ensures
            r as int == sign_magnitude_val(be_bytes_to_nat(self@, 30, 4), 0x8000_0000),
    {
        proof {
            use_type_invariant(self);
        }
        read_sign_magnitude_i32(self.data.as_slice(), 30)
    }

    /// The decoded value of the second fixed surface, with both
    /// missing-value sentinels honored.
    pub fn second_fixed_surface_value(&self) -> (r: Option<ScaledValue>)
        ensures
            r == fixed_surface_value_of(
                sign_magnitude_val(self@[29] as nat, 0x80),
                sign_magnitude_val(be_bytes_to_nat(self@, 30, 4), 0x8000_0000),
            ),
    {
        scale_value(
            self.second_fixed_surface_scale_factor(),
            self.second_fixed_surface_scaled_value(),
        )
    }

    /// The array index into a set of companion messages: present exactly
    /// when the first fixed surface is the ordered-sequence type and its
    /// scaled value is a usable index.
    pub fn array_index(&self) -> (r: Option<usize>)
        ensures
            self@[22] == 241 && sign_magnitude_val(be_bytes_to_nat(self@, 24, 4), 0x8000_0000)
                >= 0 ==> r == Some(
                sign_magnitude_val(be_bytes_to_nat(self@, 24, 4), 0x8000_0000) as usize,
            ),
            self@[22] != 241 || sign_magnitude_val(be_bytes_to_nat(self@, 24, 4), 0x8000_0000)
                < 0 ==> r is None,
    {
        proof {
            use_type_invariant(self);
        }
        if self.data[22] == ORDERED_SEQUENCE_SURFACE_CODE {
            let value = self.first_fixed_surface_scaled_value();
            if value >= 0 {
                Some(value as usize)
            } else {
                None
            }
        } else {
            None
        }
    }
}

} // verus!
