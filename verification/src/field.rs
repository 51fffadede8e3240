use vstd::prelude::*;
use crate::error::GribError;
use crate::message::Message;
use crate::sections::identification::reference_date_of;
use crate::sections::indicator::{discipline_code, discipline_of, Discipline};
use crate::sections::product_definition::ProductTemplate;
use crate::sections::section::{find_first_section, find_section, Section};
use crate::templates::product::{parameter_entry_for, time_unit_of, time_unit_seconds};
use crate::time::{civil_shifted, DateTime};
use crate::utils::{be_bytes_to_nat, sign_magnitude_val};

verus! {

/// A validated snapshot of one message's variable: its discipline, its
/// reference and forecast dates, and the identity of the physical quantity
/// it carries. A field owns what it holds and outlives the buffer it was
/// read from.
#[derive(Clone, Copy, Debug)]
pub struct Field {
    pub discipline: Discipline,
    pub reference_date: DateTime,
    pub forecast_date: DateTime,
    pub variable: &'static str,
    pub variable_abbreviation: &'static str,
    pub units: &'static str,
    pub array_index: Option<usize>,
}

/// What a field is built from: the discipline code the indicator re-encodes
/// to, the first identification section's bytes, and the first
/// product-definition section's bytes; nothing when one of the three
/// sections is absent.
pub open spec fn field_source(ss: Seq<Section>) -> Option<(u8, Seq<u8>, Seq<u8>)> {
    if ss.len() == 0 || !(ss[0] is Indicator) {
        None
    } else {
        match (find_section(ss, 1), find_section(ss, 4)) {
            (Some(idi), Some(pdi)) => Some(
                (
                    discipline_code(discipline_of(ss[0].bytes()[6])),
                    ss[idi].bytes(),
                    ss[pdi].bytes(),
                ),
            ),
            _ => None,
        }
    }
}

/// The forecast date a product-definition section yields for a reference
/// date: the reference shifted by the forecast offset, or nothing when the
/// time-unit code is unmapped or the shift leaves the calendar range.
pub open spec fn forecast_date_of(pd: Seq<u8>, reference: DateTime) -> Option<DateTime> {
    match time_unit_of(pd[17]) {
        Some(u) => civil_shifted(
            reference,
            (time_unit_seconds(u) * be_bytes_to_nat(pd, 18, 4)) as u64,
        ),
        None => None,
    }
}

/// When building a field succeeds: the three sections are present, the
/// product template is the supported one and whole, the parameter pair is
/// mapped, and the forecast date is computable.
pub open spec fn field_buildable(ss: Seq<Section>) -> bool {
    match field_source(ss) {
        None => false,
        Some((d, id, pd)) => {
            &&& be_bytes_to_nat(pd, 7, 2) == 0
            &&& pd.len() >= 34
            &&& parameter_entry_for(d, pd[9], pd[10]) is Some
            &&& forecast_date_of(pd, reference_date_of(id)) is Some
        },
    }
}

/// What a successfully built field holds, read off the source sections.
pub open spec fn field_matches(ss: Seq<Section>, f: Field) -> bool {
    match field_source(ss) {
        None => false,
        Some((d, id, pd)) => {
            &&& f.discipline == discipline_of(ss[0].bytes()[6])
            &&& f.reference_date == reference_date_of(id)
            &&& Some(f.forecast_date) == forecast_date_of(pd, reference_date_of(id))
            &&& parameter_entry_for(d, pd[9], pd[10]) == Some(
                (f.variable@, f.variable_abbreviation@, f.units@),
            )
            &&& f.array_index == (if pd[22] == 241 && sign_magnitude_val(
                be_bytes_to_nat(pd, 24, 4),
                0x8000_0000,
            ) >= 0 {
                Some(sign_magnitude_val(be_bytes_to_nat(pd, 24, 4), 0x8000_0000) as usize)
            } else {
                None::<usize>
            })
        },
    }
}

impl Field {
    /// Builds a field from a parsed message: locates the indicator,
    /// identification and product-definition sections, decodes the product
    /// template, looks up the parameter record, and computes the forecast
    /// date. Any section missing, a template other than the supported
    /// horizontal analysis or forecast kind, or an unmapped parameter is a
    /// descriptive failure, never a partially populated field.
    pub fn try_from(message: Message) -> (r: Result<Field, GribError>)
        ensures
            r is Ok <==> field_buildable(message.sections@),
            r matches Ok(f) ==> field_matches(message.sections@, f),
    {
        if message.sections.len() == 0 {
            return Err(GribError::MissingSection("indicator"));
        }
        let discipline = match &message.sections[0] {
            Section::Indicator(ind) => ind.discipline(),
            _ => {
                return Err(GribError::MissingSection("indicator"));
            },
        };
        let idi = match find_first_section(&message.sections, 1) {
            Some(i) => i,
            None => {
                return Err(GribError::MissingSection("identification"));
            },
        };
        let pdi = match find_first_section(&message.sections, 4) {
            Some(i) => i,
            None => {
                return Err(GribError::MissingSection("product definition"));
            },
        };
        let reference_date = match &message.sections[idi] {
            Section::Identification(sec) => sec.reference_date(),
            _ => {
                proof {
                    assert(false);
                }
                return Err(GribError::MissingSection("identification"));
            },
        };
        let template = match &message.sections[pdi] {
            Section::ProductDefinition(sec) => sec.product_definition_template(discipline.code()),
            _ => {
                proof {
                    assert(false);
                }
                return Err(GribError::MissingSection("product definition"));
            },
        };
        let template = match template {
            Ok(ProductTemplate::HorizontalAnalysisForecast(t)) => t,
            Err(e) => {
                return Err(e);
            },
        };
        let parameter = match template.parameter() {
            Some(p) => p,
            None => {
                return Err(
                    GribError::UnmappedParameter(
                        template.category_value(),
                        template.parameter_value(),
                    ),
                );
            },
        };
        let forecast_date = match template.forecast_datetime(reference_date) {
            Some(d) => d,
            None => {
                return Err(GribError::Malformed(0, "forecast date outside the calendar range"));
            },
        };
        let array_index = template.array_index();
        Ok(
            Field {
                discipline,
                reference_date,
                forecast_date,
                variable: parameter.name,
                variable_abbreviation: parameter.abbreviation,
                units: parameter.unit,
                array_index,
            },
        )
    }
}

} // verus!
