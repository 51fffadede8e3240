use vstd::prelude::*;
use vstd::slice::slice_to_vec;
use crate::error::GribError;
use crate::sections::identification::section_frame;
use crate::templates::horizontal_analysis_template::{HorizontalAnalysisForecastTemplate, HORIZONTAL_ANALYSIS_TEMPLATE_LEN};
use crate::utils::{be_bytes_to_nat, lemma_be_bytes_bound, pow256, read_u16_from_bytes};

verus! {

/// A decoded product-definition template: one variant per registered
/// template number.
pub enum ProductTemplate {
    HorizontalAnalysisForecast(HorizontalAnalysisForecastTemplate),
}

impl ProductTemplate {
    /// The bytes the decoded template is a view of.
    pub open spec fn bytes(&self) -> Seq<u8> {
        match self {
            ProductTemplate::HorizontalAnalysisForecast(t) => t@,
        }
    }

    /// The discipline the decoded template was read under.
    pub open spec fn spec_discipline(&self) -> u8 {
        match self {
            ProductTemplate::HorizontalAnalysisForecast(t) => t.spec_discipline(),
        }
    }
}

/// The product-definition section: which physical quantity the message
/// carries, at which surface, and for which forecast time.
pub struct ProductDefinitionSection {
    data: Vec<u8>,
}

impl View for ProductDefinitionSection {
    type V = Seq<u8>;

    closed spec fn view(&self) -> Seq<u8> {
        self.data@
    }
}

impl ProductDefinitionSection {
    /// The section is always a whole, well-framed section of its kind.
    #[verifier::type_invariant]
    pub open spec fn wf(&self) -> bool {
        section_frame(self@, 4, 9)
    }

    /// Wraps the bytes of one whole product-definition section.
    pub fn from_data(data: Vec<u8>) -> (r: Self)
        requires
            section_frame(data@, 4, 9),
        ensures
            r@ == data@,
    {
        ProductDefinitionSection { data }
    }

    /// The bytes this section is a view of.
    pub fn data(&self) -> (r: &[u8])
        ensures
            r@ == self@,
    {
        self.data.as_slice()
    }

    /// The section number of a product-definition section.
    pub fn number(&self) -> (r: u8)
        ensures
            r == 4,
    {
        4
    }

    /// The product-definition template number.
    pub fn product_definition_template_number(&self) -> (r: u16)
        ensures
            r as nat == be_bytes_to_nat(self@, 7, 2),
    {
        proof {
            use_type_invariant(self);
            lemma_be_bytes_bound(self@, 7, 2);
            assert(pow256(2) == 0x1_0000) by {
                reveal_with_fuel(pow256, 3);
            }
        }
        match read_u16_from_bytes(self.data.as_slice(), 7) {
            Some(v) => v,
            None => 0,
        }
    }

    /// Decodes the section's template under the given discipline: a
    /// registered template number yields its decoder over this section's
    /// bytes, an unregistered one is an explicit failure, and a section too
    /// short for its own template is a structural failure.
    pub fn product_definition_template(&self, discipline: u8) -> (r: Result<
        ProductTemplate,
        GribError,
    >)
        ensures
            be_bytes_to_nat(self@, 7, 2) == 0 && self@.len() >= 34 ==> (r matches Ok(t) && t.bytes()
                == self@ && t.spec_discipline() == discipline),
            be_bytes_to_nat(self@, 7, 2) == 0 && self@.len() < 34 ==> (r matches Err(e)
                && e matches GribError::Malformed(_, _)),
            be_bytes_to_nat(self@, 7, 2) != 0 ==> (r matches Err(e)
                && e matches GribError::UnsupportedTemplate(k, n) && k == 4 && n as nat
                == be_bytes_to_nat(self@, 7, 2)),
    {
        let number = self.product_definition_template_number();
        if number == 0 {
            if self.data.len() >= HORIZONTAL_ANALYSIS_TEMPLATE_LEN {
                let bytes = slice_to_vec(self.data.as_slice());
                Ok(
                    ProductTemplate::HorizontalAnalysisForecast(
                        HorizontalAnalysisForecastTemplate::new(bytes, discipline),
                    ),
                )
            } else {
                Err(
                    GribError::Malformed(
                        0,
                        "product definition section too short for its template",
                    ),
                )
            }
        } else {
            Err(GribError::UnsupportedTemplate(4, number))
        }
    }
}

} // verus!
