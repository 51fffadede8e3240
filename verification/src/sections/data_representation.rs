use vstd::prelude::*;
use vstd::slice::slice_to_vec;
use crate::error::GribError;
use crate::sections::identification::section_frame;
use crate::templates::simple_packing_template::{SimplePackingTemplate, SIMPLE_PACKING_TEMPLATE_LEN};
use crate::utils::{be_bytes_to_nat, lemma_be_bytes_bound, pow256, read_u16_from_bytes, read_u32_from_bytes};

verus! {

/// A decoded data-representation template: one variant per registered
/// template number.
pub enum DataRepresentationTemplate {
    SimplePacking(SimplePackingTemplate),
}

impl DataRepresentationTemplate {
    /// The bytes the decoded template is a view of.
    pub open spec fn bytes(&self) -> Seq<u8> {
        match self {
            DataRepresentationTemplate::SimplePacking(t) => t@,
        }
    }
}

/// The data-representation section: how the data section's packed values
/// are turned back into physical values.
pub struct DataRepresentationSection {
    data: Vec<u8>,
}

impl View for DataRepresentationSection {
    type V = Seq<u8>;

    closed spec fn view(&self) -> Seq<u8> {
        self.data@
    }
}

impl DataRepresentationSection {
    /// The section is always a whole, well-framed section of its kind.
    #[verifier::type_invariant]
    pub open spec fn wf(&self) -> bool {
        section_frame(self@, 5, 11)
    }

    /// Wraps the bytes of one whole data-representation section.
    pub fn from_data(data: Vec<u8>) -> (r: Self)
        requires
            section_frame(data@, 5, 11),
        ensures
            r@ == data@,
    {
        DataRepresentationSection { data }
    }

    /// The bytes this section is a view of.
    pub fn data(&self) -> (r: &[u8])
        ensures
            r@ == self@,
    {
        self.data.as_slice()
    }

    /// The section number of a data-representation section.
    pub fn number(&self) -> (r: u8)
        ensures
            r == 5,
    {
        5
    }

    /// The declared number of packed data points.
    pub fn data_point_count(&self) -> (r: u32)
        ensures
            r as nat == be_bytes_to_nat(self@, 5, 4),
    {
        proof {
            use_type_invariant(self);
            lemma_be_bytes_bound(self@, 5, 4);
            assert(pow256(4) == 0x1_0000_0000) by {
                reveal_with_fuel(pow256, 5);
            }
        }
        match read_u32_from_bytes(self.data.as_slice(), 5) {
            Some(v) => v,
            None => 0,
        }
    }

    /// The data-representation template number.
    pub fn data_representation_template_number(&self) -> (r: u16)
        ensures
            r as nat == be_bytes_to_nat(self@, 9, 2),
    {
        proof {
            use_type_invariant(self);
            lemma_be_bytes_bound(self@, 9, 2);
            assert(pow256(2) == 0x1_0000) by {
                reveal_with_fuel(pow256, 3);
            }
        }
        match read_u16_from_bytes(self.data.as_slice(), 9) {
            Some(v) => v,
            None => 0,
        }
    }

    /// Decodes the section's template: a registered template number yields
    /// its decoder over this section's bytes, an unregistered one is an
    /// explicit failure, and a section too short for its own template is a
    /// structural failure.
    pub fn data_representation_template(&self) -> (r: Result<
        DataRepresentationTemplate,
        GribError,
    >)
        ensures
            be_bytes_to_nat(self@, 9, 2) == 0 && self@.len() >= 21 ==> (r matches Ok(t) && t.bytes()
                == self@),
            be_bytes_to_nat(self@, 9, 2) == 0 && self@.len() < 21 ==> (r matches Err(e)
                && e matches GribError::Malformed(_, _)),
            be_bytes_to_nat(self@, 9, 2) != 0 ==> (r matches Err(e)
                && e matches GribError::UnsupportedTemplate(k, n) && k == 5 && n as nat
                == be_bytes_to_nat(self@, 9, 2)),
    {
        let number = self.data_representation_template_number();
        if number == 0 {
            if self.data.len() >= SIMPLE_PACKING_TEMPLATE_LEN {
                let bytes = slice_to_vec(self.data.as_slice());
                Ok(DataRepresentationTemplate::SimplePacking(SimplePackingTemplate::new(bytes)))
            } else {
                Err(
                    GribError::Malformed(
                        0,
                        "data representation section too short for its template",
                    ),
                )
            }
        } else {
            Err(GribError::UnsupportedTemplate(5, number))
        }
    }
}

} // verus!
