use vstd::prelude::*;
use vstd::slice::slice_to_vec;
use crate::error::GribError;
use crate::sections::identification::section_frame;
use crate::templates::lambert_conformal_template::{LambertConformalTemplate, LAMBERT_CONFORMAL_TEMPLATE_LEN};
use crate::templates::latlon_template::{LatLonGridTemplate, LATLON_GRID_TEMPLATE_LEN};
use crate::utils::{be_bytes_to_nat, lemma_be_bytes_bound, pow256, read_u16_from_bytes, read_u32_from_bytes};

verus! {

/// A decoded grid-definition template: one variant per registered
/// template number.
pub enum GridDefinitionTemplate {
    LatLon(LatLonGridTemplate),
    LambertConformal(LambertConformalTemplate),
}

impl GridDefinitionTemplate {
    /// The bytes the decoded template is a view of.
    pub open spec fn bytes(&self) -> Seq<u8> {
        match self {
            GridDefinitionTemplate::LatLon(t) => t@,
            GridDefinitionTemplate::LambertConformal(t) => t@,
        }
    }
}

/// The grid-definition section: the grid's shape and the template that
/// maps grid indices to geographic coordinates.
pub struct GridDefinitionSection {
    data: Vec<u8>,
}

impl View for GridDefinitionSection {
    type V = Seq<u8>;

    closed spec fn view(&self) -> Seq<u8> {
        self.data@
    }
}

impl GridDefinitionSection {
    /// The section is always a whole, well-framed section of its kind.
    #[verifier::type_invariant]
    pub open spec fn wf(&self) -> bool {
        section_frame(self@, 3, 14)
    }

    /// Wraps the bytes of one whole grid-definition section.
    pub fn from_data(data: Vec<u8>) -> (r: Self)
        requires
            section_frame(data@, 3, 14),
        ensures
            r@ == data@,
    {
        GridDefinitionSection { data }
    }

    /// The bytes this section is a view of.
    pub fn data(&self) -> (r: &[u8])
        ensures
            r@ == self@,
    {
        self.data.as_slice()
    }

    /// The section number of a grid-definition section.
    pub fn number(&self) -> (r: u8)
        ensures
            r == 3,
    {
        3
    }

    /// The declared number of data points in the grid.
    pub fn data_point_count(&self) -> (r: u32)
        ensures
            r as nat == be_bytes_to_nat(self@, 6, 4),
    {
        proof {
            use_type_invariant(self);
            lemma_be_bytes_bound(self@, 6, 4);
            assert(pow256(4) == 0x1_0000_0000) by {
                reveal_with_fuel(pow256, 5);
            }
        }
        match read_u32_from_bytes(self.data.as_slice(), 6) {
            Some(v) => v,
            None => 0,
        }
    }

    /// The grid-definition template number.
    pub fn grid_definition_template_number(&self) -> (r: u16)
        ensures
            r as nat == be_bytes_to_nat(self@, 12, 2),
    {
        proof {
            use_type_invariant(self);
            lemma_be_bytes_bound(self@, 12, 2);
            assert(pow256(2) == 0x1_0000) by {
                reveal_with_fuel(pow256, 3);
            }
        }
        match read_u16_from_bytes(self.data.as_slice(), 12) {
            Some(v) => v,
            None => 0,
        }
    }

    /// Decodes the section's template: a registered template number yields
    /// its decoder over this section's bytes, an unregistered one is an
    /// explicit failure, never a default geometry, and a section too short
    /// for its own template is a structural failure.
    pub fn grid_definition_template(&self) -> (r: Result<GridDefinitionTemplate, GribError>)
        ensures
            be_bytes_to_nat(self@, 12, 2) == 0 && self@.len() >= 72 ==> (r matches Ok(t)
                && t matches GridDefinitionTemplate::LatLon(_) && t.bytes() == self@),
            be_bytes_to_nat(self@, 12, 2) == 30 && self@.len() >= 81 ==> (r matches Ok(t)
                && t matches GridDefinitionTemplate::LambertConformal(_) && t.bytes() == self@),
            be_bytes_to_nat(self@, 12, 2) == 0 && self@.len() < 72 ==> (r matches Err(e)
                && e matches GribError::Malformed(_, _)),
            be_bytes_to_nat(self@, 12, 2) == 30 && self@.len() < 81 ==> (r matches Err(e)
                && e matches GribError::Malformed(_, _)),
            be_bytes_to_nat(self@, 12, 2) != 0 && be_bytes_to_nat(self@, 12, 2) != 30 ==> (
            r matches Err(e) && e matches GribError::UnsupportedTemplate(k, n) && k == 3 && n as nat
                == be_bytes_to_nat(self@, 12, 2)),
    {
        let number = self.grid_definition_template_number();
        if number == 0 {
            if self.data.len() >= LATLON_GRID_TEMPLATE_LEN {
                let bytes = slice_to_vec(self.data.as_slice());
                Ok(GridDefinitionTemplate::LatLon(LatLonGridTemplate::new(bytes)))
            } else {
                Err(GribError::Malformed(0, "grid definition section too short for its template"))
            }
        } else if number == 30 {
            if self.data.len() >= LAMBERT_CONFORMAL_TEMPLATE_LEN {
                let bytes = slice_to_vec(self.data.as_slice());
                Ok(GridDefinitionTemplate::LambertConformal(LambertConformalTemplate::new(bytes)))
            } else {
                Err(GribError::Malformed(0, "grid definition section too short for its template"))
            }
        } else {
            Err(GribError::UnsupportedTemplate(3, number))
        }
    }
}

} // verus!
