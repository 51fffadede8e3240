use vstd::prelude::*;
use crate::utils::{
    be_bytes_to_nat, lemma_be_bytes_bound, pow256, read_sign_magnitude_i16, read_u32_from_bytes,
    sign_magnitude_val,
};

verus! {

/// The fewest bytes a data-representation section must hold for every
/// fixed field of the simple-packing template to lie inside it.
pub const SIMPLE_PACKING_TEMPLATE_LEN: usize = 21;

/// The data-representation template for simple packing: each grid point is
/// a fixed-width unsigned integer, turned into a physical value through a
/// reference value and binary and decimal scale factors. The reference
/// value is exposed as its raw 32-bit pattern; applying it is left to the
/// caller.
pub struct SimplePackingTemplate {
    data: Vec<u8>,
}

impl View for SimplePackingTemplate {
    type V = Seq<u8>;

    closed spec fn view(&self) -> Seq<u8> {
        self.data@
    }
}

impl SimplePackingTemplate {
    /// The view always covers all fixed template fields.
    #[verifier::type_invariant]
    pub open spec fn wf(&self) -> bool {
        self@.len() >= 21
    }

    /// Wraps the bytes of a data-representation section that carries this
    /// template.
    pub fn new(data: Vec<u8>) -> (r: Self)
        requires
            data@.len() >= SIMPLE_PACKING_TEMPLATE_LEN,
        ensures
            r@ == data@,
    {
        SimplePackingTemplate { data }
    }

    /// The bytes this template is a view of.
    pub fn data(&self) -> (r: &[u8])
        ensures
            r@ == self@,
    {
        self.data.as_slice()
    }

    /// The raw 32-bit pattern of the reference value.
    pub fn reference_value_bits(&self) -> (r: u32)
        ensures
            r as nat == be_bytes_to_nat(self@, 11, 4),
    {
        proof {
            use_type_invariant(self);
            lemma_be_bytes_bound(self@, 11, 4);
            assert(pow256(4) == 0x1_0000_0000) by {
                reveal_with_fuel(pow256, 5);
            }
        }
        match read_u32_from_bytes(self.data.as_slice(), 11) {
            Some(v) => v,
            None => 0,
        }
    }

    /// The binary scale factor.
    pub fn binary_scale_factor(&self) -> (r: i16)
        ensures
            r as int == sign_magnitude_val(be_bytes_to_nat(self@, 15, 2), 0x8000),
    {
        proof {
            use_type_invariant(self);
        }
        read_sign_magnitude_i16(self.data.as_slice(), 15)
    }

    /// The decimal scale factor.
    pub fn decimal_scale_factor(&self) -> (r: i16)
        ensures
            r as int == sign_magnitude_val(be_bytes_to_nat(self@, 17, 2), 0x8000),
    {
        proof {
            use_type_invariant(self);
        }
        read_sign_magnitude_i16(self.data.as_slice(), 17)
    }

    /// The width, in bits, of each packed grid-point value.
    pub fn bit_width(&self) -> (r: u8)
        ensures
            r == self@[19],
    {
        proof {
            use_type_invariant(self);
        }
        self.data[19]
    }

    /// The code of the original field type.
    pub fn original_field_type_value(&self) -> (r: u8)
        ensures
            r == self@[20],
    {
        proof {
            use_type_invariant(self);
        }
        self.data[20]
    }
}

} // verus!
