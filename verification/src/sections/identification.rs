use vstd::prelude::*;
use crate::time::DateTime;
use crate::utils::{be_bytes_to_nat, lemma_be_bytes_bound, pow256, read_u16_from_bytes};

verus! {

/// True when `s` is a whole section of the given number: its declared
/// length matches the bytes that are there, its number byte matches, and it
/// is long enough for every fixed field of that section kind.
pub open spec fn section_frame(s: Seq<u8>, number: u8, min: int) -> bool {
    &&& s.len() >= min
    &&& be_bytes_to_nat(s, 0, 4) == s.len()
    &&& s[4] == number
}

/// The reference date read from the identification section's fixed
/// offsets.
pub open spec fn reference_date_of(s: Seq<u8>) -> DateTime {
    DateTime {
        year: be_bytes_to_nat(s, 12, 2) as u16,
        month: s[14],
        day: s[15],
        hour: s[16],
        minute: s[17],
        second: s[18],
    }
}

/// The identification section: originating center, table versions and the
/// reference date of the message.
pub struct IdentificationSection {
    data: Vec<u8>,
}

impl View for IdentificationSection {
    type V = Seq<u8>;

    closed spec fn view(&self) -> Seq<u8> {
        self.data@
    }
}

impl IdentificationSection {
    /// The section is always a whole, well-framed section of its kind.
    #[verifier::type_invariant]
    pub open spec fn wf(&self) -> bool {
        section_frame(self@, 1, 21)
    }

    /// Wraps the bytes of one whole identification section.
    pub fn from_data(data: Vec<u8>) -> (r: Self)
        requires
            section_frame(data@, 1, 21),
        ensures
            r@ == data@,
    {
        IdentificationSection { data }
    }

    /// The bytes this section is a view of.
    pub fn data(&self) -> (r: &[u8])
        ensures
            r@ == self@,
    {
        self.data.as_slice()
    }

    /// The section number of an identification section.
    pub fn number(&self) -> (r: u8)
        ensures
            r == 1,
    {
        1
    }

    /// The reference date at its fixed offsets.
    pub fn reference_date(&self) -> (r: DateTime)
        ensures
            r == reference_date_of(self@),
    {
        proof {
            use_type_invariant(self);
            lemma_be_bytes_bound(self@, 12, 2);
            assert(pow256(2) == 0x1_0000) by {
                reveal_with_fuel(pow256, 3);
            }
        }
        let year: u16 = match read_u16_from_bytes(self.data.as_slice(), 12) {
            Some(v) => v,
            None => 0,
        };
        DateTime {
            year,
            month: self.data[14],
            day: self.data[15],
            hour: self.data[16],
            minute: self.data[17],
            second: self.data[18],
        }
    }
}

} // verus!
