use vstd::prelude::*;
use vstd::slice::{slice_subrange, slice_to_vec};
use crate::utils::be_bytes_to_nat;
use crate::utils::read_u64_from_bytes;

verus! {

/// Top-level subject area of a message, read from the indicator section.
#[derive(PartialEq, Eq, Structural, Clone, Copy, Debug)]
pub enum Discipline {
    Meteorological,
    Hydrological,
    LandSurface,
    Space,
    Oceanographic,
    Missing,
}

/// The discipline denoted by a code byte; codes outside the table are
/// treated as missing.
pub open spec fn discipline_of(code: u8) -> Discipline {
    if code == 0 {
        Discipline::Meteorological
    } else if code == 1 {
        Discipline::Hydrological
    } else if code == 2 {
        Discipline::LandSurface
    } else if code == 3 {
        Discipline::Space
    } else if code == 10 {
        Discipline::Oceanographic
    } else {
        Discipline::Missing
    }
}

/// The code byte that denotes each discipline.
pub open spec fn discipline_code(d: Discipline) -> u8 {
    match d {
        Discipline::Meteorological => 0,
        Discipline::Hydrological => 1,
        Discipline::LandSurface => 2,
        Discipline::Space => 3,
        Discipline::Oceanographic => 10,
        Discipline::Missing => 255,
    }
}

impl Discipline {
    /// Decodes a discipline code byte.
    pub fn from_value(code: u8) -> (r: Discipline)
        ensures
            r == discipline_of(code),
    {
        if code == 0 {
            Discipline::Meteorological
        } else if code == 1 {
            Discipline::Hydrological
        } else if code == 2 {
            Discipline::LandSurface
        } else if code == 3 {
            Discipline::Space
        } else if code == 10 {
            Discipline::Oceanographic
        } else {
            Discipline::Missing
        }
    }

    /// The code byte that denotes this discipline.
    pub fn code(&self) -> (r: u8)
        ensures
            r == discipline_code(*self),
            discipline_of(r) == *self,
    {
        match self {
            Discipline::Meteorological => 0,
            Discipline::Hydrological => 1,
            Discipline::LandSurface => 2,
            Discipline::Space => 3,
            Discipline::Oceanographic => 10,
            Discipline::Missing => 255,
        }
    }

    /// A human-readable name for the discipline.
    pub fn description(&self) -> &'static str {
        match self {
            Discipline::Meteorological => "meteorological",
            Discipline::Hydrological => "hydrological",
            Discipline::LandSurface => "land surface",
            Discipline::Space => "space",
            Discipline::Oceanographic => "oceanographic",
            Discipline::Missing => "missing",
        }
    }
}

/// True when the first four bytes hold the magic marker that every message
/// must begin with.
pub open spec fn indicator_valid(s: Seq<u8>) -> bool {
    s.len() >= 4 && s[0] == 0x47u8 && s[1] == 0x52u8 && s[2] == 0x49u8 && s[3] == 0x42u8
}

/// The 16-byte indicator section that opens a message: magic marker,
/// discipline, edition, and the total message length.
pub struct IndicatorSection {
    data: Vec<u8>,
}

impl View for IndicatorSection {
    type V = Seq<u8>;

    closed spec fn view(&self) -> Seq<u8> {
        self.data@
    }
}

impl IndicatorSection {
    /// The section is always a view of exactly 16 bytes.
    #[verifier::type_invariant]
    pub open spec fn wf(&self) -> bool {
        self@.len() == 16
    }

    /// Slices the 16 indicator bytes that start at `offset`.
    pub fn from_data(data: &[u8], offset: usize) -> (r: IndicatorSection)
        requires
            offset + 16 <= data@.len(),
        ensures
            r@ == data@.subrange(offset as int, offset as int + 16),
    {
        let len: usize = data.len();
        assert(offset + 16 <= len);
        let bytes = slice_subrange(data, offset, offset + 16);
        IndicatorSection { data: slice_to_vec(bytes) }
    }

    /// The bytes this section is a view of.
    pub fn data(&self) -> (r: &[u8])
        ensures
            r@ == self@,
    {
        self.data.as_slice()
    }

    /// The section number of an indicator section is zero.
    pub fn number(&self) -> (r: u8)
        ensures
            r == 0,
    {
        0
    }

    /// True exactly when the section begins with the magic marker.
    pub fn valid(&self) -> (r: bool)
        ensures
            r == indicator_valid(self@),
    {
        proof {
            use_type_invariant(self);
        }
        self.data[0] == 0x47 && self.data[1] == 0x52 && self.data[2] == 0x49 && self.data[3]
            == 0x42
    }

    /// The discipline code at its fixed offset.
    pub fn discipline(&self) -> (r: Discipline)
        ensures
            r == discipline_of(self@[6]),
    {
        proof {
            use_type_invariant(self);
        }
        Discipline::from_value(self.data[6])
    }

    /// The edition byte at its fixed offset.
    pub fn edition(&self) -> (r: u8)
        ensures
            r == self@[7],
    {
        proof {
            use_type_invariant(self);
        }
        self.data[7]
    }

    /// The declared total length of the whole message, in bytes.
    pub fn total_length(&self) -> (r: u64)
        ensures
            r as nat == be_bytes_to_nat(self@, 8, 8),
    {
        proof {
            use_type_invariant(self);
            crate::utils::lemma_be_bytes_bound(self@, 8, 8);
            assert(crate::utils::pow256(8) == 0x1_0000_0000_0000_0000) by {
                reveal_with_fuel(crate::utils::pow256, 9);
            }
        }
        match read_u64_from_bytes(self.data.as_slice(), 8) {
            Some(v) => v,
            None => 0,
        }
    }
}

} // verus!
