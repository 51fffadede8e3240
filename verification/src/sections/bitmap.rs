use vstd::prelude::*;
use vstd::slice::slice_subrange;
use crate::sections::identification::section_frame;
use crate::utils::{bit_array_from_bytes, byte_bit};

verus! {

/// The bitmap section: one presence bit per grid point, 1 where the point
/// carries an actual value and 0 where it is masked out.
pub struct BitmapSection {
    data: Vec<u8>,
}

impl View for BitmapSection {
    type V = Seq<u8>;

    closed spec fn view(&self) -> Seq<u8> {
        self.data@
    }
}

impl BitmapSection {
    /// The section is always a whole, well-framed section of its kind.
    #[verifier::type_invariant]
    pub open spec fn wf(&self) -> bool {
        section_frame(self@, 6, 6)
    }

    /// Wraps the bytes of one whole bitmap section.
    pub fn from_data(data: Vec<u8>) -> (r: Self)
        requires
            section_frame(data@, 6, 6),
        ensures
            r@ == data@,
    {
        BitmapSection { data }
    }

    /// The bytes this section is a view of.
    pub fn data(&self) -> (r: &[u8])
        ensures
            r@ == self@,
    {
        self.data.as_slice()
    }

    /// The section number of a bitmap section.
    pub fn number(&self) -> (r: u8)
        ensures
            r == 6,
    {
        6
    }

    /// The bitmap-indicator byte: zero when a bitmap applies to this
    /// message.
    pub fn bitmap_indicator(&self) -> (r: u8)
        ensures
            r == self@[5],
    {
        proof {
            use_type_invariant(self);
        }
        self.data[5]
    }

    /// True when the section carries a bitmap; when it does not, every
    /// grid point is treated as present.
    pub fn bitmap_applies(&self) -> (r: bool)
        ensures
            r == (self@[5] == 0),
    {
        proof {
            use_type_invariant(self);
        }
        self.data[5] == 0
    }

    /// Expands the bitmap into one 0-or-1 entry per grid point, most
    /// significant bit of each byte first.
    pub fn bitmap_bits(&self) -> (r: Vec<u8>)
        ensures
            r@.len() == (self@.len() - 6) * 8,
            forall|i: int|
                0 <= i < r@.len() ==> #[trigger] r@[i] == byte_bit(self@[6 + i / 8], i % 8),
    {
        proof {
            use_type_invariant(self);
        }
        let payload = slice_subrange(self.data.as_slice(), 6, self.data.len());
        let bits = bit_array_from_bytes(payload);
        proof {
            assert forall|i: int| 0 <= i < bits@.len() implies #[trigger] bits@[i] == byte_bit(
                self@[6 + i / 8],
                i % 8,
            ) by {
                assert(bits@[i] == byte_bit(payload@[i / 8], i % 8));
                assert(payload@[i / 8] == self@[6 + i / 8]);
            }
        }
        bits
    }
}

} // verus!
