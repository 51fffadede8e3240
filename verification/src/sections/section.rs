use vstd::prelude::*;
use vstd::slice::slice_subrange;
use crate::sections::bitmap::BitmapSection;
use crate::sections::data_representation::DataRepresentationSection;
use crate::sections::grid_definition::GridDefinitionSection;
use crate::sections::identification::{section_frame, IdentificationSection};
use crate::sections::indicator::IndicatorSection;
use crate::sections::product_definition::ProductDefinitionSection;

verus! {

/// The local-use section: bytes whose meaning is reserved to the
/// originating center; the library carries them through untouched.
pub struct LocalUseSection {
    data: Vec<u8>,
}

impl View for LocalUseSection {
    type V = Seq<u8>;

    closed spec fn view(&self) -> Seq<u8> {
        self.data@
    }
}

impl LocalUseSection {
    /// The section is always a whole, well-framed section of its kind.
    #[verifier::type_invariant]
    pub open spec fn wf(&self) -> bool {
        section_frame(self@, 2, 5)
    }

    /// Wraps the bytes of one whole local-use section.
    pub fn from_data(data: Vec<u8>) -> (r: Self)
        requires
            section_frame(data@, 2, 5),
        ensures
            r@ == data@,
    {
        LocalUseSection { data }
    }

    /// The bytes this section is a view of.
    pub fn data(&self) -> (r: &[u8])
        ensures
            r@ == self@,
    {
        self.data.as_slice()
    }

    /// The section number of a local-use section.
    pub fn number(&self) -> (r: u8)
        ensures
            r == 2,
    {
        2
    }
}

/// The data section: the packed grid-point values themselves.
pub struct DataSection {
    data: Vec<u8>,
}

impl View for DataSection {
    type V = Seq<u8>;

    closed spec fn view(&self) -> Seq<u8> {
        self.data@
    }
}

impl DataSection {
    /// The section is always a whole, well-framed section of its kind.
    #[verifier::type_invariant]
    pub open spec fn wf(&self) -> bool {
        section_frame(self@, 7, 5)
    }

    /// Wraps the bytes of one whole data section.
    pub fn from_data(data: Vec<u8>) -> (r: Self)
        requires
            section_frame(data@, 7, 5),
        ensures
            r@ == data@,
    {
        DataSection { data }
    }

    /// The bytes this section is a view of.
    pub fn data(&self) -> (r: &[u8])
        ensures
            r@ == self@,
    {
        self.data.as_slice()
    }

    /// The section number of a data section.
    pub fn number(&self) -> (r: u8)
        ensures
            r == 7,
    {
        7
    }

    /// The packed payload: everything after the section header.
    pub fn raw_packed_data(&self) -> (r: &[u8])
        ensures
            r@ == self@.subrange(5, self@.len() as int),
    {
        proof {
            use_type_invariant(self);
        }
        slice_subrange(self.data.as_slice(), 5, self.data.len())
    }
}

/// True when the four bytes at `pos` are the end marker that terminates
/// every message.
pub open spec fn end_marker_at(s: Seq<u8>, pos: int) -> bool {
    &&& s.len() >= pos + 4
    &&& s[pos] == 0x37u8
    &&& s[pos + 1] == 0x37u8
    &&& s[pos + 2] == 0x37u8
    &&& s[pos + 3] == 0x37u8
}

/// The end section: the four-byte terminator of a message.
pub struct EndSection {
    data: Vec<u8>,
}

impl View for EndSection {
    type V = Seq<u8>;

    closed spec fn view(&self) -> Seq<u8> {
        self.data@
    }
}

impl EndSection {
    /// The section is always exactly the end marker.
    #[verifier::type_invariant]
    pub open spec fn wf(&self) -> bool {
        self@.len() == 4 && end_marker_at(self@, 0)
    }

    /// Wraps the four terminator bytes.
    pub fn from_data(data: Vec<u8>) -> (r: Self)
        requires
            data@.len() == 4,
            end_marker_at(data@, 0),
        ensures
            r@ == data@,
    {
        EndSection { data }
    }

    /// The bytes this section is a view of.
    pub fn data(&self) -> (r: &[u8])
        ensures
            r@ == self@,
    {
        self.data.as_slice()
    }

    /// The section number conventionally given to the end marker.
    pub fn number(&self) -> (r: u8)
        ensures
            r == 8,
    {
        8
    }
}

/// One section of a message: a tagged variant over the closed set of
/// section kinds, each a view of its own byte range.
pub enum Section {
    Indicator(IndicatorSection),
    Identification(IdentificationSection),
    LocalUse(LocalUseSection),
    GridDefinition(GridDefinitionSection),
    ProductDefinition(ProductDefinitionSection),
    DataRepresentation(DataRepresentationSection),
    Bitmap(BitmapSection),
    Data(DataSection),
    End(EndSection),
}

impl Section {
    /// The bytes this section is a view of.
    pub open spec fn bytes(&self) -> Seq<u8> {
        match self {
            Section::Indicator(s) => s@,
            Section::Identification(s) => s@,
            Section::LocalUse(s) => s@,
            Section::GridDefinition(s) => s@,
            Section::ProductDefinition(s) => s@,
            Section::DataRepresentation(s) => s@,
            Section::Bitmap(s) => s@,
            Section::Data(s) => s@,
            Section::End(s) => s@,
        }
    }
}

/// The number that tags each section kind; the end marker, which has no
/// number byte of its own, is given the next free one.
pub open spec fn section_kind_code(s: Section) -> u8 {
    match s {
        Section::Indicator(_) => 0,
        Section::Identification(_) => 1,
        Section::LocalUse(_) => 2,
        Section::GridDefinition(_) => 3,
        Section::ProductDefinition(_) => 4,
        Section::DataRepresentation(_) => 5,
        Section::Bitmap(_) => 6,
        Section::Data(_) => 7,
        Section::End(_) => 8,
    }
}

impl Section {
    /// The number that tags this section's kind.
    pub fn kind_code(&self) -> (r: u8)
        ensures
            r == section_kind_code(*self),
    {
        match self {
            Section::Indicator(_) => 0,
            Section::Identification(_) => 1,
            Section::LocalUse(_) => 2,
            Section::GridDefinition(_) => 3,
            Section::ProductDefinition(_) => 4,
            Section::DataRepresentation(_) => 5,
            Section::Bitmap(_) => 6,
            Section::Data(_) => 7,
            Section::End(_) => 8,
        }
    }
}

/// The index of the first section of kind `k`, if any.
pub open spec fn find_section(ss: Seq<Section>, k: u8) -> Option<int>
    decreases ss.len(),
{
    if ss.len() == 0 {
        None
    } else if section_kind_code(ss[0]) == k {
        Some(0)
    } else {
        match find_section(ss.subrange(1, ss.len() as int), k) {
            Some(i) => Some(i + 1),
            None => None,
        }
    }
}

/// When no section among the first `i` has kind `k`, the first match in
/// the whole run is the first match at or after `i`.
pub proof fn lemma_find_section_skip(ss: Seq<Section>, k: u8, i: int)
    requires
        0 <= i <= ss.len(),
        forall|j: int| 0 <= j < i ==> section_kind_code(#[trigger] ss[j]) != k,
    ensures
        find_section(ss, k) == (match find_section(ss.subrange(i, ss.len() as int), k) {
            Some(x) => Some(x + i),
            None => None::<int>,
        }),
    decreases i,
{
    if i == 0 {
        assert(ss.subrange(0, ss.len() as int) =~= ss);
    } else {
        lemma_find_section_skip(ss, k, i - 1);
        let a = ss.subrange(i - 1, ss.len() as int);
        assert(a[0] == ss[i - 1]);
        assert(a.subrange(1, a.len() as int) =~= ss.subrange(i, ss.len() as int));
    }
}

/// Finds the first section of kind `k`.
pub fn find_first_section(sections: &Vec<Section>, k: u8) -> (r: Option<usize>)
    ensures
        r matches Some(i) ==> find_section(sections@, k) == Some(i as int) && i
            < sections@.len() && section_kind_code(sections@[i as int]) == k,
        r is None ==> find_section(sections@, k) is None,
{
    let n = sections.len();
    let mut i: usize = 0;
    while i < n
        invariant
            i <= n,
            n == sections@.len(),
            forall|j: int| 0 <= j < i ==> section_kind_code(#[trigger] sections@[j]) != k,
        decreases n - i,
    {
        if sections[i].kind_code() == k {
            proof {
                lemma_find_section_skip(sections@, k, i as int);
                assert(sections@.subrange(i as int, sections@.len() as int)[0] == sections@[
                    i as int
                ]);
            }
            return Some(i);
        }
        i = i + 1;
    }
    proof {
        lemma_find_section_skip(sections@, k, n as int);
        assert(sections@.subrange(n as int, sections@.len() as int) =~= Seq::<Section>::empty());
    }
    None
}

/// The fewest bytes a section of each number may hold: enough for its
/// header and for every fixed field its accessors read.
pub open spec fn section_min_len(number: u8) -> int {
    if number == 1 {
        21
    } else if number == 3 {
        14
    } else if number == 4 {
        9
    } else if number == 5 {
        11
    } else if number == 6 {
        6
    } else {
        5
    }
}

/// Runtime twin of `section_min_len`.
pub fn section_min_len_of(number: u8) -> (r: usize)
    ensures
        r as int == section_min_len(number),
{
    if number == 1 {
        21
    } else if number == 3 {
        14
    } else if number == 4 {
        9
    } else if number == 5 {
        11
    } else if number == 6 {
        6
    } else {
        5
    }
}

/// Tags one whole section's bytes with the variant its number byte names.
pub fn section_from_payload(number: u8, data: Vec<u8>) -> (r: Section)
    requires
        1 <= number <= 7,
        section_frame(data@, number, section_min_len(number)),
    ensures
        r.bytes() == data@,
        !(r is Indicator),
        !(r is End),
{
    if number == 1 {
        Section::Identification(IdentificationSection::from_data(data))
    } else if number == 2 {
        Section::LocalUse(LocalUseSection::from_data(data))
    } else if number == 3 {
        Section::GridDefinition(GridDefinitionSection::from_data(data))
    } else if number == 4 {
        Section::ProductDefinition(ProductDefinitionSection::from_data(data))
    } else if number == 5 {
        Section::DataRepresentation(DataRepresentationSection::from_data(data))
    } else if number == 6 {
        Section::Bitmap(BitmapSection::from_data(data))
    } else {
        Section::Data(DataSection::from_data(data))
    }
}

} // verus!
