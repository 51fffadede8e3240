use vstd::prelude::*;

verus! {

/// Why a decode failed. Every failure carries enough context to be
/// diagnosed: the offending byte offset, section number or template number.
#[derive(PartialEq, Eq, Clone, Copy, Debug)]
pub enum GribError {
    /// The byte layout is broken at the given buffer offset: a missing
    /// magic marker or terminator, a truncated buffer, or a declared
    /// length inconsistent with the bytes that are there.
    Malformed(usize, &'static str),
    /// The section number at the given buffer offset is not one this
    /// library knows.
    UnsupportedSectionNumber(usize, u8),
    /// The named section kind carries a template number that has no
    /// registered decoder; reported distinctly from structural errors.
    UnsupportedTemplate(u8, u16),
    /// A section required to build a field is absent.
    MissingSection(&'static str),
    /// The (category, parameter) code pair is not in the static tables.
    UnmappedParameter(u8, u8),
    /// The grid's geometry cannot form a projection.
    ProjectionFailure(&'static str),
}

} // verus!
