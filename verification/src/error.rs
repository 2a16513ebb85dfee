use vstd::prelude::*;

verus! {

/// Why a segment decode stopped.
///
/// Either a tag byte (a sub-record tag or a field-type tag) lies outside the
/// recognized set, or the byte source ran out before a decoder finished. Both
/// are fatal for the whole segment: once a sub-record fails, the position of
/// the next one is unknown.
#[derive(Clone, Copy, Debug, PartialEq, Eq, Structural)]
pub enum Error {
    /// A tag byte outside the recognized set, carrying the offending byte.
    UnknownTag(u8),
    /// The byte source could not satisfy a requested read.
    Truncated,
}

} // verus!
