use vstd::prelude::*;

verus! {

/// Why the raw fields of a record could not be turned into a [`crate::record::Record`].
///
/// Every one of these is fatal for a run: a record is never skipped.
#[derive(Clone, Copy, Debug, PartialEq, Eq)]
pub enum FormatError {
    /// The record carries no usable nesting-level annotation.
    MissingLevel,
    /// The nesting level is negative.
    NegativeLevel,
    /// The record has no allele at all, not even a reference allele.
    NoAlleles,
    /// The reference allele is the empty string.
    EmptyReference,
    /// The identifier is not valid UTF-8.
    InvalidId,
}

} // verus!
