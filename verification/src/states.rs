//! The fixed-width serialized forms that cross this library's boundary.

use vstd::prelude::*;

verus! {

/// A type with one fixed serialized length. Decoders reject any payload whose
/// total length differs from it.
pub trait DataLen {
    /// The exact number of bytes of the serialized form.
    const LEN: usize;
}

} // verus!
