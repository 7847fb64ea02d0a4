//! The identifiable capability shared by record types that map to a standard
//! elementary file.

use vstd::prelude::*;

verus! {

/// Uniform identifiable capability: a record type that maps to a standard
/// elementary file exposes its fixed 2-byte file identifier. External
/// collaborators use it to address the correct storage file; the core never
/// interprets it itself.
pub trait IdentifierProvidable {
    /// The mathematical model of the identifier: the 2-byte sequence fixed
    /// per concrete record type.
    spec fn spec_identifier(&self) -> Seq<u8>;

    /// The 2-byte file identifier of this record type.
    fn get_identifier(&self) -> (r: [u8; 2])
        ensures
            r@ == self.spec_identifier(),
    ;
}

} // verus!
