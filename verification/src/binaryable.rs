//! The encodable capability shared by every record type.

use vstd::prelude::*;

verus! {

/// Uniform encodable capability: an encodable value converts to an ordered
/// byte sequence. The conversion is pure, deterministic and total — all
/// validation happens at construction time, never at encoding time.
pub trait Binaryable {
    /// The mathematical model of the encoding: the exact byte sequence this
    /// value encodes to.
    spec fn spec_bytes(&self) -> Seq<u8>;

    /// Encode this value into its wire-format byte sequence.
    fn to_bytes(&self) -> (r: Vec<u8>)
        ensures
            r@ == self.spec_bytes(),
    ;
}

} // verus!
