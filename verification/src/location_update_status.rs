//! Location-update status: a closed set of 3-bit codes per 3GPP TS 31.102
//! (4.2.17).

use crate::binaryable::Binaryable;
use vstd::prelude::*;

verus! {

/// Location-update status. The enumeration is the single constructor path:
/// no arbitrary raw byte can enter, which preserves the closed-set invariant.
#[derive(Copy, Clone, Debug, PartialEq, Eq)]
pub enum LocationUpdateStatus {
    Updated,
    NotUpdated,
    PlmnNotAllowed,
    LocationAreaNotAllowed,
    Reserved,
}

impl LocationUpdateStatus {
    /// The 3-bit code a status stands for.
    pub open spec fn spec_value(self) -> u8 {
        match self {
            LocationUpdateStatus::Updated => 0,
            LocationUpdateStatus::NotUpdated => 1,
            LocationUpdateStatus::PlmnNotAllowed => 2,
            LocationUpdateStatus::LocationAreaNotAllowed => 3,
            LocationUpdateStatus::Reserved => 7,
        }
    }

    /// The status code as the byte it is stored as.
    pub fn value(self) -> (r: u8)
        ensures
            r == self.spec_value(),
    {
        match self {
            LocationUpdateStatus::Updated => 0,
            LocationUpdateStatus::NotUpdated => 1,
            LocationUpdateStatus::PlmnNotAllowed => 2,
            LocationUpdateStatus::LocationAreaNotAllowed => 3,
            LocationUpdateStatus::Reserved => 7,
        }
    }
}

impl Binaryable for LocationUpdateStatus {
    open spec fn spec_bytes(&self) -> Seq<u8> {
        seq![self.spec_value()]
    }

    fn to_bytes(&self) -> (r: Vec<u8>) {
        let mut r: Vec<u8> = Vec::new();
        r.push(self.value());
        proof {
            assert(r@ =~= self.spec_bytes());
        }
        r
    }
}

} // verus!
