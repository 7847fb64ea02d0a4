//! Routing Area Identification (RAI) per 3GPP TS 24.008 (10.5.148).

use crate::binaryable::Binaryable;
use crate::location_area_identification::LocationAreaIdentification;
use vstd::prelude::*;

verus! {

/// Routing Area Identification: a Location Area Identification together with
/// a 1-byte routing area code. Encoding is the LAI's 5 bytes followed by the
/// single RAC byte.
pub struct RoutingAreaIdentification<'a> {
    /// The location area this routing area refines.
    pub lai: &'a LocationAreaIdentification<'a>,
    /// The routing area code, passed through unmodified.
    pub rac: u8,
}

/// Factory for [`RoutingAreaIdentification`]: composes an LAI reference with
/// a routing area code. Infallible.
pub fn new_routing_area_identification<'a>(lai: &'a LocationAreaIdentification<'a>, rac: u8) -> (r:
    RoutingAreaIdentification<'a>)
    ensures
        r.lai == lai,
        r.rac == rac,
{
    RoutingAreaIdentification { lai, rac }
}

impl<'a> Binaryable for RoutingAreaIdentification<'a> {
    open spec fn spec_bytes(&self) -> Seq<u8> {
        self.lai.spec_bytes() + seq![self.rac]
    }

    fn to_bytes(&self) -> (r: Vec<u8>) {
        let mut bytes: Vec<u8> = self.lai.to_bytes();
        bytes.push(self.rac);
        proof {
            assert(bytes@ =~= self.spec_bytes());
        }
        bytes
    }
}

} // verus!
