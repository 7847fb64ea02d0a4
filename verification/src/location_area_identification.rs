//! Location Area Identification (LAI) per 3GPP TS 24.008 (10.5.1.3).

use crate::binaryable::Binaryable;
use crate::plmn::PLMN;
use vstd::prelude::*;

verus! {

/// Location Area Identification: a PLMN together with a 2-byte location area
/// code. Encoding is the PLMN's 3 bytes followed by the two LAC bytes
/// verbatim, in the order given:
///
/// ```text
/// +-------------------------------+
/// | 8 | 7 | 6 | 5 | 4 | 3 | 2 | 1 |
/// +-------------------------------+
/// |  MCC digit 2  |  MCC digit 1  |
/// |  MNC digit 3  |  MCC digit 3  |
/// |  MNC digit 2  |  MNC digit 1  |
/// |             LAC[0]            |
/// |             LAC[1]            |
/// +-------------------------------+
/// ```
pub struct LocationAreaIdentification<'a> {
    /// The mobile-network identity this area belongs to.
    pub plmn: &'a PLMN,
    /// The location area code, passed through unmodified.
    pub lac: &'a [u8; 2],
}

/// Factory for [`LocationAreaIdentification`]: composes a PLMN reference with
/// a location area code. Infallible, since the PLMN was validated at its own
/// construction and the LAC is raw bytes.
pub fn new_location_area_identification<'a>(plmn: &'a PLMN, lac: &'a [u8; 2]) -> (r:
    LocationAreaIdentification<'a>)
    ensures
        r.plmn == plmn,
        r.lac == lac,
{
    LocationAreaIdentification { plmn, lac }
}

impl<'a> Binaryable for LocationAreaIdentification<'a> {
    open spec fn spec_bytes(&self) -> Seq<u8> {
        self.plmn.spec_bytes() + self.lac@
    }

    fn to_bytes(&self) -> (r: Vec<u8>) {
        let mut bytes: Vec<u8> = self.plmn.to_bytes();
        bytes.push(self.lac[0]);
        bytes.push(self.lac[1]);
        proof {
            assert(bytes@ =~= self.spec_bytes());
        }
        bytes
    }
}

} // verus!
