//! Location Information (EF LOCI) per 3GPP TS 31.102 (4.2.17).

use crate::binaryable::Binaryable;
use crate::identifier_providable::IdentifierProvidable;
use crate::location_area_identification::LocationAreaIdentification;
use crate::location_update_status::LocationUpdateStatus;
use vstd::prelude::*;

verus! {

/// Location Information record: a 4-byte TMSI, an LAI, one reserved filler
/// byte fixed at 0x00, and the location-update status. Encoding order:
///
/// ```text
/// TMSI (4 bytes) | LAI (5 bytes) | RFU (0x00) | status (1 byte)
/// ```
///
/// 11 bytes in total.
pub struct LocationInformation<'a> {
    /// The temporary mobile subscriber identity, passed through unmodified.
    pub tmsi: &'a [u8; 4],
    /// The location area the subscriber registered in.
    pub lai: &'a LocationAreaIdentification<'a>,
    /// The outcome of the last location update.
    pub location_update_status: &'a LocationUpdateStatus,
}

/// Factory for [`LocationInformation`]: composes the TMSI, LAI and status.
/// Infallible.
pub fn new_location_information<'a>(
    tmsi: &'a [u8; 4],
    lai: &'a LocationAreaIdentification<'a>,
    location_update_status: &'a LocationUpdateStatus,
) -> (r: LocationInformation<'a>)
    ensures
        r.tmsi == tmsi,
        r.lai == lai,
        r.location_update_status == location_update_status,
{
    LocationInformation { tmsi, lai, location_update_status }
}

impl<'a> Binaryable for LocationInformation<'a> {
    open spec fn spec_bytes(&self) -> Seq<u8> {
        self.tmsi@ + self.lai.spec_bytes() + seq![0u8]
            + self.location_update_status.spec_bytes()
    }

    fn to_bytes(&self) -> (r: Vec<u8>) {
        let mut bytes: Vec<u8> = Vec::new();
        bytes.push(self.tmsi[0]);
        bytes.push(self.tmsi[1]);
        bytes.push(self.tmsi[2]);
        bytes.push(self.tmsi[3]);
        let mut lai_bytes: Vec<u8> = self.lai.to_bytes();
        bytes.append(&mut lai_bytes);
        bytes.push(0x00);
        let mut status_bytes: Vec<u8> = self.location_update_status.to_bytes();
        bytes.append(&mut status_bytes);
        proof {
            assert(bytes@ =~= self.spec_bytes());
        }
        bytes
    }
}

impl<'a> IdentifierProvidable for LocationInformation<'a> {
    open spec fn spec_identifier(&self) -> Seq<u8> {
        seq![0x6fu8, 0x7eu8]
    }

    fn get_identifier(&self) -> (r: [u8; 2]) {
        let r: [u8; 2] = [0x6f, 0x7e];
        proof {
            assert(r@ =~= seq![0x6fu8, 0x7eu8]);
        }
        r
    }
}

/// Layout of the LOCI encoding: 11 bytes, with the TMSI in bytes 0..4, the
/// LAI segment in bytes 4..9, exactly one reserved 0x00 byte between the LAI
/// segment and the status byte, and the status byte last.
pub proof fn lemma_loci_layout<'a>(loci: LocationInformation<'a>)
    ensures
        loci.spec_bytes().len() == 11,
        loci.spec_bytes().subrange(0, 4) == loci.tmsi@,
        loci.spec_bytes().subrange(4, 9) == loci.lai.spec_bytes(),
        loci.spec_bytes()[9] == 0u8,
        loci.spec_bytes()[10] == loci.location_update_status.spec_value(),
{
    assert(loci.lai.spec_bytes().len() == 5);
    assert(loci.spec_bytes().subrange(0, 4) =~= loci.tmsi@);
    assert(loci.spec_bytes().subrange(4, 9) =~= loci.lai.spec_bytes());
}

} // verus!
