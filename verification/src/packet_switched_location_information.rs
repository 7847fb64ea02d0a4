//! Packet Switched Location Information (EF PSLOCI) per 3GPP TS 31.102
//! (4.2.23).

use crate::binaryable::Binaryable;
use crate::identifier_providable::IdentifierProvidable;
use crate::routing_area_identification::RoutingAreaIdentification;
use crate::routing_area_update_status::RoutingAreaUpdateStatus;
use vstd::prelude::*;

verus! {

/// Packet Switched Location Information record: a 4-byte packet TMSI, its
/// 3-byte signature, an RAI, and the routing-area-update status. Encoding
/// order:
///
/// ```text
/// P-TMSI (4 bytes) | P-TMSI signature (3 bytes) | RAI (6 bytes) | status (1 byte)
/// ```
///
/// 14 bytes in total. Unlike LOCI, no reserved byte is inserted before the
/// status byte; the asymmetry matches the cited specification tables and is
/// intentional.
pub struct PacketSwitchedLocationInformation<'a> {
    /// The packet temporary mobile subscriber identity, passed through
    /// unmodified.
    pub packet_tmsi: &'a [u8; 4],
    /// The P-TMSI signature, passed through unmodified.
    pub packet_tmsi_signature: &'a [u8; 3],
    /// The routing area the subscriber registered in.
    pub rai: &'a RoutingAreaIdentification<'a>,
    /// The outcome of the last routing-area update.
    pub routing_area_update_status: &'a RoutingAreaUpdateStatus,
}

/// Factory for [`PacketSwitchedLocationInformation`]: composes the P-TMSI,
/// its signature, the RAI and the status. Infallible.
pub fn new_packet_switched_location_information<'a>(
    packet_tmsi: &'a [u8; 4],
    packet_tmsi_signature: &'a [u8; 3],
    rai: &'a RoutingAreaIdentification<'a>,
    routing_area_update_status: &'a RoutingAreaUpdateStatus,
) -> (r: PacketSwitchedLocationInformation<'a>)
    ensures
        r.packet_tmsi == packet_tmsi,
        r.packet_tmsi_signature == packet_tmsi_signature,
        r.rai == rai,
        r.routing_area_update_status == routing_area_update_status,
{
    PacketSwitchedLocationInformation {
        packet_tmsi,
        packet_tmsi_signature,
        rai,
        routing_area_update_status,
    }
}

impl<'a> Binaryable for PacketSwitchedLocationInformation<'a> {
    open spec fn spec_bytes(&self) -> Seq<u8> {
        self.packet_tmsi@ + self.packet_tmsi_signature@ + self.rai.spec_bytes()
            + self.routing_area_update_status.spec_bytes()
    }

    fn to_bytes(&self) -> (r: Vec<u8>) {
        let mut bytes: Vec<u8> = Vec::new();
        bytes.push(self.packet_tmsi[0]);
        bytes.push(self.packet_tmsi[1]);
        bytes.push(self.packet_tmsi[2]);
        bytes.push(self.packet_tmsi[3]);
        bytes.push(self.packet_tmsi_signature[0]);
        bytes.push(self.packet_tmsi_signature[1]);
        bytes.push(self.packet_tmsi_signature[2]);
        let mut rai_bytes: Vec<u8> = self.rai.to_bytes();
        bytes.append(&mut rai_bytes);
        let mut status_bytes: Vec<u8> = self.routing_area_update_status.to_bytes();
        bytes.append(&mut status_bytes);
        proof {
            assert(bytes@ =~= self.spec_bytes());
        }
        bytes
    }
}

impl<'a> IdentifierProvidable for PacketSwitchedLocationInformation<'a> {
    open spec fn spec_identifier(&self) -> Seq<u8> {
        seq![0x6fu8, 0x73u8]
    }

    fn get_identifier(&self) -> (r: [u8; 2]) {
        let r: [u8; 2] = [0x6f, 0x73];
        proof {
            assert(r@ =~= seq![0x6fu8, 0x73u8]);
        }
        r
    }
}

/// Layout of the PSLOCI encoding: 14 bytes, the exact concatenation of the
/// P-TMSI (bytes 0..4), the signature (bytes 4..7), the RAI segment (bytes
/// 7..13) and the status byte (byte 13) — no reserved byte is inserted
/// anywhere.
pub proof fn lemma_psloci_layout<'a>(psloci: PacketSwitchedLocationInformation<'a>)
    ensures
        psloci.spec_bytes().len() == 14,
        psloci.spec_bytes().subrange(0, 4) == psloci.packet_tmsi@,
        psloci.spec_bytes().subrange(4, 7) == psloci.packet_tmsi_signature@,
        psloci.spec_bytes().subrange(7, 13) == psloci.rai.spec_bytes(),
        psloci.spec_bytes()[13] == psloci.routing_area_update_status.spec_value(),
{
    assert(psloci.rai.spec_bytes().len() == 6);
    assert(psloci.spec_bytes().subrange(0, 4) =~= psloci.packet_tmsi@);
    assert(psloci.spec_bytes().subrange(4, 7) =~= psloci.packet_tmsi_signature@);
    assert(psloci.spec_bytes().subrange(7, 13) =~= psloci.rai.spec_bytes());
}

} // verus!
