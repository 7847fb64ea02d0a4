//! Encoders for a family of 3GPP SIM/USIM elementary-file records.
//!
//! Each record type is an immutable value object built by a validating
//! factory; its `to_bytes` encoding is pure, total and deterministic, and
//! produces the exact wire format the telecom specifications mandate
//! (nibble-swapped BCD packing, bitmask composition, and nested-structure
//! concatenation). Record types that map to a standard elementary file also
//! expose a fixed 2-byte file identifier.

pub mod access_technology_identifier;
pub mod binaryable;
pub mod identifier_providable;
pub mod location_area_identification;
pub mod location_information;
pub mod location_update_status;
pub mod operator_controlled_plmn_selector_with_access_technology;
pub mod packet_switched_location_information;
pub mod plmn;
pub mod routing_area_identification;
pub mod routing_area_update_status;
