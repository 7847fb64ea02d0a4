use sim_ef::binaryable::Binaryable;
use sim_ef::identifier_providable::IdentifierProvidable;
use sim_ef::location_area_identification::new_location_area_identification;
use sim_ef::location_information::new_location_information;
use sim_ef::location_update_status::LocationUpdateStatus;
use sim_ef::packet_switched_location_information::new_packet_switched_location_information;
use sim_ef::plmn::new_plmn;
use sim_ef::routing_area_identification::new_routing_area_identification;
use sim_ef::routing_area_update_status::RoutingAreaUpdateStatus;

#[test]
fn location_information_should_transform_struct_to_bytes() {
    let tmsi = [0x01, 0x02, 0x03, 0x04];
    let plmn = new_plmn(310, 260).unwrap();
    let lac = [0x10, 0x11];
    let lai = new_location_area_identification(&plmn, &lac);

    let location_information =
        new_location_information(&tmsi, &lai, &LocationUpdateStatus::NotUpdated);

    assert_eq!(
        location_information.to_bytes(),
        Vec::from([0x01, 0x02, 0x03, 0x04, 0x13, 0x00, 0x62, 0x10, 0x11, 0x00, 0x01])
    );
}

#[test]
fn packet_switched_location_information_should_transform_struct_to_bytes() {
    let plmn = new_plmn(310, 410).unwrap();
    let rac = [0x01, 0x02];
    let lai = new_location_area_identification(&plmn, &rac);
    let rai = new_routing_area_identification(&lai, 0xff);
    let psloci = new_packet_switched_location_information(
        &[0xe0, 0xe1, 0xe2, 0xe3],
        &[0xf0, 0xf1, 0xf2],
        &rai,
        &RoutingAreaUpdateStatus::NotUpdated,
    );

    let mut expected = Vec::from([0xe0, 0xe1, 0xe2, 0xe3, 0xf0, 0xf1, 0xf2]);
    expected.extend_from_slice(rai.to_bytes().as_slice());
    expected.extend_from_slice(RoutingAreaUpdateStatus::NotUpdated.to_bytes().as_slice());

    assert_eq!(psloci.to_bytes(), expected);
}

#[test]
fn loci_inserts_one_reserved_byte_and_psloci_inserts_none() {
    let plmn = new_plmn(310, 410).unwrap();
    let lac = [0x20, 0x21];
    let lai = new_location_area_identification(&plmn, &lac);

    let tmsi = [0xa0, 0xa1, 0xa2, 0xa3];
    let loci = new_location_information(&tmsi, &lai, &LocationUpdateStatus::LocationAreaNotAllowed);
    let loci_bytes = loci.to_bytes();
    assert_eq!(loci_bytes.len(), 11);
    // TMSI, LAI, exactly one 0x00 filler, then the status byte.
    assert_eq!(
        loci_bytes,
        Vec::from([0xa0, 0xa1, 0xa2, 0xa3, 0x13, 0x00, 0x14, 0x20, 0x21, 0x00, 0x03])
    );

    let rai = new_routing_area_identification(&lai, 0x33);
    let psloci = new_packet_switched_location_information(
        &[0xb0, 0xb1, 0xb2, 0xb3],
        &[0xc0, 0xc1, 0xc2],
        &rai,
        &RoutingAreaUpdateStatus::Reserved,
    );
    let psloci_bytes = psloci.to_bytes();
    assert_eq!(psloci_bytes.len(), 14);
    // P-TMSI, signature, RAI, then the status byte directly: no filler.
    assert_eq!(
        psloci_bytes,
        Vec::from([
            0xb0, 0xb1, 0xb2, 0xb3, 0xc0, 0xc1, 0xc2, 0x13, 0x00, 0x14, 0x20, 0x21, 0x33, 0x07
        ])
    );
}

#[test]
fn status_types_encode_their_closed_set_codes() {
    assert_eq!(LocationUpdateStatus::Updated.to_bytes(), [0x00]);
    assert_eq!(LocationUpdateStatus::NotUpdated.to_bytes(), [0x01]);
    assert_eq!(LocationUpdateStatus::PlmnNotAllowed.to_bytes(), [0x02]);
    assert_eq!(LocationUpdateStatus::LocationAreaNotAllowed.to_bytes(), [0x03]);
    assert_eq!(LocationUpdateStatus::Reserved.to_bytes(), [0x07]);

    assert_eq!(RoutingAreaUpdateStatus::Updated.to_bytes(), [0x00]);
    assert_eq!(RoutingAreaUpdateStatus::NotUpdated.to_bytes(), [0x01]);
    assert_eq!(RoutingAreaUpdateStatus::PlmnNotAllowed.to_bytes(), [0x02]);
    assert_eq!(RoutingAreaUpdateStatus::RoutingAreaNotAllowed.to_bytes(), [0x03]);
    assert_eq!(RoutingAreaUpdateStatus::Reserved.to_bytes(), [0x07]);
}

#[test]
fn record_types_expose_their_standard_file_identifiers() {
    let plmn = new_plmn(310, 410).unwrap();
    let lac = [0x00, 0x01];
    let lai = new_location_area_identification(&plmn, &lac);
    let tmsi = [0x00, 0x00, 0x00, 0x00];
    let loci = new_location_information(&tmsi, &lai, &LocationUpdateStatus::Updated);
    assert_eq!(loci.get_identifier(), [0x6f, 0x7e]);

    let rai = new_routing_area_identification(&lai, 0x00);
    let psloci = new_packet_switched_location_information(
        &[0x00, 0x00, 0x00, 0x00],
        &[0x00, 0x00, 0x00],
        &rai,
        &RoutingAreaUpdateStatus::Updated,
    );
    assert_eq!(psloci.get_identifier(), [0x6f, 0x73]);
}
