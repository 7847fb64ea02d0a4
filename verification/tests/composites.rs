use sim_ef::binaryable::Binaryable;
use sim_ef::location_area_identification::new_location_area_identification;
use sim_ef::plmn::new_plmn;
use sim_ef::routing_area_identification::new_routing_area_identification;

#[test]
fn location_area_identification_should_transform_struct_to_bytes_successfully() {
    let plmn = new_plmn(310, 410).unwrap();
    let lai = new_location_area_identification(&plmn, &[0x01, 0x02]);
    assert_eq!(lai.to_bytes(), Vec::from([0x13, 0x00, 0x14, 0x01, 0x02]));
}

#[test]
fn routing_area_identification_should_transform_struct_to_bytes_successfully() {
    let plmn = new_plmn(310, 410).unwrap();
    let rac = [0x01, 0x02];
    let lai = new_location_area_identification(&plmn, &rac);
    let rai = new_routing_area_identification(&lai, 0xff);
    assert_eq!(
        rai.to_bytes(),
        Vec::from([0x13, 0x00, 0x14, 0x01, 0x02, 0xff])
    );
}

#[test]
fn composite_encodings_concatenate_component_encodings() {
    let plmn = new_plmn(310, 410).unwrap();
    let lac = [0xab, 0xcd];
    let lai = new_location_area_identification(&plmn, &lac);

    let mut expected_lai = plmn.to_bytes();
    expected_lai.extend_from_slice(&lac);
    assert_eq!(lai.to_bytes(), expected_lai);

    let rai = new_routing_area_identification(&lai, 0x07);
    let mut expected_rai = lai.to_bytes();
    expected_rai.push(0x07);
    assert_eq!(rai.to_bytes(), expected_rai);
}
