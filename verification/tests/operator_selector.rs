use sim_ef::access_technology_identifier::new_access_technology_identifier;
use sim_ef::access_technology_identifier::AccessNetworkTechnology::GSM;
use sim_ef::access_technology_identifier::RadioAccessNetworkArchitecture::{EUTRAN, UTRAN};
use sim_ef::binaryable::Binaryable;
use sim_ef::identifier_providable::IdentifierProvidable;
use sim_ef::operator_controlled_plmn_selector_with_access_technology::new_operator_controlled_plmn_selector_with_access_technology;
use sim_ef::plmn::new_plmn;

#[test]
fn operator_controlled_plmn_selector_with_access_technology_should_transform_struct_to_bytes_successfully(
) {
    let plmns_info = [
        (
            new_plmn(310, 410).unwrap(),
            new_access_technology_identifier(vec![UTRAN, EUTRAN], Vec::new()),
        ),
        (
            new_plmn(310, 260).unwrap(),
            new_access_technology_identifier(vec![EUTRAN], vec![GSM]),
        ),
    ];
    let oplmnwact = new_operator_controlled_plmn_selector_with_access_technology(&plmns_info);

    assert_eq!(
        oplmnwact.to_bytes(),
        Vec::from([0x13, 0x00, 0x14, 0xC0, 0x00, 0x13, 0x00, 0x62, 0x40, 0x80])
    );
}

#[test]
fn empty_pair_list_encodes_to_empty_bytes() {
    let plmns_info = [];
    let oplmnwact = new_operator_controlled_plmn_selector_with_access_technology(&plmns_info);
    assert_eq!(oplmnwact.to_bytes(), Vec::<u8>::new());
}

#[test]
fn encoding_is_five_bytes_per_pair_in_input_order() {
    let pair_a = (
        new_plmn(310, 410).unwrap(),
        new_access_technology_identifier(vec![UTRAN], Vec::new()),
    );
    let pair_b = (
        new_plmn(1, 23).unwrap(),
        new_access_technology_identifier(Vec::new(), vec![GSM]),
    );
    let pair_c = (
        new_plmn(999, 0).unwrap(),
        new_access_technology_identifier(Vec::new(), Vec::new()),
    );
    let expected_a = [0x13, 0x00, 0x14, 0x80, 0x00];
    let expected_b = [0x00, 0x31, 0x20, 0x00, 0x80];
    let expected_c = [0x99, 0x09, 0x00, 0x00, 0x00];

    let plmns_info = [pair_a, pair_b, pair_c];
    let oplmnwact = new_operator_controlled_plmn_selector_with_access_technology(&plmns_info);
    let bytes = oplmnwact.to_bytes();
    assert_eq!(bytes.len(), 15);
    assert_eq!(bytes[0..5], expected_a);
    assert_eq!(bytes[5..10], expected_b);
    assert_eq!(bytes[10..15], expected_c);
}

#[test]
fn operator_selector_exposes_its_standard_file_identifier() {
    let plmns_info = [];
    let oplmnwact = new_operator_controlled_plmn_selector_with_access_technology(&plmns_info);
    assert_eq!(oplmnwact.get_identifier(), [0x6f, 0x61]);
}
