use sim_ef::binaryable::Binaryable;
use sim_ef::plmn::{new_plmn, PLMNError};

#[test]
fn should_raise_error_when_mcc_is_invalid_on_new_plmn() {
    let result = new_plmn(1000, 410);
    assert_eq!(
        result.err().unwrap(),
        PLMNError::InvalidMCCValueRangeError(1000)
    );
}

#[test]
fn should_raise_error_when_mnc_is_invalid_on_new_plmn() {
    let result = new_plmn(310, 1000);
    assert_eq!(
        result.err().unwrap(),
        PLMNError::InvalidMNCValueRangeError(1000)
    );
}

#[test]
fn plmn_should_transform_struct_to_bytes_successfully() {
    let rai = new_plmn(310, 410).unwrap();
    assert_eq!(rai.to_bytes(), Vec::from([0x13, 0x00, 0x14]));
}

#[test]
fn mcc_error_takes_precedence_when_both_codes_are_invalid() {
    let result = new_plmn(1000, 1000);
    assert_eq!(
        result.err().unwrap(),
        PLMNError::InvalidMCCValueRangeError(1000)
    );
}

#[test]
fn boundary_codes_are_accepted_and_packed() {
    let lowest = new_plmn(0, 0).unwrap();
    assert_eq!(lowest.to_bytes(), Vec::from([0x00, 0x00, 0x00]));

    let highest = new_plmn(999, 999).unwrap();
    assert_eq!(highest.to_bytes(), Vec::from([0x99, 0x99, 0x99]));
}

#[test]
fn single_digit_codes_pack_into_documented_nibbles() {
    // mcc = 1 has digits 0, 0, 1; mnc = 23 has digits 0, 2, 3.
    let plmn = new_plmn(1, 23).unwrap();
    assert_eq!(plmn.to_bytes(), Vec::from([0x00, 0x31, 0x20]));
}
