//! PLMN: the validated mobile-network identity (MCC + MNC), BCD-packed into
//! 3 bytes as mandated by 3GPP TS 24.008 (10.5.1.13).

use crate::binaryable::Binaryable;
use vstd::prelude::*;

verus! {

/// Public Land Mobile Network identity: a mobile country code and a mobile
/// network code, each within [0, 999]. Values are validated once by
/// [`new_plmn`] and immutable afterwards.
pub struct PLMN {
    mcc: u16,
    mnc: u16,
}

/// The one failure mode of the whole core: a range-validation error raised
/// during PLMN construction, tagged with the field at fault and carrying the
/// offending value.
#[derive(Debug, PartialEq, Eq)]
pub enum PLMNError {
    /// The mobile country code was outside [0, 999].
    InvalidMCCValueRangeError(u16),
    /// The mobile network code was outside [0, 999].
    InvalidMNCValueRangeError(u16),
}

/// The 3-byte nibble-swapped BCD layout of a code pair. Each code contributes
/// three decimal digits (digit 1 = hundreds, digit 2 = tens, digit 3 = units);
/// within each byte the higher-numbered digit occupies the high nibble:
///
/// ```text
/// byte 0 = MCC digit 2 | MCC digit 1
/// byte 1 = MNC digit 3 | MCC digit 3
/// byte 2 = MNC digit 2 | MNC digit 1
/// ```
pub open spec fn plmn_bytes(mcc: u16, mnc: u16) -> Seq<u8> {
    seq![
        (mcc / 10 % 10 * 16 + mcc / 100) as u8,
        (mnc % 10 * 16 + mcc % 10) as u8,
        (mnc / 10 % 10 * 16 + mnc / 100) as u8,
    ]
}

impl PLMN {
    /// Both codes stay within [0, 999]; construction rejects anything else.
    #[verifier::type_invariant]
    spec fn inv(self) -> bool {
        self.mcc < 1000 && self.mnc < 1000
    }

    /// The mobile country code this identity was constructed with.
    pub closed spec fn mcc_spec(&self) -> u16 {
        self.mcc
    }

    /// The mobile network code this identity was constructed with.
    pub closed spec fn mnc_spec(&self) -> u16 {
        self.mnc
    }
}

/// Validating factory for [`PLMN`]. Fails with the correctly-tagged range
/// error, carrying the offending value, exactly when a code is >= 1000; on
/// success the constructed identity holds the given codes unchanged.
pub fn new_plmn(mcc: u16, mnc: u16) -> (r: Result<PLMN, PLMNError>)
    ensures
        mcc < 1000 && mnc < 1000 ==> (r matches Ok(p) && p.mcc_spec() == mcc && p.mnc_spec()
            == mnc),
        mcc >= 1000 ==> r == Err::<PLMN, PLMNError>(PLMNError::InvalidMCCValueRangeError(mcc)),
        mcc < 1000 && mnc >= 1000 ==> r == Err::<PLMN, PLMNError>(
            PLMNError::InvalidMNCValueRangeError(mnc),
        ),
{
    if mcc >= 1000 {
        return Err(PLMNError::InvalidMCCValueRangeError(mcc));
    }

    if mnc >= 1000 {
        return Err(PLMNError::InvalidMNCValueRangeError(mnc));
    }

    Ok(PLMN { mcc, mnc })
}

impl Binaryable for PLMN {
    open spec fn spec_bytes(&self) -> Seq<u8> {
        plmn_bytes(self.mcc_spec(), self.mnc_spec())
    }

    fn to_bytes(&self) -> (r: Vec<u8>) {
        proof {
            use_type_invariant(&*self);
            assert(self.mcc / 100 < 10 && self.mnc / 100 < 10) by (nonlinear_arith)
                requires
                    self.mcc < 1000 && self.mnc < 1000,
            ;
        }
        let mcc_digit1: u8 = (self.mcc / 100) as u8;
        let mcc_digit2: u8 = (self.mcc / 10 % 10) as u8;
        let mcc_digit3: u8 = (self.mcc % 10) as u8;

        let mnc_digit1: u8 = (self.mnc / 100) as u8;
        let mnc_digit2: u8 = (self.mnc / 10 % 10) as u8;
        let mnc_digit3: u8 = (self.mnc % 10) as u8;

        let b0: u8 = mcc_digit2 << 4 | mcc_digit1;
        let b1: u8 = mnc_digit3 << 4 | mcc_digit3;
        let b2: u8 = mnc_digit2 << 4 | mnc_digit1;
        proof {
            assert(mcc_digit2 << 4 | mcc_digit1 == mcc_digit2 * 16 + mcc_digit1) by (bit_vector)
                requires
                    mcc_digit1 < 10 && mcc_digit2 < 10,
            ;
            assert(mnc_digit3 << 4 | mcc_digit3 == mnc_digit3 * 16 + mcc_digit3) by (bit_vector)
                requires
                    mcc_digit3 < 10 && mnc_digit3 < 10,
            ;
            assert(mnc_digit2 << 4 | mnc_digit1 == mnc_digit2 * 16 + mnc_digit1) by (bit_vector)
                requires
                    mnc_digit1 < 10 && mnc_digit2 < 10,
            ;
        }
        let mut r: Vec<u8> = Vec::new();
        r.push(b0);
        r.push(b1);
        r.push(b2);
        proof {
            assert(r@ =~= self.spec_bytes());
        }
        r
    }
}

/// For every valid code pair the encoding is 3 bytes long and round-trips the
/// three decimal digits of each code into the documented nibble positions:
/// digit 2 of a code sits in the high nibble and digit 1 in the low nibble of
/// its byte, with the units digits paired in the middle byte.
pub proof fn lemma_plmn_bytes_round_trip(mcc: u16, mnc: u16)
    requires
        mcc < 1000,
        mnc < 1000,
    ensures
        plmn_bytes(mcc, mnc).len() == 3,
        plmn_bytes(mcc, mnc)[0] as int % 16 == mcc / 100,
        plmn_bytes(mcc, mnc)[0] as int / 16 == mcc / 10 % 10,
        plmn_bytes(mcc, mnc)[1] as int % 16 == mcc % 10,
        plmn_bytes(mcc, mnc)[1] as int / 16 == mnc % 10,
        plmn_bytes(mcc, mnc)[2] as int % 16 == mnc / 100,
        plmn_bytes(mcc, mnc)[2] as int / 16 == mnc / 10 % 10,
{
    assert(mcc / 100 < 10 && mnc / 100 < 10) by (nonlinear_arith)
        requires
            mcc < 1000 && mnc < 1000,
    ;
    lemma_packed_nibbles(mcc as int / 10 % 10, mcc as int / 100);
    lemma_packed_nibbles(mnc as int % 10, mcc as int % 10);
    lemma_packed_nibbles(mnc as int / 10 % 10, mnc as int / 100);
}

/// A byte packed as `high * 16 + low` with both nibbles below 16 yields the
/// low nibble under `% 16` and the high nibble under `/ 16`.
proof fn lemma_packed_nibbles(high: int, low: int)
    requires
        0 <= high < 16,
        0 <= low < 16,
    ensures
        high * 16 + low < 256,
        (high * 16 + low) % 16 == low,
        (high * 16 + low) / 16 == high,
{
    assert((high * 16 + low) % 16 == low && (high * 16 + low) / 16 == high) by (nonlinear_arith)
        requires
            0 <= high < 16 && 0 <= low < 16,
    ;
}

} // verus!
