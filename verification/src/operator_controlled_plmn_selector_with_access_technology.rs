//! Operator controlled PLMN selector with Access Technology (EF OPLMNwACT)
//! per 3GPP TS 31.102 (4.2.53).

use crate::access_technology_identifier::AccessTechnologyIdentifier;
use crate::binaryable::Binaryable;
use crate::identifier_providable::IdentifierProvidable;
use crate::plmn::PLMN;
use vstd::prelude::*;

verus! {

/// Operator controlled PLMN selector: an ordered list of (PLMN,
/// AccessTechnologyIdentifier) pairs. Encoding emits, for each pair in list
/// order, the PLMN's 3 bytes then the identifier's 2 bytes, concatenated
/// with no separators, header or count prefix. An empty list encodes to an
/// empty sequence.
pub struct OperatorControlledPLMNSelectorWithAccessTechnology<'a> {
    /// The selector entries, encoded in list order with no reordering or
    /// deduplication.
    pub plmns_info: &'a [(PLMN, AccessTechnologyIdentifier)],
}

/// Factory for [`OperatorControlledPLMNSelectorWithAccessTechnology`]: wraps
/// the given pair list. Infallible.
pub fn new_operator_controlled_plmn_selector_with_access_technology<'a>(
    plmns_info: &'a [(PLMN, AccessTechnologyIdentifier)],
) -> (r: OperatorControlledPLMNSelectorWithAccessTechnology<'a>)
    ensures
        r.plmns_info == plmns_info,
{
    OperatorControlledPLMNSelectorWithAccessTechnology { plmns_info }
}

/// The concatenated encoding of a pair list: for each pair in order, the
/// PLMN's bytes followed by the access-technology bytes.
pub open spec fn pairs_bytes(pairs: Seq<(PLMN, AccessTechnologyIdentifier)>) -> Seq<u8>
    decreases pairs.len(),
{
    if pairs.len() == 0 {
        Seq::empty()
    } else {
        pairs_bytes(pairs.drop_last()) + pairs.last().0.spec_bytes() + pairs.last().1.spec_bytes()
    }
}

/// Appending one pair to the list appends exactly its 5 bytes to the
/// encoding.
proof fn lemma_pairs_bytes_push(
    pairs: Seq<(PLMN, AccessTechnologyIdentifier)>,
    pair: (PLMN, AccessTechnologyIdentifier),
)
    ensures
        pairs_bytes(pairs.push(pair)) == pairs_bytes(pairs) + pair.0.spec_bytes()
            + pair.1.spec_bytes(),
{
    assert(pairs.push(pair).drop_last() =~= pairs);
    assert(pairs.push(pair).last() == pair);
}

/// The encoding of N pairs is exactly 5 * N bytes long; in particular the
/// empty list encodes to the empty sequence.
pub proof fn lemma_pairs_bytes_len(pairs: Seq<(PLMN, AccessTechnologyIdentifier)>)
    ensures
        pairs_bytes(pairs).len() == 5 * pairs.len(),
    decreases pairs.len(),
{
    if pairs.len() > 0 {
        lemma_pairs_bytes_len(pairs.drop_last());
    }
}

/// Pairs are encoded in input order: the i-th pair of the list occupies
/// exactly bytes 5*i .. 5*i+5 of the encoding, as its PLMN bytes followed by
/// its access-technology bytes.
pub proof fn lemma_pairs_bytes_segment(pairs: Seq<(PLMN, AccessTechnologyIdentifier)>, i: int)
    requires
        0 <= i < pairs.len(),
    ensures
        pairs_bytes(pairs).subrange(5 * i, 5 * i + 5) == pairs[i].0.spec_bytes()
            + pairs[i].1.spec_bytes(),
    decreases pairs.len(),
{
    lemma_pairs_bytes_len(pairs);
    lemma_pairs_bytes_len(pairs.drop_last());
    if i == pairs.len() - 1 {
        assert(pairs_bytes(pairs).subrange(5 * i, 5 * i + 5) =~= pairs.last().0.spec_bytes()
            + pairs.last().1.spec_bytes());
    } else {
        lemma_pairs_bytes_segment(pairs.drop_last(), i);
        assert(pairs.drop_last()[i] == pairs[i]);
        assert(pairs_bytes(pairs).subrange(5 * i, 5 * i + 5) =~= pairs_bytes(
            pairs.drop_last(),
        ).subrange(5 * i, 5 * i + 5));
    }
}

impl<'a> Binaryable for OperatorControlledPLMNSelectorWithAccessTechnology<'a> {
    open spec fn spec_bytes(&self) -> Seq<u8> {
        pairs_bytes(self.plmns_info@)
    }

    fn to_bytes(&self) -> (r: Vec<u8>) {
        let mut bytes: Vec<u8> = Vec::new();
        proof {
            assert(self.plmns_info@.take(0) =~= Seq::<(PLMN, AccessTechnologyIdentifier)>::empty());
        }
        let mut i: usize = 0;
        while i < self.plmns_info.len()
            invariant
                i <= self.plmns_info@.len(),
                bytes@ == pairs_bytes(self.plmns_info@.take(i as int)),
            decreases self.plmns_info@.len() - i,
        {
            let pair = &self.plmns_info[i];
            proof {
                assert(self.plmns_info@.take(i + 1) =~= self.plmns_info@.take(i as int).push(
                    self.plmns_info@[i as int],
                ));
                lemma_pairs_bytes_push(self.plmns_info@.take(i as int), self.plmns_info@[i as int]);
            }
            let mut plmn_bytes: Vec<u8> = pair.0.to_bytes();
            bytes.append(&mut plmn_bytes);
            let mut act_bytes: Vec<u8> = pair.1.to_bytes();
            bytes.append(&mut act_bytes);
            i += 1;
        }
        proof {
            assert(self.plmns_info@.take(self.plmns_info@.len() as int) =~= self.plmns_info@);
        }
        bytes
    }
}

impl<'a> IdentifierProvidable for OperatorControlledPLMNSelectorWithAccessTechnology<'a> {
    open spec fn spec_identifier(&self) -> Seq<u8> {
        seq![0x6fu8, 0x61u8]
    }

    fn get_identifier(&self) -> (r: [u8; 2]) {
        let r: [u8; 2] = [0x6f, 0x61];
        proof {
            assert(r@ =~= seq![0x6fu8, 0x61u8]);
        }
        r
    }
}

} // verus!
