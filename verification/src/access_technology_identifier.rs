//! Access Technology Identifier: a 2-byte bitmask per 3GPP TS 31.102 (4.2.5).

use crate::binaryable::Binaryable;
use vstd::prelude::*;

verus! {

/// A 2-byte bitmask naming the radio-access-network architectures and access
/// technologies a record selects: one byte of architecture flags followed by
/// one byte of technology flags, each the OR of the selected flags.
pub struct AccessTechnologyIdentifier {
    architecture: u8,
    technology: u8,
}

/// Radio-access-network architecture flags.
#[derive(Copy, Clone, Debug, PartialEq, Eq)]
pub enum RadioAccessNetworkArchitecture {
    UTRAN,
    EUTRAN,
}

/// Access-network technology flags.
#[allow(non_camel_case_types)]
#[derive(Copy, Clone, Debug, PartialEq, Eq)]
pub enum AccessNetworkTechnology {
    CDMA2000_1xRTT,
    CDMA2000HRPD,
    GSMCompact,
    GSM,
}

impl RadioAccessNetworkArchitecture {
    /// The named bit an architecture flag stands for.
    pub open spec fn spec_mask(self) -> u8 {
        match self {
            RadioAccessNetworkArchitecture::UTRAN => 0x80,
            RadioAccessNetworkArchitecture::EUTRAN => 0x40,
        }
    }

    /// The flag's bit as a byte.
    pub fn mask(self) -> (r: u8)
        ensures
            r == self.spec_mask(),
    {
        match self {
            RadioAccessNetworkArchitecture::UTRAN => 0x80,
            RadioAccessNetworkArchitecture::EUTRAN => 0x40,
        }
    }
}

impl AccessNetworkTechnology {
    /// The named bit a technology flag stands for.
    pub open spec fn spec_mask(self) -> u8 {
        match self {
            AccessNetworkTechnology::CDMA2000_1xRTT => 0x10,
            AccessNetworkTechnology::CDMA2000HRPD => 0x20,
            AccessNetworkTechnology::GSMCompact => 0x40,
            AccessNetworkTechnology::GSM => 0x80,
        }
    }

    /// The flag's bit as a byte.
    pub fn mask(self) -> (r: u8)
        ensures
            r == self.spec_mask(),
    {
        match self {
            AccessNetworkTechnology::CDMA2000_1xRTT => 0x10,
            AccessNetworkTechnology::CDMA2000HRPD => 0x20,
            AccessNetworkTechnology::GSMCompact => 0x40,
            AccessNetworkTechnology::GSM => 0x80,
        }
    }
}

/// The architecture byte a flag list denotes: each named bit is set exactly
/// when the list contains its flag. Only membership matters, so the byte is
/// independent of the list's order and of duplicate flags.
pub open spec fn architecture_flags_byte(
    architectures: Seq<RadioAccessNetworkArchitecture>,
) -> u8 {
    (if architectures.contains(RadioAccessNetworkArchitecture::UTRAN) {
        0x80u8
    } else {
        0u8
    }) | (if architectures.contains(RadioAccessNetworkArchitecture::EUTRAN) {
        0x40u8
    } else {
        0u8
    })
}

/// The technology byte a flag list denotes: each named bit is set exactly
/// when the list contains its flag. Only membership matters, so the byte is
/// independent of the list's order and of duplicate flags.
pub open spec fn technology_flags_byte(technologies: Seq<AccessNetworkTechnology>) -> u8 {
    ((if technologies.contains(AccessNetworkTechnology::CDMA2000_1xRTT) {
        0x10u8
    } else {
        0u8
    }) | (if technologies.contains(AccessNetworkTechnology::CDMA2000HRPD) {
        0x20u8
    } else {
        0u8
    })) | ((if technologies.contains(AccessNetworkTechnology::GSMCompact) {
        0x40u8
    } else {
        0u8
    }) | (if technologies.contains(AccessNetworkTechnology::GSM) {
        0x80u8
    } else {
        0u8
    }))
}

/// Membership in a sequence extended by one element: the new element is a
/// member, and every other membership is unchanged.
proof fn lemma_contains_push<T>(s: Seq<T>, x: T, y: T)
    ensures
        s.push(x).contains(y) <==> (s.contains(y) || x == y),
{
    if s.contains(y) {
        let i = choose|i: int| 0 <= i < s.len() && s[i] == y;
        assert(s.push(x)[i] == y);
    }
    if x == y {
        assert(s.push(x)[s.len() as int] == y);
    }
    if s.push(x).contains(y) && x != y {
        let i = choose|i: int| 0 <= i < s.push(x).len() && s.push(x)[i] == y;
        assert(0 <= i < s.len());
        assert(s[i] == y);
    }
}

/// OR-ing one architecture flag into a list's byte gives the byte of the
/// extended list.
proof fn lemma_architecture_byte_push(
    s: Seq<RadioAccessNetworkArchitecture>,
    x: RadioAccessNetworkArchitecture,
)
    ensures
        architecture_flags_byte(s.push(x)) == (architecture_flags_byte(s) | x.spec_mask()),
{
    lemma_contains_push(s, x, RadioAccessNetworkArchitecture::UTRAN);
    lemma_contains_push(s, x, RadioAccessNetworkArchitecture::EUTRAN);
    let xu: u8 = if s.contains(RadioAccessNetworkArchitecture::UTRAN) {
        0x80u8
    } else {
        0u8
    };
    let xe: u8 = if s.contains(RadioAccessNetworkArchitecture::EUTRAN) {
        0x40u8
    } else {
        0u8
    };
    assert(architecture_flags_byte(s) == xu | xe);
    match x {
        RadioAccessNetworkArchitecture::UTRAN => {
            assert(architecture_flags_byte(s.push(x)) == 0x80u8 | xe);
            assert((xu | xe) | 0x80u8 == 0x80u8 | xe) by (bit_vector)
                requires
                    xu == 0x80 || xu == 0,
                    xe == 0x40 || xe == 0,
            ;
        },
        RadioAccessNetworkArchitecture::EUTRAN => {
            assert(architecture_flags_byte(s.push(x)) == xu | 0x40u8);
            assert((xu | xe) | 0x40u8 == xu | 0x40u8) by (bit_vector)
                requires
                    xu == 0x80 || xu == 0,
                    xe == 0x40 || xe == 0,
            ;
        },
    }
}

/// OR-ing one technology flag into a list's byte gives the byte of the
/// extended list.
proof fn lemma_technology_byte_push(s: Seq<AccessNetworkTechnology>, x: AccessNetworkTechnology)
    ensures
        technology_flags_byte(s.push(x)) == (technology_flags_byte(s) | x.spec_mask()),
{
    lemma_contains_push(s, x, AccessNetworkTechnology::CDMA2000_1xRTT);
    lemma_contains_push(s, x, AccessNetworkTechnology::CDMA2000HRPD);
    lemma_contains_push(s, x, AccessNetworkTechnology::GSMCompact);
    lemma_contains_push(s, x, AccessNetworkTechnology::GSM);
    let x1: u8 = if s.contains(AccessNetworkTechnology::CDMA2000_1xRTT) {
        0x10u8
    } else {
        0u8
    };
    let x2: u8 = if s.contains(AccessNetworkTechnology::CDMA2000HRPD) {
        0x20u8
    } else {
        0u8
    };
    let x3: u8 = if s.contains(AccessNetworkTechnology::GSMCompact) {
        0x40u8
    } else {
        0u8
    };
    let x4: u8 = if s.contains(AccessNetworkTechnology::GSM) {
        0x80u8
    } else {
        0u8
    };
    assert(technology_flags_byte(s) == (x1 | x2) | (x3 | x4));
    match x {
        AccessNetworkTechnology::CDMA2000_1xRTT => {
            assert(technology_flags_byte(s.push(x)) == (0x10u8 | x2) | (x3 | x4));
            assert(((x1 | x2) | (x3 | x4)) | 0x10u8 == (0x10u8 | x2) | (x3 | x4)) by (bit_vector)
                requires
                    x1 == 0x10 || x1 == 0,
                    x2 == 0x20 || x2 == 0,
                    x3 == 0x40 || x3 == 0,
                    x4 == 0x80 || x4 == 0,
            ;
        },
        AccessNetworkTechnology::CDMA2000HRPD => {
            assert(technology_flags_byte(s.push(x)) == (x1 | 0x20u8) | (x3 | x4));
            assert(((x1 | x2) | (x3 | x4)) | 0x20u8 == (x1 | 0x20u8) | (x3 | x4)) by (bit_vector)
                requires
                    x1 == 0x10 || x1 == 0,
                    x2 == 0x20 || x2 == 0,
                    x3 == 0x40 || x3 == 0,
                    x4 == 0x80 || x4 == 0,
            ;
        },
        AccessNetworkTechnology::GSMCompact => {
            assert(technology_flags_byte(s.push(x)) == (x1 | x2) | (0x40u8 | x4));
            assert(((x1 | x2) | (x3 | x4)) | 0x40u8 == (x1 | x2) | (0x40u8 | x4)) by (bit_vector)
                requires
                    x1 == 0x10 || x1 == 0,
                    x2 == 0x20 || x2 == 0,
                    x3 == 0x40 || x3 == 0,
                    x4 == 0x80 || x4 == 0,
            ;
        },
        AccessNetworkTechnology::GSM => {
            assert(technology_flags_byte(s.push(x)) == (x1 | x2) | (x3 | 0x80u8));
            assert(((x1 | x2) | (x3 | x4)) | 0x80u8 == (x1 | x2) | (x3 | 0x80u8)) by (bit_vector)
                requires
                    x1 == 0x10 || x1 == 0,
                    x2 == 0x20 || x2 == 0,
                    x3 == 0x40 || x3 == 0,
                    x4 == 0x80 || x4 == 0,
            ;
        },
    }
}

impl AccessTechnologyIdentifier {
    /// The architecture flag byte this identifier holds.
    pub closed spec fn architecture_spec(&self) -> u8 {
        self.architecture
    }

    /// The technology flag byte this identifier holds.
    pub closed spec fn technology_spec(&self) -> u8 {
        self.technology
    }
}

/// Factory for [`AccessTechnologyIdentifier`]: ORs the selected architecture
/// flags into the first byte and the selected technology flags into the
/// second. Never fails; an empty selection gives a zero byte. The resulting
/// bytes depend only on which flags are present, never on input order, and
/// duplicate flags are idempotent.
pub fn new_access_technology_identifier(
    architectures: Vec<RadioAccessNetworkArchitecture>,
    technologies: Vec<AccessNetworkTechnology>,
) -> (r: AccessTechnologyIdentifier)
    ensures
        r.architecture_spec() == architecture_flags_byte(architectures@),
        r.technology_spec() == technology_flags_byte(technologies@),
{
    let mut architecture_byte: u8 = 0;
    proof {
        assert(architectures@.take(0) =~= Seq::<RadioAccessNetworkArchitecture>::empty());
        assert(0u8 | 0u8 == 0u8) by (bit_vector);
    }
    let mut i: usize = 0;
    while i < architectures.len()
        invariant
            i <= architectures.len(),
            architecture_byte == architecture_flags_byte(architectures@.take(i as int)),
        decreases architectures.len() - i,
    {
        let arch = architectures[i];
        proof {
            assert(architectures@.take(i + 1) =~= architectures@.take(i as int).push(
                architectures@[i as int],
            ));
            lemma_architecture_byte_push(architectures@.take(i as int), architectures@[i as int]);
        }
        architecture_byte = architecture_byte | arch.mask();
        i += 1;
    }
    proof {
        assert(architectures@.take(architectures@.len() as int) =~= architectures@);
    }

    let mut technology_byte: u8 = 0;
    proof {
        assert(technologies@.take(0) =~= Seq::<AccessNetworkTechnology>::empty());
        assert(0u8 | 0u8 == 0u8) by (bit_vector);
    }
    let mut j: usize = 0;
    while j < technologies.len()
        invariant
            j <= technologies.len(),
            technology_byte == technology_flags_byte(technologies@.take(j as int)),
        decreases technologies.len() - j,
    {
        let tech = technologies[j];
        proof {
            assert(technologies@.take(j + 1) =~= technologies@.take(j as int).push(
                technologies@[j as int],
            ));
            lemma_technology_byte_push(technologies@.take(j as int), technologies@[j as int]);
        }
        technology_byte = technology_byte | tech.mask();
        j += 1;
    }
    proof {
        assert(technologies@.take(technologies@.len() as int) =~= technologies@);
    }

    AccessTechnologyIdentifier { architecture: architecture_byte, technology: technology_byte }
}

impl Binaryable for AccessTechnologyIdentifier {
    open spec fn spec_bytes(&self) -> Seq<u8> {
        seq![self.architecture_spec(), self.technology_spec()]
    }

    fn to_bytes(&self) -> (r: Vec<u8>) {
        let mut r: Vec<u8> = Vec::new();
        r.push(self.architecture);
        r.push(self.technology);
        proof {
            assert(r@ =~= self.spec_bytes());
        }
        r
    }
}

/// Encoding is order-independent: two architecture flag lists with the same
/// members and two technology flag lists with the same members denote the
/// same flag bytes, whatever the lists' order and however often a flag is
/// repeated.
pub proof fn lemma_flag_bytes_order_independent(
    architectures1: Seq<RadioAccessNetworkArchitecture>,
    architectures2: Seq<RadioAccessNetworkArchitecture>,
    technologies1: Seq<AccessNetworkTechnology>,
    technologies2: Seq<AccessNetworkTechnology>,
)
    requires
        forall|a: RadioAccessNetworkArchitecture|
            architectures1.contains(a) <==> architectures2.contains(a),
        forall|t: AccessNetworkTechnology| technologies1.contains(t) <==> technologies2.contains(t),
    ensures
        architecture_flags_byte(architectures1) == architecture_flags_byte(architectures2),
        technology_flags_byte(technologies1) == technology_flags_byte(technologies2),
{
    assert(architectures1.contains(RadioAccessNetworkArchitecture::UTRAN)
        <==> architectures2.contains(RadioAccessNetworkArchitecture::UTRAN));
    assert(architectures1.contains(RadioAccessNetworkArchitecture::EUTRAN)
        <==> architectures2.contains(RadioAccessNetworkArchitecture::EUTRAN));
    assert(technologies1.contains(AccessNetworkTechnology::CDMA2000_1xRTT)
        <==> technologies2.contains(AccessNetworkTechnology::CDMA2000_1xRTT));
    assert(technologies1.contains(AccessNetworkTechnology::CDMA2000HRPD)
        <==> technologies2.contains(AccessNetworkTechnology::CDMA2000HRPD));
    assert(technologies1.contains(AccessNetworkTechnology::GSMCompact)
        <==> technologies2.contains(AccessNetworkTechnology::GSMCompact));
    assert(technologies1.contains(AccessNetworkTechnology::GSM) <==> technologies2.contains(
        AccessNetworkTechnology::GSM,
    ));
}

} // verus!
