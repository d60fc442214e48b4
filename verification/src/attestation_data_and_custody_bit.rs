//! An attestation's vote together with the custody bit that it is signed with.

use crate::attestation_data::AttestationData;
use crate::ssz::{Decodable, DecodeError, Encodable, SszStream};
use crate::test_random::TestRandom;
use rand::prng::XorShiftRng;
use vstd::prelude::*;

verus! {

/// Used for pairing an attestation with a proof-of-custody.
#[derive(Debug, Clone, Copy, PartialEq, Eq)]
pub struct AttestationDataAndCustodyBit {
    pub data: AttestationData,
    pub custody_bit: bool,
}

impl Encodable for AttestationDataAndCustodyBit {
    open spec fn ssz_bytes(&self) -> Seq<u8> {
        self.data.ssz_bytes() + self.custody_bit.ssz_bytes()
    }

    fn ssz_append(&self, s: &mut SszStream) {
        s.append(&self.data);
        s.append(&self.custody_bit);
        assert(s@ =~= old(s)@ + self.ssz_bytes());
    }
}

impl Decodable for AttestationDataAndCustodyBit {
    open spec fn ssz_parse(bytes: Seq<u8>, index: int) -> Result<
        (AttestationDataAndCustodyBit, int),
        DecodeError,
    > {
        match AttestationData::ssz_parse(bytes, index) {
            Ok((data, next)) => match bool::ssz_parse(bytes, next) {
                Ok((custody_bit, end)) => Ok(
                    (AttestationDataAndCustodyBit { data, custody_bit }, end),
                ),
                Err(e) => Err(e),
            },
            Err(e) => Err(e),
        }
    }

    fn ssz_decode(bytes: &[u8], i: usize) -> (decoded: Result<
        (AttestationDataAndCustodyBit, usize),
        DecodeError,
    >) {
        let (data, i) = match AttestationData::ssz_decode(bytes, i) {
            Ok(field) => field,
            Err(e) => { return Err(e); },
        };
        let (custody_bit, i) = match bool::ssz_decode(bytes, i) {
            Ok(field) => field,
            Err(e) => { return Err(e); },
        };
        let attestation_data_and_custody_bit = AttestationDataAndCustodyBit { data, custody_bit };
        Ok((attestation_data_and_custody_bit, i))
    }

    proof fn lemma_round_trip(&self, before: Seq<u8>, after: Seq<u8>) {
        let all = before + self.ssz_bytes() + after;
        let data = self.data.ssz_bytes();
        let bit = self.custody_bit.ssz_bytes();
        self.data.lemma_round_trip(before, bit + after);
        self.custody_bit.lemma_round_trip(before + data, after);
        assert(all =~= before + data + (bit + after));
        assert(all =~= before + data + bit + after);
    }
}

impl TestRandom for AttestationDataAndCustodyBit {
    fn random_for_test(rng: &mut XorShiftRng) -> AttestationDataAndCustodyBit {
        AttestationDataAndCustodyBit {
            data: <_>::random_for_test(rng),
            custody_bit: <_>::random_for_test(rng),
        }
    }
}

impl Default for AttestationDataAndCustodyBit {
    /// The all-zero vote with the custody bit unset.
    fn default() -> (value: AttestationDataAndCustodyBit)
        ensures
            value == (AttestationDataAndCustodyBit {
                data: AttestationData::zeroed(),
                custody_bit: false,
            }),
    {
        AttestationDataAndCustodyBit { data: AttestationData::default(), custody_bit: false }
    }
}

} // verus!
