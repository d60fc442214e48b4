//! The vote that an attestation signs.

use crate::ssz::{holds, parsed, Decodable, DecodeError, Encodable, SszStream};
use crate::types::Hash256;
use crate::test_random::TestRandom;
use rand::prng::XorShiftRng;
use vstd::prelude::*;

verus! {

/// The number of bytes in the encoding of an [`AttestationData`].
pub const SSZ_ATTESTATION_DATA_LENGTH: usize = 184;

/// What an attestation votes for.
#[derive(Debug, Clone, Copy, PartialEq, Eq)]
pub struct AttestationData {
    pub slot: u64,
    pub shard: u64,
    pub beacon_block_hash: Hash256,
    pub epoch_boundary_hash: Hash256,
    pub shard_block_hash: Hash256,
    pub latest_crosslink_hash: Hash256,
    pub justified_slot: u64,
    pub justified_block_hash: Hash256,
}

impl Encodable for AttestationData {
    open spec fn ssz_bytes(&self) -> Seq<u8> {
        self.slot.ssz_bytes() + self.shard.ssz_bytes() + self.beacon_block_hash.ssz_bytes()
            + self.epoch_boundary_hash.ssz_bytes() + self.shard_block_hash.ssz_bytes()
            + self.latest_crosslink_hash.ssz_bytes() + self.justified_slot.ssz_bytes()
            + self.justified_block_hash.ssz_bytes()
    }

    fn ssz_append(&self, s: &mut SszStream) {
        s.append(&self.slot);
        s.append(&self.shard);
        s.append(&self.beacon_block_hash);
        s.append(&self.epoch_boundary_hash);
        s.append(&self.shard_block_hash);
        s.append(&self.latest_crosslink_hash);
        s.append(&self.justified_slot);
        s.append(&self.justified_block_hash);
        assert(s@ =~= old(s)@ + self.ssz_bytes());
    }
}

impl Decodable for AttestationData {
    open spec fn ssz_parse(bytes: Seq<u8>, index: int) -> Result<
        (AttestationData, int),
        DecodeError,
    > {
        if holds(bytes, index, SSZ_ATTESTATION_DATA_LENGTH as int) {
            Ok(
                (
                    AttestationData {
                        slot: parsed::<u64>(bytes, index),
                        shard: parsed::<u64>(bytes, index + 8),
                        beacon_block_hash: parsed::<Hash256>(bytes, index + 16),
                        epoch_boundary_hash: parsed::<Hash256>(bytes, index + 48),
                        shard_block_hash: parsed::<Hash256>(bytes, index + 80),
                        latest_crosslink_hash: parsed::<Hash256>(bytes, index + 112),
                        justified_slot: parsed::<u64>(bytes, index + 144),
                        justified_block_hash: parsed::<Hash256>(bytes, index + 152),
                    },
                    index + SSZ_ATTESTATION_DATA_LENGTH as int,
                ),
            )
        } else {
            Err(DecodeError::TooShort)
        }
    }

    fn ssz_decode(bytes: &[u8], i: usize) -> (decoded: Result<
        (AttestationData, usize),
        DecodeError,
    >) {
        let (slot, i) = match u64::ssz_decode(bytes, i) {
            Ok(field) => field,
            Err(e) => { return Err(e); },
        };
        let (shard, i) = match u64::ssz_decode(bytes, i) {
            Ok(field) => field,
            Err(e) => { return Err(e); },
        };
        let (beacon_block_hash, i) = match Hash256::ssz_decode(bytes, i) {
            Ok(field) => field,
            Err(e) => { return Err(e); },
        };
        let (epoch_boundary_hash, i) = match Hash256::ssz_decode(bytes, i) {
            Ok(field) => field,
            Err(e) => { return Err(e); },
        };
        let (shard_block_hash, i) = match Hash256::ssz_decode(bytes, i) {
            Ok(field) => field,
            Err(e) => { return Err(e); },
        };
        let (latest_crosslink_hash, i) = match Hash256::ssz_decode(bytes, i) {
            Ok(field) => field,
            Err(e) => { return Err(e); },
        };
        let (justified_slot, i) = match u64::ssz_decode(bytes, i) {
            Ok(field) => field,
            Err(e) => { return Err(e); },
        };
        let (justified_block_hash, i) = match Hash256::ssz_decode(bytes, i) {
            Ok(field) => field,
            Err(e) => { return Err(e); },
        };
        let attestation_data = AttestationData {
            slot,
            shard,
            beacon_block_hash,
            epoch_boundary_hash,
            shard_block_hash,
            latest_crosslink_hash,
            justified_slot,
            justified_block_hash,
        };
        Ok((attestation_data, i))
    }

    proof fn lemma_round_trip(&self, before: Seq<u8>, after: Seq<u8>) {
        let all = before + self.ssz_bytes() + after;
        let f0 = self.slot.ssz_bytes();
        let f1 = self.shard.ssz_bytes();
        let f2 = self.beacon_block_hash.ssz_bytes();
        let f3 = self.epoch_boundary_hash.ssz_bytes();
        let f4 = self.shard_block_hash.ssz_bytes();
        let f5 = self.latest_crosslink_hash.ssz_bytes();
        let f6 = self.justified_slot.ssz_bytes();
        let f7 = self.justified_block_hash.ssz_bytes();
        vstd::bytes::lemma_auto_spec_u64_to_from_le_bytes();
        let b0 = before;
        let b1 = b0 + f0;
        let b2 = b1 + f1;
        let b3 = b2 + f2;
        let b4 = b3 + f3;
        let b5 = b4 + f4;
        let b6 = b5 + f5;
        let b7 = b6 + f6;
        let a7 = after;
        let a6 = f7 + a7;
        let a5 = f6 + a6;
        let a4 = f5 + a5;
        let a3 = f4 + a4;
        let a2 = f3 + a3;
        let a1 = f2 + a2;
        let a0 = f1 + a1;
        self.slot.lemma_round_trip(b0, a0);
        self.shard.lemma_round_trip(b1, a1);
        self.beacon_block_hash.lemma_round_trip(b2, a2);
        self.epoch_boundary_hash.lemma_round_trip(b3, a3);
        self.shard_block_hash.lemma_round_trip(b4, a4);
        self.latest_crosslink_hash.lemma_round_trip(b5, a5);
        self.justified_slot.lemma_round_trip(b6, a6);
        self.justified_block_hash.lemma_round_trip(b7, a7);
        assert(all =~= b0 + f0 + a0);
        assert(all =~= b1 + f1 + a1);
        assert(all =~= b2 + f2 + a2);
        assert(all =~= b3 + f3 + a3);
        assert(all =~= b4 + f4 + a4);
        assert(all =~= b5 + f5 + a5);
        assert(all =~= b6 + f6 + a6);
        assert(all =~= b7 + f7 + a7);
    }
}

impl AttestationData {
    /// The encoding of an attestation's vote has always the same length.
    pub proof fn lemma_ssz_length(&self)
        ensures
            self.ssz_bytes().len() == SSZ_ATTESTATION_DATA_LENGTH,
    {
        vstd::bytes::lemma_auto_spec_u64_to_from_le_bytes();
    }
}

impl TestRandom for AttestationData {
    fn random_for_test(rng: &mut XorShiftRng) -> AttestationData {
        AttestationData {
            slot: <_>::random_for_test(rng),
            shard: <_>::random_for_test(rng),
            beacon_block_hash: <_>::random_for_test(rng),
            epoch_boundary_hash: <_>::random_for_test(rng),
            shard_block_hash: <_>::random_for_test(rng),
            latest_crosslink_hash: <_>::random_for_test(rng),
            justified_slot: <_>::random_for_test(rng),
            justified_block_hash: <_>::random_for_test(rng),
        }
    }
}

impl AttestationData {
    /// The vote whose numbers and hashes are all zero.
    pub open spec fn zeroed() -> AttestationData {
        AttestationData {
            slot: 0,
            shard: 0,
            beacon_block_hash: Hash256::spec_zero(),
            epoch_boundary_hash: Hash256::spec_zero(),
            shard_block_hash: Hash256::spec_zero(),
            latest_crosslink_hash: Hash256::spec_zero(),
            justified_slot: 0,
            justified_block_hash: Hash256::spec_zero(),
        }
    }
}

impl Default for AttestationData {
    /// The vote whose numbers and hashes are all zero.
    fn default() -> (data: AttestationData)
        ensures
            data == AttestationData::zeroed(),
    {
        AttestationData {
            slot: 0,
            shard: 0,
            beacon_block_hash: Hash256::zero(),
            epoch_boundary_hash: Hash256::zero(),
            shard_block_hash: Hash256::zero(),
            latest_crosslink_hash: Hash256::zero(),
            justified_slot: 0,
            justified_block_hash: Hash256::zero(),
        }
    }
}

} // verus!
