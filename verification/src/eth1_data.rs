//! What a block says of the deposit contract.

use crate::ssz::{holds, parsed, Decodable, DecodeError, Encodable, SszStream};
use crate::tree_hash::{merkle_hash, merkle_root, parts_of, TreeHash};
use crate::types::Hash256;
use crate::test_random::TestRandom;
use rand::prng::XorShiftRng;
use vstd::prelude::*;

verus! {

/// The state of the deposit contract as a block of the other chain shows it.
#[derive(Debug, Clone, Copy, PartialEq, Eq)]
pub struct Eth1Data {
    pub deposit_root: Hash256,
    pub block_hash: Hash256,
}

impl Encodable for Eth1Data {
    open spec fn ssz_bytes(&self) -> Seq<u8> {
        self.deposit_root.ssz_bytes() + self.block_hash.ssz_bytes()
    }

    fn ssz_append(&self, s: &mut SszStream) {
        s.append(&self.deposit_root);
        s.append(&self.block_hash);
        assert(s@ =~= old(s)@ + self.ssz_bytes());
    }
}

impl Decodable for Eth1Data {
    open spec fn ssz_parse(bytes: Seq<u8>, index: int) -> Result<(Eth1Data, int), DecodeError> {
        if holds(bytes, index, 64) {
            Ok(
                (
                    Eth1Data {
                        deposit_root: parsed::<Hash256>(bytes, index),
                        block_hash: parsed::<Hash256>(bytes, index + 32),
                    },
                    index + 64,
                ),
            )
        } else {
            Err(DecodeError::TooShort)
        }
    }

    fn ssz_decode(bytes: &[u8], i: usize) -> (decoded: Result<(Eth1Data, usize), DecodeError>) {
        let (deposit_root, i) = match Hash256::ssz_decode(bytes, i) {
            Ok(field) => field,
            Err(e) => { return Err(e); },
        };
        let (block_hash, i) = match Hash256::ssz_decode(bytes, i) {
            Ok(field) => field,
            Err(e) => { return Err(e); },
        };
        Ok((Eth1Data { deposit_root, block_hash }, i))
    }

    proof fn lemma_round_trip(&self, before: Seq<u8>, after: Seq<u8>) {
        let all = before + self.ssz_bytes() + after;
        let root = self.deposit_root.ssz_bytes();
        let hash = self.block_hash.ssz_bytes();
        self.deposit_root.lemma_round_trip(before, hash + after);
        self.block_hash.lemma_round_trip(before + root, after);
        assert(all =~= before + root + (hash + after));
        assert(all =~= before + root + hash + after);
    }
}

impl TreeHash for Eth1Data {
    open spec fn tree_hash(&self) -> Seq<u8> {
        merkle_root(seq![self.deposit_root.tree_hash(), self.block_hash.tree_hash()])
    }

    fn hash_tree_root_internal(&self) -> (root: Vec<u8>) {
        let mut list: Vec<Vec<u8>> = Vec::new();
        list.push(self.deposit_root.hash_tree_root_internal());
        list.push(self.block_hash.hash_tree_root_internal());
        proof {
            let parts = seq![self.deposit_root.tree_hash(), self.block_hash.tree_hash()];
            assert(parts_of(&list) =~= parts);
        }
        merkle_hash(&list)
    }
}

impl TestRandom for Eth1Data {
    fn random_for_test(rng: &mut XorShiftRng) -> Eth1Data {
        Eth1Data {
            deposit_root: <_>::random_for_test(rng),
            block_hash: <_>::random_for_test(rng),
        }
    }
}

impl Eth1Data {
    /// The state whose hashes are all zero.
    pub open spec fn zeroed() -> Eth1Data {
        Eth1Data { deposit_root: Hash256::spec_zero(), block_hash: Hash256::spec_zero() }
    }
}

impl Default for Eth1Data {
    /// The state whose hashes are all zero.
    fn default() -> (data: Eth1Data)
        ensures
            data == Eth1Data::zeroed(),
    {
        Eth1Data { deposit_root: Hash256::zero(), block_hash: Hash256::zero() }
    }
}

} // verus!
