//! The votes that one state of the deposit contract has gathered.

use crate::eth1_data::Eth1Data;
use crate::ssz::{Decodable, DecodeError, Encodable, SszStream};
use crate::test_random::TestRandom;
use crate::tree_hash::{merkle_hash, merkle_root, parts_of, TreeHash};
use rand::prng::XorShiftRng;
use vstd::prelude::*;

verus! {

/// A summation of votes for some `Eth1Data`.
#[derive(Debug, Clone, Copy, PartialEq, Eq)]
pub struct Eth1DataVote {
    pub eth1_data: Eth1Data,
    pub vote_count: u64,
}

impl Encodable for Eth1DataVote {
    open spec fn ssz_bytes(&self) -> Seq<u8> {
        self.eth1_data.ssz_bytes() + self.vote_count.ssz_bytes()
    }

    fn ssz_append(&self, s: &mut SszStream) {
        s.append(&self.eth1_data);
        s.append(&self.vote_count);
        assert(s@ =~= old(s)@ + self.ssz_bytes());
    }
}

impl Decodable for Eth1DataVote {
    open spec fn ssz_parse(bytes: Seq<u8>, index: int) -> Result<(Eth1DataVote, int), DecodeError> {
        match Eth1Data::ssz_parse(bytes, index) {
            Ok((eth1_data, next)) => match u64::ssz_parse(bytes, next) {
                Ok((vote_count, end)) => Ok((Eth1DataVote { eth1_data, vote_count }, end)),
                Err(e) => Err(e),
            },
            Err(e) => Err(e),
        }
    }

    fn ssz_decode(bytes: &[u8], i: usize) -> (decoded: Result<(Eth1DataVote, usize), DecodeError>) {
        let (eth1_data, i) = match Eth1Data::ssz_decode(bytes, i) {
            Ok(field) => field,
            Err(e) => { return Err(e); },
        };
        let (vote_count, i) = match u64::ssz_decode(bytes, i) {
            Ok(field) => field,
            Err(e) => { return Err(e); },
        };
        Ok((Eth1DataVote { eth1_data, vote_count }, i))
    }

    proof fn lemma_round_trip(&self, before: Seq<u8>, after: Seq<u8>) {
        let all = before + self.ssz_bytes() + after;
        let data = self.eth1_data.ssz_bytes();
        let count = self.vote_count.ssz_bytes();
        self.eth1_data.lemma_round_trip(before, count + after);
        self.vote_count.lemma_round_trip(before + data, after);
        assert(all =~= before + data + (count + after));
        assert(all =~= before + data + count + after);
    }
}

impl TreeHash for Eth1DataVote {
    open spec fn tree_hash(&self) -> Seq<u8> {
        merkle_root(seq![self.eth1_data.tree_hash(), self.vote_count.tree_hash()])
    }

    fn hash_tree_root_internal(&self) -> (root: Vec<u8>) {
        let mut list: Vec<Vec<u8>> = Vec::new();
        list.push(self.eth1_data.hash_tree_root_internal());
        list.push(self.vote_count.hash_tree_root_internal());
        proof {
            let parts = seq![self.eth1_data.tree_hash(), self.vote_count.tree_hash()];
            assert(parts_of(&list) =~= parts);
        }
        merkle_hash(&list)
    }
}

impl TestRandom for Eth1DataVote {
    fn random_for_test(rng: &mut XorShiftRng) -> Eth1DataVote {
        Eth1DataVote {
            eth1_data: <_>::random_for_test(rng),
            vote_count: <_>::random_for_test(rng),
        }
    }
}

impl Default for Eth1DataVote {
    /// No vote for the all-zero state.
    fn default() -> (vote: Eth1DataVote)
        ensures
            vote == (Eth1DataVote { eth1_data: Eth1Data::zeroed(), vote_count: 0 }),
    {
        Eth1DataVote { eth1_data: Eth1Data::default(), vote_count: 0 }
    }
}

} // verus!
