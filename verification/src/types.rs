//! Plain values shared by every module: hashes, slots, epochs and peer handles.

use vstd::prelude::*;

verus! {

/// Number of a slot, the unit of time in which one block may be proposed.
pub type Slot = u64;

/// Number of an epoch, a fixed-size group of consecutive slots.
pub type Epoch = u64;

/// Handle under which the transport names a connected peer.
pub type PeerId = u64;

/// A 32-byte hash.
#[derive(Debug, Clone, Copy, PartialEq, Eq, Hash)]
pub struct Hash256 {
    pub bytes: [u8; 32],
}

impl Hash256 {
    /// The hash that holds `bytes`, where there are 32 of them; some hash
    /// where there are not.
    pub closed spec fn of_bytes(bytes: Seq<u8>) -> Hash256 {
        choose|h: Hash256| h.bytes@ == bytes
    }

    /// Two hashes that hold the same bytes are the same hash.
    pub proof fn lemma_same_bytes(a: Hash256, b: Hash256)
        requires
            a.bytes@ == b.bytes@,
        ensures
            a == b,
    {
        assert(a.bytes =~= b.bytes);
    }

    /// There is a hash for every 32 bytes.
    pub proof fn lemma_of_bytes(bytes: Seq<u8>)
        requires
            bytes.len() == 32,
        ensures
            Hash256::of_bytes(bytes).bytes@ == bytes,
    {
        let zero = vstd::array::spec_array_fill_for_copy_type::<u8, 32>(0u8);
        let filled = Hash256::fill(zero, bytes, 32);
        Hash256::lemma_fill(zero, bytes, 32);
        let h = Hash256 { bytes: filled };
        assert(h.bytes@ =~= bytes);
    }

    /// The array `a` with its first `n` places taken from `bytes`.
    spec fn fill(a: [u8; 32], bytes: Seq<u8>, n: nat) -> [u8; 32]
        decreases n,
    {
        if n == 0 {
            a
        } else {
            vstd::array::spec_array_update(
                Hash256::fill(a, bytes, (n - 1) as nat),
                n - 1,
                bytes[n - 1],
            )
        }
    }

    /// The first `n` places of the filled array hold the first `n` bytes.
    proof fn lemma_fill(a: [u8; 32], bytes: Seq<u8>, n: nat)
        requires
            n <= 32,
            bytes.len() == 32,
        ensures
            forall|i: int| 0 <= i < n ==> Hash256::fill(a, bytes, n)@[i] == bytes[i],
            Hash256::fill(a, bytes, n)@.len() == 32,
        decreases n,
    {
        broadcast use vstd::array::group_array_axioms;

        if n > 0 {
            Hash256::lemma_fill(a, bytes, (n - 1) as nat);
        }
    }

    /// The hash that holds the 32 bytes of `bytes`.
    pub fn from_slice(bytes: &[u8]) -> (h: Hash256)
        requires
            bytes@.len() == 32,
        ensures
            h == Hash256::of_bytes(bytes@),
            h.bytes@ == bytes@,
    {
        let mut array = [0u8; 32];
        let mut i: usize = 0;
        while i < 32
            invariant
                i <= 32,
                bytes@.len() == 32,
                forall|k: int| 0 <= k < i ==> array@[k] == bytes@[k],
            decreases 32 - i,
        {
            array[i] = bytes[i];
            i += 1;
        }
        let h = Hash256 { bytes: array };
        proof {
            assert(h.bytes@ =~= bytes@);
            Hash256::lemma_of_bytes(bytes@);
            Hash256::lemma_same_bytes(h, Hash256::of_bytes(bytes@));
        }
        h
    }

    /// The hash whose bytes are all zero.
    pub open spec fn spec_zero() -> Hash256 {
        Hash256 { bytes: vstd::array::spec_array_fill_for_copy_type::<u8, 32>(0u8) }
    }

    /// The hash whose bytes are all zero.
    pub fn zero() -> (h: Hash256)
        ensures
            h == Hash256::spec_zero(),
            forall|i: int| 0 <= i < 32 ==> h.bytes@[i] == 0,
    {
        broadcast use vstd::array::group_array_axioms;

        Hash256 { bytes: [0u8; 32] }
    }
}

impl Default for Hash256 {
    /// The hash whose bytes are all zero.
    fn default() -> (h: Hash256)
        ensures
            h == Hash256::spec_zero(),
    {
        Hash256::zero()
    }
}

} // verus!
