//! The hash of a value as the root of a tree over its parts.
//!
//! The parts are laid out in chunks of 32 bytes, each part filled up with
//! zeros to whole chunks, and the chunks filled up with zero chunks to a power
//! of two. Pairs of chunks are hashed, layer by layer, until one chunk is
//! left, and that chunk is hashed together with the number of parts.

use crate::ssz::{ssz_encode, Encodable};
use crate::types::Hash256;
use vstd::bytes::{spec_u64_to_le_bytes, u64_to_le_bytes};
use vstd::prelude::*;
use vstd::slice::slice_subrange;

verus! {

/// The number of bytes in a chunk.
pub const BYTES_PER_CHUNK: usize = 32;

/// The number of bytes in a digest.
pub const HASHSIZE: usize = 32;

/// The Keccak-256 digest of `input`, as `tiny_keccak::keccak256` computes it.
pub uninterp spec fn keccak256(input: Seq<u8>) -> Seq<u8>;

/// Calls `tiny_keccak::keccak256`, which absorbs the input and squeezes 32
/// bytes out. The digest is a function of the input alone, and it has 32
/// bytes whatever the input.
#[verifier::external_body]
fn hash(input: &[u8]) -> (digest: Vec<u8>)
    ensures
        digest@ == keccak256(input@),
        digest@.len() == HASHSIZE,
{
    tiny_keccak::keccak256(input).to_vec()
}

/// A value that has a tree hash.
pub trait TreeHash {
    /// The tree hash of the value, before it is filled up to a chunk.
    spec fn tree_hash(&self) -> Seq<u8>;

    /// Computes the tree hash of the value. It fits in one chunk.
    fn hash_tree_root_internal(&self) -> (root: Vec<u8>)
        ensures
            root@ == self.tree_hash(),
            root@.len() <= BYTES_PER_CHUNK,
    ;
}

/// `n` zero bytes.
pub open spec fn zeros(n: int) -> Seq<u8> {
    Seq::new(n as nat, |i: int| 0u8)
}

/// The number of zero bytes that fill `len` bytes up to whole chunks.
pub open spec fn padding(len: int) -> int {
    if len % 32 == 0 {
        0
    } else {
        32 - len % 32
    }
}

/// The parts, each filled up with zeros to whole chunks, one after the other.
pub open spec fn packed(list: Seq<Seq<u8>>) -> Seq<u8>
    decreases list.len(),
{
    if list.len() == 0 {
        Seq::empty()
    } else {
        packed(list.drop_last()) + list.last() + zeros(padding(list.last().len() as int))
    }
}

/// The least of `from`, `2 * from`, `4 * from`, ... that is no less than `n`.
pub open spec fn doubled_to(from: int, n: int) -> int
    decreases
            if n > from {
                n - from
            } else {
                0
            },
{
    if from >= n || from <= 0 {
        from
    } else {
        doubled_to(2 * from, n)
    }
}

/// The leaves of the tree: the packed parts, filled up with zero chunks to a
/// power of two of chunks, and to one chunk where there is none.
pub open spec fn leaves(list: Seq<Seq<u8>>) -> Seq<u8> {
    let blob = packed(list);
    blob + zeros(32 * doubled_to(1, blob.len() as int / 32) - blob.len())
}

/// The layer above `blob`: the digests of its pairs of chunks, one after
/// the other.
pub open spec fn layer_above(blob: Seq<u8>) -> Seq<u8>
    decreases blob.len(),
{
    if blob.len() <= 64 {
        keccak256(blob)
    } else {
        keccak256(blob.take(64)) + layer_above(blob.skip(64))
    }
}

/// The one chunk that is left when layer after layer is hashed. A layer
/// that is no shorter than the one below ends the climb; with digests of 32
/// bytes there is none.
pub open spec fn tree_top(blob: Seq<u8>) -> Seq<u8>
    decreases blob.len(),
{
    if blob.len() <= 32 || layer_above(blob).len() >= blob.len() {
        blob
    } else {
        tree_top(layer_above(blob))
    }
}

/// The number of parts, as a chunk.
pub open spec fn length_chunk(len: int) -> Seq<u8> {
    spec_u64_to_le_bytes(len as u64) + zeros(24)
}

/// The tree hash of a value with the parts `list`.
pub open spec fn merkle_root(list: Seq<Seq<u8>>) -> Seq<u8> {
    keccak256(tree_top(leaves(list)) + length_chunk(list.len() as int))
}

/// Appends `n` zero bytes to `bytes`.
fn push_zeros(bytes: &mut Vec<u8>, n: usize)
    ensures
        final(bytes)@ == old(bytes)@ + zeros(n as int),
{
    let mut i: usize = 0;
    assert(bytes@ =~= old(bytes)@ + zeros(0));
    while i < n
        invariant
            i <= n,
            bytes@ == old(bytes)@ + zeros(i as int),
        decreases n - i,
    {
        bytes.push(0u8);
        assert(bytes@ =~= old(bytes)@ + zeros(i + 1));
        i += 1;
    }
}

/// Appends `other` to `bytes`.
fn push_all(bytes: &mut Vec<u8>, other: &[u8])
    ensures
        final(bytes)@ == old(bytes)@ + other@,
{
    let mut i: usize = 0;
    assert(bytes@ =~= old(bytes)@ + other@.take(0));
    while i < other.len()
        invariant
            i <= other.len(),
            bytes@ == old(bytes)@ + other@.take(i as int),
        decreases other.len() - i,
    {
        bytes.push(other[i]);
        assert(bytes@ =~= old(bytes)@ + other@.take(i + 1));
        i += 1;
    }
    assert(other@.take(i as int) =~= other@);
}

/// What `list` holds, part by part.
pub open spec fn parts_of(list: &Vec<Vec<u8>>) -> Seq<Seq<u8>> {
    Seq::new(list@.len(), |i: int| list@[i]@)
}

/// The leaves of the tree over the parts in `list`.
pub fn list_to_blob(list: &Vec<Vec<u8>>) -> (blob: Vec<u8>)
    ensures
        blob@ == leaves(parts_of(list)),
        blob@.len() % 32 == 0,
        blob@.len() >= 32,
{
    let ghost parts = parts_of(list);
    let mut chunks: Vec<u8> = Vec::new();
    let mut i: usize = 0;
    assert(parts.take(0) =~= Seq::<Seq<u8>>::empty());
    while i < list.len()
        invariant
            i <= list.len(),
            parts == parts_of(list),
            chunks@ == packed(parts.take(i as int)),
            chunks@.len() % 32 == 0,
        decreases list.len() - i,
    {
        let item = &list[i];
        let rest = item.len() % BYTES_PER_CHUNK;
        proof {
            assert(parts.take(i + 1).drop_last() =~= parts.take(i as int));
            assert(parts.take(i + 1).last() == item@);
        }
        push_all(&mut chunks, item.as_slice());
        if rest != 0 {
            push_zeros(&mut chunks, BYTES_PER_CHUNK - rest);
        } else {
            assert(chunks@ =~= chunks@ + zeros(0));
        }
        i += 1;
    }
    assert(parts.take(i as int) =~= parts);
    let chunk_count = chunks.len() / BYTES_PER_CHUNK;
    let mut leaf_count: usize = 1;
    while leaf_count < chunk_count
        invariant
            1 <= leaf_count,
            leaf_count < 2 * chunk_count || leaf_count == 1,
            chunk_count <= usize::MAX / 32,
            doubled_to(leaf_count as int, chunk_count as int) == doubled_to(1, chunk_count as int),
        decreases
                if chunk_count > leaf_count {
                    chunk_count - leaf_count
                } else {
                    0
                },
    {
        leaf_count = 2 * leaf_count;
    }
    push_zeros(&mut chunks, (leaf_count - chunk_count) * BYTES_PER_CHUNK);
    chunks
}

/// The layer above `blob`.
fn hash_pairs(blob: &Vec<u8>) -> (above: Vec<u8>)
    requires
        blob@.len() > 0,
    ensures
        above@ == layer_above(blob@),
        above@.len() == 32 * ((blob@.len() + 63) / 64),
{
    let mut above: Vec<u8> = Vec::new();
    let mut at: usize = 0;
    assert(blob@.skip(0) =~= blob@);
    while blob.len() - at > 2 * BYTES_PER_CHUNK
        invariant
            at <= blob@.len(),
            at % 64 == 0,
            blob@.len() - at > 0,
            above@ + layer_above(blob@.skip(at as int)) == layer_above(blob@),
            above@.len() == 32 * (at / 64),
        decreases blob@.len() - at,
    {
        let digest = hash(slice_subrange(blob.as_slice(), at, at + 2 * BYTES_PER_CHUNK));
        proof {
            let rest = blob@.skip(at as int);
            assert(rest.take(64) =~= blob@.subrange(at as int, at + 64));
            assert(rest.skip(64) =~= blob@.skip(at + 64));
            assert(above@ + (keccak256(rest.take(64)) + layer_above(rest.skip(64))) =~= (above@
                + digest@) + layer_above(blob@.skip(at + 64)));
        }
        push_all(&mut above, digest.as_slice());
        at += 2 * BYTES_PER_CHUNK;
    }
    let digest = hash(slice_subrange(blob.as_slice(), at, blob.len()));
    proof {
        assert(blob@.skip(at as int) =~= blob@.subrange(at as int, blob@.len() as int));
    }
    push_all(&mut above, digest.as_slice());
    above
}

/// Returns a 32 byte hash of `list`, a vector of byte vectors: the root of
/// the tree over them.
pub fn merkle_hash(list: &Vec<Vec<u8>>) -> (root: Vec<u8>)
    ensures
        root@ == merkle_root(parts_of(list)),
        root@.len() == HASHSIZE,
{
    // lay the parts out as leaves
    let mut chunks = list_to_blob(list);
    // hash layer after layer, up to the top
    while chunks.len() > HASHSIZE
        invariant
            chunks@.len() > 0,
            tree_top(chunks@) == tree_top(leaves(parts_of(list))),
        decreases chunks@.len(),
    {
        chunks = hash_pairs(&chunks);
    }
    // the number of parts is hashed with the root
    let datalen = u64_to_le_bytes(list.len() as u64);
    push_all(&mut chunks, datalen.as_slice());
    push_zeros(&mut chunks, 24);
    assert(chunks@ =~= tree_top(leaves(parts_of(list))) + length_chunk(list@.len() as int));
    hash(chunks.as_slice())
}

impl TreeHash for u64 {
    open spec fn tree_hash(&self) -> Seq<u8> {
        self.ssz_bytes()
    }

    fn hash_tree_root_internal(&self) -> (root: Vec<u8>) {
        proof {
            vstd::bytes::lemma_auto_spec_u64_to_from_le_bytes();
        }
        ssz_encode(self)
    }
}

impl TreeHash for Hash256 {
    open spec fn tree_hash(&self) -> Seq<u8> {
        self.ssz_bytes()
    }

    fn hash_tree_root_internal(&self) -> (root: Vec<u8>) {
        ssz_encode(self)
    }
}

} // verus!
