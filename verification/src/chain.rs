//! Hash-stamped audit block: an index, a timestamp, a payload and the
//! digest of the previous block, sealed with a digest of its own fields.

use vstd::prelude::*;

use crate::clock::now_millis;

verus! {

/// Digest of a block's four fields.  The standard hasher's result takes
/// pages to state, so it is only named here; the trusted wrapper below ties
/// the name to the computation.
pub uninterp spec fn block_digest(index: u64, timestamp: i64, data: Seq<char>, prev_hash: u64) -> u64;

/// Relies on std's `DefaultHasher`: instances created by
/// `DefaultHasher::new` are documented to hash identically, so the digest
/// of the four fields depends on the fields alone.
#[verifier::external_body]
fn hash_block_fields(index: u64, timestamp: i64, data: &str, prev_hash: u64) -> (r: u64)
    ensures
        r == block_digest(index, timestamp, data@, prev_hash),
{
    let mut hasher = std::collections::hash_map::DefaultHasher::new();
    std::hash::Hash::hash(&index, &mut hasher);
    std::hash::Hash::hash(&timestamp, &mut hasher);
    std::hash::Hash::hash(data, &mut hasher);
    std::hash::Hash::hash(&prev_hash, &mut hasher);
    std::hash::Hasher::finish(&hasher)
}

/// One audit block.
#[derive(Debug)]
pub struct Block {
    pub index: u64,
    /// Milliseconds since the Unix epoch, stamped at creation.
    pub timestamp: i64,
    pub data: String,
    pub prev_hash: u64,
    pub hash: u64,
}

impl Block {
    /// Build a block over a payload, stamped with the current time and
    /// sealed with the digest of its own fields.
    pub fn new(index: u64, data: String, prev_hash: u64) -> (r: Block)
        ensures
            r.index == index,
            r.data == data,
            r.prev_hash == prev_hash,
            r.hash == block_digest(r.index, r.timestamp, r.data@, r.prev_hash),
    {
        let timestamp = now_millis();
        let hash = hash_block_fields(index, timestamp, data.as_str(), prev_hash);
        Block { index, timestamp, data, prev_hash, hash }
    }

    /// Recompute the digest of the block's fields, so that a stored `hash`
    /// can be checked against it.
    pub fn calculate_hash(&self) -> (r: u64)
        ensures
            r == block_digest(self.index, self.timestamp, self.data@, self.prev_hash),
    {
        hash_block_fields(self.index, self.timestamp, self.data.as_str(), self.prev_hash)
    }
}

} // verus!
