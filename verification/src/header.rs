//! Block headers, and the hash that names them.
use vstd::prelude::*;

use crate::types::BlockHash;

verus! {

/// The six fields of a block header.
#[derive(Clone, Copy, Debug, PartialEq, Eq)]
pub struct BlockHeader {
    pub version: i32,
    pub prev_blockhash: BlockHash,
    pub merkle_root: [u8; 32],
    pub time: u32,
    pub bits: u32,
    pub nonce: u32,
}

/// The hash of the header made of these fields: the double SHA-256 of its 80 bytes.
pub uninterp spec fn header_hash(
    version: i32,
    prev_blockhash: Seq<u8>,
    merkle_root: Seq<u8>,
    time: u32,
    bits: u32,
    nonce: u32,
) -> Seq<u8>;

impl BlockHeader {
    /// The hash of this header.
    pub open spec fn hash_bytes(self) -> Seq<u8> {
        header_hash(
            self.version,
            self.prev_blockhash@,
            self.merkle_root@,
            self.time,
            self.bits,
            self.nonce,
        )
    }

    /// The hash of this header.
    pub fn block_hash(&self) -> (hash: BlockHash)
        ensures
            hash@ == self.hash_bytes(),
    {
        hash_header(self)
    }
}

/// Calls `bitcoin::block::Header::block_hash` on the header with the given fields. The result is
/// a function of the six fields alone, under the name [`header_hash`].
#[verifier::external_body]
fn hash_header(header: &BlockHeader) -> (hash: BlockHash)
    ensures
        hash@ == header_hash(
            header.version,
            header.prev_blockhash@,
            header.merkle_root@,
            header.time,
            header.bits,
            header.nonce,
        ),
{
    let outside = bitcoin::block::Header {
        version: bitcoin::block::Version::from_consensus(header.version),
        prev_blockhash: bitcoin::hashes::Hash::from_byte_array(header.prev_blockhash.bytes),
        merkle_root: bitcoin::hashes::Hash::from_byte_array(header.merkle_root),
        time: header.time,
        bits: bitcoin::CompactTarget::from_consensus(header.bits),
        nonce: header.nonce,
    };
    BlockHash { bytes: bitcoin::hashes::Hash::to_byte_array(outside.block_hash()) }
}

/// The hash of a header is that of its own six fields, each in its place.
pub proof fn headers_are_hashed_field_by_field(header: BlockHeader, hash: BlockHash)
    requires
        call_ensures(BlockHeader::block_hash, (&header,), hash),
    ensures
        hash.bytes@ == header_hash(
            header.version,
            header.prev_blockhash.bytes@,
            header.merkle_root@,
            header.time,
            header.bits,
            header.nonce,
        ),
{
}

} // verus!
