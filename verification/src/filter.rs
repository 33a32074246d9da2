//! Compact block filters, and whether one of them matches any of the scripts to look for.
use vstd::prelude::*;

use crate::scripts::bytes_of;
use crate::types::BlockHash;

verus! {

/// The number by which BIP 158 multiplies the element count of a filter.
pub open spec fn filter_m() -> nat {
    784_931
}

/// The longest filter content, in bytes, whose elements are sure to lie within 64 bits: each of its
/// bits raises an element by at most 2^19.
pub open spec fn max_content_len() -> nat {
    0x400_0000_0000
}

/// The number that some bytes make, the least significant byte first.
pub open spec fn little_endian(bytes: Seq<u8>) -> nat
    decreases bytes.len(),
{
    if bytes.len() == 0 {
        0
    } else {
        bytes[0] as nat + 256 * little_endian(bytes.drop_first())
    }
}

/// The element count that a filter content declares, where it takes eight bytes to declare it;
/// else zero. Shorter declarations hold less than 32 bits.
pub open spec fn wide_count(content: Seq<u8>) -> nat {
    if content.len() >= 9 && content[0] == 0xff {
        little_endian(content.subrange(1, 9))
    } else {
        0
    }
}

/// Whether a filter content can be read without exceeding 64 bits.
pub open spec fn readable(content: Seq<u8>) -> bool {
    content.len() <= max_content_len() && wide_count(content) * filter_m() <= u64::MAX
}

/// Whether the filter of a block, given by its content and the block's hash, matches any of some
/// scripts; `None` where the content ends before that can be told.
pub uninterp spec fn filter_match_any(
    content: Seq<u8>,
    block_hash: Seq<u8>,
    scripts: Seq<Seq<u8>>,
) -> Option<bool>;

/// Calls `bitcoin::bip158::BlockFilter::match_any` on the filter with the given content. The
/// result is a function of the content, the block hash and the scripts alone, under the name
/// [`filter_match_any`]; an outside error is `None`.
#[verifier::external_body]
fn match_any(content: &Vec<u8>, block_hash: &BlockHash, scripts: &Vec<Vec<u8>>) -> (matched: Option<
    bool,
>)
    requires
        readable(content@),
    ensures
        matched == filter_match_any(content@, block_hash@, bytes_of(scripts@)),
{
    let filter = bitcoin::bip158::BlockFilter::new(content);
    let hash: bitcoin::BlockHash = bitcoin::hashes::Hash::from_byte_array(block_hash.bytes);
    filter.match_any(&hash, scripts.iter().map(|script| script.as_slice())).ok()
}

/// A compact block filter with the height and the hash of its block.
pub struct IndexedFilter {
    height: u32,
    block_hash: BlockHash,
    content: Vec<u8>,
}

/// What a filter is made of.
pub struct FilterParts {
    pub height: u32,
    pub block_hash: BlockHash,
    pub content: Seq<u8>,
}

impl View for IndexedFilter {
    type V = FilterParts;

    closed spec fn view(&self) -> FilterParts {
        FilterParts {
            height: self.height,
            block_hash: self.block_hash,
            content: self.content@,
        }
    }
}

fn wide_count_of(content: &Vec<u8>) -> (count: u64)
    ensures
        count == wide_count(content@),
{
    if content.len() < 9 || content[0] != 0xff {
        return 0;
    }
    let mut count: u64 = 0;
    let mut i: usize = 9;
    let ghost bytes = content@.subrange(1, 9);
    assert(bytes.skip(8) =~= Seq::empty());
    while i > 1
        invariant
            1 <= i <= 9,
            content@.len() >= 9,
            bytes == content@.subrange(1, 9),
            count == little_endian(bytes.skip(i - 1)),
            i == 9 ==> count == 0,
            i == 8 ==> count < 0x100,
            i == 7 ==> count < 0x1_0000,
            i == 6 ==> count < 0x100_0000,
            i == 5 ==> count < 0x1_0000_0000,
            i == 4 ==> count < 0x100_0000_0000,
            i == 3 ==> count < 0x1_0000_0000_0000,
            i == 2 ==> count < 0x100_0000_0000_0000,
        decreases i,
    {
        i -= 1;
        assert(bytes.skip(i - 1).drop_first() =~= bytes.skip(i as int));
        assert(bytes.skip(i - 1)[0] == content@[i as int]);
        count = content[i] as u64 + 256 * count;
    }
    assert(bytes.skip(0) =~= bytes);
    count
}

/// Whether a filter matches any of some scripts: never where there is no script; `None` where the
/// content cannot be read so far that it can be told.
pub open spec fn filter_matches(filter: FilterParts, scripts: Seq<Seq<u8>>) -> Option<bool> {
    if scripts.len() == 0 {
        Some(false)
    } else if !readable(filter.content) {
        None
    } else {
        filter_match_any(filter.content, filter.block_hash@, scripts)
    }
}

impl IndexedFilter {
    /// The filter of a block.
    pub fn new(height: u32, block_hash: BlockHash, content: Vec<u8>) -> (filter: IndexedFilter)
        ensures
            filter@ == (FilterParts { height, block_hash, content: content@ }),
    {
        IndexedFilter { height, block_hash, content }
    }

    /// The height in the chain.
    pub fn height(&self) -> (height: u32)
        ensures
            height == self@.height,
    {
        self.height
    }

    /// The hash of the block.
    pub fn block_hash(&self) -> (hash: BlockHash)
        ensures
            hash == self@.block_hash,
    {
        self.block_hash
    }

    fn is_readable(&self) -> (yes: bool)
        ensures
            yes == readable(self@.content),
    {
        let count: u64 = wide_count_of(&self.content);
        self.content.len() as u64 <= 0x400_0000_0000 && count <= u64::MAX / 784_931
    }

    /// Does the filter contain a positive match for any of the provided scripts? Without a script
    /// there is no match; `None` where the content ends before that can be told, or declares more
    /// than 64 bits can count.
    pub fn contains_any(&self, scripts: &Vec<Vec<u8>>) -> (matched: Option<bool>)
        ensures
            matched == filter_matches(self@, bytes_of(scripts@)),
    {
        if scripts.len() == 0 {
            return Some(false);
        }
        if !self.is_readable() {
            return None;
        }
        match_any(&self.content, &self.block_hash, scripts)
    }
}

/// A filter that can be read is matched against all the scripts given, under its own block hash.
/// Every filter of up to 2^42 bytes can be read, unless it takes eight bytes to declare more
/// elements than 64 bits can count. Without a script nothing matches.
pub proof fn filters_are_matched_against_all_scripts(
    filter: IndexedFilter,
    scripts: Vec<Vec<u8>>,
    matched: Option<bool>,
)
    requires
        call_ensures(IndexedFilter::contains_any, (&filter, &scripts), matched),
    ensures
        scripts@.len() == 0 ==> matched == Some(false),
        scripts@.len() > 0 ==> ({
            let content = filter@.content;
            let count = content[1] + content[2] * 0x100 + content[3] * 0x1_0000 + content[4]
                * 0x100_0000 + content[5] * 0x1_0000_0000 + content[6] * 0x100_0000_0000
                + content[7] * 0x1_0000_0000_0000 + content[8] * 0x100_0000_0000_0000;
            let too_many = content.len() >= 9 && content[0] == 0xff && count * 784_931 > u64::MAX;
            if content.len() <= 0x400_0000_0000 && !too_many {
                matched == filter_match_any(
                    content,
                    filter@.block_hash.bytes@,
                    scripts@.map_values(|script: Vec<u8>| script@),
                )
            } else {
                matched is None
            }
        }),
{
    let content = filter@.content;
    if content.len() >= 9 && content[0] == 0xff {
        let bytes = content.subrange(1, 9);
        reveal_with_fuel(little_endian, 9);
        assert(bytes.len() == 8);
        let b1 = bytes.drop_first();
        let b2 = b1.drop_first();
        let b3 = b2.drop_first();
        let b4 = b3.drop_first();
        let b5 = b4.drop_first();
        let b6 = b5.drop_first();
        let b7 = b6.drop_first();
        assert(bytes[0] == content[1] && b1[0] == content[2] && b2[0] == content[3] && b3[0]
            == content[4] && b4[0] == content[5] && b5[0] == content[6] && b6[0] == content[7]
            && b7[0] == content[8]);
        assert(b7.drop_first().len() == 0);
    }
    assert(bytes_of(scripts@) =~= scripts@.map_values(|script: Vec<u8>| script@));
}

/// A filter has the height, the hash and the content that it was made of.
pub proof fn filters_keep_their_parts(
    height: u32,
    block_hash: BlockHash,
    content: Vec<u8>,
    filter: IndexedFilter,
    its_height: u32,
    its_hash: BlockHash,
)
    requires
        call_ensures(IndexedFilter::new, (height, block_hash, content), filter),
        call_ensures(IndexedFilter::height, (&filter,), its_height),
        call_ensures(IndexedFilter::block_hash, (&filter,), its_hash),
    ensures
        its_height == height,
        its_hash == block_hash,
        filter@.content == content@,
        filter@.block_hash == block_hash,
{
}

} // verus!
