//! Where a rebuilt node resumes: far enough below the wallet's tip for a reorganization.
use bdk_chain::CheckPoint;
use vstd::prelude::*;

use crate::types::{BestBlock, BlockHash};

verus! {

/// Number of blocks to walk back from a component's persisted best block height
/// for reorg safety when computing the incremental scan skip height.
pub const REORG_SAFETY_BLOCKS: u32 = 7;

/// `bdk_chain::CheckPoint`: a linked list of blocks, from a tip back to a base.
#[verifier::external_type_specification]
#[verifier::external_body]
pub struct ExCheckPoint(bdk_chain::CheckPoint);

/// The blocks of a checkpoint list by height and hash, the tip first.
pub uninterp spec fn checkpoint_blocks(checkpoint: CheckPoint) -> Seq<(u32, Seq<u8>)>;

/// Whether the heights descend.
pub open spec fn heights_descend(blocks: Seq<(u32, Seq<u8>)>) -> bool {
    forall|i: int, j: int| 0 <= i < j < blocks.len() ==> blocks[i].0 > blocks[j].0
}

/// Whether some blocks begin with the one of this height and hash, and descend from there.
pub open spec fn descend_from(blocks: Seq<(u32, Seq<u8>)>, height: u32, hash: Seq<u8>) -> bool {
    &&& blocks.len() > 0
    &&& blocks[0] == (height, hash)
    &&& heights_descend(blocks)
}

/// Calls `bdk_chain::CheckPoint::block_id`: the height and the hash of the first block, which every
/// list has and from which all the others descend, because a block can only be pushed onto a list
/// of lower ones.
#[verifier::external_body]
fn tip_of(checkpoint: &CheckPoint) -> (tip: BestBlock)
    ensures
        descend_from(checkpoint_blocks(*checkpoint), tip.height, tip.block_hash@),
{
    let id = checkpoint.block_id();
    let bytes = bitcoin::hashes::Hash::to_byte_array(id.hash);
    BestBlock { block_hash: BlockHash { bytes }, height: id.height }
}

/// Calls `bdk_chain::CheckPoint::prev`: the list without its first block; `None` where that was
/// the only block.
#[verifier::external_body]
fn previous_of(checkpoint: &CheckPoint) -> (previous: Option<CheckPoint>)
    ensures
        match previous {
            Some(rest) => checkpoint_blocks(*checkpoint).len() > 1 && checkpoint_blocks(rest)
                == checkpoint_blocks(*checkpoint).drop_first(),
            None => checkpoint_blocks(*checkpoint).len() == 1,
        },
{
    checkpoint.prev()
}

/// The height to walk back to from a tip.
pub open spec fn safe_height(tip: u32) -> u32 {
    if tip < REORG_SAFETY_BLOCKS {
        0
    } else {
        (tip - REORG_SAFETY_BLOCKS) as u32
    }
}

/// The first block that is not above `target`, or the last block where all are above.
pub open spec fn walk_back(blocks: Seq<(u32, Seq<u8>)>, target: u32) -> (u32, Seq<u8>)
    recommends
        blocks.len() > 0,
    decreases blocks.len(),
{
    if blocks.len() <= 1 || blocks[0].0 <= target {
        blocks[0]
    } else {
        walk_back(blocks.drop_first(), target)
    }
}

/// The block strictly after which a node with these checkpoints resumes; none where that would be
/// the genesis block.
pub open spec fn resume_point(blocks: Seq<(u32, Seq<u8>)>) -> Option<(u32, Seq<u8>)> {
    let block = walk_back(blocks, safe_height(blocks[0].0));
    if block.0 > 0 {
        Some(block)
    } else {
        None
    }
}

/// Whether a found block is the one that `resume_point` describes.
pub open spec fn is_block(found: Option<BestBlock>, described: Option<(u32, Seq<u8>)>) -> bool {
    match described {
        Some(block) => found matches Some(best) && best.height == block.0 && best.block_hash@
            == block.1,
        None => found is None,
    }
}

/// The block to resume after, for a wallet whose latest checkpoint is `checkpoint`: the first one
/// that lies at least [`REORG_SAFETY_BLOCKS`] below the tip, or else the base.
pub fn resume_checkpoint(checkpoint: CheckPoint) -> (resume: Option<BestBlock>)
    ensures
        is_block(resume, resume_point(checkpoint_blocks(checkpoint))),
        heights_descend(checkpoint_blocks(checkpoint)),
        reorg_safe(checkpoint_blocks(checkpoint), resume_point(checkpoint_blocks(checkpoint))),
{
    let ghost blocks = checkpoint_blocks(checkpoint);
    let mut cursor: CheckPoint = checkpoint;
    let mut block: BestBlock = tip_of(&cursor);
    let target: u32 = block.height.saturating_sub(REORG_SAFETY_BLOCKS);
    proof {
        resume_point_is_reorg_safe(blocks);
    }
    while block.height > target
        invariant_except_break
            descend_from(checkpoint_blocks(cursor), block.height, block.block_hash@),
            walk_back(checkpoint_blocks(cursor), target) == walk_back(blocks, target),
        ensures
            (block.height, block.block_hash@) == walk_back(blocks, target),
        decreases checkpoint_blocks(cursor).len(),
    {
        match previous_of(&cursor) {
            Some(previous) => {
                cursor = previous;
                block = tip_of(&cursor);
            },
            None => {
                break;
            },
        }
    }
    if block.height > 0 {
        Some(block)
    } else {
        None
    }
}

/// Whether resuming at a block is safe against reorganizations of these checkpoints: it is one of
/// them, it lies at least [`REORG_SAFETY_BLOCKS`] below the tip or else is the base, and no higher
/// checkpoint lies that far below; and where there is no such block, the base is the genesis block.
pub open spec fn reorg_safe(
    blocks: Seq<(u32, Seq<u8>)>,
    resume: Option<(u32, Seq<u8>)>,
) -> bool {
    match resume {
        Some(block) => {
            &&& blocks.contains(block)
            &&& block.0 + REORG_SAFETY_BLOCKS <= blocks[0].0 || block == blocks.last()
            &&& forall|i: int|
                0 <= i < blocks.len() && (#[trigger] blocks[i]).0 <= safe_height(blocks[0].0)
                    ==> blocks[i].0 <= block.0
        },
        None => blocks.last().0 == 0,
    }
}

/// Resuming is safe against reorganizations: where the checkpoints reach at least that far back,
/// the node resumes at least [`REORG_SAFETY_BLOCKS`] below the tip, and at the highest checkpoint
/// that lies there; and it never resumes at a block that the wallet does not have.
pub proof fn resume_point_is_reorg_safe(blocks: Seq<(u32, Seq<u8>)>)
    requires
        blocks.len() > 0,
        heights_descend(blocks),
    ensures
        reorg_safe(blocks, resume_point(blocks)),
{
    walk_back_stops_in_time(blocks, safe_height(blocks[0].0));
}

proof fn walk_back_stops_in_time(blocks: Seq<(u32, Seq<u8>)>, target: u32)
    requires
        blocks.len() > 0,
        heights_descend(blocks),
    ensures
        blocks.contains(walk_back(blocks, target)),
        walk_back(blocks, target).0 <= target || walk_back(blocks, target) == blocks.last(),
        forall|i: int|
            0 <= i < blocks.len() && (#[trigger] blocks[i]).0 <= target ==> blocks[i].0
                <= walk_back(blocks, target).0,
        walk_back(blocks, target).0 >= blocks.last().0,
        walk_back(blocks, target).0 == 0 ==> walk_back(blocks, target) == blocks.last(),
    decreases blocks.len(),
{
    if blocks.len() > 1 && blocks[0].0 > target {
        let rest = blocks.drop_first();
        walk_back_stops_in_time(rest, target);
        let i = choose|i: int| 0 <= i < rest.len() && rest[i] == walk_back(rest, target);
        assert(blocks[i + 1] == walk_back(blocks, target));
        assert forall|i: int|
            0 <= i < blocks.len() && (#[trigger] blocks[i]).0 <= target implies blocks[i].0
            <= walk_back(blocks, target).0 by {
            assert(rest[i - 1] == blocks[i]);
        }
    } else {
        assert(blocks[0] == walk_back(blocks, target));
    }
}

/// A node resumes after the first checkpoint, from the tip down, that lies at least seven blocks
/// below the tip, and where none does after the last one; but never after the genesis block.
pub proof fn nodes_resume_seven_blocks_below_the_tip(
    checkpoint: CheckPoint,
    resume: Option<BestBlock>,
    i: int,
)
    requires
        call_ensures(resume_checkpoint, (checkpoint,), resume),
        0 <= i < checkpoint_blocks(checkpoint).len(),
        checkpoint_blocks(checkpoint)[i].0 + 7 <= checkpoint_blocks(checkpoint)[0].0 || i + 1
            == checkpoint_blocks(checkpoint).len(),
        forall|j: int|
            0 <= j < i ==> (#[trigger] checkpoint_blocks(checkpoint)[j]).0 + 7
                > checkpoint_blocks(checkpoint)[0].0,
    ensures
        match resume {
            Some(block) => block.height > 0 && (block.height, block.block_hash.bytes@)
                == checkpoint_blocks(checkpoint)[i],
            None => checkpoint_blocks(checkpoint)[i].0 == 0,
        },
{
    let blocks = checkpoint_blocks(checkpoint);
    walk_back_finds_the_first(blocks, safe_height(blocks[0].0), i);
}

proof fn walk_back_finds_the_first(blocks: Seq<(u32, Seq<u8>)>, target: u32, i: int)
    requires
        0 <= i < blocks.len(),
        heights_descend(blocks),
        blocks[i].0 <= target || i + 1 == blocks.len(),
        forall|j: int| 0 <= j < i ==> (#[trigger] blocks[j]).0 > target,
    ensures
        walk_back(blocks, target) == blocks[i],
    decreases i,
{
    if i > 0 {
        let rest = blocks.drop_first();
        assert(blocks[0].0 > target);
        assert(rest[i - 1] == blocks[i]);
        assert forall|j: int| 0 <= j < i - 1 implies (#[trigger] rest[j]).0 > target by {
            assert(rest[j] == blocks[j + 1]);
        }
        walk_back_finds_the_first(rest, target, i - 1);
    }
}

} // verus!
