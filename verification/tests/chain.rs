use bdk_chain::keychain_txout::KeychainTxOutIndex;
use bdk_chain::local_chain::LocalChain;
use bdk_chain::miniscript::{Descriptor, DescriptorPublicKey};
use bdk_chain::{BlockId, CheckPoint};
use bdk_wallet::KeychainKind;
use bitcoin::hashes::sha256d;
use cbf_chain_source::block_fee::BlockSample;
use cbf_chain_source::checkpoint::resume_checkpoint;
use cbf_chain_source::dispatch::{
    after_block_fetch, after_header_lookup, after_sync_recorded, dispatch_event, on_filter,
    on_reorganization, ChainEvent, DispatchAction, FetchOutcome, IndexedHeader, ListenerAction,
    LookupOutcome, RecordedAction,
};
use cbf_chain_source::filter::IndexedFilter;
use cbf_chain_source::header::BlockHeader;
use cbf_chain_source::scripts::{peek_keychain_scripts, scripts_to_derive, ScriptRegistry};
use cbf_chain_source::types::{BestBlock, BlockHash, Error, FeeRate, Network};
use std::collections::BTreeMap;

const EXTERNAL: &str = "wpkh(xpub6BgBgsespWvERF3LHQu6CnqdvfEvtMcQjYrcRzx53QJjSxarj2afYWcLteoGVky7D3UKDP9QyrLprQ3VCECoY49yfdDEHGCtMMj92pReUsQ/0/*)";
const INTERNAL: &str = "wpkh(xpub6BgBgsespWvERF3LHQu6CnqdvfEvtMcQjYrcRzx53QJjSxarj2afYWcLteoGVky7D3UKDP9QyrLprQ3VCECoY49yfdDEHGCtMMj92pReUsQ/1/*)";

fn hash(seed: u32) -> bitcoin::BlockHash {
    let hashed: sha256d::Hash = bitcoin::hashes::Hash::hash(&seed.to_le_bytes());
    bitcoin::BlockHash::from_raw_hash(hashed)
}

fn plain(hash: bitcoin::BlockHash) -> BlockHash {
    BlockHash::from_byte_array(bitcoin::hashes::Hash::to_byte_array(hash))
}

fn header_of(header: &bitcoin::block::Header) -> BlockHeader {
    BlockHeader {
        version: header.version.to_consensus(),
        prev_blockhash: plain(header.prev_blockhash),
        merkle_root: bitcoin::hashes::Hash::to_byte_array(header.merkle_root),
        time: header.time,
        bits: header.bits.to_consensus(),
        nonce: header.nonce,
    }
}

fn descriptor(text: &str) -> Descriptor<DescriptorPublicKey> {
    text.parse().expect("the descriptor is well formed")
}

fn index(lookahead: u32) -> KeychainTxOutIndex<KeychainKind> {
    let mut index = KeychainTxOutIndex::new(lookahead, false);
    index.insert_descriptor(KeychainKind::External, descriptor(EXTERNAL)).unwrap();
    index.insert_descriptor(KeychainKind::Internal, descriptor(INTERNAL)).unwrap();
    index
}

fn derived(text: &str, indices: std::ops::Range<u32>) -> Vec<Vec<u8>> {
    indices
        .map(|i| descriptor(text).at_derivation_index(i).unwrap().script_pubkey().to_bytes())
        .collect()
}

/// The genesis block with its filter, and the script that its only output pays to.
fn genesis() -> (bitcoin::Block, Vec<u8>, Vec<u8>) {
    let block = bitcoin::constants::genesis_block(bitcoin::Network::Bitcoin);
    let script = block.txdata[0].output[0].script_pubkey.clone();
    let filter = bitcoin::bip158::BlockFilter::new_script_filter(&block, |coin| {
        Err::<bitcoin::ScriptBuf, _>(bitcoin::bip158::Error::UtxoMissing(*coin))
    })
    .expect("a coinbase spends nothing");
    (block, filter.content, script.to_bytes())
}

/// Test that checkpoint building from recent history handles reorgs.
///
/// Scenario: wallet synced to height 103. A 3-block reorg replaces blocks
/// 101-103 with new ones (same tip height). The recent history holds
/// {94..=103} (last 10 blocks ending at tip) with new hashes at 101-103.
///
/// The checkpoint must reflect the reorged chain: new hashes at 101-103,
/// pre-reorg blocks at <=100 preserved.
#[test]
fn checkpoint_building_handles_reorg() {
    let genesis = BlockId { height: 0, hash: hash(0) };

    // Wallet checkpoint: 0, 100, 101, 102, 103
    let wallet_cp = CheckPoint::from_block_ids([
        genesis,
        BlockId { height: 100, hash: hash(100) },
        BlockId { height: 101, hash: hash(101) },
        BlockId { height: 102, hash: hash(102) },
        BlockId { height: 103, hash: hash(103) },
    ])
    .unwrap();

    // Recent history after reorg: 94-103, heights 101-103 have new hashes.
    let recent_history: BTreeMap<u32, bitcoin::BlockHash> = (94..=103)
        .map(|h| {
            let seed = if (101..=103).contains(&h) { h + 1000 } else { h };
            (h, hash(seed))
        })
        .collect();

    let mut cp = wallet_cp;
    for (height, block_hash) in &recent_history {
        let block_id = BlockId { height: *height, hash: *block_hash };
        cp = cp.insert(block_id);
    }

    // Reorged blocks must have the new hashes.
    assert_eq!(cp.height(), 103);
    assert_eq!(
        cp.get(101).expect("height 101 must exist").hash(),
        hash(1101),
        "block 101 must have the reorged hash"
    );
    assert_eq!(cp.get(102).expect("height 102 must exist").hash(), hash(1102));
    assert_eq!(cp.get(103).expect("height 103 must exist").hash(), hash(1103));

    // Pre-reorg blocks are preserved.
    assert_eq!(cp.get(100).expect("height 100 must exist").hash(), hash(100));

    // A node that resumes from the checkpoint skips none of the reorged blocks.
    assert_eq!(
        resume_checkpoint(cp.clone()),
        Some(BestBlock { block_hash: plain(hash(96)), height: 96 })
    );

    // The checkpoint must connect cleanly to a LocalChain.
    let (mut chain, _) = LocalChain::from_genesis_hash(genesis.hash);
    chain.apply_update(cp).expect("checkpoint must connect to chain");
}

#[test]
fn resuming_walks_back_far_enough() {
    let blocks = |heights: &[u32]| {
        CheckPoint::from_block_ids(
            heights.iter().map(|h| BlockId { height: *h, hash: hash(*h) }),
        )
        .unwrap()
    };
    let at = |h: u32| Some(BestBlock { block_hash: plain(hash(h)), height: h });
    // Exactly seven below the tip.
    assert_eq!(resume_checkpoint(blocks(&[0, 90, 93, 94, 100])), at(93));
    // The first one below where none is exactly there.
    assert_eq!(resume_checkpoint(blocks(&[0, 90, 94, 100])), at(90));
    // The base where all are above.
    assert_eq!(resume_checkpoint(blocks(&[97, 98, 100])), at(97));
    // Not from the genesis block.
    assert_eq!(resume_checkpoint(blocks(&[0, 94, 100])), None);
    assert_eq!(resume_checkpoint(blocks(&[0])), None);
    assert_eq!(resume_checkpoint(blocks(&[0, 3, 5])), None);
    assert_eq!(resume_checkpoint(blocks(&[5])), at(5));
}

#[test]
fn header_hash_is_the_known_one() {
    let (block, _, _) = genesis();
    let header = header_of(&block.header);
    let mut expected: Vec<u8> = vec![
        0x00, 0x00, 0x00, 0x00, 0x00, 0x19, 0xd6, 0x68, 0x9c, 0x08, 0x5a, 0xe1, 0x65, 0x83, 0x1e,
        0x93, 0x4f, 0xf7, 0x63, 0xae, 0x46, 0xa2, 0xa6, 0xc1, 0x72, 0xb3, 0xf1, 0xb6, 0x0a, 0x8c,
        0xe2, 0x6f,
    ];
    expected.reverse();
    assert_eq!(header.block_hash().bytes.to_vec(), expected);
    assert!(header.block_hash().same(&plain(block.block_hash())));
    assert!(!header.block_hash().same(&header.prev_blockhash));
}

#[test]
fn block_sample_reads_weight_and_coinbase() {
    let (block, _, _) = genesis();
    let sample = BlockSample::of(&block);
    // 285 bytes without witness data.
    assert_eq!(sample.weight_wu, 285 * 4);
    assert_eq!(sample.coinbase_outputs, vec![5_000_000_000]);
    assert_eq!(
        sample.fee_rate(0, Network::Bitcoin),
        Err(Error::FeerateEstimationUpdateFailed)
    );
    assert_eq!(sample.fee_rate(0, Network::Regtest), Ok(FeeRate::from_sat_per_kwu(250)));
    // One halving later, half of the same coinbase would be fees.
    assert_eq!(
        sample.fee_rate(210_000, Network::Bitcoin),
        Ok(FeeRate::from_sat_per_kwu(2_500_000_000))
    );
    let empty = bitcoin::Block { header: block.header, txdata: Vec::new() };
    assert_eq!(BlockSample::of(&empty).coinbase_outputs, Vec::<u64>::new());
    assert_eq!(BlockSample::of(&empty).weight_wu, 81 * 4);
}

#[test]
fn every_revealed_script_and_the_lookahead_is_peeked() {
    let mut index = index(3);
    let expect = |external: u32, internal: u32| {
        let mut scripts = derived(EXTERNAL, 0..external);
        scripts.extend(derived(INTERNAL, 0..internal));
        scripts
    };
    assert_eq!(peek_keychain_scripts(&index), expect(3, 3));
    // Revealing index 4 makes five revealed scripts, and three to look ahead.
    index.reveal_to_target(KeychainKind::External, 4).unwrap();
    assert_eq!(peek_keychain_scripts(&index), expect(8, 3));
    index.reveal_to_target(KeychainKind::Internal, 0).unwrap();
    assert_eq!(peek_keychain_scripts(&index), expect(8, 4));
}

#[test]
fn revealed_scripts_are_peeked_without_lookahead() {
    let mut index = index(0);
    assert_eq!(peek_keychain_scripts(&index), Vec::<Vec<u8>>::new());
    index.reveal_to_target(KeychainKind::Internal, 1).unwrap();
    assert_eq!(peek_keychain_scripts(&index), derived(INTERNAL, 0..2));
    // A keychain without a descriptor has no script.
    let none: KeychainTxOutIndex<KeychainKind> = KeychainTxOutIndex::new(5, false);
    assert_eq!(peek_keychain_scripts(&none), Vec::<Vec<u8>>::new());
    assert_eq!(scripts_to_derive(Some(u32::MAX), u32::MAX), 0x8000_0000);
    assert_eq!(scripts_to_derive(Some(4), 20), 25);
    assert_eq!(scripts_to_derive(None, 20), 20);
}

#[test]
fn registered_scripts_are_kept_once_and_combined() {
    let mut registry = ScriptRegistry::new();
    registry.insert(vec![1, 2, 3]);
    registry.insert(vec![4]);
    registry.insert(vec![1, 2, 3]);
    assert!(registry.contains(&vec![4]));
    assert!(!registry.contains(&vec![1, 2]));
    assert_eq!(registry.combine(vec![vec![9]]), vec![vec![9], vec![1, 2, 3], vec![4]]);
    let mut expected = derived(EXTERNAL, 0..2);
    expected.extend(derived(INTERNAL, 0..2));
    expected.extend([vec![1, 2, 3], vec![4]]);
    assert_eq!(registry.combined_scripts(&index(2)), expected);
}

#[test]
fn filters_match_the_scripts_of_their_block() {
    let (block, content, script) = genesis();
    let filter = IndexedFilter::new(0, plain(block.block_hash()), content.clone());
    assert_eq!(filter.height(), 0);
    assert_eq!(filter.block_hash(), plain(block.block_hash()));
    assert_eq!(filter.contains_any(&vec![script.clone()]), Some(true));
    assert_eq!(filter.contains_any(&vec![vec![1, 2, 3], script.clone()]), Some(true));
    assert_eq!(filter.contains_any(&vec![vec![1, 2, 3]]), Some(false));
    assert_eq!(filter.contains_any(&Vec::new()), Some(false));
    // The hash is the key of the filter.
    let other = IndexedFilter::new(0, plain(hash(1)), content);
    assert_eq!(other.contains_any(&vec![script.clone()]), Some(false));
    // An empty filter matches nothing; one that ends early cannot be read.
    let empty = IndexedFilter::new(0, plain(hash(1)), Vec::new());
    assert_eq!(empty.contains_any(&vec![script.clone()]), Some(false));
    let cut = IndexedFilter::new(0, plain(hash(1)), vec![1]);
    assert_eq!(cut.contains_any(&vec![script]), None);
}

#[test]
fn filters_that_declare_too_much_cannot_be_read() {
    let declare = |count: u64| {
        let mut content = vec![0xff];
        content.extend(count.to_le_bytes());
        content.extend([0; 3]);
        IndexedFilter::new(0, plain(hash(1)), content)
    };
    let scripts = vec![vec![1, 2, 3]];
    assert_eq!(declare(0x1_0000_0000).contains_any(&scripts), None);
    assert_eq!(declare(u64::MAX / 784_931 + 1).contains_any(&scripts), None);
    assert_eq!(declare(u64::MAX).contains_any(&scripts), None);
    // Without any script, no filter is read.
    assert_eq!(declare(u64::MAX).contains_any(&Vec::new()), Some(false));
}

#[test]
fn events_lead_to_actions() {
    let (block, content, script) = genesis();
    let block_hash = plain(block.block_hash());
    let mut registry = ScriptRegistry::new();
    let index = index(1);
    let filter = ChainEvent::IndexedFilter {
        filter: IndexedFilter::new(7, block_hash, content),
    };
    // No script matches: only the header is needed.
    assert_eq!(
        dispatch_event(&filter, &registry, &index, true, 15),
        Some(DispatchAction::FetchHeader { height: 7 })
    );
    registry.insert(script);
    assert_eq!(
        dispatch_event(&filter, &registry, &index, true, 15),
        Some(DispatchAction::FetchBlock { block_hash, height: 7, timeout_secs: 15 })
    );
    assert_eq!(
        dispatch_event(&filter, &registry, &index, false, 15),
        Some(DispatchAction::Nothing)
    );
    let cut = ChainEvent::IndexedFilter {
        filter: IndexedFilter::new(7, block_hash, vec![1]),
    };
    assert_eq!(dispatch_event(&cut, &registry, &index, true, 15), None);

    let at = |height: u32| IndexedHeader { height, header: header_of(&block.header) };
    let tip = BestBlock { block_hash, height: 9 };
    for (event, action) in [
        (ChainEvent::Connected { connected: at(9) }, DispatchAction::Nothing),
        (ChainEvent::ForkAdded { fork: at(9) }, DispatchAction::Nothing),
        (ChainEvent::FiltersSynced { tip }, DispatchAction::RecordSync),
        (
            ChainEvent::Reorganized { accepted: vec![at(5)], reorganized: vec![] },
            DispatchAction::Nothing,
        ),
        (
            ChainEvent::Reorganized { accepted: vec![], reorganized: vec![at(5), at(6)] },
            DispatchAction::Disconnect {
                fork_point: BestBlock {
                    block_hash: plain(block.header.prev_blockhash),
                    height: 4,
                },
            },
        ),
    ] {
        assert_eq!(dispatch_event(&event, &registry, &index, true, 15), Some(action));
    }
}

#[test]
fn decisions_on_filters_and_reorganizations() {
    let block_hash = plain(hash(3));
    assert_eq!(on_filter(8, block_hash, true, false, 1), DispatchAction::Nothing);
    assert_eq!(
        on_filter(8, block_hash, true, true, 1),
        DispatchAction::FetchBlock { block_hash, height: 8, timeout_secs: 1 }
    );
    assert_eq!(
        on_filter(8, block_hash, false, true, 1),
        DispatchAction::FetchHeader { height: 8 }
    );
    let (block, _, _) = genesis();
    let lowest = IndexedHeader { height: 0, header: header_of(&block.header) };
    assert_eq!(
        on_reorganization(&vec![lowest]),
        DispatchAction::Disconnect {
            fork_point: BestBlock { block_hash: plain(block.header.prev_blockhash), height: 0 }
        }
    );
}

#[test]
fn waiters_are_woken_whether_or_not_the_time_was_stored() {
    assert_eq!(
        after_sync_recorded(Ok(())),
        RecordedAction::WakeWaiters { failure: None }
    );
    assert_eq!(
        after_sync_recorded(Err(Error::PersistenceFailed)),
        RecordedAction::WakeWaiters { failure: Some(Error::PersistenceFailed) }
    );
}

#[test]
fn listeners_hear_only_of_blocks_at_hand() {
    assert_eq!(
        after_block_fetch(5, FetchOutcome::Fetched),
        ListenerAction::ConnectBlock { height: 5 }
    );
    assert_eq!(after_block_fetch(5, FetchOutcome::Failed), ListenerAction::Nothing);
    assert_eq!(after_block_fetch(5, FetchOutcome::TimedOut), ListenerAction::Nothing);
    assert_eq!(
        after_header_lookup(5, LookupOutcome::Found),
        ListenerAction::ConnectHeader { height: 5 }
    );
    assert_eq!(after_header_lookup(5, LookupOutcome::NotFound), ListenerAction::Nothing);
    assert_eq!(after_header_lookup(5, LookupOutcome::Failed), ListenerAction::Nothing);
}
