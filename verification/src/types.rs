//! Plain values that the whole library speaks of.
use vstd::prelude::*;

verus! {

/// An amount of bitcoin, in satoshi.
#[derive(Clone, Copy, Debug, PartialEq, Eq, PartialOrd, Ord, Structural)]
pub struct Amount {
    pub sat: u64,
}

impl Amount {
    /// The amount of `sat` satoshi.
    pub fn from_sat(sat: u64) -> (amount: Amount)
        ensures
            amount.sat == sat,
    {
        Amount { sat }
    }

    /// The number of satoshi.
    pub fn to_sat(self) -> (sat: u64)
        ensures
            sat == self.sat,
    {
        self.sat
    }
}

/// A fee rate, in satoshi per thousand weight units.
#[derive(Clone, Copy, Debug, PartialEq, Eq, PartialOrd, Ord, Structural)]
pub struct FeeRate {
    pub sat_per_kwu: u64,
}

impl FeeRate {
    /// The fee rate of `sat_per_kwu` satoshi per thousand weight units.
    pub fn from_sat_per_kwu(sat_per_kwu: u64) -> (rate: FeeRate)
        ensures
            rate.sat_per_kwu == sat_per_kwu,
    {
        FeeRate { sat_per_kwu }
    }

    /// The number of satoshi per thousand weight units.
    pub fn to_sat_per_kwu(self) -> (sat_per_kwu: u64)
        ensures
            sat_per_kwu == self.sat_per_kwu,
    {
        self.sat_per_kwu
    }
}

/// A block hash, as the 32 bytes in which it enters a header.
#[derive(Clone, Copy, Debug, PartialEq, Eq)]
pub struct BlockHash {
    pub bytes: [u8; 32],
}

impl View for BlockHash {
    type V = Seq<u8>;

    open spec fn view(&self) -> Seq<u8> {
        self.bytes@
    }
}

impl BlockHash {
    /// The block hash made of `bytes`.
    pub fn from_byte_array(bytes: [u8; 32]) -> (hash: BlockHash)
        ensures
            hash.bytes == bytes,
    {
        BlockHash { bytes }
    }

    /// Whether two hashes are the same 32 bytes.
    pub fn same(&self, other: &BlockHash) -> (same: bool)
        ensures
            same == (self@ == other@),
            same == (*self == *other),
    {
        let mut i: usize = 0;
        while i < 32
            invariant
                i <= 32,
                forall|j: int| 0 <= j < i ==> self.bytes@[j] == other.bytes@[j],
            decreases 32 - i,
        {
            if self.bytes[i] != other.bytes[i] {
                return false;
            }
            i += 1;
        }
        assert(self@ =~= other@);
        assert(self.bytes =~= other.bytes);
        true
    }
}

/// A block, by its height and its hash: a tip, or the point at which two chains part.
#[derive(Clone, Copy, Debug, PartialEq, Eq)]
pub struct BestBlock {
    pub block_hash: BlockHash,
    pub height: u32,
}

/// The Bitcoin network in use.
#[derive(Clone, Copy, Debug, PartialEq, Eq, Structural)]
pub enum Network {
    /// The main network.
    Bitcoin,
    /// The test network.
    Testnet,
    /// The fourth test network.
    Testnet4,
    /// The test network with signed blocks.
    Signet,
    /// A local test network.
    Regtest,
}

/// What can go wrong while the chain source works.
#[derive(Clone, Copy, Debug, PartialEq, Eq, Structural)]
pub enum Error {
    /// There is no running node or server to talk to.
    ConnectionFailed,
    /// A wallet operation failed.
    WalletOperationFailed,
    /// A wallet operation did not finish in time.
    WalletOperationTimeout,
    /// Fee rates could not be estimated.
    FeerateEstimationUpdateFailed,
    /// Fee rates could not be estimated in time.
    FeerateEstimationUpdateTimeout,
    /// The node metrics could not be stored.
    PersistenceFailed,
}

} // verus!
