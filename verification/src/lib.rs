//! Chain source for a Lightning node that follows the Bitcoin chain through compact block
//! filters: the decisions, the arithmetic and the state, each with its proved contract.
pub mod block_fee;
pub mod broadcast;
pub mod checkpoint;
pub mod dispatch;
pub mod fee_cache;
pub mod fee_estimation;
pub mod fee_select;
pub mod fee_table;
pub mod fee_walk;
pub mod filter;
pub mod header;
pub mod metrics;
pub mod runtime;
pub mod scripts;
pub mod source;
pub mod subsidy;
pub mod sync_loop;
pub mod types;
pub mod wallet_sync;
