//! In-memory transaction mempool core for a zkRollup-style node.
//!
//! The mempool admits individually signed transactions and atomic batches,
//! validates them against the latest committed account nonces, persists
//! accepted items to a durable queue, and on demand assembles a proposed
//! block — a chunk-budgeted bundle of priority operations and mempool
//! transactions — for the block-production pipeline.
//!
//! The verified core is synchronous: every admission decision, nonce update,
//! and block-assembly step is a plain function over [`MempoolState`] and [`MempoolStorage`].
//! The async harness that owns the channels, the locks and the tasks lives
//! outside this crate and only calls in.

mod balancer;
mod block;
mod deposits;
mod errors;
mod hash_parse;
mod state;
mod storage;
mod transactions;
mod types;

pub use balancer::{lemma_round_robin_fair, RoundRobin};
pub use block::{lemma_batch_atomicity, max_block_size_chunks, MempoolBlocks};
pub use deposits::{depositing_from_pending_ops, DepositingFunds, PendingDeposit};
pub use errors::{BlockProposalError, ParseHashError, TxAddError};
pub use hash_parse::try_parse_hash;
pub use state::{lemma_nonce_monotone, MempoolState};
pub use storage::{lemma_no_lost_commit, CommittedAccount, MempoolStorage};
pub use transactions::MempoolTransactionsHandler;
pub use types::{
    AccountUpdate, BatchView, PriorityOp, ProposedBlock, SignedTx, SignedTxVariant,
    SignedTxsBatch, TxData, VariantView,
};
