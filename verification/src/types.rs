//! Data model of the mempool: accounts, transactions, batches, priority
//! operations and proposed blocks.
//!
//! Account addresses, account ids and nonces are carried as plain integers,
//! and a transaction is reduced to what the mempool reads of it: submitter,
//! nonce, operation kind and (for transfers) the recipient. The surrounding
//! node keeps the wire-level payloads and renders its identifiers into these
//! values before calling the core.

use vstd::prelude::*;

verus! {

/// An account address, rendered as an integer key.
pub type Address = u64;

/// A numeric account id; nonce-update events arrive keyed by it.
pub type AccountId = u32;

/// A per-sender monotone transaction counter.
pub type Nonce = u32;

/// Chunk cost of a transfer whose recipient is already known to the state.
pub const TRANSFER_OP_CHUNKS: usize = 2;

/// Chunk cost of a transfer to an address absent from the nonce map.
pub const TRANSFER_TO_NEW_OP_CHUNKS: usize = 6;

/// Chunk cost of a withdrawal.
pub const WITHDRAW_OP_CHUNKS: usize = 6;

/// Chunk cost of a pubkey change.
pub const CHANGE_PUBKEY_OP_CHUNKS: usize = 6;

/// Chunk cost of a forced exit.
pub const FORCED_EXIT_OP_CHUNKS: usize = 6;

/// Chunk cost of an account close.
pub const CLOSE_OP_CHUNKS: usize = 1;

/// The operation carried by a signed transaction, reduced to what the
/// mempool reads: the kind, and for transfers the recipient.
#[derive(Debug, Clone, Copy, PartialEq, Eq, Structural)]
pub enum TxData {
    /// Funds transfer; its chunk cost depends on whether `to` is known.
    Transfer { to: Address },
    /// Withdrawal to the root chain; counted against the per-block cap.
    Withdraw,
    /// Account pubkey change.
    ChangePubKey,
    /// Forced exit of another account.
    ForcedExit,
    /// Account close.
    Close,
}

impl TxData {
    /// Whether this operation is a withdrawal.
    pub fn is_withdraw(&self) -> (r: bool)
        ensures
            r == (self is Withdraw),
    {
        match self {
            TxData::Withdraw => true,
            _ => false,
        }
    }
}

/// One signed transaction as the mempool sees it. Signatures and fees are
/// checked upstream and are not re-verified here.
#[derive(Debug, Clone, Copy, PartialEq, Eq, Structural)]
pub struct SignedTx {
    /// Submitter address.
    pub account: Address,
    /// Transaction nonce; admission requires it to be at least the
    /// committed nonce recorded for `account`.
    pub nonce: Nonce,
    /// The operation the transaction performs.
    pub data: TxData,
}

/// An atomic group of transactions: included in a proposed block in full
/// or not at all. `batch_id` is positive once the batch is persisted.
#[derive(Debug, Clone, PartialEq, Eq)]
pub struct SignedTxsBatch {
    /// The member transactions, in submission order.
    pub txs: Vec<SignedTx>,
    /// Storage-assigned identifier; positive once persisted.
    pub batch_id: u64,
    /// Optional Ethereum signature covering the whole batch.
    pub eth_signature: Option<Vec<u8>>,
}

/// The mathematical content of a batch: what two copies of one persisted
/// batch (say, a storage row and a ready-queue element) have in common.
pub struct BatchView {
    /// The member transactions.
    pub txs: Seq<SignedTx>,
    /// Storage-assigned identifier.
    pub batch_id: u64,
    /// Optional Ethereum signature bytes.
    pub eth_signature: Option<Seq<u8>>,
}

/// The signature bytes of an optional signature, as a sequence.
pub open spec fn opt_bytes_view(signature: Option<Vec<u8>>) -> Option<Seq<u8>> {
    match signature {
        Some(bytes) => Some(bytes@),
        None => None,
    }
}

impl View for SignedTxsBatch {
    type V = BatchView;

    open spec fn view(&self) -> BatchView {
        BatchView {
            txs: self.txs@,
            batch_id: self.batch_id,
            eth_signature: opt_bytes_view(self.eth_signature),
        }
    }
}

/// One element of the ready queue: a lone transaction or an atomic batch.
#[derive(Debug, Clone, PartialEq, Eq)]
pub enum SignedTxVariant {
    /// A single signed transaction.
    Tx(SignedTx),
    /// An atomic batch.
    Batch(SignedTxsBatch),
}

/// The mathematical content of a ready-queue element.
pub enum VariantView {
    /// A single signed transaction.
    Tx(SignedTx),
    /// An atomic batch.
    Batch(BatchView),
}

impl View for SignedTxVariant {
    type V = VariantView;

    open spec fn view(&self) -> VariantView {
        match self {
            SignedTxVariant::Tx(tx) => VariantView::Tx(*tx),
            SignedTxVariant::Batch(b) => VariantView::Batch(b@),
        }
    }
}

/// The contents of a sequence of queue elements, element by element.
pub open spec fn views_of(q: Seq<SignedTxVariant>) -> Seq<VariantView> {
    q.map_values(|v: SignedTxVariant| v@)
}

/// An on-chain-originated operation observed by the priority-op watcher.
/// The core reads only its serial number and its chunk cost.
#[derive(Debug, Clone, Copy, PartialEq, Eq, Structural)]
pub struct PriorityOp {
    /// Position of the operation in the on-chain priority queue.
    pub serial_id: u64,
    /// Chunk cost the operation consumes in a block.
    pub chunks: usize,
}

/// An account update delivered from the commit pipeline, keyed by a
/// numeric account id alongside it.
#[derive(Debug, Clone, Copy, PartialEq, Eq, Structural)]
pub enum AccountUpdate {
    /// A new account was created at `address` with the given nonce.
    Create { address: Address, nonce: Nonce },
    /// The account at `address` was removed.
    Delete { address: Address, nonce: Nonce },
    /// A committed operation advanced the account's nonce.
    UpdateBalance { old_nonce: Nonce, new_nonce: Nonce },
    /// A committed pubkey change advanced the account's nonce.
    ChangePubKeyHash { old_nonce: Nonce, new_nonce: Nonce },
}

/// The bundle handed to the block proposer: a prefix of the priority queue
/// followed by a prefix of the ready queue, within one chunk budget.
#[derive(Debug, Clone)]
pub struct ProposedBlock {
    /// Priority operations, as returned by the watcher.
    pub priority_ops: Vec<PriorityOp>,
    /// Mempool transactions drained from the front of the ready queue.
    pub txs: Vec<SignedTxVariant>,
}

impl ProposedBlock {
    /// Whether the proposed block carries no operations at all.
    pub fn is_empty(&self) -> (r: bool)
        ensures
            r == (self.priority_ops@.len() == 0 && self.txs@.len() == 0),
    {
        self.priority_ops.len() == 0 && self.txs.len() == 0
    }
}

impl Default for ProposedBlock {
    /// An empty proposal.
    fn default() -> (r: Self)
        ensures
            r.priority_ops@.len() == 0,
            r.txs@.len() == 0,
    {
        ProposedBlock { priority_ops: Vec::new(), txs: Vec::new() }
    }
}

} // verus!
