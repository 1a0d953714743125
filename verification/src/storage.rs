//! Model of the durable storage the mempool relies on: the committed
//! account state and the persistent queue of pending transactions.
//!
//! The mempool consumes a small named interface — `load_committed_state`,
//! `collect_garbage`, `load_txs`, `insert_tx`, `insert_batch` — and this
//! module gives that interface an in-memory realization with exact
//! contracts, so that the admission protocol ("persist first, then admit")
//! and restart durability are verified end to end. Each call here stands
//! for one storage transaction: it takes effect atomically or not at all.

use vstd::prelude::*;

use crate::state::queue_wf;
use crate::types::{
    opt_bytes_view, views_of, AccountId, Address, BatchView, Nonce, SignedTx, SignedTxVariant,
    SignedTxsBatch, VariantView,
};

verus! {

/// One account of the committed state: its id, address and nonce.
#[derive(Debug, Clone, Copy, PartialEq, Eq, Structural)]
pub struct CommittedAccount {
    /// Numeric account id.
    pub id: AccountId,
    /// Account address.
    pub address: Address,
    /// Last committed nonce.
    pub nonce: Nonce,
}

/// The id-to-address map obtained by reading the committed accounts in
/// order, later entries overwriting earlier ones.
pub open spec fn ids_from_accounts(accounts: Seq<CommittedAccount>) -> Map<AccountId, Address>
    decreases accounts.len(),
{
    if accounts.len() == 0 {
        Map::empty()
    } else {
        ids_from_accounts(accounts.drop_last()).insert(
            accounts.last().id,
            accounts.last().address,
        )
    }
}

/// The nonce map obtained by reading the committed accounts in order,
/// later entries overwriting earlier ones.
pub open spec fn nonces_from_accounts(accounts: Seq<CommittedAccount>) -> Map<Address, Nonce>
    decreases accounts.len(),
{
    if accounts.len() == 0 {
        Map::empty()
    } else {
        nonces_from_accounts(accounts.drop_last()).insert(
            accounts.last().address,
            accounts.last().nonce,
        )
    }
}

/// Durable storage: committed accounts, the pending-transaction rows in
/// insertion order, and the next free batch id.
pub struct MempoolStorage {
    accounts: Vec<CommittedAccount>,
    rows: Vec<SignedTxVariant>,
    next_batch_id: u64,
}

impl MempoolStorage {
    /// The committed account state, in storage order.
    pub closed spec fn accounts(&self) -> Seq<CommittedAccount> {
        self.accounts@
    }

    /// The pending rows, in insertion order.
    pub closed spec fn rows(&self) -> Seq<SignedTxVariant> {
        self.rows@
    }

    /// The id the next persisted batch will receive.
    pub closed spec fn next_batch_id(&self) -> u64 {
        self.next_batch_id
    }

    /// Structural invariant: batch ids start at 1, and every persisted
    /// batch row is non-empty with a positive id.
    pub open spec fn wf(&self) -> bool {
        self.next_batch_id() >= 1 && queue_wf(self.rows())
    }

    /// Fresh ids remain: one more batch can still be persisted.
    pub open spec fn fresh_ids_left(&self) -> bool {
        self.next_batch_id() < u64::MAX
    }

    /// Whether one more batch can still be persisted; callers check this
    /// before `insert_batch`.
    pub fn has_fresh_ids(&self) -> (r: bool)
        ensures
            r == self.fresh_ids_left(),
    {
        self.next_batch_id < u64::MAX
    }

    /// Empty storage: no accounts, no pending rows, batch ids start at 1.
    pub fn new() -> (r: Self)
        ensures
            r.accounts() == Seq::<CommittedAccount>::empty(),
            r.rows() == Seq::<SignedTxVariant>::empty(),
            r.next_batch_id() == 1,
            r.wf(),
    {
        MempoolStorage { accounts: Vec::new(), rows: Vec::new(), next_batch_id: 1 }
    }

    /// Records one committed account, as the commit pipeline does when a
    /// block is committed. Later records for the same id or address win.
    pub fn record_committed_account(&mut self, account: CommittedAccount)
        requires
            old(self).wf(),
        ensures
            final(self).accounts() == old(self).accounts().push(account),
            final(self).rows() == old(self).rows(),
            final(self).next_batch_id() == old(self).next_batch_id(),
            final(self).wf(),
    {
        self.accounts.push(account);
    }

    /// Loads the committed account state.
    pub fn load_committed_state(&self) -> (r: Vec<CommittedAccount>)
        ensures
            r@ == self.accounts(),
    {
        let mut r: Vec<CommittedAccount> = Vec::new();
        let mut i: usize = 0;
        while i < self.accounts.len()
            invariant
                i <= self.accounts@.len(),
                r@ == self.accounts@.subrange(0, i as int),
            decreases self.accounts@.len() - i,
        {
            r.push(self.accounts[i]);
            proof {
                assert(self.accounts@.subrange(0, i + 1) =~= self.accounts@.subrange(
                    0,
                    i as int,
                ).push(self.accounts@[i as int]));
            }
            i += 1;
        }
        proof {
            assert(self.accounts@.subrange(0, self.accounts@.len() as int) =~= self.accounts@);
        }
        r
    }

    /// Removes rows duplicating already-executed transactions. The model
    /// holds pending rows only — executed rows are deleted as blocks
    /// commit, which is outside the mempool's scope — so there is nothing
    /// to collect and the rows are left as they are; the call is kept
    /// because restoring runs it before loading the pending rows.
    pub fn collect_garbage(&mut self)
        ensures
            final(self).accounts() == old(self).accounts(),
            final(self).rows() == old(self).rows(),
            final(self).next_batch_id() == old(self).next_batch_id(),
    {
    }

    /// Loads the pending rows, in insertion order.
    pub fn load_txs(&self) -> (r: Vec<SignedTxVariant>)
        ensures
            r@.len() == self.rows().len(),
            forall|i: int| 0 <= i < r@.len() ==> #[trigger] r@[i]@ == self.rows()[i]@,
    {
        let mut r: Vec<SignedTxVariant> = Vec::new();
        let mut i: usize = 0;
        while i < self.rows.len()
            invariant
                i <= self.rows@.len(),
                r@.len() == i,
                forall|j: int| 0 <= j < i ==> #[trigger] r@[j]@ == self.rows@[j]@,
            decreases self.rows@.len() - i,
        {
            r.push(copy_variant(&self.rows[i]));
            i += 1;
        }
        r
    }

    /// Persists one transaction as a pending row.
    pub fn insert_tx(&mut self, tx: &SignedTx)
        requires
            old(self).wf(),
        ensures
            final(self).rows() == old(self).rows().push(SignedTxVariant::Tx(*tx)),
            final(self).accounts() == old(self).accounts(),
            final(self).next_batch_id() == old(self).next_batch_id(),
            final(self).wf(),
    {
        self.rows.push(SignedTxVariant::Tx(*tx));
    }

    /// Persists a batch as one pending row and assigns it the next free
    /// batch id, which is returned and is always positive.
    pub fn insert_batch(&mut self, txs: &Vec<SignedTx>, eth_signature: &Option<Vec<u8>>) -> (r:
        u64)
        requires
            old(self).wf(),
            old(self).fresh_ids_left(),
            txs@.len() > 0,
        ensures
            r == old(self).next_batch_id(),
            r >= 1,
            final(self).next_batch_id() == r + 1,
            final(self).accounts() == old(self).accounts(),
            final(self).rows().len() == old(self).rows().len() + 1,
            final(self).rows().subrange(0, old(self).rows().len() as int) == old(self).rows(),
            final(self).rows().last()@ == (VariantView::Batch(
                BatchView { txs: txs@, batch_id: r, eth_signature: opt_bytes_view(*eth_signature) },
            )),
            final(self).wf(),
    {
        let id = self.next_batch_id;
        let row = SignedTxVariant::Batch(
            SignedTxsBatch {
                txs: copy_txs(txs),
                batch_id: id,
                eth_signature: copy_signature(eth_signature),
            },
        );
        self.rows.push(row);
        self.next_batch_id = id + 1;
        proof {
            assert(self.rows@.subrange(0, old(self).rows().len() as int) =~= old(self).rows());
            assert forall|i: int|
                0 <= i < self.rows@.len() implies #[trigger] crate::state::variant_wf(
                self.rows@[i],
            ) by {
                if i < old(self).rows().len() {
                    assert(self.rows@[i] == old(self).rows()[i]);
                }
            }
        }
        id
    }
}

/// Copies a transaction list element by element.
pub(crate) fn copy_txs(txs: &Vec<SignedTx>) -> (r: Vec<SignedTx>)
    ensures
        r@ == txs@,
{
    let mut r: Vec<SignedTx> = Vec::new();
    let mut i: usize = 0;
    while i < txs.len()
        invariant
            i <= txs@.len(),
            r@ == txs@.subrange(0, i as int),
        decreases txs@.len() - i,
    {
        r.push(txs[i]);
        proof {
            assert(txs@.subrange(0, i + 1) =~= txs@.subrange(0, i as int).push(txs@[i as int]));
        }
        i += 1;
    }
    proof {
        assert(txs@.subrange(0, txs@.len() as int) =~= txs@);
    }
    r
}

/// Copies a byte string element by element.
pub(crate) fn copy_bytes(bytes: &Vec<u8>) -> (r: Vec<u8>)
    ensures
        r@ == bytes@,
{
    let mut r: Vec<u8> = Vec::new();
    let mut i: usize = 0;
    while i < bytes.len()
        invariant
            i <= bytes@.len(),
            r@ == bytes@.subrange(0, i as int),
        decreases bytes@.len() - i,
    {
        r.push(bytes[i]);
        proof {
            assert(bytes@.subrange(0, i + 1) =~= bytes@.subrange(0, i as int).push(
                bytes@[i as int],
            ));
        }
        i += 1;
    }
    proof {
        assert(bytes@.subrange(0, bytes@.len() as int) =~= bytes@);
    }
    r
}

/// Copies an optional signature.
pub(crate) fn copy_signature(signature: &Option<Vec<u8>>) -> (r: Option<Vec<u8>>)
    ensures
        opt_bytes_view(r) == opt_bytes_view(*signature),
{
    match signature {
        Some(bytes) => Some(copy_bytes(bytes)),
        None => None,
    }
}

/// Copies one queue element, preserving its content.
pub(crate) fn copy_variant(v: &SignedTxVariant) -> (r: SignedTxVariant)
    ensures
        r@ == v@,
{
    match v {
        SignedTxVariant::Tx(tx) => SignedTxVariant::Tx(*tx),
        SignedTxVariant::Batch(b) => SignedTxVariant::Batch(
            SignedTxsBatch {
                txs: copy_txs(&b.txs),
                batch_id: b.batch_id,
                eth_signature: copy_signature(&b.eth_signature),
            },
        ),
    }
}

/// No lost commit: a transaction made durable by `insert_tx`, then a
/// batch made durable by `insert_batch`, stand at the end of the rows in
/// that order, and a restore that sees those rows yields a ready queue
/// carrying both, in the same relative order.
pub proof fn lemma_no_lost_commit(
    rows_before: Seq<SignedTxVariant>,
    rows_after_tx: Seq<SignedTxVariant>,
    rows_after_batch: Seq<SignedTxVariant>,
    restored_queue: Seq<SignedTxVariant>,
    tx: SignedTx,
    batch: BatchView,
)
    requires
        rows_after_tx == rows_before.push(SignedTxVariant::Tx(tx)),
        rows_after_batch.len() == rows_after_tx.len() + 1,
        rows_after_batch.subrange(0, rows_after_tx.len() as int) == rows_after_tx,
        rows_after_batch.last()@ == VariantView::Batch(batch),
        views_of(restored_queue) == views_of(rows_after_batch),
    ensures
        restored_queue.len() == rows_before.len() + 2,
        restored_queue[rows_before.len() as int]@ == VariantView::Tx(tx),
        restored_queue[rows_before.len() as int + 1]@ == VariantView::Batch(batch),
{
    let n = rows_before.len() as int;
    assert(views_of(restored_queue).len() == restored_queue.len());
    assert(views_of(rows_after_batch).len() == rows_after_batch.len());
    assert(rows_after_batch[n] == rows_after_batch.subrange(0, n + 1)[n]);
    assert(rows_after_batch[n]@ == VariantView::Tx(tx));
    assert(views_of(restored_queue)[n] == restored_queue[n]@);
    assert(views_of(rows_after_batch)[n] == rows_after_batch[n]@);
    assert(views_of(restored_queue)[n + 1] == restored_queue[n + 1]@);
    assert(views_of(rows_after_batch)[n + 1] == rows_after_batch[n + 1]@);
    assert(rows_after_batch[n + 1] == rows_after_batch.last());
}

} // verus!
