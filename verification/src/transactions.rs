//! The admission protocol: persist first, then admit into the in-memory
//! state. One handler instance serves one worker inbox; all instances share
//! the state and the storage behind the harness's locks.

use vstd::prelude::*;

use crate::errors::TxAddError;
use crate::state::{all_nonces_ok, nonce_of, txs_chunks, MempoolState};
use crate::storage::MempoolStorage;
use crate::types::{opt_bytes_view, BatchView, SignedTx, SignedTxVariant, SignedTxsBatch, VariantView};

verus! {

/// The number of withdrawals among a list of transactions.
pub open spec fn withdrawals_count(txs: Seq<SignedTx>) -> nat
    decreases txs.len(),
{
    if txs.len() == 0 {
        0
    } else {
        withdrawals_count(txs.drop_last()) + if txs.last().data is Withdraw {
            1nat
        } else {
            0nat
        }
    }
}

/// Counts the withdrawals among a list of transactions.
pub fn count_withdrawals(txs: &Vec<SignedTx>) -> (r: usize)
    ensures
        r == withdrawals_count(txs@),
{
    let mut count: usize = 0;
    let mut i: usize = 0;
    while i < txs.len()
        invariant
            i <= txs@.len(),
            count <= i,
            count == withdrawals_count(txs@.subrange(0, i as int)),
        decreases txs@.len() - i,
    {
        proof {
            assert(txs@.subrange(0, i + 1).drop_last() =~= txs@.subrange(0, i as int));
            assert(txs@.subrange(0, i + 1).last() == txs@[i as int]);
        }
        if txs[i].data.is_withdraw() {
            count += 1;
        }
        i += 1;
    }
    proof {
        assert(txs@.subrange(0, txs@.len() as int) =~= txs@);
    }
    count
}

/// One admission worker: checks batch-level limits, persists accepted items
/// to storage, then admits them into the shared state.
#[derive(Debug, Clone, Copy)]
pub struct MempoolTransactionsHandler {
    max_block_size_chunks: usize,
    max_number_of_withdrawals_per_block: usize,
}

impl MempoolTransactionsHandler {
    /// The largest supported block size, in chunks.
    pub closed spec fn max_chunks(&self) -> usize {
        self.max_block_size_chunks
    }

    /// The per-block cap on withdrawals.
    pub closed spec fn max_withdrawals(&self) -> usize {
        self.max_number_of_withdrawals_per_block
    }

    /// The chunk budget leaves headroom in the machine word, so saturating
    /// chunk sums compare against it exactly.
    pub open spec fn wf(&self) -> bool {
        self.max_chunks() < usize::MAX
    }

    /// A handler for the given configuration limits.
    pub fn new(max_block_size_chunks: usize, max_number_of_withdrawals_per_block: usize) -> (r:
        Self)
        requires
            max_block_size_chunks < usize::MAX,
        ensures
            r.max_chunks() == max_block_size_chunks,
            r.max_withdrawals() == max_number_of_withdrawals_per_block,
            r.wf(),
    {
        MempoolTransactionsHandler { max_block_size_chunks, max_number_of_withdrawals_per_block }
    }

    /// Admits one transaction: persists it as a pending row, then applies
    /// the nonce rule against the shared state. The row is written before
    /// the rule is checked, so a `NonceMismatch` leaves a persisted row
    /// behind; restart-time garbage collection removes it.
    pub fn add_tx(&self, storage: &mut MempoolStorage, state: &mut MempoolState, tx: SignedTx) -> (r:
        Result<(), TxAddError>)
        requires
            old(storage).wf(),
            old(state).wf(),
        ensures
            r is Ok <==> tx.nonce >= nonce_of(old(state).nonces(), tx.account),
            final(storage).rows() == old(storage).rows().push(SignedTxVariant::Tx(tx)),
            final(storage).accounts() == old(storage).accounts(),
            final(storage).next_batch_id() == old(storage).next_batch_id(),
            r is Ok ==> final(state).queue() == old(state).queue().push(SignedTxVariant::Tx(tx)),
            r is Err ==> final(state).queue() == old(state).queue() && r == Err::<(), TxAddError>(
                TxAddError::NonceMismatch,
            ),
            final(state).nonces() == old(state).nonces(),
            final(state).ids() == old(state).ids(),
            final(storage).wf(),
            final(state).wf(),
    {
        storage.insert_tx(&tx);
        state.add_tx(tx)
    }

    /// Admits an atomic batch. An empty list is rejected before storage is
    /// touched; then the batch's chunk cost is checked against the block
    /// budget and its withdrawals against the per-block cap; only then is
    /// the batch persisted, given its positive id, and admitted under the
    /// per-transaction nonce rule. As with single transactions, a
    /// `NonceMismatch` after the persist leaves the row behind.
    pub fn add_batch(
        &self,
        storage: &mut MempoolStorage,
        state: &mut MempoolState,
        txs: Vec<SignedTx>,
        eth_signature: Option<Vec<u8>>,
    ) -> (r: Result<(), TxAddError>)
        requires
            self.wf(),
            old(storage).wf(),
            old(storage).fresh_ids_left(),
            old(state).wf(),
        ensures
            (r == Err::<(), TxAddError>(TxAddError::EmptyBatch)) <==> txs@.len() == 0,
            (r == Err::<(), TxAddError>(TxAddError::BatchTooBig)) <==> txs@.len() > 0
                && txs_chunks(old(state).nonces(), txs@) > self.max_chunks(),
            (r == Err::<(), TxAddError>(TxAddError::BatchWithdrawalsOverload)) <==> txs@.len() > 0
                && txs_chunks(old(state).nonces(), txs@) <= self.max_chunks()
                && withdrawals_count(txs@) > self.max_withdrawals(),
            (r == Err::<(), TxAddError>(TxAddError::NonceMismatch)) <==> txs@.len() > 0
                && txs_chunks(old(state).nonces(), txs@) <= self.max_chunks()
                && withdrawals_count(txs@) <= self.max_withdrawals() && !all_nonces_ok(
                old(state).nonces(),
                txs@,
            ),
            r is Ok <==> txs@.len() > 0 && txs_chunks(old(state).nonces(), txs@)
                <= self.max_chunks() && withdrawals_count(txs@) <= self.max_withdrawals()
                && all_nonces_ok(old(state).nonces(), txs@),
            // The batch reaches storage exactly when the pre-storage checks pass.
            (r is Ok || r == Err::<(), TxAddError>(TxAddError::NonceMismatch)) ==> {
                &&& final(storage).rows().len() == old(storage).rows().len() + 1
                &&& final(storage).rows().subrange(0, old(storage).rows().len() as int)
                    == old(storage).rows()
                &&& final(storage).rows().last()@ == (VariantView::Batch(
                    BatchView {
                        txs: txs@,
                        batch_id: old(storage).next_batch_id(),
                        eth_signature: opt_bytes_view(eth_signature),
                    },
                ))
                &&& final(storage).next_batch_id() == old(storage).next_batch_id() + 1
            },
            (r is Err && r != Err::<(), TxAddError>(TxAddError::NonceMismatch))
                ==> final(storage).rows() == old(storage).rows()
                && final(storage).next_batch_id() == old(storage).next_batch_id(),
            final(storage).accounts() == old(storage).accounts(),
            r is Ok ==> final(state).queue() == old(state).queue().push(
                SignedTxVariant::Batch(
                    SignedTxsBatch {
                        txs: txs,
                        batch_id: old(storage).next_batch_id(),
                        eth_signature: eth_signature,
                    },
                ),
            ),
            r is Err ==> final(state).queue() == old(state).queue(),
            final(state).nonces() == old(state).nonces(),
            final(state).ids() == old(state).ids(),
            final(storage).wf(),
            final(state).wf(),
    {
        if txs.len() == 0 {
            return Err(TxAddError::EmptyBatch);
        }
        // A provisional batch, its id still unset; storage assigns the real
        // one below.
        let mut batch = SignedTxsBatch { txs, batch_id: 0, eth_signature };

        if state.chunks_for_batch(&batch) > self.max_block_size_chunks {
            return Err(TxAddError::BatchTooBig);
        }

        let number_of_withdrawals = count_withdrawals(&batch.txs);
        if number_of_withdrawals > self.max_number_of_withdrawals_per_block {
            return Err(TxAddError::BatchWithdrawalsOverload);
        }

        let batch_id = storage.insert_batch(&batch.txs, &batch.eth_signature);
        batch.batch_id = batch_id;

        state.add_batch(batch)
    }
}

} // verus!
