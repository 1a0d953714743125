//! The in-memory mempool state: committed account nonces, the id-to-address
//! indirection, and the FIFO ready queue of transaction variants.

use std::collections::{HashMap, VecDeque};
use vstd::prelude::*;

use crate::errors::TxAddError;
use crate::storage::{ids_from_accounts, nonces_from_accounts, MempoolStorage};
use crate::types::{views_of,
    AccountId, AccountUpdate, Address, Nonce, SignedTx, SignedTxVariant, SignedTxsBatch, TxData, VariantView,
    CHANGE_PUBKEY_OP_CHUNKS, CLOSE_OP_CHUNKS, FORCED_EXIT_OP_CHUNKS, TRANSFER_OP_CHUNKS,
    TRANSFER_TO_NEW_OP_CHUNKS, WITHDRAW_OP_CHUNKS,
};

verus! {

broadcast use vstd::std_specs::hash::group_hash_axioms, vstd::std_specs::vecdeque::group_vec_dequeue_axioms;

/// The committed nonce recorded for `address`, or 0 if the address is absent.
pub open spec fn nonce_of(nonces: Map<Address, Nonce>, address: Address) -> Nonce {
    if nonces.contains_key(address) {
        nonces[address]
    } else {
        0
    }
}

/// Chunk cost of one transaction, evaluated against the given nonce map:
/// a transfer is cheaper when its recipient is already known.
pub open spec fn tx_chunks(nonces: Map<Address, Nonce>, tx: SignedTx) -> nat {
    match tx.data {
        TxData::Transfer { to } => if nonces.contains_key(to) {
            TRANSFER_OP_CHUNKS as nat
        } else {
            TRANSFER_TO_NEW_OP_CHUNKS as nat
        },
        TxData::Withdraw => WITHDRAW_OP_CHUNKS as nat,
        TxData::ChangePubKey => CHANGE_PUBKEY_OP_CHUNKS as nat,
        TxData::ForcedExit => FORCED_EXIT_OP_CHUNKS as nat,
        TxData::Close => CLOSE_OP_CHUNKS as nat,
    }
}

/// Summed chunk cost of a sequence of transactions under one nonce map.
pub open spec fn txs_chunks(nonces: Map<Address, Nonce>, txs: Seq<SignedTx>) -> nat
    decreases txs.len(),
{
    if txs.len() == 0 {
        0
    } else {
        txs_chunks(nonces, txs.drop_last()) + tx_chunks(nonces, txs.last())
    }
}

/// Chunk cost of one ready-queue element: a batch costs the sum of its
/// members' costs under the same "known recipient" rule.
pub open spec fn variant_chunks(nonces: Map<Address, Nonce>, v: SignedTxVariant) -> nat {
    match v {
        SignedTxVariant::Tx(tx) => tx_chunks(nonces, tx),
        SignedTxVariant::Batch(b) => txs_chunks(nonces, b.txs@),
    }
}

/// Every transaction of `txs` carries a nonce at least as large as the
/// committed nonce of its sender.
pub open spec fn all_nonces_ok(nonces: Map<Address, Nonce>, txs: Seq<SignedTx>) -> bool {
    forall|i: int| 0 <= i < txs.len() ==> #[trigger] txs[i].nonce >= nonce_of(nonces, txs[i].account)
}

/// A well-formed queue-element content: a batch is non-empty and carries
/// the positive id that storage assigned to it.
pub open spec fn variant_view_wf(v: VariantView) -> bool {
    match v {
        VariantView::Tx(_) => true,
        VariantView::Batch(b) => b.batch_id >= 1 && b.txs.len() > 0,
    }
}

/// A well-formed ready-queue element; determined by its content alone, so
/// it carries over to any copy restored from storage.
pub open spec fn variant_wf(v: SignedTxVariant) -> bool {
    variant_view_wf(v@)
}

/// All elements of a queue are well formed.
pub open spec fn queue_wf(q: Seq<SignedTxVariant>) -> bool {
    forall|i: int| 0 <= i < q.len() ==> #[trigger] variant_wf(q[i])
}

/// In-memory mempool state. Pure data with small synchronous methods; the
/// async harness shares it behind one exclusion lock and never holds that
/// lock across I/O.
pub struct MempoolState {
    account_nonces: HashMap<Address, Nonce>,
    account_ids: HashMap<AccountId, Address>,
    ready_txs: VecDeque<SignedTxVariant>,
}

impl MempoolState {
    /// The committed-nonce map, keyed by address.
    pub closed spec fn nonces(&self) -> Map<Address, Nonce> {
        self.account_nonces@
    }

    /// The id-to-address indirection for nonce-update events.
    pub closed spec fn ids(&self) -> Map<AccountId, Address> {
        self.account_ids@
    }

    /// The ready queue, front first.
    pub closed spec fn queue(&self) -> Seq<SignedTxVariant> {
        self.ready_txs@
    }

    /// Structural invariant: every queued batch is non-empty with a
    /// positive id.
    pub open spec fn wf(&self) -> bool {
        queue_wf(self.queue())
    }

    /// An empty mempool: no known accounts, nothing ready.
    pub fn new() -> (r: Self)
        ensures
            r.nonces() == Map::<Address, Nonce>::empty(),
            r.ids() == Map::<AccountId, Address>::empty(),
            r.queue() == Seq::<SignedTxVariant>::empty(),
            r.wf(),
    {
        MempoolState {
            account_nonces: HashMap::new(),
            account_ids: HashMap::new(),
            ready_txs: VecDeque::new(),
        }
    }

    /// The committed nonce for `address`, 0 if the address is unknown.
    pub fn nonce(&self, address: Address) -> (r: Nonce)
        ensures
            r == nonce_of(self.nonces(), address),
    {
        match self.account_nonces.get(&address) {
            Some(n) => *n,
            None => 0,
        }
    }

    /// Admits one transaction: accepted exactly when its nonce is at least
    /// the committed nonce of its sender, and then appended to the back of
    /// the ready queue. Signatures are not re-verified here.
    pub fn add_tx(&mut self, tx: SignedTx) -> (r: Result<(), TxAddError>)
        ensures
            r is Ok <==> tx.nonce >= nonce_of(old(self).nonces(), tx.account),
            r is Ok ==> final(self).queue() == old(self).queue().push(SignedTxVariant::Tx(tx)),
            r is Err ==> final(self).queue() == old(self).queue() && r == Err::<(), TxAddError>(
                TxAddError::NonceMismatch,
            ),
            final(self).nonces() == old(self).nonces(),
            final(self).ids() == old(self).ids(),
            old(self).wf() ==> final(self).wf(),
    {
        if tx.nonce >= self.nonce(tx.account) {
            self.ready_txs.push_back(SignedTxVariant::Tx(tx));
            Ok(())
        } else {
            Err(TxAddError::NonceMismatch)
        }
    }

    /// Admits an atomic batch: rejected with `NonceMismatch` if any member
    /// violates the per-transaction nonce rule, otherwise appended to the
    /// back of the ready queue as one element. The batch must already carry
    /// the positive id that storage assigned, and must be non-empty.
    pub fn add_batch(&mut self, batch: SignedTxsBatch) -> (r: Result<(), TxAddError>)
        requires
            batch.batch_id >= 1,
            batch.txs@.len() > 0,
        ensures
            r is Ok <==> all_nonces_ok(old(self).nonces(), batch.txs@),
            r is Ok ==> final(self).queue() == old(self).queue().push(SignedTxVariant::Batch(batch)),
            r is Err ==> final(self).queue() == old(self).queue() && r == Err::<(), TxAddError>(
                TxAddError::NonceMismatch,
            ),
            final(self).nonces() == old(self).nonces(),
            final(self).ids() == old(self).ids(),
            old(self).wf() ==> final(self).wf(),
    {
        let mut i: usize = 0;
        while i < batch.txs.len()
            invariant
                i <= batch.txs@.len(),
                forall|j: int|
                    0 <= j < i ==> #[trigger] batch.txs@[j].nonce >= nonce_of(
                        self.nonces(),
                        batch.txs@[j].account,
                    ),
                self == old(self),
            decreases batch.txs@.len() - i,
        {
            let tx = &batch.txs[i];
            if tx.nonce < self.nonce(tx.account) {
                return Err(TxAddError::NonceMismatch);
            }
            i += 1;
        }
        self.ready_txs.push_back(SignedTxVariant::Batch(batch));
        Ok(())
    }

    /// Chunk cost of one transaction against the current nonce map.
    pub fn chunks_for_tx(&self, tx: &SignedTx) -> (r: usize)
        ensures
            r == tx_chunks(self.nonces(), *tx),
    {
        match &tx.data {
            TxData::Transfer { to } => {
                if self.account_nonces.contains_key(to) {
                    TRANSFER_OP_CHUNKS
                } else {
                    TRANSFER_TO_NEW_OP_CHUNKS
                }
            },
            TxData::Withdraw => WITHDRAW_OP_CHUNKS,
            TxData::ChangePubKey => CHANGE_PUBKEY_OP_CHUNKS,
            TxData::ForcedExit => FORCED_EXIT_OP_CHUNKS,
            TxData::Close => CLOSE_OP_CHUNKS,
        }
    }

    /// Summed chunk cost of a batch against the current nonce map,
    /// saturating at the top of `usize` (the sum itself is unbounded).
    pub fn chunks_for_batch(&self, batch: &SignedTxsBatch) -> (r: usize)
        ensures
            r == sat_usize(txs_chunks(self.nonces(), batch.txs@)),
    {
        let mut total: usize = 0;
        let mut i: usize = 0;
        while i < batch.txs.len()
            invariant
                i <= batch.txs@.len(),
                total == sat_usize(txs_chunks(self.nonces(), batch.txs@.subrange(0, i as int))),
            decreases batch.txs@.len() - i,
        {
            let c = self.chunks_for_tx(&batch.txs[i]);
            proof {
                assert(batch.txs@.subrange(0, i + 1).drop_last() =~= batch.txs@.subrange(
                    0,
                    i as int,
                ));
                assert(batch.txs@.subrange(0, i + 1).last() == batch.txs@[i as int]);
            }
            total = if c > usize::MAX - total {
                usize::MAX
            } else {
                total + c
            };
            i += 1;
        }
        proof {
            assert(batch.txs@.subrange(0, batch.txs@.len() as int) =~= batch.txs@);
        }
        total
    }

    /// Chunk cost of one ready-queue element, saturating at the top of
    /// `usize`.
    pub fn required_chunks(&self, element: &SignedTxVariant) -> (r: usize)
        ensures
            r == sat_usize(variant_chunks(self.nonces(), *element)),
    {
        match element {
            SignedTxVariant::Tx(tx) => self.chunks_for_tx(tx),
            SignedTxVariant::Batch(batch) => self.chunks_for_batch(batch),
        }
    }

    /// Removes and returns the front of the ready queue.
    pub(crate) fn pop_front_ready(&mut self) -> (r: Option<SignedTxVariant>)
        ensures
            old(self).queue().len() == 0 ==> r is None && final(self).queue() == old(self).queue(),
            old(self).queue().len() > 0 ==> r == Some(old(self).queue()[0]) && final(self).queue() == old(
                self,
            ).queue().drop_first(),
            final(self).nonces() == old(self).nonces(),
            final(self).ids() == old(self).ids(),
            old(self).wf() ==> final(self).wf(),
    {
        self.ready_txs.pop_front()
    }

    /// Returns an element to the front of the ready queue.
    pub(crate) fn push_front_ready(&mut self, element: SignedTxVariant)
        ensures
            final(self).queue() == seq![element] + old(self).queue(),
            final(self).nonces() == old(self).nonces(),
            final(self).ids() == old(self).ids(),
            old(self).wf() && variant_wf(element) ==> final(self).wf(),
    {
        self.ready_txs.push_front(element);
        proof {
            assert(self.queue() =~= seq![element] + old(self).queue());
            if old(self).wf() && variant_wf(element) {
                assert forall|i: int| 0 <= i < self.queue().len() implies #[trigger] variant_wf(
                    self.queue()[i],
                ) by {
                    if i > 0 {
                        assert(self.queue()[i] == old(self).queue()[i - 1]);
                    }
                }
            }
        }
    }

    /// Appends a restored element to the back of the ready queue.
    pub(crate) fn push_back_ready(&mut self, element: SignedTxVariant)
        ensures
            final(self).queue() == old(self).queue().push(element),
            final(self).nonces() == old(self).nonces(),
            final(self).ids() == old(self).ids(),
            old(self).wf() && variant_wf(element) ==> final(self).wf(),
    {
        self.ready_txs.push_back(element);
    }

    /// Records one committed account update, delivered keyed by numeric id.
    /// Creation and deletion touch both maps; a nonce advance reaches the
    /// nonce map only through an id that is already known, and is silently
    /// ignored otherwise.
    pub fn apply_account_update(&mut self, id: AccountId, update: &AccountUpdate)
        ensures
            final(self).ids() == updated_ids(old(self).ids(), id, *update),
            final(self).nonces() == updated_nonces(old(self).ids(), old(self).nonces(), id, *update),
            final(self).queue() == old(self).queue(),
            old(self).wf() ==> final(self).wf(),
    {
        match update {
            AccountUpdate::Create { address, nonce } => {
                self.account_ids.insert(id, *address);
                self.account_nonces.insert(*address, *nonce);
            },
            AccountUpdate::Delete { address, nonce: _ } => {
                self.account_ids.remove(&id);
                self.account_nonces.remove(address);
            },
            AccountUpdate::UpdateBalance { old_nonce: _, new_nonce } => {
                self.set_nonce_by_id(id, *new_nonce);
            },
            AccountUpdate::ChangePubKeyHash { old_nonce: _, new_nonce } => {
                self.set_nonce_by_id(id, *new_nonce);
            },
        }
    }

    /// Overwrites the nonce of the account that `id` resolves to, if both
    /// the id and the resolved address are present.
    fn set_nonce_by_id(&mut self, id: AccountId, new_nonce: Nonce)
        ensures
            final(self).ids() == old(self).ids(),
            final(self).nonces() == nonce_overwritten(old(self).ids(), old(self).nonces(), id, new_nonce),
            final(self).queue() == old(self).queue(),
    {
        let address = match self.account_ids.get(&id) {
            Some(a) => *a,
            None => {
                return ;
            },
        };
        if self.account_nonces.contains_key(&address) {
            self.account_nonces.insert(address, new_nonce);
        }
    }
}

impl MempoolState {
    /// Builds the state a node starts with: loads the committed account
    /// state, collects garbage among the persisted rows, then loads the
    /// pending transactions in their stored order into the ready queue.
    pub fn restore_from_db(storage: &mut MempoolStorage) -> (r: MempoolState)
        requires
            old(storage).wf(),
        ensures
            final(storage).accounts() == old(storage).accounts(),
            final(storage).rows() == old(storage).rows(),
            final(storage).next_batch_id() == old(storage).next_batch_id(),
            r.ids() == ids_from_accounts(old(storage).accounts()),
            r.nonces() == nonces_from_accounts(old(storage).accounts()),
            views_of(r.queue()) == views_of(old(storage).rows()),
            r.wf(),
    {
        let accounts = storage.load_committed_state();
        storage.collect_garbage();
        let rows = storage.load_txs();
        let mut state = MempoolState::new();
        let mut i: usize = 0;
        while i < accounts.len()
            invariant
                i <= accounts@.len(),
                state.ids() == ids_from_accounts(accounts@.subrange(0, i as int)),
                state.nonces() == nonces_from_accounts(accounts@.subrange(0, i as int)),
                state.queue().len() == 0,
            decreases accounts@.len() - i,
        {
            let a = accounts[i];
            let update = AccountUpdate::Create { address: a.address, nonce: a.nonce };
            state.apply_account_update(a.id, &update);
            proof {
                assert(accounts@.subrange(0, i + 1).drop_last() =~= accounts@.subrange(
                    0,
                    i as int,
                ));
                assert(accounts@.subrange(0, i + 1).last() == accounts@[i as int]);
            }
            i += 1;
        }
        proof {
            assert(accounts@.subrange(0, accounts@.len() as int) =~= accounts@);
        }
        let mut j: usize = 0;
        while j < rows.len()
            invariant
                j <= rows@.len(),
                rows@.len() == old(storage).rows().len(),
                forall|k: int|
                    0 <= k < rows@.len() ==> #[trigger] rows@[k]@ == old(storage).rows()[k]@,
                queue_wf(old(storage).rows()),
                state.queue().len() == j,
                forall|k: int| 0 <= k < j ==> #[trigger] state.queue()[k]@ == rows@[k]@,
                state.ids() == ids_from_accounts(accounts@),
                state.nonces() == nonces_from_accounts(accounts@),
                state.wf(),
            decreases rows@.len() - j,
        {
            let v = crate::storage::copy_variant(&rows[j]);
            proof {
                assert(variant_wf(old(storage).rows()[j as int]));
                assert(v@ == old(storage).rows()[j as int]@);
            }
            state.push_back_ready(v);
            j += 1;
        }
        proof {
            assert(views_of(state.queue()) =~= views_of(old(storage).rows()));
        }
        state
    }
}

/// Saturation of an unbounded chunk count into a machine word.
pub open spec fn sat_usize(n: nat) -> usize {
    if n <= usize::MAX {
        n as usize
    } else {
        usize::MAX
    }
}

/// The id map after one account update.
pub open spec fn updated_ids(
    ids: Map<AccountId, Address>,
    id: AccountId,
    update: AccountUpdate,
) -> Map<AccountId, Address> {
    match update {
        AccountUpdate::Create { address, .. } => ids.insert(id, address),
        AccountUpdate::Delete { .. } => ids.remove(id),
        AccountUpdate::UpdateBalance { .. } => ids,
        AccountUpdate::ChangePubKeyHash { .. } => ids,
    }
}

/// The nonce map after a nonce advance delivered for `id`: overwritten only
/// when the id resolves to an address already present in the nonce map.
pub open spec fn nonce_overwritten(
    ids: Map<AccountId, Address>,
    nonces: Map<Address, Nonce>,
    id: AccountId,
    new_nonce: Nonce,
) -> Map<Address, Nonce> {
    if ids.contains_key(id) && nonces.contains_key(ids[id]) {
        nonces.insert(ids[id], new_nonce)
    } else {
        nonces
    }
}

/// The nonce map after one account update.
pub open spec fn updated_nonces(
    ids: Map<AccountId, Address>,
    nonces: Map<Address, Nonce>,
    id: AccountId,
    update: AccountUpdate,
) -> Map<Address, Nonce> {
    match update {
        AccountUpdate::Create { address, nonce } => nonces.insert(address, nonce),
        AccountUpdate::Delete { address, .. } => nonces.remove(address),
        AccountUpdate::UpdateBalance { new_nonce, .. } => nonce_overwritten(
            ids,
            nonces,
            id,
            new_nonce,
        ),
        AccountUpdate::ChangePubKeyHash { new_nonce, .. } => nonce_overwritten(
            ids,
            nonces,
            id,
            new_nonce,
        ),
    }
}

/// Nonce monotonicity: a nonce advance (`UpdateBalance` or
/// `ChangePubKeyHash`) whose `new_nonce` is at least the nonce currently
/// recorded for the account it resolves to leaves no address with a smaller
/// nonce than before.
pub proof fn lemma_nonce_monotone(
    ids: Map<AccountId, Address>,
    nonces: Map<Address, Nonce>,
    id: AccountId,
    update: AccountUpdate,
)
    requires
        update is UpdateBalance || update is ChangePubKeyHash,
        match update {
            AccountUpdate::UpdateBalance { new_nonce, .. } => ids.contains_key(id) ==> new_nonce
                >= nonce_of(nonces, ids[id]),
            AccountUpdate::ChangePubKeyHash { new_nonce, .. } => ids.contains_key(id) ==> new_nonce
                >= nonce_of(nonces, ids[id]),
            _ => true,
        },
    ensures
        forall|address: Address|
            nonce_of(#[trigger] updated_nonces(ids, nonces, id, update), address) >= nonce_of(
                nonces,
                address,
            ),
{
}

} // verus!
