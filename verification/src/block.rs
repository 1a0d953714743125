//! Block assembly: priority operations first, then a chunk-budgeted drain
//! of the ready queue's front. One assembler instance is the single writer
//! of proposed blocks; nonce updates from the commit pipeline are applied
//! on the same inbox, serializing them with assembly.

use vstd::prelude::*;

use crate::errors::BlockProposalError;
use crate::state::{
    nonce_of, sat_usize, updated_ids, updated_nonces, variant_chunks, MempoolState,
};
use crate::types::{AccountId, AccountUpdate, Address, Nonce, PriorityOp, ProposedBlock, SignedTxVariant};

verus! {

/// Summed chunk cost of a list of priority operations.
pub open spec fn priority_ops_chunks(ops: Seq<PriorityOp>) -> nat
    decreases ops.len(),
{
    if ops.len() == 0 {
        0
    } else {
        priority_ops_chunks(ops.drop_last()) + ops.last().chunks as nat
    }
}

/// Summed chunk cost of a list of queue elements under one nonce map.
pub open spec fn variants_chunks(nonces: Map<Address, Nonce>, q: Seq<SignedTxVariant>) -> nat
    decreases q.len(),
{
    if q.len() == 0 {
        0
    } else {
        variants_chunks(nonces, q.drop_last()) + variant_chunks(nonces, q.last())
    }
}

/// The two account maps after a list of updates, applied in order.
pub open spec fn applied_updates(
    ids: Map<AccountId, Address>,
    nonces: Map<Address, Nonce>,
    updates: Seq<(AccountId, AccountUpdate)>,
) -> (Map<AccountId, Address>, Map<Address, Nonce>)
    decreases updates.len(),
{
    if updates.len() == 0 {
        (ids, nonces)
    } else {
        let prior = applied_updates(ids, nonces, updates.drop_last());
        let last = updates.last();
        (
            updated_ids(prior.0, last.0, last.1),
            updated_nonces(prior.0, prior.1, last.0, last.1),
        )
    }
}

/// The largest of the supported block chunk sizes, `None` when the list is
/// empty.
pub fn max_block_size_chunks(available_block_chunk_sizes: &Vec<usize>) -> (r: Option<usize>)
    ensures
        r is Some <==> available_block_chunk_sizes@.len() > 0,
        r matches Some(m) ==> available_block_chunk_sizes@.contains(m) && forall|i: int|
            0 <= i < available_block_chunk_sizes@.len()
                ==> #[trigger] available_block_chunk_sizes@[i] <= m,
{
    if available_block_chunk_sizes.len() == 0 {
        return None;
    }
    let mut m: usize = available_block_chunk_sizes[0];
    let mut i: usize = 1;
    proof {
        assert(available_block_chunk_sizes@.contains(available_block_chunk_sizes@[0]));
    }
    while i < available_block_chunk_sizes.len()
        invariant
            1 <= i <= available_block_chunk_sizes@.len(),
            available_block_chunk_sizes@.contains(m),
            forall|j: int| 0 <= j < i ==> #[trigger] available_block_chunk_sizes@[j] <= m,
        decreases available_block_chunk_sizes@.len() - i,
    {
        if available_block_chunk_sizes[i] > m {
            m = available_block_chunk_sizes[i];
            proof {
                assert(available_block_chunk_sizes@.contains(
                    available_block_chunk_sizes@[i as int],
                ));
            }
        }
        i += 1;
    }
    Some(m)
}

/// The block assembler: drains the mempool under the chunk budget and
/// applies nonce updates from the commit pipeline.
pub struct MempoolBlocks {
    max_block_size_chunks: usize,
}

impl MempoolBlocks {
    /// The block's chunk budget.
    pub closed spec fn max_chunks(&self) -> usize {
        self.max_block_size_chunks
    }

    /// The chunk budget leaves headroom in the machine word, so saturating
    /// chunk sums compare against it exactly.
    pub open spec fn wf(&self) -> bool {
        self.max_chunks() < usize::MAX
    }

    /// An assembler for the given chunk budget.
    pub fn new(max_block_size_chunks: usize) -> (r: Self)
        requires
            max_block_size_chunks < usize::MAX,
        ensures
            r.max_chunks() == max_block_size_chunks,
            r.wf(),
    {
        MempoolBlocks { max_block_size_chunks }
    }

    /// Accounts for the watcher's reply: accepts the operations when their
    /// summed chunk cost fits the budget and returns them with the budget
    /// that remains; a reply over budget violates the watcher's contract
    /// and is reported as fatal.
    pub fn select_priority_ops(&self, priority_ops: Vec<PriorityOp>) -> (r: Result<
        (usize, Vec<PriorityOp>),
        BlockProposalError,
    >)
        requires
            self.wf(),
        ensures
            r is Ok <==> priority_ops_chunks(priority_ops@) <= self.max_chunks(),
            r matches Ok(p) ==> p.1 == priority_ops && p.0 == self.max_chunks()
                - priority_ops_chunks(priority_ops@),
            r is Err ==> r == Err::<(usize, Vec<PriorityOp>), BlockProposalError>(
                BlockProposalError::PriorityOpsOverBudget,
            ),
    {
        let mut used: usize = 0;
        let mut i: usize = 0;
        while i < priority_ops.len()
            invariant
                i <= priority_ops@.len(),
                used == sat_usize(priority_ops_chunks(priority_ops@.subrange(0, i as int))),
            decreases priority_ops@.len() - i,
        {
            let c = priority_ops[i].chunks;
            proof {
                assert(priority_ops@.subrange(0, i + 1).drop_last() =~= priority_ops@.subrange(
                    0,
                    i as int,
                ));
                assert(priority_ops@.subrange(0, i + 1).last() == priority_ops@[i as int]);
            }
            used = if c > usize::MAX - used {
                usize::MAX
            } else {
                used + c
            };
            i += 1;
        }
        proof {
            assert(priority_ops@.subrange(0, priority_ops@.len() as int) =~= priority_ops@);
        }
        if used > self.max_block_size_chunks {
            Err(BlockProposalError::PriorityOpsOverBudget)
        } else {
            Ok((self.max_block_size_chunks - used, priority_ops))
        }
    }

    /// Drains the front of the ready queue into a block: elements are taken
    /// in order while they fit the remaining budget; the first element that
    /// does not fit is put back at the front and the drain stops.
    pub fn prepare_tx_for_block(&self, state: &mut MempoolState, chunks_left: usize) -> (r: (
        usize,
        Vec<SignedTxVariant>,
    ))
        requires
            self.wf(),
            old(state).wf(),
            chunks_left <= self.max_chunks(),
        ensures
            old(state).queue() == r.1@ + final(state).queue(),
            variants_chunks(old(state).nonces(), r.1@) + r.0 == chunks_left,
            final(state).queue().len() > 0 ==> variant_chunks(
                old(state).nonces(),
                final(state).queue()[0],
            ) > r.0,
            final(state).nonces() == old(state).nonces(),
            final(state).ids() == old(state).ids(),
            final(state).wf(),
    {
        let mut txs_for_commit: Vec<SignedTxVariant> = Vec::new();
        let mut left: usize = chunks_left;

        loop
            invariant_except_break
                self.wf(),
                state.wf(),
                left <= chunks_left <= self.max_chunks(),
                old(state).queue() == txs_for_commit@ + state.queue(),
                variants_chunks(old(state).nonces(), txs_for_commit@) + left == chunks_left,
                state.nonces() == old(state).nonces(),
                state.ids() == old(state).ids(),
            ensures
                state.wf(),
                old(state).queue() == txs_for_commit@ + state.queue(),
                variants_chunks(old(state).nonces(), txs_for_commit@) + left == chunks_left,
                state.nonces() == old(state).nonces(),
                state.ids() == old(state).ids(),
                left <= chunks_left,
                state.queue().len() > 0 ==> variant_chunks(
                    old(state).nonces(),
                    state.queue()[0],
                ) > left,
            decreases state.queue().len(),
        {
            let ghost queue_before = state.queue();
            let tx = match state.pop_front_ready() {
                Some(tx) => tx,
                None => {
                    break ;
                },
            };
            let chunks_for_tx = state.required_chunks(&tx);
            if chunks_for_tx <= left {
                proof {
                    // Within budget the saturating cost is the exact cost.
                    assert(variant_chunks(state.nonces(), tx) == chunks_for_tx);
                    assert(txs_for_commit@.push(tx).drop_last() =~= txs_for_commit@);
                    assert(old(state).queue() =~= txs_for_commit@.push(tx) + state.queue());
                }
                txs_for_commit.push(tx);
                left = left - chunks_for_tx;
            } else {
                state.push_front_ready(tx);
                proof {
                    assert(state.queue() =~= queue_before);
                    if variant_chunks(state.nonces(), tx) <= left {
                        assert(sat_usize(variant_chunks(state.nonces(), tx)) <= left);
                    }
                }
                break ;
            }
        }
        (left, txs_for_commit)
    }

    /// Assembles one proposed block from the watcher's priority operations
    /// and the ready queue, within the chunk budget.
    pub fn propose_new_block(&self, state: &mut MempoolState, priority_ops: Vec<PriorityOp>) -> (r:
        Result<ProposedBlock, BlockProposalError>)
        requires
            self.wf(),
            old(state).wf(),
        ensures
            r is Ok <==> priority_ops_chunks(priority_ops@) <= self.max_chunks(),
            r matches Ok(block) ==> {
                &&& block.priority_ops == priority_ops
                &&& old(state).queue() == block.txs@ + final(state).queue()
                &&& priority_ops_chunks(priority_ops@) + variants_chunks(
                    old(state).nonces(),
                    block.txs@,
                ) <= self.max_chunks()
                &&& final(state).queue().len() > 0 ==> variant_chunks(
                    old(state).nonces(),
                    final(state).queue()[0],
                ) + priority_ops_chunks(priority_ops@) + variants_chunks(
                    old(state).nonces(),
                    block.txs@,
                ) > self.max_chunks()
            },
            r is Err ==> final(state).queue() == old(state).queue() && r == Err::<
                ProposedBlock,
                BlockProposalError,
            >(BlockProposalError::PriorityOpsOverBudget),
            final(state).nonces() == old(state).nonces(),
            final(state).ids() == old(state).ids(),
            final(state).wf(),
    {
        let (chunks_left, priority_ops) = match self.select_priority_ops(priority_ops) {
            Ok(p) => p,
            Err(e) => {
                return Err(e);
            },
        };
        let (_chunks_left, txs) = self.prepare_tx_for_block(state, chunks_left);
        Ok(ProposedBlock { priority_ops, txs })
    }

    /// Applies a list of account updates from the commit pipeline to the
    /// state, in order.
    pub fn update_nonces(
        &self,
        state: &mut MempoolState,
        updates: &Vec<(AccountId, AccountUpdate)>,
    )
        requires
            old(state).wf(),
        ensures
            (final(state).ids(), final(state).nonces()) == applied_updates(
                old(state).ids(),
                old(state).nonces(),
                updates@,
            ),
            final(state).queue() == old(state).queue(),
            final(state).wf(),
    {
        let mut i: usize = 0;
        while i < updates.len()
            invariant
                i <= updates@.len(),
                (state.ids(), state.nonces()) == applied_updates(
                    old(state).ids(),
                    old(state).nonces(),
                    updates@.subrange(0, i as int),
                ),
                state.queue() == old(state).queue(),
                state.wf(),
            decreases updates@.len() - i,
        {
            let (id, update) = &updates[i];
            proof {
                assert(updates@.subrange(0, i + 1).drop_last() =~= updates@.subrange(0, i as int));
                assert(updates@.subrange(0, i + 1).last() == updates@[i as int]);
            }
            state.apply_account_update(*id, update);
            i += 1;
        }
        proof {
            assert(updates@.subrange(0, updates@.len() as int) =~= updates@);
        }
    }
}

/// Batch atomicity: block assembly splits the ready queue into the taken
/// prefix and the remainder, so each element — in particular each atomic
/// batch, which is one element — lands wholly in the proposed block or
/// stays wholly in the queue.
pub proof fn lemma_batch_atomicity(
    q0: Seq<SignedTxVariant>,
    taken: Seq<SignedTxVariant>,
    rest: Seq<SignedTxVariant>,
    i: int,
)
    requires
        q0 == taken + rest,
        0 <= i < q0.len(),
    ensures
        i < taken.len() ==> q0[i] == taken[i],
        i >= taken.len() ==> q0[i] == rest[i - taken.len()],
{
}

} // verus!
