//! Aggregation of pending on-chain deposits into per-token depositing
//! balances, as shown on the account API: amounts are summed per token,
//! and the expected acceptance block is the largest among the token's
//! deposits, each shifted by the confirmation depth.

use std::collections::HashMap;
use vstd::prelude::*;

verus! {

broadcast use vstd::std_specs::hash::group_hash_axioms;

/// One not-yet-confirmed deposit observed on the root chain.
#[derive(Debug, Clone, Copy, PartialEq, Eq, Structural)]
pub struct PendingDeposit {
    /// Token being deposited.
    pub token_id: u32,
    /// Deposited amount.
    pub amount: u128,
    /// Root-chain block the deposit was received in.
    pub received_on_block: u64,
}

/// The depositing balance of one token.
#[derive(Debug, Clone, Copy, PartialEq, Eq, Structural)]
pub struct DepositingFunds {
    /// Total amount over the token's pending deposits.
    pub amount: u128,
    /// The greatest block number at which one of the deposits is expected
    /// to be accepted.
    pub expected_accept_block: u64,
}

/// The balances after one more deposit is taken into account.
pub open spec fn funds_after(
    prior: Map<u32, DepositingFunds>,
    d: PendingDeposit,
    confirmations: u64,
) -> Map<u32, DepositingFunds> {
    let expected = d.received_on_block + confirmations;
    let prev = if prior.contains_key(d.token_id) {
        prior[d.token_id]
    } else {
        DepositingFunds { amount: 0, expected_accept_block: 0 }
    };
    prior.insert(
        d.token_id,
        DepositingFunds {
            amount: (prev.amount + d.amount) as u128,
            expected_accept_block: (if expected > prev.expected_accept_block {
                expected
            } else {
                prev.expected_accept_block as int
            }) as u64,
        },
    )
}

/// Per-token depositing balances over a list of pending deposits, taken
/// in order.
pub open spec fn deposit_balances(deposits: Seq<PendingDeposit>, confirmations: u64) -> Map<
    u32,
    DepositingFunds,
>
    decreases deposits.len(),
{
    if deposits.len() == 0 {
        Map::empty()
    } else {
        funds_after(
            deposit_balances(deposits.drop_last(), confirmations),
            deposits.last(),
            confirmations,
        )
    }
}

/// The running sums and block shifts stay inside their machine words.
pub open spec fn deposits_in_range(deposits: Seq<PendingDeposit>, confirmations: u64) -> bool {
    forall|i: int|
        0 <= i < deposits.len() ==> {
            let prior = deposit_balances(#[trigger] deposits.subrange(0, i), confirmations);
            let d = deposits[i];
            &&& d.received_on_block + confirmations <= u64::MAX
            &&& (if prior.contains_key(d.token_id) {
                prior[d.token_id].amount as int
            } else {
                0
            }) + d.amount <= u128::MAX
        }
}

/// Folds the pending deposits into per-token depositing balances, keyed
/// by token id.
pub fn depositing_from_pending_ops(
    deposits: &Vec<PendingDeposit>,
    confirmations_for_eth_event: u64,
) -> (r: HashMap<u32, DepositingFunds>)
    requires
        deposits_in_range(deposits@, confirmations_for_eth_event),
    ensures
        r@ == deposit_balances(deposits@, confirmations_for_eth_event),
{
    let mut balances: HashMap<u32, DepositingFunds> = HashMap::new();
    let mut i: usize = 0;
    while i < deposits.len()
        invariant
            i <= deposits@.len(),
            deposits_in_range(deposits@, confirmations_for_eth_event),
            balances@ == deposit_balances(
                deposits@.subrange(0, i as int),
                confirmations_for_eth_event,
            ),
        decreases deposits@.len() - i,
    {
        let d = deposits[i];
        proof {
            assert(deposits@.subrange(0, i + 1).drop_last() =~= deposits@.subrange(0, i as int));
            assert(deposits@.subrange(0, i + 1).last() == deposits@[i as int]);
        }
        let prev = match balances.get(&d.token_id) {
            Some(funds) => *funds,
            None => DepositingFunds { amount: 0, expected_accept_block: 0 },
        };
        let expected_accept_block = d.received_on_block + confirmations_for_eth_event;
        let updated = DepositingFunds {
            amount: prev.amount + d.amount,
            expected_accept_block: if expected_accept_block > prev.expected_accept_block {
                expected_accept_block
            } else {
                prev.expected_accept_block
            },
        };
        balances.insert(d.token_id, updated);
        i += 1;
    }
    proof {
        assert(deposits@.subrange(0, deposits@.len() as int) =~= deposits@);
    }
    balances
}

} // verus!
