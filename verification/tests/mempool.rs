use mempool_core::{
    depositing_from_pending_ops, max_block_size_chunks, try_parse_hash, AccountUpdate,
    CommittedAccount, MempoolBlocks, MempoolState, MempoolStorage, MempoolTransactionsHandler,
    ParseHashError, PendingDeposit, PriorityOp, ProposedBlock, RoundRobin, SignedTx,
    SignedTxVariant, TxAddError, TxData,
};

fn tx(account: u64, nonce: u32, data: TxData) -> SignedTx {
    SignedTx { account, nonce, data }
}

fn transfer_to_new(account: u64, nonce: u32) -> SignedTx {
    // The recipient address is far from any account the tests create, so
    // the transfer counts as one to a new account (6 chunks).
    tx(account, nonce, TxData::Transfer { to: 0xdead_0000 + account })
}

#[test]
fn single_tx_admission() {
    let mut storage = MempoolStorage::new();
    let mut state = MempoolState::new();
    let handler = MempoolTransactionsHandler::new(10, 100);
    let blocks = MempoolBlocks::new(10);

    let t = transfer_to_new(1, 0);
    assert_eq!(handler.add_tx(&mut storage, &mut state, t.clone()), Ok(()));

    let block = blocks.propose_new_block(&mut state, Vec::new()).unwrap();
    assert!(block.priority_ops.is_empty());
    assert_eq!(block.txs, vec![SignedTxVariant::Tx(t)]);
}

#[test]
fn nonce_mismatch_rejection() {
    let mut storage = MempoolStorage::new();
    let mut state = MempoolState::new();
    let handler = MempoolTransactionsHandler::new(10, 100);
    let blocks = MempoolBlocks::new(10);

    blocks.update_nonces(
        &mut state,
        &vec![(1, AccountUpdate::Create { address: 7, nonce: 5 })],
    );
    let t = transfer_to_new(7, 4);
    assert_eq!(
        handler.add_tx(&mut storage, &mut state, t),
        Err(TxAddError::NonceMismatch)
    );

    let block = blocks.propose_new_block(&mut state, Vec::new()).unwrap();
    assert!(block.is_empty());
}

#[test]
fn batch_too_big() {
    let mut storage = MempoolStorage::new();
    let mut state = MempoolState::new();
    let handler = MempoolTransactionsHandler::new(10, 100);

    // Three transfers to new accounts: 6 + 6 + 6 = 18 chunks > 10.
    let txs = vec![
        transfer_to_new(1, 0),
        transfer_to_new(2, 0),
        transfer_to_new(3, 0),
    ];
    assert_eq!(
        handler.add_batch(&mut storage, &mut state, txs, None),
        Err(TxAddError::BatchTooBig)
    );
    // No storage write happened.
    assert!(storage.load_txs().is_empty());
}

#[test]
fn withdrawals_cap() {
    let mut storage = MempoolStorage::new();
    let mut state = MempoolState::new();
    let handler = MempoolTransactionsHandler::new(100, 2);

    let txs = vec![
        tx(1, 0, TxData::Withdraw),
        tx(2, 0, TxData::Withdraw),
        tx(3, 0, TxData::Withdraw),
    ];
    assert_eq!(
        handler.add_batch(&mut storage, &mut state, txs, None),
        Err(TxAddError::BatchWithdrawalsOverload)
    );
    assert!(storage.load_txs().is_empty());
}

#[test]
fn empty_batch_rejected() {
    let mut storage = MempoolStorage::new();
    let mut state = MempoolState::new();
    let handler = MempoolTransactionsHandler::new(10, 100);

    assert_eq!(
        handler.add_batch(&mut storage, &mut state, Vec::new(), None),
        Err(TxAddError::EmptyBatch)
    );
    assert!(storage.load_txs().is_empty());
}

#[test]
fn partial_block_fill() {
    let mut storage = MempoolStorage::new();
    let mut state = MempoolState::new();
    let handler = MempoolTransactionsHandler::new(10, 100);
    let blocks = MempoolBlocks::new(10);

    // A 7-chunk batch at the front of the queue: 6 + 1.
    let batch = vec![transfer_to_new(1, 0), tx(2, 0, TxData::Close)];
    assert_eq!(
        handler.add_batch(&mut storage, &mut state, batch.clone(), None),
        Ok(())
    );

    // The watcher returns one 4-chunk priority op; 10 - 4 = 6 < 7, so the
    // proposed block carries only the priority op.
    let op = PriorityOp { serial_id: 0, chunks: 4 };
    let block = blocks
        .propose_new_block(&mut state, vec![op.clone()])
        .unwrap();
    assert_eq!(block.priority_ops, vec![op]);
    assert!(block.txs.is_empty());

    // The batch stayed at the front: with the full budget it is proposed.
    let block = blocks.propose_new_block(&mut state, Vec::new()).unwrap();
    assert_eq!(block.txs.len(), 1);
    match &block.txs[0] {
        SignedTxVariant::Batch(b) => assert_eq!(b.txs, batch),
        other => panic!("expected the batch at the front, got {:?}", other),
    }
}

#[test]
fn restart_durability() {
    let mut storage = MempoolStorage::new();
    let mut state = MempoolState::new();
    let handler = MempoolTransactionsHandler::new(100, 100);

    let t1 = transfer_to_new(1, 0);
    let b1 = vec![tx(2, 0, TxData::Withdraw), tx(3, 0, TxData::Close)];
    assert_eq!(handler.add_tx(&mut storage, &mut state, t1.clone()), Ok(()));
    assert_eq!(
        handler.add_batch(&mut storage, &mut state, b1.clone(), Some(vec![9, 9])),
        Ok(())
    );

    // The node shuts down: the in-memory state is dropped; storage remains.
    drop(state);
    let mut restored = MempoolState::restore_from_db(&mut storage);

    let blocks = MempoolBlocks::new(1000);
    let block = blocks.propose_new_block(&mut restored, Vec::new()).unwrap();
    assert_eq!(block.txs.len(), 2);
    assert_eq!(block.txs[0], SignedTxVariant::Tx(t1));
    match &block.txs[1] {
        SignedTxVariant::Batch(b) => {
            assert_eq!(b.txs, b1);
            assert_eq!(b.batch_id, 1);
            assert_eq!(b.eth_signature, Some(vec![9, 9]));
        }
        other => panic!("expected the batch second, got {:?}", other),
    }
}

#[test]
fn restore_reads_committed_accounts() {
    let mut storage = MempoolStorage::new();
    storage.record_committed_account(CommittedAccount { id: 1, address: 7, nonce: 5 });
    storage.record_committed_account(CommittedAccount { id: 2, address: 8, nonce: 1 });

    let state = MempoolState::restore_from_db(&mut storage);
    assert_eq!(state.nonce(7), 5);
    assert_eq!(state.nonce(8), 1);
    assert_eq!(state.nonce(9), 0);
}

#[test]
fn nonce_monotone_under_updates() {
    let mut state = MempoolState::new();
    let blocks = MempoolBlocks::new(100);

    blocks.update_nonces(
        &mut state,
        &vec![(1, AccountUpdate::Create { address: 7, nonce: 3 })],
    );
    assert_eq!(state.nonce(7), 3);

    blocks.update_nonces(
        &mut state,
        &vec![(1, AccountUpdate::UpdateBalance { old_nonce: 3, new_nonce: 5 })],
    );
    assert_eq!(state.nonce(7), 5);

    blocks.update_nonces(
        &mut state,
        &vec![(1, AccountUpdate::ChangePubKeyHash { old_nonce: 5, new_nonce: 6 })],
    );
    assert_eq!(state.nonce(7), 6);
}

#[test]
fn update_for_unknown_id_is_ignored() {
    let mut state = MempoolState::new();
    let blocks = MempoolBlocks::new(100);

    blocks.update_nonces(
        &mut state,
        &vec![(42, AccountUpdate::UpdateBalance { old_nonce: 0, new_nonce: 9 })],
    );
    assert_eq!(state.nonce(42), 0);
}

#[test]
fn delete_removes_account() {
    let mut state = MempoolState::new();
    let blocks = MempoolBlocks::new(100);

    blocks.update_nonces(
        &mut state,
        &vec![
            (1, AccountUpdate::Create { address: 7, nonce: 5 }),
            (1, AccountUpdate::Delete { address: 7, nonce: 5 }),
        ],
    );
    assert_eq!(state.nonce(7), 0);
}

#[test]
fn admission_nonce_rule() {
    let mut storage = MempoolStorage::new();
    let mut state = MempoolState::new();
    let handler = MempoolTransactionsHandler::new(100, 100);
    let blocks = MempoolBlocks::new(100);

    blocks.update_nonces(
        &mut state,
        &vec![(1, AccountUpdate::Create { address: 7, nonce: 5 })],
    );
    // Equal to the committed nonce: accepted. Larger: accepted too.
    assert_eq!(
        handler.add_tx(&mut storage, &mut state, transfer_to_new(7, 5)),
        Ok(())
    );
    assert_eq!(
        handler.add_tx(&mut storage, &mut state, transfer_to_new(7, 9)),
        Ok(())
    );
    // Smaller: rejected, and a batch carrying it is rejected whole.
    assert_eq!(
        handler.add_tx(&mut storage, &mut state, transfer_to_new(7, 4)),
        Err(TxAddError::NonceMismatch)
    );
    assert_eq!(
        handler.add_batch(
            &mut storage,
            &mut state,
            vec![transfer_to_new(2, 0), transfer_to_new(7, 4)],
            None,
        ),
        Err(TxAddError::NonceMismatch)
    );
}

#[test]
fn chunk_budget_respected() {
    let mut storage = MempoolStorage::new();
    let mut state = MempoolState::new();
    let handler = MempoolTransactionsHandler::new(20, 100);
    let blocks = MempoolBlocks::new(20);

    // Queue: 6-chunk tx, 7-chunk batch, 6-chunk tx.
    assert_eq!(
        handler.add_tx(&mut storage, &mut state, transfer_to_new(1, 0)),
        Ok(())
    );
    assert_eq!(
        handler.add_batch(
            &mut storage,
            &mut state,
            vec![transfer_to_new(2, 0), tx(3, 0, TxData::Close)],
            None,
        ),
        Ok(())
    );
    assert_eq!(
        handler.add_tx(&mut storage, &mut state, transfer_to_new(4, 0)),
        Ok(())
    );

    // The watcher supplies a 6-chunk priority op; 20 - 6 = 14 takes the
    // first tx (6) and the batch (7) but not the last tx (6).
    let op = PriorityOp { serial_id: 3, chunks: 6 };
    let block = blocks.propose_new_block(&mut state, vec![op]).unwrap();
    assert_eq!(block.txs.len(), 2);
    let spent: usize = 6 + 6 + 7;
    assert!(spent <= 20);

    // The last tx is still queued.
    let block = blocks.propose_new_block(&mut state, Vec::new()).unwrap();
    assert_eq!(block.txs.len(), 1);
}

#[test]
fn watcher_over_budget_is_fatal() {
    let mut state = MempoolState::new();
    let blocks = MempoolBlocks::new(10);
    let ops = vec![
        PriorityOp { serial_id: 0, chunks: 6 },
        PriorityOp { serial_id: 1, chunks: 6 },
    ];
    assert!(blocks.propose_new_block(&mut state, ops).is_err());
}

#[test]
fn batches_are_not_split() {
    let mut storage = MempoolStorage::new();
    let mut state = MempoolState::new();
    let handler = MempoolTransactionsHandler::new(100, 100);
    let blocks = MempoolBlocks::new(10);

    // 6-chunk tx, then a 12-chunk batch that can never fit a 10-chunk block.
    assert_eq!(
        handler.add_tx(&mut storage, &mut state, transfer_to_new(1, 0)),
        Ok(())
    );
    assert_eq!(
        handler.add_batch(
            &mut storage,
            &mut state,
            vec![tx(2, 0, TxData::Withdraw), tx(3, 0, TxData::Withdraw)],
            None,
        ),
        Ok(())
    );

    let block = blocks.propose_new_block(&mut state, Vec::new()).unwrap();
    // Only the single tx was taken; no member of the batch leaked out.
    assert_eq!(block.txs.len(), 1);
    assert!(matches!(block.txs[0], SignedTxVariant::Tx(_)));
}

#[test]
fn transfer_cost_depends_on_recipient() {
    let mut storage = MempoolStorage::new();
    let mut state = MempoolState::new();
    let handler = MempoolTransactionsHandler::new(100, 100);
    let blocks = MempoolBlocks::new(4);

    // Recipient 8 is a known account, so the transfer costs 2 chunks and
    // fits a 4-chunk block.
    blocks.update_nonces(
        &mut state,
        &vec![(2, AccountUpdate::Create { address: 8, nonce: 0 })],
    );
    let t = tx(1, 0, TxData::Transfer { to: 8 });
    assert_eq!(handler.add_tx(&mut storage, &mut state, t), Ok(()));
    let block = blocks.propose_new_block(&mut state, Vec::new()).unwrap();
    assert_eq!(block.txs.len(), 1);

    // A transfer to an unknown recipient costs 6 and does not fit.
    let t = transfer_to_new(1, 1);
    assert_eq!(handler.add_tx(&mut storage, &mut state, t), Ok(()));
    let block = blocks.propose_new_block(&mut state, Vec::new()).unwrap();
    assert!(block.txs.is_empty());
}

#[test]
fn round_robin_counts() {
    let mut rr = RoundRobin::new(3);
    let mut counts = [0usize; 3];
    for _ in 0..8 {
        counts[rr.pick()] += 1;
    }
    // 8 = 2 * 3 + 2: two inboxes get 3 requests, one gets 2.
    assert_eq!(counts, [3, 3, 2]);

    // A window whose length the inbox count divides is split evenly.
    let mut rr = RoundRobin::new(4);
    let mut counts = [0usize; 4];
    for _ in 0..12 {
        counts[rr.pick()] += 1;
    }
    assert_eq!(counts, [3, 3, 3, 3]);
}

#[test]
fn round_robin_order() {
    let mut rr = RoundRobin::new(2);
    assert_eq!(rr.pick(), 0);
    assert_eq!(rr.pick(), 1);
    assert_eq!(rr.pick(), 0);
    assert_eq!(rr.pick(), 1);
}

#[test]
fn proposed_block_is_empty() {
    let block = ProposedBlock::default();
    assert!(block.is_empty());
    let block = ProposedBlock {
        priority_ops: vec![PriorityOp { serial_id: 0, chunks: 1 }],
        txs: Vec::new(),
    };
    assert!(!block.is_empty());
}

#[test]
fn max_block_size_chunks_picks_largest() {
    assert_eq!(max_block_size_chunks(&vec![6, 30, 10]), Some(30));
    assert_eq!(max_block_size_chunks(&vec![12]), Some(12));
    assert_eq!(max_block_size_chunks(&Vec::new()), None);
}

#[test]
fn parse_hash_round_values() {
    let mut expected = vec![0u8; 32];
    expected[31] = 255;
    let query = format!("0x{}{}", "00".repeat(31), "ff");
    assert_eq!(try_parse_hash(&query), Ok(expected.clone()));

    // The same digits under the transaction and block tags, and bare.
    let query = format!("sync-tx:{}{}", "00".repeat(31), "ff");
    assert_eq!(try_parse_hash(&query), Ok(expected.clone()));
    let query = format!("sync-bl:{}{}", "00".repeat(31), "ff");
    assert_eq!(try_parse_hash(&query), Ok(expected.clone()));
    let query = format!("{}{}", "00".repeat(31), "ff");
    assert_eq!(try_parse_hash(&query), Ok(expected));

    // Each digit pair decodes high-first, both letter cases accepted.
    let query = format!("1A{}", "00".repeat(31));
    let decoded = try_parse_hash(&query).unwrap();
    assert_eq!(decoded[0], 0x1a);
    assert_eq!(decoded.len(), 32);
}

#[test]
fn parse_hash_errors() {
    assert_eq!(
        try_parse_hash(&"a".repeat(63)),
        Err(ParseHashError::OddLength)
    );
    assert_eq!(
        try_parse_hash(&"a".repeat(62)),
        Err(ParseHashError::InvalidStringLength)
    );
    let mut query = "a".repeat(64);
    query.replace_range(10..11, "g");
    assert_eq!(try_parse_hash(&query), Err(ParseHashError::InvalidHexCharacter));
}

#[test]
fn depositing_balances_aggregate() {
    let deposits = vec![
        PendingDeposit { token_id: 0, amount: 100, received_on_block: 10 },
        PendingDeposit { token_id: 0, amount: 50, received_on_block: 30 },
        PendingDeposit { token_id: 2, amount: 7, received_on_block: 1 },
    ];
    let balances = depositing_from_pending_ops(&deposits, 5);
    let eth = balances.get(&0).unwrap();
    assert_eq!(eth.amount, 150);
    // The expected block is the maximum over the token's deposits: 30 + 5.
    assert_eq!(eth.expected_accept_block, 35);
    let other = balances.get(&2).unwrap();
    assert_eq!(other.amount, 7);
    assert_eq!(other.expected_accept_block, 6);
    assert_eq!(balances.len(), 2);
}

#[test]
fn mempool_state_direct_add() {
    let mut state = MempoolState::new();
    assert_eq!(state.nonce(1), 0);
    assert_eq!(state.add_tx(transfer_to_new(1, 0)), Ok(()));
    assert_eq!(
        state.add_tx(SignedTx { account: 1, nonce: 0, data: TxData::ChangePubKey }),
        Ok(())
    );
}
