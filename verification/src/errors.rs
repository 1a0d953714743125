//! Error values surfaced by the mempool core.

use vstd::prelude::*;

verus! {

/// Rejections surfaced to admission callers through the reply channels.
///
/// The mempool core itself produces only `NonceMismatch`, `DbError`,
/// `EmptyBatch`, `BatchTooBig`, `BatchWithdrawalsOverload` and `Other`;
/// the remaining variants are part of the admission surface as a whole
/// (signature and fee checks performed upstream).
#[derive(Debug, Clone, Copy, PartialEq, Eq, Structural)]
pub enum TxAddError {
    /// Tx nonce is too low.
    NonceMismatch,
    /// Tx is incorrect.
    IncorrectTx,
    /// Transaction fee is too low.
    TxFeeTooLow,
    /// Transactions batch summary fee is too low.
    TxBatchFeeTooLow,
    /// EIP1271 signature could not be verified.
    EIP1271SignatureVerificationFail,
    /// Missing Ethereum signature.
    MissingEthSignature,
    /// Eth signature is incorrect.
    IncorrectEthSignature,
    /// Change pubkey tx is not authorized onchain.
    ChangePkNotAuthorized,
    /// Internal error.
    Other,
    /// Database unavailable.
    DbError,
    /// Transaction batch is empty.
    EmptyBatch,
    /// Batch will not fit in any of supported block sizes.
    BatchTooBig,
    /// The number of withdrawals in the batch is too big.
    BatchWithdrawalsOverload,
}

/// Fatal faults detected while assembling a proposed block.
#[derive(Debug, Clone, Copy, PartialEq, Eq, Structural)]
pub enum BlockProposalError {
    /// The priority-op watcher returned operations whose summed chunk cost
    /// exceeds the block's chunk budget, violating its contract.
    PriorityOpsOverBudget,
}

/// Rejections produced while parsing a hexadecimal hash string.
#[derive(Debug, Clone, Copy, PartialEq, Eq, Structural)]
pub enum ParseHashError {
    /// The hex digits do not come in pairs.
    OddLength,
    /// The digit count does not match a 32-byte hash.
    InvalidStringLength,
    /// A character outside `0-9a-fA-F` occurs among the digits.
    InvalidHexCharacter,
}

} // verus!
