//! Transaction failures and the numeric codes under which they are reported.
use vstd::prelude::*;

verus! {

/// The code reported for a transaction that did not fail.
pub const SUCCESS_CODE: i32 = 0;

/// The code reported for a transaction that was dropped only because another
/// transaction of its bundle failed. It lies outside the codes of
/// [`TransactionError`].
pub const BUNDLE_PEER_CODE: i32 = 40;

/// The reasons for which the runtime refuses or fails a transaction.
///
/// A failed instruction is known by its position in the transaction alone: its
/// cause does not enter any report.
#[derive(Clone, Copy, Debug, PartialEq, Eq, Structural)]
pub enum TransactionError {
    AccountInUse,
    AccountLoadedTwice,
    AccountNotFound,
    ProgramAccountNotFound,
    InsufficientFundsForFee,
    InvalidAccountForFee,
    AlreadyProcessed,
    BlockhashNotFound,
    InstructionError(u8),
    CallChainTooDeep,
    MissingSignatureForFee,
    InvalidAccountIndex,
    SignatureFailure,
    InvalidProgramForExecution,
    SanitizeFailure,
    ClusterMaintenance,
    AccountBorrowOutstanding,
    WouldExceedMaxBlockCostLimit,
    UnsupportedVersion,
    InvalidWritableAccount,
    WouldExceedMaxAccountCostLimit,
    WouldExceedAccountDataBlockLimit,
    TooManyAccountLocks,
    AddressLookupTableNotFound,
    InvalidAddressLookupTableOwner,
    InvalidAddressLookupTableData,
    InvalidAddressLookupTableIndex,
    InvalidRentPayingAccount,
    WouldExceedMaxVoteCostLimit,
    WouldExceedAccountDataTotalLimit,
    DuplicateInstruction(u8),
    InsufficientFundsForRent { account_index: u8 },
    MaxLoadedAccountsDataSizeExceeded,
    InvalidLoadedAccountsDataSizeLimit,
    ResanitizationNeeded,
    ProgramExecutionTemporarilyRestricted { account_index: u8 },
    UnbalancedTransaction,
    ProgramCacheHitMaxLimit,
    CommitCancelled,
}

/// The code of an error: every kind of failure has a code of its own.
pub open spec fn error_code(err: TransactionError) -> i32 {
    match err {
        TransactionError::AccountInUse => 1,
        TransactionError::AccountLoadedTwice => 2,
        TransactionError::AccountNotFound => 3,
        TransactionError::ProgramAccountNotFound => 4,
        TransactionError::InsufficientFundsForFee => 5,
        TransactionError::InvalidAccountForFee => 6,
        TransactionError::AlreadyProcessed => 7,
        TransactionError::BlockhashNotFound => 8,
        TransactionError::InstructionError(_) => 9,
        TransactionError::CallChainTooDeep => 10,
        TransactionError::MissingSignatureForFee => 11,
        TransactionError::InvalidAccountIndex => 12,
        TransactionError::SignatureFailure => 13,
        TransactionError::InvalidProgramForExecution => 14,
        TransactionError::SanitizeFailure => 15,
        TransactionError::ClusterMaintenance => 16,
        TransactionError::AccountBorrowOutstanding => 17,
        TransactionError::WouldExceedMaxBlockCostLimit => 18,
        TransactionError::UnsupportedVersion => 19,
        TransactionError::InvalidWritableAccount => 20,
        TransactionError::WouldExceedMaxAccountCostLimit => 21,
        TransactionError::WouldExceedAccountDataBlockLimit => 22,
        TransactionError::TooManyAccountLocks => 23,
        TransactionError::AddressLookupTableNotFound => 24,
        TransactionError::InvalidAddressLookupTableOwner => 25,
        TransactionError::InvalidAddressLookupTableData => 26,
        TransactionError::InvalidAddressLookupTableIndex => 27,
        TransactionError::InvalidRentPayingAccount => 28,
        TransactionError::WouldExceedMaxVoteCostLimit => 29,
        TransactionError::WouldExceedAccountDataTotalLimit => 30,
        TransactionError::DuplicateInstruction(_) => 31,
        TransactionError::InsufficientFundsForRent { .. } => 32,
        TransactionError::MaxLoadedAccountsDataSizeExceeded => 33,
        TransactionError::InvalidLoadedAccountsDataSizeLimit => 34,
        TransactionError::ResanitizationNeeded => 35,
        TransactionError::ProgramExecutionTemporarilyRestricted { .. } => 36,
        TransactionError::UnbalancedTransaction => 37,
        TransactionError::ProgramCacheHitMaxLimit => 38,
        TransactionError::CommitCancelled => 39,
    }
}

/// An error with its details cleared, so that two errors are of one kind exactly
/// when their kinds are equal.
pub open spec fn error_kind(err: TransactionError) -> TransactionError {
    match err {
        TransactionError::InstructionError(_) => TransactionError::InstructionError(0),
        TransactionError::DuplicateInstruction(_) => TransactionError::DuplicateInstruction(0),
        TransactionError::InsufficientFundsForRent { .. } =>
            TransactionError::InsufficientFundsForRent { account_index: 0 },
        TransactionError::ProgramExecutionTemporarilyRestricted { .. } =>
            TransactionError::ProgramExecutionTemporarilyRestricted { account_index: 0 },
        other => other,
    }
}

/// The code under which an error is reported.
pub fn transaction_error_to_code(err: &TransactionError) -> (code: i32)
    ensures
        code == error_code(*err),
        1 <= code <= 39,
{
    match err {
        TransactionError::AccountInUse => 1,
        TransactionError::AccountLoadedTwice => 2,
        TransactionError::AccountNotFound => 3,
        TransactionError::ProgramAccountNotFound => 4,
        TransactionError::InsufficientFundsForFee => 5,
        TransactionError::InvalidAccountForFee => 6,
        TransactionError::AlreadyProcessed => 7,
        TransactionError::BlockhashNotFound => 8,
        TransactionError::InstructionError(_) => 9,
        TransactionError::CallChainTooDeep => 10,
        TransactionError::MissingSignatureForFee => 11,
        TransactionError::InvalidAccountIndex => 12,
        TransactionError::SignatureFailure => 13,
        TransactionError::InvalidProgramForExecution => 14,
        TransactionError::SanitizeFailure => 15,
        TransactionError::ClusterMaintenance => 16,
        TransactionError::AccountBorrowOutstanding => 17,
        TransactionError::WouldExceedMaxBlockCostLimit => 18,
        TransactionError::UnsupportedVersion => 19,
        TransactionError::InvalidWritableAccount => 20,
        TransactionError::WouldExceedMaxAccountCostLimit => 21,
        TransactionError::WouldExceedAccountDataBlockLimit => 22,
        TransactionError::TooManyAccountLocks => 23,
        TransactionError::AddressLookupTableNotFound => 24,
        TransactionError::InvalidAddressLookupTableOwner => 25,
        TransactionError::InvalidAddressLookupTableData => 26,
        TransactionError::InvalidAddressLookupTableIndex => 27,
        TransactionError::InvalidRentPayingAccount => 28,
        TransactionError::WouldExceedMaxVoteCostLimit => 29,
        TransactionError::WouldExceedAccountDataTotalLimit => 30,
        TransactionError::DuplicateInstruction(_) => 31,
        TransactionError::InsufficientFundsForRent { .. } => 32,
        TransactionError::MaxLoadedAccountsDataSizeExceeded => 33,
        TransactionError::InvalidLoadedAccountsDataSizeLimit => 34,
        TransactionError::ResanitizationNeeded => 35,
        TransactionError::ProgramExecutionTemporarilyRestricted { .. } => 36,
        TransactionError::UnbalancedTransaction => 37,
        TransactionError::ProgramCacheHitMaxLimit => 38,
        TransactionError::CommitCancelled => 39,
    }
}

/// A code tells the kind of the failure: two errors share a code exactly when they
/// are of one kind.
pub proof fn law_code_tells_kind(a: TransactionError, b: TransactionError)
    ensures
        error_code(a) == error_code(b) <==> error_kind(a) == error_kind(b),
{
}

/// No failure is reported as a success, nor as the failure of a bundle peer.
pub proof fn law_code_is_neither_success_nor_peer(err: TransactionError)
    ensures
        error_code(err) != SUCCESS_CODE,
        error_code(err) != BUNDLE_PEER_CODE,
{
}

/// The kinds of failure in the order in which they are numbered.
pub open spec fn kinds_in_order() -> Seq<TransactionError> {
    seq![
        TransactionError::AccountInUse,
        TransactionError::AccountLoadedTwice,
        TransactionError::AccountNotFound,
        TransactionError::ProgramAccountNotFound,
        TransactionError::InsufficientFundsForFee,
        TransactionError::InvalidAccountForFee,
        TransactionError::AlreadyProcessed,
        TransactionError::BlockhashNotFound,
        TransactionError::InstructionError(0),
        TransactionError::CallChainTooDeep,
        TransactionError::MissingSignatureForFee,
        TransactionError::InvalidAccountIndex,
        TransactionError::SignatureFailure,
        TransactionError::InvalidProgramForExecution,
        TransactionError::SanitizeFailure,
        TransactionError::ClusterMaintenance,
        TransactionError::AccountBorrowOutstanding,
        TransactionError::WouldExceedMaxBlockCostLimit,
        TransactionError::UnsupportedVersion,
        TransactionError::InvalidWritableAccount,
        TransactionError::WouldExceedMaxAccountCostLimit,
        TransactionError::WouldExceedAccountDataBlockLimit,
        TransactionError::TooManyAccountLocks,
        TransactionError::AddressLookupTableNotFound,
        TransactionError::InvalidAddressLookupTableOwner,
        TransactionError::InvalidAddressLookupTableData,
        TransactionError::InvalidAddressLookupTableIndex,
        TransactionError::InvalidRentPayingAccount,
        TransactionError::WouldExceedMaxVoteCostLimit,
        TransactionError::WouldExceedAccountDataTotalLimit,
        TransactionError::DuplicateInstruction(0),
        TransactionError::InsufficientFundsForRent { account_index: 0 },
        TransactionError::MaxLoadedAccountsDataSizeExceeded,
        TransactionError::InvalidLoadedAccountsDataSizeLimit,
        TransactionError::ResanitizationNeeded,
        TransactionError::ProgramExecutionTemporarilyRestricted { account_index: 0 },
        TransactionError::UnbalancedTransaction,
        TransactionError::ProgramCacheHitMaxLimit,
        TransactionError::CommitCancelled,
    ]
}

/// Failures are numbered from one on: the kind of a failure is found again at the place that
/// its code says.
pub proof fn law_codes_number_the_kinds(err: TransactionError)
    ensures
        1 <= error_code(err) <= 39,
        kinds_in_order().len() == 39,
        kinds_in_order()[error_code(err) - 1] == error_kind(err),
{
}

/// Errors that differ in no more than their details are of one kind, and others are not.
pub proof fn law_kinds_forget_details(err: TransactionError, index: u8, account_index: u8)
    ensures
        error_kind(TransactionError::InstructionError(index)) == error_kind(err) <==> err
            is InstructionError,
        error_kind(TransactionError::DuplicateInstruction(index)) == error_kind(err) <==> err
            is DuplicateInstruction,
        error_kind(TransactionError::InsufficientFundsForRent { account_index }) == error_kind(err)
            <==> err is InsufficientFundsForRent,
        error_kind(TransactionError::ProgramExecutionTemporarilyRestricted { account_index })
            == error_kind(err) <==> err is ProgramExecutionTemporarilyRestricted,
        !(err is InstructionError || err is DuplicateInstruction || err is InsufficientFundsForRent
            || err is ProgramExecutionTemporarilyRestricted) ==> error_kind(err) == err,
{
}

} // verus!
