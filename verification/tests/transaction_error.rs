use banking_bridge::transaction_error::{
    transaction_error_to_code, TransactionError, BUNDLE_PEER_CODE, SUCCESS_CODE,
};

fn all() -> Vec<TransactionError> {
    vec![
        TransactionError::AccountInUse,
        TransactionError::AccountLoadedTwice,
        TransactionError::AccountNotFound,
        TransactionError::ProgramAccountNotFound,
        TransactionError::InsufficientFundsForFee,
        TransactionError::InvalidAccountForFee,
        TransactionError::AlreadyProcessed,
        TransactionError::BlockhashNotFound,
        TransactionError::InstructionError(4),
        TransactionError::CallChainTooDeep,
        TransactionError::MissingSignatureForFee,
        TransactionError::InvalidAccountIndex,
        TransactionError::SignatureFailure,
        TransactionError::InvalidProgramForExecution,
        TransactionError::SanitizeFailure,
        TransactionError::ClusterMaintenance,
        TransactionError::AccountBorrowOutstanding,
        TransactionError::WouldExceedMaxBlockCostLimit,
        TransactionError::UnsupportedVersion,
        TransactionError::InvalidWritableAccount,
        TransactionError::WouldExceedMaxAccountCostLimit,
        TransactionError::WouldExceedAccountDataBlockLimit,
        TransactionError::TooManyAccountLocks,
        TransactionError::AddressLookupTableNotFound,
        TransactionError::InvalidAddressLookupTableOwner,
        TransactionError::InvalidAddressLookupTableData,
        TransactionError::InvalidAddressLookupTableIndex,
        TransactionError::InvalidRentPayingAccount,
        TransactionError::WouldExceedMaxVoteCostLimit,
        TransactionError::WouldExceedAccountDataTotalLimit,
        TransactionError::DuplicateInstruction(7),
        TransactionError::InsufficientFundsForRent { account_index: 2 },
        TransactionError::MaxLoadedAccountsDataSizeExceeded,
        TransactionError::InvalidLoadedAccountsDataSizeLimit,
        TransactionError::ResanitizationNeeded,
        TransactionError::ProgramExecutionTemporarilyRestricted { account_index: 1 },
        TransactionError::UnbalancedTransaction,
        TransactionError::ProgramCacheHitMaxLimit,
        TransactionError::CommitCancelled,
    ]
}

#[test]
fn every_error_has_the_code_of_its_place() {
    for (i, err) in all().iter().enumerate() {
        assert_eq!(transaction_error_to_code(err), i as i32 + 1);
    }
}

#[test]
fn codes_differ_from_success_and_from_a_bundle_peer() {
    for err in all() {
        assert_ne!(transaction_error_to_code(&err), SUCCESS_CODE);
        assert_ne!(transaction_error_to_code(&err), BUNDLE_PEER_CODE);
    }
}

#[test]
fn details_do_not_change_the_code() {
    assert_eq!(transaction_error_to_code(&TransactionError::InstructionError(0)), 9);
    assert_eq!(transaction_error_to_code(&TransactionError::InstructionError(255)), 9);
    assert_eq!(transaction_error_to_code(&TransactionError::DuplicateInstruction(0)), 31);
    assert_eq!(transaction_error_to_code(&TransactionError::DuplicateInstruction(9)), 31);
}
