use banking_bridge::processing::{
    are_tips_in_range, data_size_to_price, data_sizes_to_price, is_reportable, report_data_cost,
    report_transaction, tips_after_fee, ExecutedTransaction, FeesOnlyTransaction,
    ProcessedTransaction, TransactionProcessingResult, TransactionReport,
    FD_BANK_TRANSACTION_EXECUTED, FD_BANK_TRANSACTION_LANDED,
};
use banking_bridge::transaction_error::TransactionError;

fn executed(status: Result<(), TransactionError>) -> TransactionProcessingResult {
    Ok(ProcessedTransaction::Executed(ExecutedTransaction {
        status,
        executed_units: 1_500,
        loaded_accounts_data_size: 70_000,
        tips: 1_000,
    }))
}

fn fees_only(rollback_accounts_data_size: usize) -> TransactionProcessingResult {
    Ok(ProcessedTransaction::FeesOnly(FeesOnlyTransaction {
        load_error: TransactionError::AccountNotFound,
        rollback_accounts_data_size,
    }))
}

#[test]
fn three_percent_of_the_tips_are_withheld() {
    assert_eq!(tips_after_fee(100), 97);
    assert_eq!(tips_after_fee(1_000_000), 970_000);
}

#[test]
fn the_share_of_the_tips_is_rounded_down() {
    assert_eq!(tips_after_fee(0), 0);
    assert_eq!(tips_after_fee(33), 33);
    assert_eq!(tips_after_fee(34), 33);
    assert_eq!(tips_after_fee(199), 194);
}

#[test]
fn higher_tips_never_leave_less() {
    for tips in 0..1_000 {
        assert!(tips_after_fee(tips) <= tips_after_fee(tips + 1));
    }
}

#[test]
fn tips_are_in_range_up_to_a_third_of_the_largest() {
    assert!(are_tips_in_range(u64::MAX / 3));
    assert!(!are_tips_in_range(u64::MAX / 3 + 1));
    assert_eq!(tips_after_fee(u64::MAX / 3), u64::MAX / 3 - u64::MAX / 100);
}

#[test]
fn a_successful_transaction_is_reported_in_full() {
    assert_eq!(
        report_transaction(&executed(Ok(())), 24),
        TransactionReport {
            processing_result: 3,
            transaction_err: 0,
            consumed_exec_cus: 1_500,
            consumed_acct_data_cus: 24,
            tips: 970,
        }
    );
}

#[test]
fn a_failed_transaction_keeps_its_units_and_leaves_no_tips() {
    assert_eq!(
        report_transaction(&executed(Err(TransactionError::InstructionError(2))), 24),
        TransactionReport {
            processing_result: 3,
            transaction_err: 9,
            consumed_exec_cus: 1_500,
            consumed_acct_data_cus: 24,
            tips: 0,
        }
    );
}

#[test]
fn a_transaction_that_only_pays_its_fee_is_charged_for_data() {
    assert_eq!(
        report_transaction(&fees_only(10), 8),
        TransactionReport {
            processing_result: 1,
            transaction_err: 3,
            consumed_exec_cus: 0,
            consumed_acct_data_cus: 8,
            tips: 0,
        }
    );
}

#[test]
fn a_refused_transaction_is_charged_for_nothing() {
    assert_eq!(
        report_transaction(&Err(TransactionError::BlockhashNotFound), 8),
        TransactionReport {
            processing_result: 0,
            transaction_err: 8,
            consumed_exec_cus: 0,
            consumed_acct_data_cus: 0,
            tips: 0,
        }
    );
}

#[test]
fn the_flags_say_how_far_a_transaction_got() {
    let landed = |result: &TransactionProcessingResult| {
        report_transaction(result, 0).processing_result & FD_BANK_TRANSACTION_LANDED != 0
    };
    let ran = |result: &TransactionProcessingResult| {
        report_transaction(result, 0).processing_result & FD_BANK_TRANSACTION_EXECUTED != 0
    };
    assert!(landed(&executed(Ok(()))) && ran(&executed(Ok(()))));
    assert!(landed(&fees_only(0)) && !ran(&fees_only(0)));
    let refused = Err(TransactionError::AccountInUse);
    assert!(!landed(&refused) && !ran(&refused));
}

#[test]
fn a_data_cost_is_reported_by_its_low_half() {
    assert_eq!(report_data_cost(8), 8);
    assert_eq!(report_data_cost(u32::MAX as u64), u32::MAX);
    assert_eq!(report_data_cost(0x1_0000_0005), 5);
}

#[test]
fn the_size_to_price_depends_on_how_far_a_transaction_got() {
    assert_eq!(data_size_to_price(&executed(Ok(()))), Some(70_000));
    assert_eq!(data_size_to_price(&fees_only(12)), Some(12));
    assert_eq!(data_size_to_price(&fees_only(u32::MAX as usize + 3)), Some(2));
    assert_eq!(data_size_to_price(&Err(TransactionError::AccountInUse)), None);
    assert_eq!(
        data_sizes_to_price(&[fees_only(12), Err(TransactionError::AccountInUse)]),
        vec![Some(12), None]
    );
}

#[test]
fn units_and_tips_have_to_fit_the_report() {
    let with = |status, executed_units, tips| {
        Ok(ProcessedTransaction::Executed(ExecutedTransaction {
            status,
            executed_units,
            loaded_accounts_data_size: 0,
            tips,
        }))
    };
    assert!(is_reportable(&with(Ok(()), u32::MAX as u64, 0)));
    assert!(!is_reportable(&with(Ok(()), u32::MAX as u64 + 1, 0)));
    assert!(!is_reportable(&with(Ok(()), 0, u64::MAX)));
    assert!(is_reportable(&with(Err(TransactionError::AccountInUse), 0, u64::MAX)));
    assert!(is_reportable(&fees_only(0)));
}
