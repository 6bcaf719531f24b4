use banking_bridge::bank_execution::{
    can_report, fd_ext_bank_load_and_execute_txns, write_reports, write_timestamps,
    ExecutionTimestamps, LoadAndExecuteAction, LoadAndExecuteEvent,
};
use banking_bridge::processing::{
    data_sizes_to_price, ExecutedTransaction, FeesOnlyTransaction, ProcessedTransaction,
    TransactionProcessingResult,
};
use banking_bridge::request::{ClusterType, TipAccounts};
use banking_bridge::transaction_error::TransactionError;

const TIMESTAMPS: ExecutionTimestamps =
    ExecutionTimestamps { tx_start: 10, tx_load_end: 20, tx_end: 30, tx_preload_end: 15 };

fn results() -> Vec<TransactionProcessingResult> {
    vec![
        Ok(ProcessedTransaction::Executed(ExecutedTransaction {
            status: Ok(()),
            executed_units: 300,
            loaded_accounts_data_size: 40_000,
            tips: 200,
        })),
        Ok(ProcessedTransaction::FeesOnly(FeesOnlyTransaction {
            load_error: TransactionError::ProgramAccountNotFound,
            rollback_accounts_data_size: 165,
        })),
        Err(TransactionError::AlreadyProcessed),
    ]
}

#[test]
fn timestamps_are_written_for_every_transaction() {
    let mut out = [9u64; 8];
    write_timestamps(TIMESTAMPS, &mut out);
    assert_eq!(out, [10, 20, 30, 15, 10, 20, 30, 15]);
}

#[test]
fn transactions_are_executed_priced_and_reported() {
    let mut processing_result = [-1i32; 3];
    let mut transaction_err = [-1i32; 3];
    let mut exec_cus = [77u32; 3];
    let mut acct_data_cus = [77u32; 3];
    let mut timestamps = [77u64; 12];
    let mut tips = [77u64; 3];

    let action = fd_ext_bank_load_and_execute_txns(
        LoadAndExecuteEvent::<u8, &str>::Start {
            cluster: ClusterType::MainnetBeta,
            check_program_modification_slot: false,
            compute_budget: 7,
            transaction_status_sender_enabled: true,
        },
        &mut processing_result,
        &mut transaction_err,
        &mut exec_cus,
        &mut acct_data_cus,
        &mut timestamps,
        &mut tips,
    );
    match action {
        LoadAndExecuteAction::Execute(request) => {
            assert_eq!(request.batch.lock_results.len(), 3);
            assert!(!request.check_program_modification_slot);
            assert!(!request.override_accounts);
            assert_eq!(request.compute_budget, 7);
            assert!(request.record_execution);
            assert_eq!(request.tip_accounts, TipAccounts::Mainnet);
        }
        _ => panic!("nothing is executed"),
    }
    assert_eq!(processing_result, [-1; 3]);
    assert_eq!(timestamps, [77; 12]);

    let action = fd_ext_bank_load_and_execute_txns(
        LoadAndExecuteEvent::<u8, &str>::Processed { processing_results: results() },
        &mut processing_result,
        &mut transaction_err,
        &mut exec_cus,
        &mut acct_data_cus,
        &mut timestamps,
        &mut tips,
    );
    match action {
        LoadAndExecuteAction::Price(sizes) => {
            assert_eq!(sizes, vec![Some(40_000), Some(165), None])
        }
        _ => panic!("nothing is priced"),
    }
    assert_eq!(tips, [77; 3]);

    let action = fd_ext_bank_load_and_execute_txns(
        LoadAndExecuteEvent::<u8, &str>::Priced {
            processing_results: results(),
            data_costs: vec![16, 8, 0],
            timestamps: TIMESTAMPS,
            output: "output",
        },
        &mut processing_result,
        &mut transaction_err,
        &mut exec_cus,
        &mut acct_data_cus,
        &mut timestamps,
        &mut tips,
    );
    assert!(matches!(action, LoadAndExecuteAction::Return("output")));
    assert_eq!(processing_result, [3, 1, 0]);
    assert_eq!(transaction_err, [0, 4, 7]);
    assert_eq!(exec_cus, [300, 0, 0]);
    assert_eq!(acct_data_cus, [16, 8, 0]);
    assert_eq!(timestamps, [10, 20, 30, 15, 10, 20, 30, 15, 10, 20, 30, 15]);
    assert_eq!(tips, [194, 0, 0]);
}

#[test]
fn results_and_prices_have_to_cover_the_transactions() {
    assert!(can_report(&results(), &[16, 8, 0], 3));
    assert!(can_report(&results(), &[16, 8, 0], 2));
    assert!(!can_report(&results(), &[16, 8, 0], 4));
    assert!(!can_report(&results(), &[16, 8], 3));
    let too_many_units = Ok(ProcessedTransaction::Executed(ExecutedTransaction {
        status: Ok(()),
        executed_units: u64::MAX,
        loaded_accounts_data_size: 0,
        tips: 0,
    }));
    assert!(!can_report(&[too_many_units], &[0], 1));
}

#[test]
fn data_is_reported_at_the_low_half_of_its_price() {
    let price = |size: u32| u64::from(size) * 1_000_000;
    let data_costs: Vec<u64> = data_sizes_to_price(&results())
        .into_iter()
        .map(|size| size.map_or(0, price))
        .collect();
    let mut processing_result = [0i32; 3];
    let mut transaction_err = [0i32; 3];
    let mut exec_cus = [0u32; 3];
    let mut acct_data_cus = [77u32; 3];
    let mut tips = [0u64; 3];
    write_reports(
        &results(),
        &data_costs,
        &mut processing_result,
        &mut transaction_err,
        &mut exec_cus,
        &mut acct_data_cus,
        &mut tips,
    );
    assert_eq!(acct_data_cus, [1_345_294_336, 165_000_000, 0]);
}
