use banking_bridge::bundle::LoadAndExecuteBundleError;
use banking_bridge::bundle_execution::{
    can_settle, cause_of_failure, clear_timestamps, fd_ext_bank_execute_and_commit_bundle,
    flatten_results, settle_bundle, BundleAction, BundleEvent, BUNDLE_COMMITTED, BUNDLE_FAILED,
};
use banking_bridge::processing::{
    ExecutedTransaction, FeesOnlyTransaction, ProcessedTransaction, TransactionProcessingResult,
};
use banking_bridge::request::{ClusterType, TipAccounts};
use banking_bridge::transaction_error::TransactionError;

fn executed(executed_units: u64, tips: u64) -> TransactionProcessingResult {
    Ok(ProcessedTransaction::Executed(ExecutedTransaction {
        status: Ok(()),
        executed_units,
        loaded_accounts_data_size: executed_units as u32,
        tips,
    }))
}

fn failure(
    index: usize,
    execution_result: TransactionProcessingResult,
) -> Result<(), LoadAndExecuteBundleError> {
    Err(LoadAndExecuteBundleError::TransactionError { index, execution_result })
}

struct Outputs {
    err: [i32; 3],
    exec: [u32; 3],
    data: [u32; 3],
    stamps: [u64; 12],
    tips: [u64; 3],
}

impl Outputs {
    fn new() -> Self {
        Outputs { err: [-1; 3], exec: [77; 3], data: [77; 3], stamps: [77; 12], tips: [77; 3] }
    }

    fn step(&mut self, event: BundleEvent<&'static str>) -> BundleAction<&'static str> {
        fd_ext_bank_execute_and_commit_bundle(
            event,
            &mut self.err,
            &mut self.exec,
            &mut self.data,
            &mut self.stamps,
            &mut self.tips,
        )
    }
}

#[test]
fn a_bundle_that_succeeds_is_committed() {
    let mut out = Outputs::new();
    match out.step(BundleEvent::Start {
        cluster: ClusterType::Testnet,
        transaction_status_sender_enabled: false,
    }) {
        BundleAction::Execute(request) => {
            assert_eq!(request.pre_execution_accounts.len(), 3);
            assert_eq!(request.tip_accounts, TipAccounts::Testnet);
        }
        _ => panic!("nothing is executed"),
    }
    assert_eq!(out.stamps, [0; 12]);
    assert_eq!(out.err, [-1; 3]);

    let batches = || vec![vec![executed(5, 100), executed(6, 50)], vec![], vec![executed(7, 0)]];
    match out.step(BundleEvent::Executed { batches: batches() }) {
        BundleAction::Price(sizes) => assert_eq!(sizes, vec![Some(5), Some(6), Some(7)]),
        _ => panic!("nothing is priced"),
    }

    let action = out.step(BundleEvent::Priced {
        batches: batches(),
        data_costs: vec![8, 16, 24],
        outcome: Ok(()),
        execution: "execution",
    });
    match action {
        BundleAction::Commit { execution, starting_transaction_index } => {
            assert_eq!(execution, "execution");
            assert_eq!(starting_transaction_index, Some(0));
        }
        _ => panic!("nothing is committed"),
    }
    assert_eq!(out.err, [0, 0, 0]);
    assert_eq!(out.exec, [5, 6, 7]);
    assert_eq!(out.data, [8, 16, 24]);
    assert_eq!(out.tips, [97, 49, 0]);

    match out.step(BundleEvent::Committed) {
        BundleAction::Return(code) => assert_eq!(code, BUNDLE_COMMITTED),
        _ => panic!("nothing is returned"),
    }
    assert_eq!(out.tips, [97, 49, 0]);
    assert_eq!(BUNDLE_COMMITTED, 1);
}

#[test]
fn a_failure_keeps_what_came_before_and_marks_the_peers() {
    let mut out = Outputs::new();
    let action = out.step(BundleEvent::Priced {
        batches: vec![vec![executed(5, 100)]],
        data_costs: vec![8],
        outcome: failure(1, Err(TransactionError::BlockhashNotFound)),
        execution: "execution",
    });
    match action {
        BundleAction::Return(code) => assert_eq!(code, BUNDLE_FAILED),
        _ => panic!("a failed bundle goes on"),
    }
    assert_eq!(BUNDLE_FAILED, 0);
    assert_eq!(out.err, [40, 8, 40]);
    assert_eq!(out.exec, [5, 0, 0]);
    assert_eq!(out.data, [8, 0, 0]);
    assert_eq!(out.tips, [97, 0, 0]);
    assert_eq!(out.stamps, [77; 12]);
}

#[test]
fn a_failure_at_the_start_leaves_nothing() {
    let mut out = Outputs::new();
    out.step(BundleEvent::Priced {
        batches: vec![vec![executed(5, 100), executed(6, 100)]],
        data_costs: vec![8, 8],
        outcome: failure(
            0,
            Ok(ProcessedTransaction::FeesOnly(FeesOnlyTransaction {
                load_error: TransactionError::AccountNotFound,
                rollback_accounts_data_size: 0,
            })),
        ),
        execution: "execution",
    });
    assert_eq!(out.err, [3, 40, 40]);
    assert_eq!(out.exec, [0; 3]);
    assert_eq!(out.data, [0; 3]);
    assert_eq!(out.tips, [0; 3]);
}

#[test]
fn places_without_a_result_before_the_failure_stay_as_they_were() {
    let mut out = Outputs::new();
    out.step(BundleEvent::Priced {
        batches: vec![],
        data_costs: vec![],
        outcome: failure(2, Err(TransactionError::AccountInUse)),
        execution: "execution",
    });
    assert_eq!(out.err, [40, 40, 1]);
    assert_eq!(out.exec, [77, 77, 0]);
    assert_eq!(out.data, [77, 77, 0]);
    assert_eq!(out.tips, [77, 77, 0]);
}

#[test]
fn results_of_batches_are_put_one_after_another() {
    let batches = vec![vec![executed(1, 0)], vec![], vec![executed(2, 0), executed(3, 0)]];
    assert_eq!(flatten_results(&batches), vec![executed(1, 0), executed(2, 0), executed(3, 0)]);
    assert!(flatten_results(&[]).is_empty());
}

#[test]
fn the_cause_of_a_failure_is_found_where_it_is_recorded() {
    let failed = Ok(ProcessedTransaction::Executed(ExecutedTransaction {
        status: Err(TransactionError::InstructionError(1)),
        executed_units: 0,
        loaded_accounts_data_size: 0,
        tips: 0,
    }));
    assert_eq!(cause_of_failure(&failed), TransactionError::InstructionError(1));
    assert_eq!(
        cause_of_failure(&Err(TransactionError::AccountInUse)),
        TransactionError::AccountInUse
    );
}

#[test]
fn settling_alone_decides_on_the_commit() {
    let mut out = Outputs::new();
    let action = settle_bundle(
        &[executed(5, 0)],
        &[8],
        &Ok(()),
        "execution",
        &mut out.err[..1],
        &mut out.exec[..1],
        &mut out.data[..1],
        &mut out.tips[..1],
    );
    assert!(matches!(action, BundleAction::Commit { execution: "execution", .. }));
    assert_eq!(out.exec, [5, 77, 77]);
}

#[test]
fn timestamps_are_cleared() {
    let mut stamps = [4u64; 5];
    clear_timestamps(&mut stamps);
    assert_eq!(stamps, [0; 5]);
}

#[test]
fn only_executed_transactions_of_the_bundle_can_be_settled() {
    let ok: Result<(), LoadAndExecuteBundleError> = Ok(());
    assert!(can_settle(&[vec![executed(5, 0)]], &[8], &ok, 1));
    assert!(!can_settle(&[vec![executed(5, 0)]], &[8], &ok, 0));
    assert!(!can_settle(&[vec![executed(5, 0)]], &[], &ok, 1));
    assert!(!can_settle(&[vec![executed(5, u64::MAX)]], &[8], &ok, 1));
    assert!(!can_settle(&[vec![executed(u64::MAX, 0)]], &[8], &ok, 1));
    assert!(!can_settle(&[vec![Err(TransactionError::AccountInUse)]], &[8], &ok, 1));
    assert!(can_settle(&[], &[], &failure(0, Err(TransactionError::AccountInUse)), 1));
    assert!(!can_settle(&[], &[], &failure(1, Err(TransactionError::AccountInUse)), 1));
    assert!(!can_settle(&[], &[], &failure(0, executed(5, 0)), 1));
}

#[test]
fn data_of_a_bundle_is_reported_at_the_low_half_of_its_price() {
    let price = |size: u32| u64::from(size) * 1_000_000_000;
    let mut out = Outputs::new();
    out.step(BundleEvent::Priced {
        batches: vec![vec![executed(3, 0), executed(5, 0)]],
        data_costs: vec![price(3), price(5)],
        outcome: failure(2, Err(TransactionError::AccountInUse)),
        execution: "execution",
    });
    assert_eq!(out.data, [3_000_000_000, 705_032_704, 0]);
}
