use banking_bridge::request::{
    tip_accounts, BatchPlan, BundleExecutionRequest, ClusterType, LoadAndExecuteRequest,
    TipAccounts,
};

#[test]
fn tips_are_recognised_on_two_networks() {
    assert_eq!(tip_accounts(ClusterType::MainnetBeta), TipAccounts::Mainnet);
    assert_eq!(tip_accounts(ClusterType::Testnet), TipAccounts::Testnet);
    assert_eq!(tip_accounts(ClusterType::Devnet), TipAccounts::Empty);
    assert_eq!(tip_accounts(ClusterType::Development), TipAccounts::Empty);
}

#[test]
fn a_batch_locked_elsewhere_lets_every_transaction_proceed() {
    let plan = BatchPlan::locked_elsewhere(3);
    assert_eq!(plan.lock_results, vec![Ok(()), Ok(()), Ok(())]);
    assert!(!plan.needs_unlock);
    assert!(BatchPlan::locked_elsewhere(0).lock_results.is_empty());
}

#[test]
fn a_request_for_a_batch_records_only_what_is_sent_on() {
    let request = LoadAndExecuteRequest::new(2, ClusterType::Testnet, true, Some(9), false);
    assert_eq!(request.batch.lock_results.len(), 2);
    assert_eq!(request.max_age, 150);
    assert!(!request.override_accounts);
    assert!(request.check_program_modification_slot);
    assert_eq!(request.compute_budget, Some(9));
    assert_eq!(request.log_messages_bytes_limit, None);
    assert!(!request.limit_to_load_programs);
    assert!(!request.record_execution);
    assert_eq!(request.transaction_account_lock_limit, Some(64));
    assert_eq!(request.tip_accounts, TipAccounts::Testnet);
    let recorded = LoadAndExecuteRequest::new(2, ClusterType::Testnet, true, Some(9), true);
    assert!(recorded.record_execution);
}

#[test]
fn a_request_for_a_bundle_captures_no_accounts() {
    let request = BundleExecutionRequest::new(2, ClusterType::MainnetBeta, true);
    assert_eq!(request.max_age, 150);
    assert_eq!(request.max_age, solana_sdk::clock::MAX_PROCESSING_AGE);
    assert!(request.transaction_status_sender_enabled);
    assert_eq!(request.log_messages_bytes_limit, None);
    assert!(!request.override_accounts);
    assert_eq!(request.pre_execution_accounts, vec![None, None]);
    assert_eq!(request.post_execution_accounts, vec![None, None]);
    assert_eq!(request.tip_accounts, TipAccounts::Mainnet);
}
