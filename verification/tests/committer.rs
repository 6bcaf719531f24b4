use banking_bridge::committer::{
    batch_transaction_indexes, commit_transaction_statuses, fd_ext_bank_commit_txns,
    fd_ext_bank_pre_balance_info, processed_transactions, CommitAction, CommitEvent,
    CommitTimings, CommitTransactionDetails, CommittedTransaction, Committer, PostCommit,
    PostCommitStep, PreBalanceAction, PreBalanceEvent, PreBalanceInfo, TransactionCommitResult,
};
use banking_bridge::processing::{
    FeesOnlyTransaction, ProcessedTransaction, TransactionProcessingResult,
};
use banking_bridge::transaction_error::TransactionError;
use std::collections::HashMap;
use std::sync::Arc;

type TestCommitter = Committer<&'static str, u8, u8>;

fn committer(enabled: bool) -> TestCommitter {
    Committer::new(if enabled { Some("statuses") } else { None }, 5, Arc::new(6))
}

fn committed(executed_units: u64) -> TransactionCommitResult {
    Ok(CommittedTransaction { executed_units, loaded_accounts_data_size: 3 })
}

fn refused() -> TransactionCommitResult {
    Err(TransactionError::CommitCancelled)
}

fn processed() -> TransactionProcessingResult {
    Ok(ProcessedTransaction::FeesOnly(FeesOnlyTransaction {
        load_error: TransactionError::AccountNotFound,
        rollback_accounts_data_size: 0,
    }))
}

fn balances() -> PreBalanceInfo<&'static str, u8> {
    let mut mint_decimals = HashMap::new();
    mint_decimals.insert(1u8, 9u8);
    PreBalanceInfo { native: vec![vec![10, 20]], token: vec![vec!["usd"]], mint_decimals }
}

fn finish<'a, 'r>(
    committer: &TestCommitter,
    transactions: &'a [char],
    event: CommitEvent<'r, char, u8, &'static str>,
    start: Option<usize>,
    info: &mut PreBalanceInfo<&'static str, u8>,
    timings: &mut CommitTimings,
) -> PostCommit<'a, 'r, char, &'static str, &'static str> {
    match committer.commit_transactions(transactions, event, start, info, timings) {
        CommitAction::Finish(next) => next,
        CommitAction::Commit(_) => panic!("nothing is passed on"),
    }
}

#[test]
fn the_bank_commits_what_the_processing_gave() {
    let mut info = balances();
    let mut timings = CommitTimings { commit_us: 1, find_and_send_votes_us: 2 };
    let event: CommitEvent<char, u8, &str> =
        CommitEvent::Start { processing_results: vec!['x', 'y'], processed_counts: 3 };
    match committer(true).commit_transactions(&['a', 'b'], event, None, &mut info, &mut timings) {
        CommitAction::Commit(commit) => {
            assert_eq!(commit.transactions, &['a', 'b']);
            assert_eq!(commit.processing_results, vec!['x', 'y']);
            assert_eq!(commit.processed_counts, 3);
        }
        CommitAction::Finish(_) => panic!("nothing is committed"),
    }
    assert_eq!(timings, CommitTimings { commit_us: 1, find_and_send_votes_us: 2 });
    assert_eq!(info.native, vec![vec![10, 20]]);
}

#[test]
fn a_committer_holds_what_it_was_made_with() {
    let made = committer(true);
    assert!(made.transaction_status_sender_enabled());
    assert_eq!(*made.transaction_status_sender(), Some("statuses"));
    assert_eq!(*made.replay_vote_sender(), 5);
    assert_eq!(**made.prioritization_fee_cache(), 6);
    assert!(!committer(false).transaction_status_sender_enabled());
    assert!(made.clone().transaction_status_sender_enabled());
}

#[test]
fn only_committed_transactions_take_space() {
    assert_eq!(
        commit_transaction_statuses(&[committed(7), refused()]),
        vec![
            CommitTransactionDetails::Committed {
                compute_units: 7,
                loaded_accounts_data_size: 3,
            },
            CommitTransactionDetails::NotCommitted,
        ]
    );
}

#[test]
fn committed_transactions_are_numbered_on() {
    let results = [committed(1), refused(), committed(1), committed(1)];
    assert_eq!(batch_transaction_indexes(&results, Some(10)), vec![10, 0, 11, 12]);
    assert_eq!(batch_transaction_indexes(&results, None), vec![0, 0, 1, 2]);
    assert!(batch_transaction_indexes(&[], Some(10)).is_empty());
}

#[test]
fn numbering_stops_at_the_largest_index() {
    let results = [committed(1), committed(1), committed(1)];
    assert_eq!(
        batch_transaction_indexes(&results, Some(usize::MAX - 1)),
        vec![usize::MAX - 1, usize::MAX, usize::MAX]
    );
}

#[test]
fn numbering_continues_in_a_second_part() {
    let first = [committed(1), refused()];
    let second = [refused(), committed(1)];
    let mut parts = batch_transaction_indexes(&first, Some(4));
    parts.extend(batch_transaction_indexes(&second, Some(5)));
    let whole = [committed(1), refused(), refused(), committed(1)];
    assert_eq!(batch_transaction_indexes(&whole, Some(4)), parts);
}

#[test]
fn transactions_with_a_result_are_processed_ones() {
    let err = Err(TransactionError::AccountInUse);
    let results = [processed(), err, processed()];
    assert_eq!(processed_transactions(&results, &['a', 'b', 'c']), vec![&'a', &'c']);
    assert_eq!(processed_transactions(&results, &['a', 'b']), vec![&'a']);
    assert_eq!(processed_transactions(&results[..1], &['a', 'b']), vec![&'a']);
}

#[test]
fn a_commit_is_passed_on_where_statuses_are_wanted() {
    let mut info = balances();
    let mut timings = CommitTimings { commit_us: 0, find_and_send_votes_us: 2 };
    let processing_results = [processed(), Err(TransactionError::AccountInUse)];
    let outcomes = [committed(7), refused()];
    let next = finish(
        &committer(true),
        &['a', 'b'],
        CommitEvent::Committed {
            slot: 91,
            processed: &processing_results,
            committed: &outcomes,
            commit_results: &["done", "refused"],
            commit_time_us: 31,
        },
        Some(8),
        &mut info,
        &mut timings,
    );
    assert_eq!(
        next.steps,
        vec![
            PostCommitStep::SendVotes,
            PostCommitStep::SendStatusBatch,
            PostCommitStep::UpdatePrioritizationFees,
        ]
    );
    assert_eq!(next.commit_time_us, 31);
    assert_eq!(timings, CommitTimings { commit_us: 31, find_and_send_votes_us: 2 });
    assert_eq!(next.commit_transaction_statuses.len(), 2);
    assert_eq!(next.processed_transactions, vec![&'a']);
    assert_eq!(next.votes.transactions, &['a', 'b']);
    assert_eq!(next.votes.commit_results, &["done", "refused"]);
    let batch = next.status_batch.unwrap();
    assert_eq!(batch.slot, 91);
    assert_eq!(batch.transactions, &['a', 'b']);
    assert_eq!(batch.commit_results, &["done", "refused"]);
    assert_eq!(batch.native, vec![vec![10, 20]]);
    assert_eq!(batch.token, vec![vec!["usd"]]);
    assert_eq!(batch.transaction_indexes, vec![8, 0]);
    let message = batch.complete(vec![vec![30, 40]], vec![vec!["eur"]]);
    assert_eq!(message.slot, 91);
    assert_eq!(message.transactions, &['a', 'b']);
    assert_eq!(message.commit_results, &["done", "refused"]);
    assert_eq!(message.pre_balances, vec![vec![10, 20]]);
    assert_eq!(message.post_balances, vec![vec![30, 40]]);
    assert_eq!(message.pre_token_balances, vec![vec!["usd"]]);
    assert_eq!(message.post_token_balances, vec![vec!["eur"]]);
    assert_eq!(message.transaction_indexes, vec![8, 0]);
    assert!(info.native.is_empty() && info.token.is_empty());
    assert_eq!(info.mint_decimals.get(&1), Some(&9));
    timings.record_find_and_send_votes(44);
    assert_eq!(timings, CommitTimings { commit_us: 31, find_and_send_votes_us: 44 });
}

#[test]
fn without_a_status_sender_the_balances_stay() {
    let mut info = balances();
    let mut timings = CommitTimings { commit_us: 0, find_and_send_votes_us: 0 };
    let processing_results = [processed()];
    let outcomes = [committed(7)];
    let next = finish(
        &committer(false),
        &['a'],
        CommitEvent::Committed {
            slot: 91,
            processed: &processing_results,
            committed: &outcomes,
            commit_results: &["done"],
            commit_time_us: 1,
        },
        None,
        &mut info,
        &mut timings,
    );
    assert_eq!(
        next.steps,
        vec![PostCommitStep::SendVotes, PostCommitStep::UpdatePrioritizationFees]
    );
    assert!(next.status_batch.is_none());
    assert_eq!(info.native, vec![vec![10, 20]]);
    assert_eq!(info.token, vec![vec!["usd"]]);
}

#[test]
fn balances_are_looked_up_only_for_statuses() {
    let start = || PreBalanceEvent::<&'static str, u8>::Start { count: 2 };
    match fd_ext_bank_pre_balance_info(&committer(true), start()) {
        PreBalanceAction::Collect(batch) => {
            assert_eq!(batch.lock_results, vec![Ok(()), Ok(())]);
            assert!(!batch.needs_unlock);
        }
        _ => panic!("nothing is looked up"),
    }
    match fd_ext_bank_pre_balance_info(&committer(false), start()) {
        PreBalanceAction::Return(info) => {
            assert!(info.native.is_empty());
            assert!(info.token.is_empty());
            assert!(info.mint_decimals.is_empty());
        }
        _ => panic!("balances are looked up"),
    }
    let found = balances();
    let event = PreBalanceEvent::Collected {
        native: found.native,
        token: found.token,
        mint_decimals: found.mint_decimals,
    };
    match fd_ext_bank_pre_balance_info(&committer(true), event) {
        PreBalanceAction::Return(info) => {
            assert_eq!(info.native, vec![vec![10, 20]]);
            assert_eq!(info.token, vec![vec!["usd"]]);
            assert_eq!(info.mint_decimals.get(&1), Some(&9));
        }
        _ => panic!("balances are looked up twice"),
    }
}

#[test]
fn transactions_are_committed_without_an_index() {
    let request = fd_ext_bank_commit_txns(
        &"bank",
        &['a', 'b'],
        vec![processed(), Err(TransactionError::AccountInUse)],
        (1, 1),
        balances(),
    );
    assert_eq!(*request.bank, "bank");
    assert_eq!(request.transactions, &['a', 'b']);
    assert_eq!(request.batch.lock_results, vec![Ok(()), Ok(())]);
    assert!(!request.batch.needs_unlock);
    assert_eq!(
        request.processing_results,
        vec![processed(), Err(TransactionError::AccountInUse)]
    );
    assert_eq!(request.processed_counts, (1, 1));
    assert_eq!(request.starting_transaction_index, None);
    assert_eq!(request.pre_balance_info.native, vec![vec![10, 20]]);
    assert_eq!(request.pre_balance_info.token, vec![vec!["usd"]]);
    assert_eq!(request.pre_balance_info.mint_decimals.get(&1), Some(&9));
}
