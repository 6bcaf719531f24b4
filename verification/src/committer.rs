//! Committing processed transactions and passing on what came of them.
use crate::processing::TransactionProcessingResult;
use crate::request::BatchPlan;
use crate::transaction_error::TransactionError;
use std::collections::HashMap;
use std::sync::Arc;
use vstd::prelude::*;

verus! {

/// What a committed transaction used.
#[derive(Clone, Copy, Debug, PartialEq, Eq)]
pub struct CommittedTransaction {
    pub executed_units: u64,
    pub loaded_accounts_data_size: u32,
}

/// The outcome of committing one transaction.
pub type TransactionCommitResult = Result<CommittedTransaction, TransactionError>;

/// What a transaction takes of the block's space, if it was committed.
#[derive(Clone, Copy, Debug, PartialEq, Eq)]
pub enum CommitTransactionDetails {
    Committed { compute_units: u64, loaded_accounts_data_size: u32 },
    NotCommitted,
}

/// The balances of the accounts of each transaction before it was executed: the native
/// ones, those of tokens, and the decimals of each token's mint.
#[verifier::reject_recursive_types(Mint)]
pub struct PreBalanceInfo<TokenBalance, Mint> {
    pub native: Vec<Vec<u64>>,
    pub token: Vec<Vec<TokenBalance>>,
    pub mint_decimals: HashMap<Mint, u8>,
}

/// How long the steps of a commit took, in microseconds.
#[derive(Clone, Copy, Debug, PartialEq, Eq)]
pub struct CommitTimings {
    pub commit_us: u64,
    pub find_and_send_votes_us: u64,
}

/// What is to be committed to a bank.
pub struct BankCommit<'a, Transaction, ProcessingResult, Counts> {
    pub transactions: &'a [Transaction],
    pub processing_results: Vec<ProcessingResult>,
    pub processed_counts: Counts,
}

/// The transactions among which votes are looked for, with what came of each.
pub struct VoteBatch<'a, 'r, Transaction, CommitResult> {
    pub transactions: &'a [Transaction],
    pub commit_results: &'r [CommitResult],
}

/// What is known of a batch once it was committed: what came of each transaction, the
/// balances of its accounts before, and its index in the block.
pub struct StatusBatch<'a, 'r, Transaction, CommitResult, TokenBalance> {
    pub slot: u64,
    pub transactions: &'a [Transaction],
    pub commit_results: &'r [CommitResult],
    pub native: Vec<Vec<u64>>,
    pub token: Vec<Vec<TokenBalance>>,
    pub transaction_indexes: Vec<usize>,
}

/// What is sent on of a committed batch: beside what is known of it, the balances after.
pub struct StatusMessage<'a, 'r, Transaction, CommitResult, TokenBalance> {
    pub slot: u64,
    pub transactions: &'a [Transaction],
    pub commit_results: &'r [CommitResult],
    pub pre_balances: Vec<Vec<u64>>,
    pub post_balances: Vec<Vec<u64>>,
    pub pre_token_balances: Vec<Vec<TokenBalance>>,
    pub post_token_balances: Vec<Vec<TokenBalance>>,
    pub transaction_indexes: Vec<usize>,
}

/// The steps that follow a commit.
#[derive(Clone, Copy, Debug, PartialEq, Eq)]
pub enum PostCommitStep {
    /// Send on the votes among the transactions.
    SendVotes,
    /// Send on the status batch.
    SendStatusBatch,
    /// Record the prioritization fees of the processed transactions.
    UpdatePrioritizationFees,
}

/// What is left to do after a commit, and what is reported of it.
pub struct PostCommit<'a, 'r, Transaction, CommitResult, TokenBalance> {
    pub steps: Vec<PostCommitStep>,
    pub commit_time_us: u64,
    pub commit_transaction_statuses: Vec<CommitTransactionDetails>,
    pub votes: VoteBatch<'a, 'r, Transaction, CommitResult>,
    pub status_batch: Option<StatusBatch<'a, 'r, Transaction, CommitResult, TokenBalance>>,
    pub processed_transactions: Vec<&'a Transaction>,
}

/// What happens while transactions are committed. The runtime's own results are handed on
/// as they are, and what is decided is decided on what they say.
pub enum CommitEvent<'r, ProcessingResult, Counts, CommitResult> {
    /// The transactions were processed.
    Start { processing_results: Vec<ProcessingResult>, processed_counts: Counts },
    /// The bank of the given slot committed them.
    Committed {
        slot: u64,
        processed: &'r [TransactionProcessingResult],
        committed: &'r [TransactionCommitResult],
        commit_results: &'r [CommitResult],
        commit_time_us: u64,
    },
}

/// What is to be done next.
pub enum CommitAction<'a, 'r, Transaction, ProcessingResult, Counts, CommitResult, TokenBalance> {
    Commit(BankCommit<'a, Transaction, ProcessingResult, Counts>),
    Finish(PostCommit<'a, 'r, Transaction, CommitResult, TokenBalance>),
}

/// What happens while balances are looked up before an execution.
#[verifier::reject_recursive_types(Mint)]
pub enum PreBalanceEvent<TokenBalance, Mint> {
    /// The given number of transactions arrived.
    Start { count: usize },
    /// Their balances were looked up.
    Collected {
        native: Vec<Vec<u64>>,
        token: Vec<Vec<TokenBalance>>,
        mint_decimals: HashMap<Mint, u8>,
    },
}

/// What is to be done next.
#[verifier::reject_recursive_types(Mint)]
pub enum PreBalanceAction<TokenBalance, Mint> {
    Collect(BatchPlan),
    Return(PreBalanceInfo<TokenBalance, Mint>),
}

/// How a batch of executed transactions is to be committed: on which bank, with what their
/// execution gave, and with the balances from before it.
#[verifier::reject_recursive_types(Mint)]
pub struct CommitRequest<'a, Bank, Transaction, ProcessingResult, Counts, TokenBalance, Mint> {
    pub bank: &'a Bank,
    pub transactions: &'a [Transaction],
    pub batch: BatchPlan,
    pub processing_results: Vec<ProcessingResult>,
    pub processed_counts: Counts,
    pub starting_transaction_index: Option<usize>,
    pub pre_balance_info: PreBalanceInfo<TokenBalance, Mint>,
}

/// Commits transactions and passes their statuses, votes and fees on.
#[derive(Clone)]
pub struct Committer<StatusSender, VoteSender, FeeCache> {
    transaction_status_sender: Option<StatusSender>,
    replay_vote_sender: VoteSender,
    prioritization_fee_cache: Arc<FeeCache>,
}

/// The steps that follow a commit, in order. There is a status batch only if statuses are
/// passed on.
pub open spec fn post_commit_steps(transaction_status_sender_enabled: bool) -> Seq<PostCommitStep> {
    if transaction_status_sender_enabled {
        seq![
            PostCommitStep::SendVotes,
            PostCommitStep::SendStatusBatch,
            PostCommitStep::UpdatePrioritizationFees,
        ]
    } else {
        seq![PostCommitStep::SendVotes, PostCommitStep::UpdatePrioritizationFees]
    }
}

/// What is reported of a committed or refused transaction.
pub open spec fn commit_details(result: TransactionCommitResult) -> CommitTransactionDetails {
    match result {
        Ok(tx) => CommitTransactionDetails::Committed {
            compute_units: tx.executed_units,
            loaded_accounts_data_size: tx.loaded_accounts_data_size,
        },
        Err(_) => CommitTransactionDetails::NotCommitted,
    }
}

/// How many transactions were committed.
pub open spec fn committed_count(results: Seq<TransactionCommitResult>) -> nat
    decreases results.len(),
{
    if results.len() == 0 {
        0
    } else {
        committed_count(results.drop_last()) + if results.last() is Ok {
            1nat
        } else {
            0nat
        }
    }
}

/// The index in the block of the transaction at a position: committed transactions are
/// numbered on from `start`, up to the largest index there is, and the others have index
/// zero.
pub open spec fn transaction_index(
    results: Seq<TransactionCommitResult>,
    start: usize,
    position: int,
) -> usize {
    if results[position] is Ok {
        let index = start + committed_count(results.take(position));
        if index <= usize::MAX {
            index as usize
        } else {
            usize::MAX
        }
    } else {
        0
    }
}

/// The indexes of all transactions.
pub open spec fn transaction_indexes(
    results: Seq<TransactionCommitResult>,
    start: usize,
) -> Seq<usize> {
    Seq::new(results.len(), |i: int| transaction_index(results, start, i))
}

/// The transactions that were processed, in order. Results and transactions belong
/// together by position, as far as there are both.
pub open spec fn processed<Transaction>(
    results: Seq<TransactionProcessingResult>,
    transactions: Seq<Transaction>,
) -> Seq<Transaction>
    decreases results.len(),
{
    if results.len() == 0 {
        Seq::empty()
    } else {
        let rest = processed(results.drop_last(), transactions);
        if results.last() is Ok && results.len() <= transactions.len() {
            rest.push(transactions[results.len() - 1])
        } else {
            rest
        }
    }
}

/// Whether a status batch is put together as it should: there is one exactly if statuses are
/// passed on, it holds what it was given, in order, and the balances from before move into
/// it.
pub open spec fn status_batch_made<Transaction, CommitResult, TokenBalance, Mint>(
    made: Option<StatusBatch<Transaction, CommitResult, TokenBalance>>,
    transaction_status_sender_enabled: bool,
    slot: u64,
    transactions: Seq<Transaction>,
    committed: Seq<TransactionCommitResult>,
    commit_results: Seq<CommitResult>,
    starting_transaction_index: Option<usize>,
    before: PreBalanceInfo<TokenBalance, Mint>,
    after: PreBalanceInfo<TokenBalance, Mint>,
) -> bool {
    match made {
        None => {
            &&& !transaction_status_sender_enabled
            &&& after == before
        },
        Some(batch) => {
            &&& transaction_status_sender_enabled
            &&& batch.slot == slot
            &&& batch.transactions@ == transactions
            &&& batch.commit_results@ == commit_results
            &&& batch.native == before.native
            &&& batch.token == before.token
            &&& batch.transaction_indexes@ == transaction_indexes(
                committed,
                starting_transaction_index.unwrap_or(0),
            )
            &&& after.native@ == Seq::<Vec<u64>>::empty()
            &&& after.token@ == Seq::<Vec<TokenBalance>>::empty()
            &&& after.mint_decimals == before.mint_decimals
        },
    }
}

/// The transactions that were processed.
pub fn processed_transactions<'a, Transaction>(
    processing_results: &[TransactionProcessingResult],
    transactions: &'a [Transaction],
) -> (kept: Vec<&'a Transaction>)
    ensures
        kept@.unref() == processed(processing_results@, transactions@),
{
    let mut kept: Vec<&'a Transaction> = Vec::new();
    let mut i: usize = 0;
    while i < processing_results.len()
        invariant
            i <= processing_results@.len(),
            kept@.unref() == processed(processing_results@.take(i as int), transactions@),
        decreases processing_results@.len() - i,
    {
        if i < transactions.len() && processing_results[i].is_ok() {
            kept.push(&transactions[i]);
        }
        assert(processing_results@.take(i + 1).drop_last() =~= processing_results@.take(i as int));
        i = i + 1;
    }
    assert(processing_results@.take(i as int) =~= processing_results@);
    kept
}

/// What each transaction takes of the block's space.
pub fn commit_transaction_statuses(commit_results: &[TransactionCommitResult]) -> (statuses: Vec<
    CommitTransactionDetails,
>)
    ensures
        statuses@ == commit_results@.map_values(
            |result: TransactionCommitResult| commit_details(result),
        ),
{
    let mut statuses: Vec<CommitTransactionDetails> = Vec::new();
    let mut i: usize = 0;
    while i < commit_results.len()
        invariant
            i <= commit_results@.len(),
            statuses@.len() == i,
            forall|j: int|
                0 <= j < i ==> #[trigger] statuses@[j] == commit_details(commit_results@[j]),
        decreases commit_results@.len() - i,
    {
        let details = match &commit_results[i] {
            Ok(tx) => CommitTransactionDetails::Committed {
                compute_units: tx.executed_units,
                loaded_accounts_data_size: tx.loaded_accounts_data_size,
            },
            Err(_) => CommitTransactionDetails::NotCommitted,
        };
        statuses.push(details);
        i = i + 1;
    }
    assert(statuses@ =~= commit_results@.map_values(
        |result: TransactionCommitResult| commit_details(result),
    ));
    statuses
}

/// The index in the block of each transaction; without a starting index they are counted
/// from zero.
pub fn batch_transaction_indexes(
    commit_results: &[TransactionCommitResult],
    starting_transaction_index: Option<usize>,
) -> (indexes: Vec<usize>)
    ensures
        indexes@ == transaction_indexes(
            commit_results@,
            starting_transaction_index.unwrap_or(0),
        ),
{
    let start: usize = starting_transaction_index.unwrap_or(0);
    let mut transaction_index: usize = start;
    let mut indexes: Vec<usize> = Vec::new();
    let mut i: usize = 0;
    assert(commit_results@.take(0) =~= Seq::empty());
    while i < commit_results.len()
        invariant
            i <= commit_results@.len(),
            transaction_index == (if start + committed_count(commit_results@.take(i as int))
                <= usize::MAX {
                (start + committed_count(commit_results@.take(i as int))) as usize
            } else {
                usize::MAX
            }),
            indexes@.len() == i,
            forall|j: int|
                0 <= j < i ==> #[trigger] indexes@[j] == transaction_indexes(
                    commit_results@,
                    start,
                )[j],
        decreases commit_results@.len() - i,
    {
        assert(commit_results@.take(i + 1).drop_last() =~= commit_results@.take(i as int));
        if commit_results[i].is_ok() {
            indexes.push(transaction_index);
            transaction_index = transaction_index.saturating_add(1);
        } else {
            indexes.push(0);
        }
        i = i + 1;
    }
    assert(indexes@ =~= transaction_indexes(commit_results@, start));
    indexes
}

impl<TokenBalance, Mint> PreBalanceInfo<TokenBalance, Mint> {
    /// Nothing is known of any balance.
    pub open spec fn is_empty(self) -> bool {
        &&& self.native@.len() == 0
        &&& self.token@.len() == 0
        &&& self.mint_decimals@ == Map::<Mint, u8>::empty()
    }
}

impl<TokenBalance, Mint> Default for PreBalanceInfo<TokenBalance, Mint> {
    fn default() -> (info: Self)
        ensures
            info.is_empty(),
    {
        PreBalanceInfo { native: Vec::new(), token: Vec::new(), mint_decimals: HashMap::new() }
    }
}

impl<'a, 'r, Transaction, CommitResult, TokenBalance> StatusBatch<
    'a,
    'r,
    Transaction,
    CommitResult,
    TokenBalance,
> {
    /// What is sent on of the batch, once the balances after it are known.
    pub fn complete(
        self,
        post_balances: Vec<Vec<u64>>,
        post_token_balances: Vec<Vec<TokenBalance>>,
    ) -> (message: StatusMessage<'a, 'r, Transaction, CommitResult, TokenBalance>)
        ensures
            message == (StatusMessage {
                slot: self.slot,
                transactions: self.transactions,
                commit_results: self.commit_results,
                pre_balances: self.native,
                post_balances,
                pre_token_balances: self.token,
                post_token_balances,
                transaction_indexes: self.transaction_indexes,
            }),
    {
        StatusMessage {
            slot: self.slot,
            transactions: self.transactions,
            commit_results: self.commit_results,
            pre_balances: self.native,
            post_balances,
            pre_token_balances: self.token,
            post_token_balances,
            transaction_indexes: self.transaction_indexes,
        }
    }
}

impl CommitTimings {
    /// Notes how long it took to pass on what came of a commit.
    pub fn record_find_and_send_votes(&mut self, elapsed_us: u64)
        ensures
            *final(self) == (CommitTimings { find_and_send_votes_us: elapsed_us, ..*old(self) }),
    {
        self.find_and_send_votes_us = elapsed_us;
    }
}

impl<StatusSender, VoteSender, FeeCache> Committer<StatusSender, VoteSender, FeeCache> {
    pub closed spec fn spec_transaction_status_sender(self) -> Option<StatusSender> {
        self.transaction_status_sender
    }

    pub closed spec fn spec_replay_vote_sender(self) -> VoteSender {
        self.replay_vote_sender
    }

    pub closed spec fn spec_prioritization_fee_cache(self) -> Arc<FeeCache> {
        self.prioritization_fee_cache
    }

    pub fn new(
        transaction_status_sender: Option<StatusSender>,
        replay_vote_sender: VoteSender,
        prioritization_fee_cache: Arc<FeeCache>,
    ) -> (committer: Self)
        ensures
            committer.spec_transaction_status_sender() == transaction_status_sender,
            committer.spec_replay_vote_sender() == replay_vote_sender,
            committer.spec_prioritization_fee_cache() == prioritization_fee_cache,
    {
        Committer { transaction_status_sender, replay_vote_sender, prioritization_fee_cache }
    }

    /// Whether statuses are passed on, for which there has to be somewhere to send them.
    pub fn transaction_status_sender_enabled(&self) -> (enabled: bool)
        ensures
            enabled == self.spec_transaction_status_sender() is Some,
    {
        self.transaction_status_sender.is_some()
    }

    /// Where statuses are sent, if anywhere.
    pub fn transaction_status_sender(&self) -> (sender: &Option<StatusSender>)
        ensures
            *sender == self.spec_transaction_status_sender(),
    {
        &self.transaction_status_sender
    }

    /// Where votes are sent.
    pub fn replay_vote_sender(&self) -> (sender: &VoteSender)
        ensures
            *sender == self.spec_replay_vote_sender(),
    {
        &self.replay_vote_sender
    }

    /// Where prioritization fees are recorded.
    pub fn prioritization_fee_cache(&self) -> (cache: &Arc<FeeCache>)
        ensures
            *cache == self.spec_prioritization_fee_cache(),
    {
        &self.prioritization_fee_cache
    }

    /// Puts together what is sent on of a committed batch, if statuses are passed on at
    /// all. The balances from before the execution move into the batch.
    pub fn collect_balances_and_send_status_batch<
        'a,
        'r,
        Transaction,
        CommitResult,
        TokenBalance,
        Mint,
    >(
        &self,
        slot: u64,
        transactions: &'a [Transaction],
        committed: &[TransactionCommitResult],
        commit_results: &'r [CommitResult],
        pre_balance_info: &mut PreBalanceInfo<TokenBalance, Mint>,
        starting_transaction_index: Option<usize>,
    ) -> (batch: Option<StatusBatch<'a, 'r, Transaction, CommitResult, TokenBalance>>)
        ensures
            status_batch_made(
                batch,
                self.spec_transaction_status_sender() is Some,
                slot,
                transactions@,
                committed@,
                commit_results@,
                starting_transaction_index,
                *old(pre_balance_info),
                *final(pre_balance_info),
            ),
    {
        if self.transaction_status_sender.is_some() {
            let mut native: Vec<Vec<u64>> = Vec::new();
            let mut token: Vec<Vec<TokenBalance>> = Vec::new();
            std::mem::swap(&mut native, &mut pre_balance_info.native);
            std::mem::swap(&mut token, &mut pre_balance_info.token);
            Some(
                StatusBatch {
                    slot,
                    transactions,
                    commit_results,
                    native,
                    token,
                    transaction_indexes: batch_transaction_indexes(
                        committed,
                        starting_transaction_index,
                    ),
                },
            )
        } else {
            None
        }
    }

    /// Decides what follows an event in the commit of transactions. First the bank is to
    /// commit them, with all that their processing gave. Once it has, the time that it took
    /// is noted and what came of the commit is passed on.
    pub fn commit_transactions<
        'a,
        'r,
        Transaction,
        ProcessingResult,
        Counts,
        CommitResult,
        TokenBalance,
        Mint,
    >(
        &self,
        transactions: &'a [Transaction],
        event: CommitEvent<'r, ProcessingResult, Counts, CommitResult>,
        starting_transaction_index: Option<usize>,
        pre_balance_info: &mut PreBalanceInfo<TokenBalance, Mint>,
        timings: &mut CommitTimings,
    ) -> (action: CommitAction<
        'a,
        'r,
        Transaction,
        ProcessingResult,
        Counts,
        CommitResult,
        TokenBalance,
    >)
        ensures
            match event {
                CommitEvent::Start { processing_results, processed_counts } => {
                    &&& action matches CommitAction::Commit(commit) && commit == (BankCommit {
                        transactions,
                        processing_results,
                        processed_counts,
                    })
                    &&& *final(pre_balance_info) == *old(pre_balance_info)
                    &&& *final(timings) == *old(timings)
                },
                CommitEvent::Committed {
                    slot,
                    processed: processing_results,
                    committed,
                    commit_results,
                    commit_time_us,
                } => {
                    &&& *final(timings) == (CommitTimings {
                        commit_us: commit_time_us,
                        ..*old(timings)
                    })
                    &&& action matches CommitAction::Finish(next) && {
                        &&& next.steps@ == post_commit_steps(
                            self.spec_transaction_status_sender() is Some,
                        )
                        &&& next.commit_time_us == commit_time_us
                        &&& next.commit_transaction_statuses@ == committed@.map_values(
                            |result: TransactionCommitResult| commit_details(result),
                        )
                        &&& next.votes == (VoteBatch { transactions, commit_results })
                        &&& next.processed_transactions@.unref() == processed(
                            processing_results@,
                            transactions@,
                        )
                        &&& status_batch_made(
                            next.status_batch,
                            self.spec_transaction_status_sender() is Some,
                            slot,
                            transactions@,
                            committed@,
                            commit_results@,
                            starting_transaction_index,
                            *old(pre_balance_info),
                            *final(pre_balance_info),
                        )
                    }
                },
            },
    {
        match event {
            CommitEvent::Start { processing_results, processed_counts } => CommitAction::Commit(
                BankCommit { transactions, processing_results, processed_counts },
            ),
            CommitEvent::Committed {
                slot,
                processed,
                committed,
                commit_results,
                commit_time_us,
            } => {
                let processed_transactions = processed_transactions(processed, transactions);
                timings.commit_us = commit_time_us;
                let commit_transaction_statuses = commit_transaction_statuses(committed);
                let status_batch = self.collect_balances_and_send_status_batch(
                    slot,
                    transactions,
                    committed,
                    commit_results,
                    pre_balance_info,
                    starting_transaction_index,
                );
                let mut steps: Vec<PostCommitStep> = Vec::new();
                steps.push(PostCommitStep::SendVotes);
                if status_batch.is_some() {
                    steps.push(PostCommitStep::SendStatusBatch);
                }
                steps.push(PostCommitStep::UpdatePrioritizationFees);
                assert(steps@ =~= post_commit_steps(
                    self.spec_transaction_status_sender() is Some,
                ));
                CommitAction::Finish(
                    PostCommit {
                        steps,
                        commit_time_us,
                        commit_transaction_statuses,
                        votes: VoteBatch { transactions, commit_results },
                        status_batch,
                        processed_transactions,
                    },
                )
            },
        }
    }
}

/// Decides what follows an event in the lookup of balances. They are looked up only if
/// statuses are passed on; otherwise nothing is known of them.
pub fn fd_ext_bank_pre_balance_info<StatusSender, VoteSender, FeeCache, TokenBalance, Mint>(
    committer: &Committer<StatusSender, VoteSender, FeeCache>,
    event: PreBalanceEvent<TokenBalance, Mint>,
) -> (action: PreBalanceAction<TokenBalance, Mint>)
    ensures
        match event {
            PreBalanceEvent::Start { count } => if committer.spec_transaction_status_sender()
                is Some {
                action matches PreBalanceAction::Collect(batch) && batch.is_locked_elsewhere(
                    count as nat,
                )
            } else {
                action matches PreBalanceAction::Return(info) && info.is_empty()
            },
            PreBalanceEvent::Collected { native, token, mint_decimals } => action
                == PreBalanceAction::Return(PreBalanceInfo { native, token, mint_decimals }),
        },
{
    match event {
        PreBalanceEvent::Start { count } => if committer.transaction_status_sender_enabled() {
            PreBalanceAction::Collect(BatchPlan::locked_elsewhere(count))
        } else {
            PreBalanceAction::Return(PreBalanceInfo::default())
        },
        PreBalanceEvent::Collected { native, token, mint_decimals } => PreBalanceAction::Return(
            PreBalanceInfo { native, token, mint_decimals },
        ),
    }
}

/// Plans the commit of executed transactions, whose accounts are locked elsewhere and which
/// have no index in the block yet. What their execution gave and the balances from before it
/// are handed on as they are.
pub fn fd_ext_bank_commit_txns<
    'a,
    Bank,
    Transaction,
    ProcessingResult,
    Counts,
    TokenBalance,
    Mint,
>(
    bank: &'a Bank,
    transactions: &'a [Transaction],
    processing_results: Vec<ProcessingResult>,
    processed_counts: Counts,
    pre_balance_info: PreBalanceInfo<TokenBalance, Mint>,
) -> (request: CommitRequest<
    'a,
    Bank,
    Transaction,
    ProcessingResult,
    Counts,
    TokenBalance,
    Mint,
>)
    ensures
        request.bank == bank,
        request.transactions == transactions,
        request.batch.is_locked_elsewhere(transactions@.len()),
        request.processing_results == processing_results,
        request.processed_counts == processed_counts,
        request.starting_transaction_index is None,
        request.pre_balance_info == pre_balance_info,
{
    CommitRequest {
        bank,
        transactions,
        batch: BatchPlan::locked_elsewhere(transactions.len()),
        processing_results,
        processed_counts,
        starting_transaction_index: None,
        pre_balance_info,
    }
}

proof fn lemma_committed_count_concat(
    first: Seq<TransactionCommitResult>,
    second: Seq<TransactionCommitResult>,
)
    ensures
        committed_count(first + second) == committed_count(first) + committed_count(second),
    decreases second.len(),
{
    if second.len() == 0 {
        assert(first + second =~= first);
    } else {
        assert((first + second).drop_last() =~= first + second.drop_last());
        lemma_committed_count_concat(first, second.drop_last());
    }
}

proof fn lemma_committed_count_take(results: Seq<TransactionCommitResult>, i: int, j: int)
    requires
        0 <= i <= j <= results.len(),
    ensures
        committed_count(results.take(j)) == committed_count(results.take(i)) + committed_count(
            results.subrange(i, j),
        ),
{
    assert(results.take(j) =~= results.take(i) + results.subrange(i, j));
    lemma_committed_count_concat(results.take(i), results.subrange(i, j));
}

/// Committed transactions are numbered in order: between two of them the index grows by
/// as many as were committed from the one up to the other.
pub proof fn law_indexes_count_commits(
    results: Seq<TransactionCommitResult>,
    start: usize,
    i: int,
    j: int,
)
    requires
        0 <= i < j < results.len(),
        results[i] is Ok,
        results[j] is Ok,
        start + committed_count(results) <= usize::MAX,
    ensures
        transaction_index(results, start, j) - transaction_index(results, start, i)
            == committed_count(results.subrange(i, j)),
        start <= transaction_index(results, start, i) < transaction_index(results, start, j)
            < start + committed_count(results),
{
    lemma_committed_count_take(results, i, j);
    lemma_committed_count_take(results, i, i + 1);
    lemma_committed_count_take(results, i + 1, j);
    lemma_committed_count_take(results, j, j + 1);
    lemma_committed_count_take(results, j + 1, results.len() as int);
    assert(results.take(results.len() as int) =~= results);
    assert(results.take(i + 1).drop_last() =~= results.take(i));
    assert(results.take(j + 1).drop_last() =~= results.take(j));
}

/// No index is left out: every one from the start up to the number of commits belongs to
/// a committed transaction.
pub proof fn law_every_index_is_taken(
    results: Seq<TransactionCommitResult>,
    start: usize,
    index: usize,
)
    requires
        start + committed_count(results) <= usize::MAX,
        start <= index < start + committed_count(results),
    ensures
        exists|i: int|
            0 <= i < results.len() && results[i] is Ok && #[trigger] transaction_index(
                results,
                start,
                i,
            ) == index,
    decreases results.len(),
{
    let last = results.len() - 1;
    let rest = results.drop_last();
    assert(results.take(last) =~= rest);
    if results.last() is Ok && index == start + committed_count(rest) {
        assert(transaction_index(results, start, last) == index);
    } else {
        law_every_index_is_taken(rest, start, index);
        let i = choose|i: int|
            0 <= i < rest.len() && rest[i] is Ok && #[trigger] transaction_index(rest, start, i)
                == index;
        assert(rest.take(i) =~= results.take(i));
        assert(transaction_index(results, start, i) == index);
    }
}

/// A batch may be committed in two parts: the second part goes on with the index at which
/// the first one left off.
pub proof fn law_indexes_continue(
    first: Seq<TransactionCommitResult>,
    second: Seq<TransactionCommitResult>,
    start: usize,
)
    requires
        start + committed_count(first) + committed_count(second) <= usize::MAX,
    ensures
        transaction_indexes(first + second, start) == transaction_indexes(first, start)
            + transaction_indexes(second, (start + committed_count(first)) as usize),
{
    let both = first + second;
    let next = (start + committed_count(first)) as usize;
    assert forall|i: int| 0 <= i < both.len() implies transaction_index(both, start, i) == (
    transaction_indexes(first, start) + transaction_indexes(second, next))[i] by {
        if i < first.len() {
            assert(both.take(i) =~= first.take(i));
        } else {
            let k = i - first.len();
            assert(both.take(i) =~= first + second.take(k));
            lemma_committed_count_concat(first, second.take(k));
            lemma_committed_count_take(second, k, second.len() as int);
            assert(second.take(second.len() as int) =~= second);
        }
    }
    assert(transaction_indexes(both, start) =~= transaction_indexes(first, start)
        + transaction_indexes(second, next));
}

/// Exactly the transactions with a successful result are processed ones: a transaction is
/// kept at a place that is the number of successes before it.
pub proof fn law_processed_keeps_the_successes<Transaction>(
    results: Seq<TransactionProcessingResult>,
    transactions: Seq<Transaction>,
    i: int,
)
    requires
        0 <= i < results.len(),
        i < transactions.len(),
        results[i] is Ok,
    ensures
        processed(results.take(i), transactions).len() < processed(results, transactions).len(),
        processed(results, transactions)[processed(results.take(i), transactions).len() as int]
            == transactions[i],
    decreases results.len(),
{
    if i == results.len() - 1 {
        assert(results.take(i) =~= results.drop_last());
    } else {
        law_processed_keeps_the_successes(results.drop_last(), transactions, i);
        assert(results.drop_last().take(i) =~= results.take(i));
    }
}

/// No transaction is processed without a successful result.
pub proof fn law_processed_keeps_nothing_else<Transaction>(
    results: Seq<TransactionProcessingResult>,
    transactions: Seq<Transaction>,
    place: int,
)
    requires
        0 <= place < processed(results, transactions).len(),
    ensures
        exists|i: int|
            0 <= i < results.len() && i < transactions.len() && results[i] is Ok
                && processed(results, transactions)[place] == #[trigger] transactions[i] && place
                == processed(results.take(i), transactions).len(),
    decreases results.len(),
{
    let rest = results.drop_last();
    let last = results.len() - 1;
    assert(results.take(last) =~= rest);
    if place < processed(rest, transactions).len() {
        law_processed_keeps_nothing_else(rest, transactions, place);
        let i = choose|i: int|
            0 <= i < rest.len() && i < transactions.len() && rest[i] is Ok && processed(
                rest,
                transactions,
            )[place] == #[trigger] transactions[i] && place == processed(
                rest.take(i),
                transactions,
            ).len();
        assert(rest.take(i) =~= results.take(i));
        assert(processed(results, transactions)[place] == transactions[i]);
    } else {
        assert(processed(results, transactions)[place] == transactions[last]);
    }
}

/// A transaction is reported as committed exactly if its commit succeeded, and then with the
/// units and the account data that it really used, be they zero or not.
pub proof fn law_details_tell_commits(result: TransactionCommitResult)
    ensures
        commit_details(result) is Committed <==> result is Ok,
        commit_details(result) is NotCommitted <==> result is Err,
        result matches Ok(tx) ==> (commit_details(result) matches CommitTransactionDetails::Committed {
            compute_units,
            loaded_accounts_data_size,
        } && compute_units == tx.executed_units && loaded_accounts_data_size
            == tx.loaded_accounts_data_size),
{
}

/// A further transaction counts as one more exactly if it was committed.
pub proof fn law_commits_are_counted(
    results: Seq<TransactionCommitResult>,
    result: TransactionCommitResult,
)
    ensures
        committed_count(Seq::empty()) == 0,
        result is Ok ==> committed_count(results.push(result)) == committed_count(results) + 1,
        result is Err ==> committed_count(results.push(result)) == committed_count(results),
{
    assert(results.push(result).drop_last() =~= results);
}

/// There is an index for every transaction, and it is zero for one that was not committed.
pub proof fn law_refused_transactions_have_index_zero(
    results: Seq<TransactionCommitResult>,
    start: usize,
    i: int,
)
    requires
        0 <= i < results.len(),
    ensures
        transaction_indexes(results, start).len() == results.len(),
        transaction_indexes(results, start)[i] == transaction_index(results, start, i),
        results[i] is Err ==> transaction_indexes(results, start)[i] == 0,
{
}

/// The first transaction to be committed has the starting index.
pub proof fn law_first_commit_has_the_starting_index(
    results: Seq<TransactionCommitResult>,
    start: usize,
    i: int,
)
    requires
        0 <= i < results.len(),
        results[i] is Ok,
        forall|j: int| 0 <= j < i ==> #[trigger] results[j] is Err,
    ensures
        transaction_indexes(results, start)[i] == start,
{
    lemma_no_commits(results.take(i));
}

/// A committed transaction has the index after that of the one committed before it, unless
/// that is the largest index there is, which then stays.
pub proof fn law_next_commit_has_the_next_index(
    results: Seq<TransactionCommitResult>,
    start: usize,
    i: int,
    j: int,
)
    requires
        0 <= i < j < results.len(),
        results[i] is Ok,
        results[j] is Ok,
        forall|k: int| i < k < j ==> #[trigger] results[k] is Err,
    ensures
        ({
            let before = transaction_indexes(results, start)[i];
            let after = transaction_indexes(results, start)[j];
            if before < usize::MAX {
                after == before + 1
            } else {
                after == usize::MAX
            }
        }),
{
    lemma_committed_count_take(results, i + 1, j);
    lemma_no_commits(results.subrange(i + 1, j));
    assert(results.take(i + 1).drop_last() =~= results.take(i));
}

proof fn lemma_no_commits(results: Seq<TransactionCommitResult>)
    requires
        forall|i: int| 0 <= i < results.len() ==> #[trigger] results[i] is Err,
    ensures
        committed_count(results) == 0,
    decreases results.len(),
{
    if results.len() > 0 {
        assert(results[results.len() - 1] is Err);
        assert forall|i: int| 0 <= i < results.drop_last().len() implies
            #[trigger] results.drop_last()[i] is Err by {
            assert(results[i] is Err);
        }
        lemma_no_commits(results.drop_last());
    }
}

/// A further result keeps the transaction at its place exactly if it is a success and there is
/// such a transaction, after all that were kept before.
pub proof fn law_processed_goes_on<Transaction>(
    results: Seq<TransactionProcessingResult>,
    result: TransactionProcessingResult,
    transactions: Seq<Transaction>,
)
    ensures
        processed(Seq::empty(), transactions) == Seq::<Transaction>::empty(),
        processed(results.push(result), transactions) == if result is Ok && results.len()
            < transactions.len() {
            processed(results, transactions).push(transactions[results.len() as int])
        } else {
            processed(results, transactions)
        },
{
    assert(results.push(result).drop_last() =~= results);
}

/// Votes are sent first and fees are recorded last, whatever happens, and statuses are sent in
/// between exactly if there is somewhere to send them. No step is taken twice.
pub proof fn law_steps_after_a_commit(transaction_status_sender_enabled: bool)
    ensures
        ({
            let steps = post_commit_steps(transaction_status_sender_enabled);
            &&& steps.len() == if transaction_status_sender_enabled { 3nat } else { 2nat }
            &&& steps[0] is SendVotes
            &&& steps[steps.len() - 1] is UpdatePrioritizationFees
            &&& transaction_status_sender_enabled ==> steps[1] is SendStatusBatch
        }),
{
}

/// A status batch is made exactly if statuses are passed on. It holds the slot, transactions
/// and commit results that it was made of, the balances from before, which are gone
/// afterwards, and an index for each transaction, counted from zero where no start is given.
/// Without one nothing changes.
pub proof fn law_status_batch_holds_what_it_was_made_of<Transaction, CommitResult, TokenBalance, Mint>(
    made: Option<StatusBatch<Transaction, CommitResult, TokenBalance>>,
    transaction_status_sender_enabled: bool,
    slot: u64,
    transactions: Seq<Transaction>,
    committed: Seq<TransactionCommitResult>,
    commit_results: Seq<CommitResult>,
    starting_transaction_index: Option<usize>,
    before: PreBalanceInfo<TokenBalance, Mint>,
    after: PreBalanceInfo<TokenBalance, Mint>,
)
    requires
        status_batch_made(
            made,
            transaction_status_sender_enabled,
            slot,
            transactions,
            committed,
            commit_results,
            starting_transaction_index,
            before,
            after,
        ),
    ensures
        made is Some <==> transaction_status_sender_enabled,
        made is None ==> after == before,
        made matches Some(batch) ==> {
            &&& batch.slot == slot
            &&& batch.transactions@ == transactions
            &&& batch.commit_results@ == commit_results
            &&& batch.native == before.native
            &&& batch.token == before.token
            &&& after.native@.len() == 0
            &&& after.token@.len() == 0
            &&& after.mint_decimals == before.mint_decimals
            &&& batch.transaction_indexes@ == match starting_transaction_index {
                Some(start) => transaction_indexes(committed, start),
                None => transaction_indexes(committed, 0),
            }
        },
{
}

/// Balances of which nothing is known have no native ones, none of tokens and no mints.
pub proof fn law_empty_balances<TokenBalance, Mint>(info: PreBalanceInfo<TokenBalance, Mint>)
    requires
        info.is_empty(),
    ensures
        info.native@.len() == 0,
        info.token@.len() == 0,
        forall|mint: Mint| !info.mint_decimals@.contains_key(mint),
{
}

/// A committer passes statuses on exactly if it was made with somewhere to send them, and it
/// sends statuses, votes and fees where it was made to.
pub proof fn law_committer_keeps_what_it_was_made_with<StatusSender, VoteSender, FeeCache>(
    status_sender: Option<StatusSender>,
    vote_sender: VoteSender,
    fee_cache: Arc<FeeCache>,
    made: Committer<StatusSender, VoteSender, FeeCache>,
    enabled: bool,
    statuses: &Option<StatusSender>,
    votes: &VoteSender,
    fees: &Arc<FeeCache>,
)
    requires
        call_ensures(
            Committer::<StatusSender, VoteSender, FeeCache>::new,
            (status_sender, vote_sender, fee_cache),
            made,
        ),
        call_ensures(
            Committer::<StatusSender, VoteSender, FeeCache>::transaction_status_sender_enabled,
            (&made,),
            enabled,
        ),
        call_ensures(
            Committer::<StatusSender, VoteSender, FeeCache>::transaction_status_sender,
            (&made,),
            statuses,
        ),
        call_ensures(
            Committer::<StatusSender, VoteSender, FeeCache>::replay_vote_sender,
            (&made,),
            votes,
        ),
        call_ensures(
            Committer::<StatusSender, VoteSender, FeeCache>::prioritization_fee_cache,
            (&made,),
            fees,
        ),
    ensures
        enabled <==> status_sender is Some,
        *statuses == status_sender,
        *votes == vote_sender,
        *fees == fee_cache,
{
}

/// There is a status for every transaction, and at each place it tells whether the commit
/// there succeeded and what was used.
pub proof fn law_statuses_tell_commits(
    commit_results: &[TransactionCommitResult],
    statuses: Vec<CommitTransactionDetails>,
    i: int,
)
    requires
        call_ensures(commit_transaction_statuses, (commit_results,), statuses),
        0 <= i < commit_results@.len(),
    ensures
        statuses@.len() == commit_results@.len(),
        match commit_results@[i] {
            Ok(tx) => statuses@[i] matches CommitTransactionDetails::Committed {
                compute_units,
                loaded_accounts_data_size,
            } && compute_units == tx.executed_units && loaded_accounts_data_size
                == tx.loaded_accounts_data_size,
            Err(_) => statuses@[i] is NotCommitted,
        },
{
}

/// Without a starting index transactions are numbered as from zero.
pub proof fn law_numbering_starts_at_zero_by_default(
    commit_results: &[TransactionCommitResult],
    by_default: Vec<usize>,
    from_zero: Vec<usize>,
)
    requires
        call_ensures(batch_transaction_indexes, (commit_results, None), by_default),
        call_ensures(batch_transaction_indexes, (commit_results, Some(0)), from_zero),
    ensures
        by_default@ == from_zero@,
        by_default@.len() == commit_results@.len(),
{
}

/// Balances are looked up exactly if the committer has somewhere to send statuses, for every
/// one of the transactions and without locking anything. Otherwise nothing is known of them.
/// What is looked up is handed on as it is.
pub proof fn law_balances_are_looked_up_for_statuses<
    StatusSender,
    VoteSender,
    FeeCache,
    TokenBalance,
    Mint,
>(
    committer: &Committer<StatusSender, VoteSender, FeeCache>,
    enabled: bool,
    count: usize,
    native: Vec<Vec<u64>>,
    token: Vec<Vec<TokenBalance>>,
    mint_decimals: HashMap<Mint, u8>,
    first: PreBalanceAction<TokenBalance, Mint>,
    second: PreBalanceAction<TokenBalance, Mint>,
)
    requires
        call_ensures(
            Committer::<StatusSender, VoteSender, FeeCache>::transaction_status_sender_enabled,
            (committer,),
            enabled,
        ),
        call_ensures(
            fd_ext_bank_pre_balance_info::<StatusSender, VoteSender, FeeCache, TokenBalance, Mint>,
            (committer, PreBalanceEvent::Start { count }),
            first,
        ),
        call_ensures(
            fd_ext_bank_pre_balance_info::<StatusSender, VoteSender, FeeCache, TokenBalance, Mint>,
            (committer, PreBalanceEvent::Collected { native, token, mint_decimals }),
            second,
        ),
    ensures
        first is Collect <==> enabled,
        first is Return <==> !enabled,
        first matches PreBalanceAction::Collect(batch) ==> {
            &&& batch.lock_results@.len() == count
            &&& forall|i: int| 0 <= i < count ==> #[trigger] batch.lock_results@[i] is Ok
            &&& !batch.needs_unlock
        },
        first matches PreBalanceAction::Return(info) ==> {
            &&& info.native@.len() == 0
            &&& info.token@.len() == 0
            &&& forall|mint: Mint| !info.mint_decimals@.contains_key(mint)
        },
        second matches PreBalanceAction::Return(info) && info.native == native && info.token
            == token && info.mint_decimals == mint_decimals,
{
}

/// Executed transactions are committed on their bank with the very results, counts and
/// balances that they came with, as one batch that locks nothing and without an index.
pub proof fn law_commit_takes_over_what_was_executed<
    Bank,
    Transaction,
    ProcessingResult,
    Counts,
    TokenBalance,
    Mint,
>(
    bank: &Bank,
    transactions: &[Transaction],
    processing_results: Vec<ProcessingResult>,
    processed_counts: Counts,
    pre_balance_info: PreBalanceInfo<TokenBalance, Mint>,
    request: CommitRequest<
        '_,
        Bank,
        Transaction,
        ProcessingResult,
        Counts,
        TokenBalance,
        Mint,
    >,
)
    requires
        call_ensures(
            fd_ext_bank_commit_txns::<
                Bank,
                Transaction,
                ProcessingResult,
                Counts,
                TokenBalance,
                Mint,
            >,
            (bank, transactions, processing_results, processed_counts, pre_balance_info),
            request,
        ),
    ensures
        *request.bank == *bank,
        request.transactions@ == transactions@,
        request.processing_results@ == processing_results@,
        request.processed_counts == processed_counts,
        request.pre_balance_info == pre_balance_info,
        request.starting_transaction_index is None,
        request.batch.lock_results@.len() == transactions@.len(),
        forall|i: int|
            0 <= i < transactions@.len() ==> #[trigger] request.batch.lock_results@[i] is Ok,
        !request.batch.needs_unlock,
{
}

/// What is sent on of a batch is all that the batch holds, with the balances before and after
/// it each in their own place.
pub proof fn law_message_is_the_batch_with_later_balances<Transaction, CommitResult, TokenBalance>(
    batch: StatusBatch<Transaction, CommitResult, TokenBalance>,
    post_balances: Vec<Vec<u64>>,
    post_token_balances: Vec<Vec<TokenBalance>>,
    message: StatusMessage<Transaction, CommitResult, TokenBalance>,
)
    requires
        call_ensures(
            StatusBatch::<Transaction, CommitResult, TokenBalance>::complete,
            (batch, post_balances, post_token_balances),
            message,
        ),
    ensures
        message.slot == batch.slot,
        message.transactions@ == batch.transactions@,
        message.commit_results@ == batch.commit_results@,
        message.pre_balances@ == batch.native@,
        message.post_balances@ == post_balances@,
        message.pre_token_balances@ == batch.token@,
        message.post_token_balances@ == post_token_balances@,
        message.transaction_indexes@ == batch.transaction_indexes@,
{
}

} // verus!
