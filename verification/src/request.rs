//! What the runtime is asked to do with a set of transactions.
use crate::transaction_error::TransactionError;
use vstd::prelude::*;

verus! {

/// The most accounts that one transaction may lock.
pub const TRANSACTION_ACCOUNT_LOCK_LIMIT: usize = 64;

/// The number of slots for which a recent blockhash is accepted.
pub const PROCESSING_AGE: usize = 150;

/// The public address of an account.
pub type Pubkey = [u8; 32];

/// The networks that a bank can belong to.
#[derive(Clone, Copy, Debug, PartialEq, Eq, Structural)]
pub enum ClusterType {
    Testnet,
    MainnetBeta,
    Devnet,
    Development,
}

/// The lists of accounts to which tips are paid.
#[derive(Clone, Copy, Debug, PartialEq, Eq, Structural)]
pub enum TipAccounts {
    Mainnet,
    Testnet,
    Empty,
}

/// The accounts that the transactions of a batch lock, and whether the batch gives
/// them back when it is dropped.
pub struct BatchPlan {
    pub lock_results: Vec<Result<(), TransactionError>>,
    pub needs_unlock: bool,
}

/// How a batch of independent transactions is to be loaded and executed.
pub struct LoadAndExecuteRequest<Budget> {
    pub batch: BatchPlan,
    pub max_age: usize,
    /// Whether accounts are to be taken from elsewhere than the bank.
    pub override_accounts: bool,
    pub check_program_modification_slot: bool,
    pub compute_budget: Budget,
    pub log_messages_bytes_limit: Option<usize>,
    pub limit_to_load_programs: bool,
    pub record_execution: bool,
    pub transaction_account_lock_limit: Option<usize>,
    pub tip_accounts: TipAccounts,
}

/// How a bundle is to be executed.
pub struct BundleExecutionRequest {
    pub max_age: usize,
    pub transaction_status_sender_enabled: bool,
    pub log_messages_bytes_limit: Option<usize>,
    /// Whether accounts are to be taken from elsewhere than the bank.
    pub override_accounts: bool,
    pub pre_execution_accounts: Vec<Option<Vec<Pubkey>>>,
    pub post_execution_accounts: Vec<Option<Vec<Pubkey>>>,
    pub tip_accounts: TipAccounts,
}

/// Tips are recognised on the main network and on the test network.
pub open spec fn cluster_tip_accounts(cluster: ClusterType) -> TipAccounts {
    match cluster {
        ClusterType::MainnetBeta => TipAccounts::Mainnet,
        ClusterType::Testnet => TipAccounts::Testnet,
        ClusterType::Devnet | ClusterType::Development => TipAccounts::Empty,
    }
}

impl BatchPlan {
    /// A batch of `count` transactions whose accounts are locked elsewhere: every
    /// transaction may proceed and nothing is to be unlocked.
    pub open spec fn is_locked_elsewhere(self, count: nat) -> bool {
        &&& self.lock_results@ == Seq::new(
            count,
            |i: int| Ok::<(), TransactionError>(()),
        )
        &&& !self.needs_unlock
    }

    /// Plans a batch of `count` transactions whose accounts are locked elsewhere.
    pub fn locked_elsewhere(count: usize) -> (plan: Self)
        ensures
            plan.is_locked_elsewhere(count as nat),
    {
        let mut lock_results: Vec<Result<(), TransactionError>> = Vec::new();
        while lock_results.len() < count
            invariant
                lock_results@.len() <= count,
                lock_results@ == Seq::new(
                    lock_results@.len(),
                    |i: int| Ok::<(), TransactionError>(()),
                ),
            decreases count - lock_results@.len(),
        {
            lock_results.push(Ok(()));
        }
        BatchPlan { lock_results, needs_unlock: false }
    }
}

/// Reads `solana_sdk::clock::MAX_PROCESSING_AGE`, which is defined as half of the 300
/// recent blockhashes that a bank keeps.
#[verifier::external_body]
fn max_processing_age() -> (age: usize)
    ensures
        age == PROCESSING_AGE,
{
    solana_sdk::clock::MAX_PROCESSING_AGE
}

/// The tip accounts of a cluster.
pub fn tip_accounts(cluster: ClusterType) -> (accounts: TipAccounts)
    ensures
        accounts == cluster_tip_accounts(cluster),
{
    if cluster == ClusterType::MainnetBeta {
        TipAccounts::Mainnet
    } else if cluster == ClusterType::Testnet {
        TipAccounts::Testnet
    } else {
        TipAccounts::Empty
    }
}

/// As many absent account lists as there are transactions.
fn no_accounts(count: usize) -> (accounts: Vec<Option<Vec<Pubkey>>>)
    ensures
        accounts@ == Seq::new(count as nat, |i: int| None::<Vec<Pubkey>>),
{
    let mut accounts: Vec<Option<Vec<Pubkey>>> = Vec::new();
    while accounts.len() < count
        invariant
            accounts@.len() <= count,
            accounts@ == Seq::new(accounts@.len(), |i: int| None::<Vec<Pubkey>>),
        decreases count - accounts@.len(),
    {
        accounts.push(None);
    }
    accounts
}

impl<Budget> LoadAndExecuteRequest<Budget> {
    /// The request made for `count` transactions of a bank: their accounts are locked
    /// elsewhere and none is overridden, the bank's own settings hold, logs are not cut
    /// short, and what the execution did is recorded exactly when statuses are sent on.
    pub open spec fn is_for(
        self,
        count: nat,
        cluster: ClusterType,
        check_program_modification_slot: bool,
        compute_budget: Budget,
        transaction_status_sender_enabled: bool,
    ) -> bool {
        &&& self.batch.is_locked_elsewhere(count)
        &&& self.max_age == PROCESSING_AGE
        &&& !self.override_accounts
        &&& self.check_program_modification_slot == check_program_modification_slot
        &&& self.compute_budget == compute_budget
        &&& self.log_messages_bytes_limit is None
        &&& !self.limit_to_load_programs
        &&& self.record_execution == transaction_status_sender_enabled
        &&& self.transaction_account_lock_limit == Some(TRANSACTION_ACCOUNT_LOCK_LIMIT)
        &&& self.tip_accounts == cluster_tip_accounts(cluster)
    }

    pub fn new(
        count: usize,
        cluster: ClusterType,
        check_program_modification_slot: bool,
        compute_budget: Budget,
        transaction_status_sender_enabled: bool,
    ) -> (request: Self)
        ensures
            request.is_for(
                count as nat,
                cluster,
                check_program_modification_slot,
                compute_budget,
                transaction_status_sender_enabled,
            ),
    {
        LoadAndExecuteRequest {
            batch: BatchPlan::locked_elsewhere(count),
            max_age: max_processing_age(),
            override_accounts: false,
            check_program_modification_slot,
            compute_budget,
            log_messages_bytes_limit: None,
            limit_to_load_programs: false,
            record_execution: transaction_status_sender_enabled,
            transaction_account_lock_limit: Some(TRANSACTION_ACCOUNT_LOCK_LIMIT),
            tip_accounts: tip_accounts(cluster),
        }
    }
}

impl BundleExecutionRequest {
    /// The request made for a bundle of `count` transactions: no account is overridden, or
    /// captured before or after any of them, and logs are not cut short.
    pub open spec fn is_for(
        self,
        count: nat,
        cluster: ClusterType,
        transaction_status_sender_enabled: bool,
    ) -> bool {
        &&& self.max_age == PROCESSING_AGE
        &&& self.transaction_status_sender_enabled == transaction_status_sender_enabled
        &&& self.log_messages_bytes_limit is None
        &&& !self.override_accounts
        &&& self.pre_execution_accounts@ == Seq::new(count, |i: int| None::<Vec<Pubkey>>)
        &&& self.post_execution_accounts@ == Seq::new(count, |i: int| None::<Vec<Pubkey>>)
        &&& self.tip_accounts == cluster_tip_accounts(cluster)
    }

    pub fn new(
        count: usize,
        cluster: ClusterType,
        transaction_status_sender_enabled: bool,
    ) -> (request: Self)
        ensures
            request.is_for(count as nat, cluster, transaction_status_sender_enabled),
    {
        BundleExecutionRequest {
            max_age: max_processing_age(),
            transaction_status_sender_enabled,
            log_messages_bytes_limit: None,
            override_accounts: false,
            pre_execution_accounts: no_accounts(count),
            post_execution_accounts: no_accounts(count),
            tip_accounts: tip_accounts(cluster),
        }
    }
}

/// Tips are paid to the accounts of the main network on it, to those of the test network on
/// that one, and to none anywhere else.
pub proof fn law_tip_accounts_of_networks(cluster: ClusterType)
    ensures
        cluster_tip_accounts(cluster) is Mainnet <==> cluster is MainnetBeta,
        cluster_tip_accounts(cluster) is Testnet <==> cluster is Testnet,
        cluster_tip_accounts(cluster) is Empty <==> cluster is Devnet || cluster is Development,
{
}

/// A batch that is locked elsewhere has one lock for each transaction, every one of them
/// granted, and unlocks nothing.
pub proof fn law_locked_elsewhere_grants_all(plan: BatchPlan, count: nat, i: int)
    requires
        plan.is_locked_elsewhere(count),
    ensures
        plan.lock_results@.len() == count,
        0 <= i < count ==> plan.lock_results@[i] is Ok,
        !plan.needs_unlock,
{
}

/// A request for independent transactions lets each of them proceed, takes accounts from the
/// bank alone, accepts blockhashes of up to 150 slots and transactions of up to 64 accounts,
/// keeps the bank's own settings, cuts no logs, and records the execution exactly when
/// statuses are sent on.
pub proof fn law_request_for_transactions<Budget>(
    request: LoadAndExecuteRequest<Budget>,
    count: nat,
    cluster: ClusterType,
    check_program_modification_slot: bool,
    compute_budget: Budget,
    transaction_status_sender_enabled: bool,
)
    requires
        request.is_for(
            count,
            cluster,
            check_program_modification_slot,
            compute_budget,
            transaction_status_sender_enabled,
        ),
    ensures
        request.batch.lock_results@.len() == count,
        forall|i: int| 0 <= i < count ==> #[trigger] request.batch.lock_results@[i] is Ok,
        !request.batch.needs_unlock,
        request.max_age == 150,
        !request.override_accounts,
        request.check_program_modification_slot == check_program_modification_slot,
        request.compute_budget == compute_budget,
        request.log_messages_bytes_limit is None,
        !request.limit_to_load_programs,
        request.record_execution == transaction_status_sender_enabled,
        request.transaction_account_lock_limit == Some(64usize),
        request.tip_accounts is Mainnet <==> cluster is MainnetBeta,
        request.tip_accounts is Testnet <==> cluster is Testnet,
{
}

/// A request for a bundle accepts blockhashes of up to 150 slots, takes accounts from the bank
/// alone and captures none before or after any transaction, cuts no logs, and says whether
/// statuses are sent on.
pub proof fn law_request_for_a_bundle(
    request: BundleExecutionRequest,
    count: nat,
    cluster: ClusterType,
    transaction_status_sender_enabled: bool,
)
    requires
        request.is_for(count, cluster, transaction_status_sender_enabled),
    ensures
        request.max_age == 150,
        request.transaction_status_sender_enabled == transaction_status_sender_enabled,
        request.log_messages_bytes_limit is None,
        !request.override_accounts,
        request.pre_execution_accounts@.len() == count,
        request.post_execution_accounts@.len() == count,
        forall|i: int|
            0 <= i < count ==> #[trigger] request.pre_execution_accounts@[i] is None,
        forall|i: int|
            0 <= i < count ==> #[trigger] request.post_execution_accounts@[i] is None,
        request.tip_accounts is Mainnet <==> cluster is MainnetBeta,
        request.tip_accounts is Testnet <==> cluster is Testnet,
{
}

} // verus!
