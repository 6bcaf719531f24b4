//! Executing a bundle and committing it if none of its transactions failed.
use crate::bundle::LoadAndExecuteBundleError;
#[allow(unused_imports)]
use crate::processing::{
    charged_data_sizes, net_tips, priced, reported_data_cost, tips_in_range, transaction_report,
};
use crate::processing::{
    are_tips_in_range, data_sizes_to_price, report_data_cost, tips_after_fee,
    ProcessedTransaction, TransactionProcessingResult,
};
use crate::request::{BundleExecutionRequest, ClusterType};
#[allow(unused_imports)]
use crate::transaction_error::error_code;
use crate::transaction_error::{
    transaction_error_to_code, TransactionError, BUNDLE_PEER_CODE, SUCCESS_CODE,
};
use vstd::prelude::*;

verus! {

/// Returned for a bundle of which a transaction failed.
pub const BUNDLE_FAILED: i32 = 0;

/// Returned for a bundle that was committed.
pub const BUNDLE_COMMITTED: i32 = 1;

/// The values reported of one transaction of a bundle.
#[derive(Clone, Copy, Debug, PartialEq, Eq)]
pub struct BundleEntry {
    pub transaction_err: i32,
    pub consumed_exec_cus: u32,
    pub consumed_acct_data_cus: u32,
    pub tips: u64,
}

/// What happens while a bundle is executed and committed.
pub enum BundleEvent<Execution> {
    /// The bundle arrived.
    Start { cluster: ClusterType, transaction_status_sender_enabled: bool },
    /// The runtime executed it, in batches, up to the first failure.
    Executed { batches: Vec<Vec<TransactionProcessingResult>> },
    /// The account data sizes that its transactions are charged for were priced. All that
    /// the runtime gave is kept for the commit.
    Priced {
        batches: Vec<Vec<TransactionProcessingResult>>,
        data_costs: Vec<u64>,
        outcome: Result<(), LoadAndExecuteBundleError>,
        execution: Execution,
    },
    /// The bundle was committed.
    Committed,
}

/// What is to be done next.
pub enum BundleAction<Execution> {
    Execute(BundleExecutionRequest),
    Price(Vec<Option<u32>>),
    /// Commit what the runtime gave, numbering the transactions from the given index on.
    Commit { execution: Execution, starting_transaction_index: Option<usize> },
    Return(i32),
}

/// The results of the batches one after another.
pub open spec fn flattened(batches: Seq<Vec<TransactionProcessingResult>>) -> Seq<
    TransactionProcessingResult,
> {
    batches.map_values(|batch: Vec<TransactionProcessingResult>| batch@).flatten()
}

/// What a result says of the failure that it records, if it records one.
pub open spec fn failure_cause(result: TransactionProcessingResult) -> Option<TransactionError> {
    match result {
        Ok(ProcessedTransaction::Executed(tx)) => match tx.status {
            Ok(_) => None,
            Err(err) => Some(err),
        },
        Ok(ProcessedTransaction::FeesOnly(tx)) => Some(tx.load_error),
        Err(err) => Some(err),
    }
}

/// An executed transaction whose units and tips fit the report.
pub open spec fn reportable_in_bundle(result: TransactionProcessingResult) -> bool {
    result matches Ok(ProcessedTransaction::Executed(tx)) && {
        &&& tx.executed_units <= u32::MAX
        &&& tips_in_range(tx.tips)
    }
}

/// The report on an executed transaction whose account data costs `data_cost`.
pub open spec fn executed_entry(result: TransactionProcessingResult, data_cost: u64) -> BundleEntry
    recommends
        reportable_in_bundle(result),
{
    let tx = result->Ok_0->Executed_0;
    BundleEntry {
        transaction_err: SUCCESS_CODE,
        consumed_exec_cus: tx.executed_units as u32,
        consumed_acct_data_cus: reported_data_cost(data_cost),
        tips: net_tips(tx.tips),
    }
}

/// The entry at a position of the bundle once it was executed: the report on the
/// transaction there, or what stood there before if the runtime gave no result for it.
pub open spec fn recorded_entry(
    before: BundleEntry,
    position: int,
    results: Seq<TransactionProcessingResult>,
    data_costs: Seq<u64>,
) -> BundleEntry {
    if position < results.len() {
        executed_entry(results[position], data_costs[position])
    } else {
        before
    }
}

/// The entry at a position once the outcome of the bundle is known. If a transaction
/// failed, it is reported with its own code and every other one as its peer, and units
/// and tips are kept only up to the failure.
pub open spec fn settled_entry(
    before: BundleEntry,
    position: int,
    results: Seq<TransactionProcessingResult>,
    data_costs: Seq<u64>,
    outcome: Result<(), LoadAndExecuteBundleError>,
) -> BundleEntry {
    let recorded = recorded_entry(before, position, results, data_costs);
    match outcome {
        Ok(_) => recorded,
        Err(LoadAndExecuteBundleError::TransactionError { index, execution_result }) => {
            let kept = position < index;
            BundleEntry {
                transaction_err: if position == index {
                    error_code(failure_cause(execution_result)->0)
                } else {
                    BUNDLE_PEER_CODE
                },
                consumed_exec_cus: if kept { recorded.consumed_exec_cus } else { 0 },
                consumed_acct_data_cus: if kept { recorded.consumed_acct_data_cus } else { 0 },
                tips: if kept { recorded.tips } else { 0 },
            }
        },
    }
}

/// The entries that the outputs hold.
pub open spec fn entries_of(
    transaction_err: Seq<i32>,
    consumed_exec_cus: Seq<u32>,
    consumed_acct_data_cus: Seq<u32>,
    tips: Seq<u64>,
) -> Seq<BundleEntry> {
    Seq::new(
        transaction_err.len(),
        |i: int|
            BundleEntry {
                transaction_err: transaction_err[i],
                consumed_exec_cus: consumed_exec_cus[i],
                consumed_acct_data_cus: consumed_acct_data_cus[i],
                tips: tips[i],
            },
    )
}

/// Whether the outputs hold the given entries.
pub open spec fn outputs_hold(
    transaction_err: Seq<i32>,
    consumed_exec_cus: Seq<u32>,
    consumed_acct_data_cus: Seq<u32>,
    tips: Seq<u64>,
    entries: Seq<BundleEntry>,
) -> bool {
    &&& transaction_err =~= entries.map_values(|entry: BundleEntry| entry.transaction_err)
    &&& consumed_exec_cus =~= entries.map_values(|entry: BundleEntry| entry.consumed_exec_cus)
    &&& consumed_acct_data_cus =~= entries.map_values(
        |entry: BundleEntry| entry.consumed_acct_data_cus,
    )
    &&& tips =~= entries.map_values(|entry: BundleEntry| entry.tips)
}

/// The entries once the bundle was executed.
pub open spec fn recorded_entries(
    before: Seq<BundleEntry>,
    results: Seq<TransactionProcessingResult>,
    data_costs: Seq<u64>,
) -> Seq<BundleEntry> {
    Seq::new(before.len(), |i: int| recorded_entry(before[i], i, results, data_costs))
}

/// The entries once the outcome of the bundle is known.
pub open spec fn settled_entries(
    before: Seq<BundleEntry>,
    results: Seq<TransactionProcessingResult>,
    data_costs: Seq<u64>,
    outcome: Result<(), LoadAndExecuteBundleError>,
) -> Seq<BundleEntry> {
    Seq::new(before.len(), |i: int| settled_entry(before[i], i, results, data_costs, outcome))
}

/// The values with a zero in place of those from a position on.
pub open spec fn zeroed_from<T>(values: Seq<T>, position: int, zero: T) -> Seq<T> {
    Seq::new(
        values.len(),
        |i: int|
            if i < position {
                values[i]
            } else {
                zero
            },
    )
}

/// Whether the outcome of an execution can be reported for `count` transactions: there
/// are no more results than transactions, each for an executed one and with a price, and
/// a failure is that of a transaction of the bundle.
pub open spec fn settles(
    results: Seq<TransactionProcessingResult>,
    data_costs: Seq<u64>,
    outcome: Result<(), LoadAndExecuteBundleError>,
    count: nat,
) -> bool {
    &&& results.len() <= count
    &&& data_costs.len() >= results.len()
    &&& forall|i: int| 0 <= i < results.len() ==> reportable_in_bundle(#[trigger] results[i])
    &&& outcome matches Err(
        LoadAndExecuteBundleError::TransactionError { index, execution_result },
    ) ==> index < count && failure_cause(execution_result) is Some
}

/// What follows once the outcome of a bundle is known: what the runtime gave is committed,
/// from the beginning, exactly when no transaction failed.
pub open spec fn settled_action<Execution>(
    outcome: Result<(), LoadAndExecuteBundleError>,
    execution: Execution,
) -> BundleAction<Execution> {
    if outcome is Ok {
        BundleAction::Commit { execution, starting_transaction_index: Some(0) }
    } else {
        BundleAction::Return(BUNDLE_FAILED)
    }
}

/// Puts the results of the batches one after another.
pub fn flatten_results(batches: &[Vec<TransactionProcessingResult>]) -> (results: Vec<
    TransactionProcessingResult,
>)
    ensures
        results@ == flattened(batches@),
{
    let mut results: Vec<TransactionProcessingResult> = Vec::new();
    let mut i: usize = 0;
    while i < batches.len()
        invariant
            i <= batches@.len(),
            results@ == flattened(batches@.take(i as int)),
        decreases batches@.len() - i,
    {
        let batch = &batches[i];
        let ghost before = results@;
        let mut j: usize = 0;
        while j < batch.len()
            invariant
                j <= batch@.len(),
                results@ == before + batch@.take(j as int),
            decreases batch@.len() - j,
        {
            results.push(batch[j]);
            j = j + 1;
            assert(results@ =~= before + batch@.take(j as int));
        }
        proof {
            let views = |batch: Vec<TransactionProcessingResult>| batch@;
            assert(batch@.take(j as int) =~= batch@);
            assert(batches@.take(i + 1).map_values(views) =~= batches@.take(
                i as int,
            ).map_values(views).push(batch@));
            batches@.take(i as int).map_values(views).lemma_flatten_push(batch@);
        }
        i = i + 1;
    }
    assert(batches@.take(i as int) =~= batches@);
    results
}

/// Checks that the outcome of a bundle of `count` transactions can be reported.
pub fn can_settle(
    batches: &[Vec<TransactionProcessingResult>],
    data_costs: &[u64],
    outcome: &Result<(), LoadAndExecuteBundleError>,
    count: usize,
) -> (possible: bool)
    ensures
        possible == settles(flattened(batches@), data_costs@, *outcome, count as nat),
{
    let results = flatten_results(batches);
    if results.len() > count || data_costs.len() < results.len() {
        return false;
    }
    let mut i: usize = 0;
    while i < results.len()
        invariant
            i <= results@.len(),
            results@ == flattened(batches@),
            forall|j: int| 0 <= j < i ==> reportable_in_bundle(#[trigger] results@[j]),
        decreases results@.len() - i,
    {
        let fits = match &results[i] {
            Ok(ProcessedTransaction::Executed(tx)) => tx.executed_units <= u32::MAX as u64
                && are_tips_in_range(tx.tips),
            _ => false,
        };
        if !fits {
            assert(!reportable_in_bundle(results@[i as int]));
            return false;
        }
        i = i + 1;
    }
    match outcome {
        Ok(_) => true,
        Err(LoadAndExecuteBundleError::TransactionError { index, execution_result }) => *index
            < count && match execution_result {
            Ok(ProcessedTransaction::Executed(tx)) => tx.status.is_err(),
            _ => true,
        },
    }
}

/// The failure that a result records.
pub fn cause_of_failure(result: &TransactionProcessingResult) -> (cause: TransactionError)
    requires
        failure_cause(*result) is Some,
    ensures
        Some(cause) == failure_cause(*result),
{
    match result {
        Ok(ProcessedTransaction::Executed(tx)) => tx.status.unwrap_err(),
        Ok(ProcessedTransaction::FeesOnly(tx)) => tx.load_error,
        Err(err) => *err,
    }
}

/// Reports on the transactions that were executed.
pub fn record_executed(
    results: &[TransactionProcessingResult],
    data_costs: &[u64],
    out_transaction_err: &mut [i32],
    out_consumed_exec_cus: &mut [u32],
    out_consumed_acct_data_cus: &mut [u32],
    out_tips: &mut [u64],
)
    requires
        settles(results@, data_costs@, Ok(()), old(out_transaction_err)@.len()),
        old(out_consumed_exec_cus)@.len() == old(out_transaction_err)@.len(),
        old(out_consumed_acct_data_cus)@.len() == old(out_transaction_err)@.len(),
        old(out_tips)@.len() == old(out_transaction_err)@.len(),
    ensures
        outputs_hold(
            final(out_transaction_err)@,
            final(out_consumed_exec_cus)@,
            final(out_consumed_acct_data_cus)@,
            final(out_tips)@,
            recorded_entries(
                entries_of(
                    old(out_transaction_err)@,
                    old(out_consumed_exec_cus)@,
                    old(out_consumed_acct_data_cus)@,
                    old(out_tips)@,
                ),
                results@,
                data_costs@,
            ),
        ),
{
    let ghost before = entries_of(
        out_transaction_err@,
        out_consumed_exec_cus@,
        out_consumed_acct_data_cus@,
        out_tips@,
    );
    let mut i: usize = 0;
    assert(recorded_entries(before, results@.take(0), data_costs@) =~= before);
    while i < results.len()
        invariant
            i <= results@.len(),
            settles(results@, data_costs@, Ok(()), before.len()),
            outputs_hold(
                out_transaction_err@,
                out_consumed_exec_cus@,
                out_consumed_acct_data_cus@,
                out_tips@,
                recorded_entries(before, results@.take(i as int), data_costs@),
            ),
        decreases results@.len() - i,
    {
        assert(reportable_in_bundle(results@[i as int]));
        if let Ok(ProcessedTransaction::Executed(tx)) = &results[i] {
            out_transaction_err[i] = SUCCESS_CODE;
            out_consumed_exec_cus[i] = tx.executed_units as u32;
            out_consumed_acct_data_cus[i] = report_data_cost(data_costs[i]);
            out_tips[i] = tips_after_fee(tx.tips);
        }
        assert(recorded_entries(before, results@.take(i + 1), data_costs@) =~= recorded_entries(
            before,
            results@.take(i as int),
            data_costs@,
        ).update(i as int, executed_entry(results@[i as int], data_costs@[i as int])));
        i = i + 1;
    }
    assert(results@.take(i as int) =~= results@);
}

/// Reports the failure of the transaction at `index`: the others become its peers, and
/// from it on no units and no tips are reported.
pub fn record_failure(
    index: usize,
    execution_result: &TransactionProcessingResult,
    out_transaction_err: &mut [i32],
    out_consumed_exec_cus: &mut [u32],
    out_consumed_acct_data_cus: &mut [u32],
    out_tips: &mut [u64],
)
    requires
        index < old(out_transaction_err)@.len(),
        failure_cause(*execution_result) is Some,
        old(out_consumed_exec_cus)@.len() == old(out_transaction_err)@.len(),
        old(out_consumed_acct_data_cus)@.len() == old(out_transaction_err)@.len(),
        old(out_tips)@.len() == old(out_transaction_err)@.len(),
    ensures
        final(out_transaction_err)@ == Seq::new(
            old(out_transaction_err)@.len(),
            |i: int| BUNDLE_PEER_CODE,
        ).update(
            index as int,
            error_code(failure_cause(*execution_result)->0),
        ),
        final(out_consumed_exec_cus)@ == zeroed_from(old(out_consumed_exec_cus)@, index as int, 0),
        final(out_consumed_acct_data_cus)@ == zeroed_from(
            old(out_consumed_acct_data_cus)@,
            index as int,
            0,
        ),
        final(out_tips)@ == zeroed_from(old(out_tips)@, index as int, 0),
{
    let count: usize = out_transaction_err.len();
    let mut i: usize = 0;
    while i < count
        invariant
            i <= count,
            count == out_transaction_err@.len(),
            forall|j: int| 0 <= j < i ==> out_transaction_err@[j] == BUNDLE_PEER_CODE,
        decreases count - i,
    {
        out_transaction_err[i] = BUNDLE_PEER_CODE;
        i = i + 1;
    }
    let mut i: usize = index;
    while i < count
        invariant
            index <= i <= count,
            count == out_consumed_exec_cus@.len(),
            count == out_consumed_acct_data_cus@.len(),
            count == out_tips@.len(),
            count == old(out_consumed_exec_cus)@.len(),
            count == old(out_consumed_acct_data_cus)@.len(),
            count == old(out_tips)@.len(),
            forall|j: int|
                0 <= j < count && !(index <= j < i) ==> out_consumed_exec_cus@[j] == old(
                    out_consumed_exec_cus,
                )@[j] && out_consumed_acct_data_cus@[j] == old(out_consumed_acct_data_cus)@[j]
                    && out_tips@[j] == old(out_tips)@[j],
            forall|j: int|
                index <= j < i ==> out_consumed_exec_cus@[j] == 0 && out_consumed_acct_data_cus@[j]
                    == 0 && out_tips@[j] == 0,
        decreases count - i,
    {
        out_consumed_exec_cus[i] = 0;
        out_consumed_acct_data_cus[i] = 0;
        out_tips[i] = 0;
        i = i + 1;
    }
    out_transaction_err[index] = transaction_error_to_code(&cause_of_failure(execution_result));
}

/// Reports on a bundle whose outcome is known and decides whether it is committed.
pub fn settle_bundle<Execution>(
    results: &[TransactionProcessingResult],
    data_costs: &[u64],
    outcome: &Result<(), LoadAndExecuteBundleError>,
    execution: Execution,
    out_transaction_err: &mut [i32],
    out_consumed_exec_cus: &mut [u32],
    out_consumed_acct_data_cus: &mut [u32],
    out_tips: &mut [u64],
) -> (action: BundleAction<Execution>)
    requires
        settles(results@, data_costs@, *outcome, old(out_transaction_err)@.len()),
        old(out_consumed_exec_cus)@.len() == old(out_transaction_err)@.len(),
        old(out_consumed_acct_data_cus)@.len() == old(out_transaction_err)@.len(),
        old(out_tips)@.len() == old(out_transaction_err)@.len(),
    ensures
        action == settled_action(*outcome, execution),
        outputs_hold(
            final(out_transaction_err)@,
            final(out_consumed_exec_cus)@,
            final(out_consumed_acct_data_cus)@,
            final(out_tips)@,
            settled_entries(
                entries_of(
                    old(out_transaction_err)@,
                    old(out_consumed_exec_cus)@,
                    old(out_consumed_acct_data_cus)@,
                    old(out_tips)@,
                ),
                results@,
                data_costs@,
                *outcome,
            ),
        ),
{
    let ghost before = entries_of(
        out_transaction_err@,
        out_consumed_exec_cus@,
        out_consumed_acct_data_cus@,
        out_tips@,
    );
    record_executed(
        results,
        data_costs,
        out_transaction_err,
        out_consumed_exec_cus,
        out_consumed_acct_data_cus,
        out_tips,
    );
    match outcome {
        Ok(_) => {
            assert(settled_entries(before, results@, data_costs@, *outcome) =~= recorded_entries(
                before,
                results@,
                data_costs@,
            ));
            BundleAction::Commit { execution, starting_transaction_index: Some(0) }
        },
        Err(LoadAndExecuteBundleError::TransactionError { index, execution_result }) => {
            record_failure(
                *index,
                execution_result,
                out_transaction_err,
                out_consumed_exec_cus,
                out_consumed_acct_data_cus,
                out_tips,
            );
            BundleAction::Return(BUNDLE_FAILED)
        },
    }
}

/// Sets every timestamp to zero, which stands for an event that has not happened.
pub fn clear_timestamps(out_timestamps: &mut [u64])
    ensures
        final(out_timestamps)@ == Seq::new(old(out_timestamps)@.len(), |i: int| 0u64),
{
    let mut i: usize = 0;
    while i < out_timestamps.len()
        invariant
            i <= out_timestamps@.len(),
            out_timestamps@.len() == old(out_timestamps)@.len(),
            forall|j: int| 0 <= j < i ==> out_timestamps@[j] == 0,
        decreases out_timestamps@.len() - i,
    {
        out_timestamps[i] = 0;
        i = i + 1;
    }
    assert(out_timestamps@ =~= Seq::new(old(out_timestamps)@.len(), |i: int| 0u64));
}

/// Decides what follows an event in the life of a bundle with one transaction for each
/// place in the outputs. On arrival the timestamps are cleared and the runtime is asked to
/// execute the bundle; the account data that its transactions are charged for is priced;
/// then the transactions are reported on, and the bundle is committed unless one failed.
pub fn fd_ext_bank_execute_and_commit_bundle<Execution>(
    event: BundleEvent<Execution>,
    out_transaction_err: &mut [i32],
    out_consumed_exec_cus: &mut [u32],
    out_consumed_acct_data_cus: &mut [u32],
    out_timestamps: &mut [u64],
    out_tips: &mut [u64],
) -> (action: BundleAction<Execution>)
    requires
        old(out_consumed_exec_cus)@.len() == old(out_transaction_err)@.len(),
        old(out_consumed_acct_data_cus)@.len() == old(out_transaction_err)@.len(),
        old(out_tips)@.len() == old(out_transaction_err)@.len(),
        old(out_timestamps)@.len() == 4 * old(out_transaction_err)@.len(),
        event matches BundleEvent::Priced { batches, data_costs, outcome, .. } ==> settles(
            flattened(batches@),
            data_costs@,
            outcome,
            old(out_transaction_err)@.len(),
        ),
    ensures
        match event {
            BundleEvent::Start { cluster, transaction_status_sender_enabled } => {
                &&& action matches BundleAction::Execute(request) && request.is_for(
                    old(out_transaction_err)@.len(),
                    cluster,
                    transaction_status_sender_enabled,
                )
                &&& final(out_timestamps)@ == Seq::new(
                    old(out_timestamps)@.len(),
                    |i: int| 0u64,
                )
                &&& final(out_transaction_err)@ == old(out_transaction_err)@
                &&& final(out_consumed_exec_cus)@ == old(out_consumed_exec_cus)@
                &&& final(out_consumed_acct_data_cus)@ == old(out_consumed_acct_data_cus)@
                &&& final(out_tips)@ == old(out_tips)@
            },
            BundleEvent::Executed { batches } => {
                &&& action matches BundleAction::Price(sizes) && sizes@
                    == charged_data_sizes(flattened(batches@))
                &&& final(out_timestamps)@ == old(out_timestamps)@
                &&& final(out_transaction_err)@ == old(out_transaction_err)@
                &&& final(out_consumed_exec_cus)@ == old(out_consumed_exec_cus)@
                &&& final(out_consumed_acct_data_cus)@ == old(out_consumed_acct_data_cus)@
                &&& final(out_tips)@ == old(out_tips)@
            },
            BundleEvent::Priced { batches, data_costs, outcome, execution } => {
                &&& action == settled_action(outcome, execution)
                &&& final(out_timestamps)@ == old(out_timestamps)@
                &&& outputs_hold(
                    final(out_transaction_err)@,
                    final(out_consumed_exec_cus)@,
                    final(out_consumed_acct_data_cus)@,
                    final(out_tips)@,
                    settled_entries(
                        entries_of(
                            old(out_transaction_err)@,
                            old(out_consumed_exec_cus)@,
                            old(out_consumed_acct_data_cus)@,
                            old(out_tips)@,
                        ),
                        flattened(batches@),
                        data_costs@,
                        outcome,
                    ),
                )
            },
            BundleEvent::Committed => {
                &&& action == BundleAction::<Execution>::Return(BUNDLE_COMMITTED)
                &&& final(out_timestamps)@ == old(out_timestamps)@
                &&& final(out_transaction_err)@ == old(out_transaction_err)@
                &&& final(out_consumed_exec_cus)@ == old(out_consumed_exec_cus)@
                &&& final(out_consumed_acct_data_cus)@ == old(out_consumed_acct_data_cus)@
                &&& final(out_tips)@ == old(out_tips)@
            },
        },
{
    match event {
        BundleEvent::Start { cluster, transaction_status_sender_enabled } => {
            clear_timestamps(out_timestamps);
            BundleAction::Execute(
                BundleExecutionRequest::new(
                    out_transaction_err.len(),
                    cluster,
                    transaction_status_sender_enabled,
                ),
            )
        },
        BundleEvent::Executed { batches } => {
            let results = flatten_results(batches.as_slice());
            BundleAction::Price(data_sizes_to_price(results.as_slice()))
        },
        BundleEvent::Priced { batches, data_costs, outcome, execution } => {
            let results = flatten_results(batches.as_slice());
            settle_bundle(
                results.as_slice(),
                data_costs.as_slice(),
                &outcome,
                execution,
                out_transaction_err,
                out_consumed_exec_cus,
                out_consumed_acct_data_cus,
                out_tips,
            )
        },
        BundleEvent::Committed => BundleAction::Return(BUNDLE_COMMITTED),
    }
}

/// A failed bundle reports no success: the transaction that failed has the code of its
/// own failure, which no other transaction has, and all others are its peers.
pub proof fn law_one_failure_names_its_cause(
    before: BundleEntry,
    position: int,
    results: Seq<TransactionProcessingResult>,
    data_costs: Seq<u64>,
    index: usize,
    execution_result: TransactionProcessingResult,
    count: nat,
)
    requires
        0 <= position < count,
        settles(
            results,
            data_costs,
            Err(LoadAndExecuteBundleError::TransactionError { index, execution_result }),
            count,
        ),
    ensures
        ({
            let code = settled_entry(
                before,
                position,
                results,
                data_costs,
                Err(LoadAndExecuteBundleError::TransactionError { index, execution_result }),
            ).transaction_err;
            &&& code != SUCCESS_CODE
            &&& code != BUNDLE_PEER_CODE <==> position == index
        }),
{
    crate::transaction_error::law_code_is_neither_success_nor_peer(
        failure_cause(execution_result)->0,
    );
}

/// A failure keeps the units and tips of the transactions before it as they would stand
/// without it, and leaves none from it on.
pub proof fn law_failure_keeps_what_came_before(
    before: BundleEntry,
    position: int,
    results: Seq<TransactionProcessingResult>,
    data_costs: Seq<u64>,
    index: usize,
    execution_result: TransactionProcessingResult,
)
    ensures
        ({
            let failed = settled_entry(
                before,
                position,
                results,
                data_costs,
                Err(LoadAndExecuteBundleError::TransactionError { index, execution_result }),
            );
            let succeeded = settled_entry(before, position, results, data_costs, Ok(()));
            if position < index {
                &&& failed.consumed_exec_cus == succeeded.consumed_exec_cus
                &&& failed.consumed_acct_data_cus == succeeded.consumed_acct_data_cus
                &&& failed.tips == succeeded.tips
            } else {
                &&& failed.consumed_exec_cus == 0
                &&& failed.consumed_acct_data_cus == 0
                &&& failed.tips == 0
            }
        }),
{
}

/// A bundle of which every transaction has a result leaves nothing of what stood in the
/// outputs before.
pub proof fn law_full_results_overwrite(
    before: BundleEntry,
    other: BundleEntry,
    position: int,
    results: Seq<TransactionProcessingResult>,
    data_costs: Seq<u64>,
    outcome: Result<(), LoadAndExecuteBundleError>,
)
    requires
        0 <= position < results.len(),
    ensures
        settled_entry(before, position, results, data_costs, outcome) == settled_entry(
            other,
            position,
            results,
            data_costs,
            outcome,
        ),
{
}

/// A bundle is committed or reported as failed, never both and never neither, and it is
/// committed exactly when no transaction of it failed.
pub proof fn law_commit_all_or_nothing<Execution>(
    outcome: Result<(), LoadAndExecuteBundleError>,
    execution: Execution,
)
    ensures
        settled_action(outcome, execution) is Commit <==> outcome is Ok,
        settled_action(outcome, execution) == BundleAction::<Execution>::Return(BUNDLE_FAILED)
            <==> outcome is Err,
{
}

/// Each transaction of a bundle that was executed, and before a failure if there is one, is
/// reported with the price of the account data that it loaded, of which the report holds the
/// low 32 bits.
pub proof fn law_bundle_data_is_reported_at_its_price(
    before: BundleEntry,
    results: Seq<TransactionProcessingResult>,
    price: spec_fn(u32) -> u64,
    outcome: Result<(), LoadAndExecuteBundleError>,
    count: nat,
    position: int,
)
    requires
        settles(results, priced(results, price), outcome, count),
        0 <= position < results.len(),
        outcome matches Err(LoadAndExecuteBundleError::TransactionError { index, .. })
            ==> position < index,
    ensures
        results[position] matches Ok(ProcessedTransaction::Executed(tx)) && settled_entry(
            before,
            position,
            results,
            priced(results, price),
            outcome,
        ).consumed_acct_data_cus == price(tx.loaded_accounts_data_size) % 0x1_0000_0000,
{
    assert(reportable_in_bundle(results[position]));
}

/// A transaction that succeeds is reported alike, whether it stands alone or in a bundle.
pub proof fn law_bundle_reports_like_a_single_transaction(
    result: TransactionProcessingResult,
    data_cost: u64,
)
    requires
        result matches Ok(ProcessedTransaction::Executed(tx)) && tx.status is Ok,
    ensures
        ({
            let alone = transaction_report(result, data_cost);
            executed_entry(result, data_cost) == BundleEntry {
                transaction_err: alone.transaction_err,
                consumed_exec_cus: alone.consumed_exec_cus,
                consumed_acct_data_cus: alone.consumed_acct_data_cus,
                tips: alone.tips,
            }
        }),
{
}

/// The transaction that failed a bundle is reported with the code of its very own error: that
/// of its status if it was executed, that for which it was not loaded if it only pays its fee,
/// and otherwise the one that it was refused for. It is the code that the same result would
/// be reported with outside of a bundle.
pub proof fn law_failure_has_the_code_of_its_error(
    before: BundleEntry,
    results: Seq<TransactionProcessingResult>,
    data_costs: Seq<u64>,
    index: usize,
    execution_result: TransactionProcessingResult,
    data_cost: u64,
)
    requires
        !(execution_result matches Ok(ProcessedTransaction::Executed(tx)) && tx.status is Ok),
    ensures
        ({
            let code = settled_entry(
                before,
                index as int,
                results,
                data_costs,
                Err(LoadAndExecuteBundleError::TransactionError { index, execution_result }),
            ).transaction_err;
            &&& match execution_result {
                Ok(ProcessedTransaction::Executed(tx)) => tx.status matches Err(err) && code
                    == error_code(err),
                Ok(ProcessedTransaction::FeesOnly(tx)) => code == error_code(tx.load_error),
                Err(err) => code == error_code(err),
            }
            &&& code == transaction_report(execution_result, data_cost).transaction_err
        }),
{
}

/// A result records a failure exactly if it is not that of an execution with success, and the
/// failure is the error that the result itself holds.
pub proof fn law_cause_is_the_error_of_the_result(result: TransactionProcessingResult)
    ensures
        failure_cause(result) is None <==> (result matches Ok(ProcessedTransaction::Executed(tx))
            && tx.status is Ok),
        result matches Ok(ProcessedTransaction::Executed(tx)) ==> (tx.status matches Err(err)
            ==> failure_cause(result) == Some(err)),
        result matches Ok(ProcessedTransaction::FeesOnly(tx)) ==> failure_cause(result) == Some(
            tx.load_error,
        ),
        result matches Err(err) ==> failure_cause(result) == Some(err),
{
}

/// After a bundle whose transactions all succeeded, the outputs hold at every place with a
/// result a success, exactly the units that the transaction used, the low 32 bits of its
/// price and its tips but for three percent, and elsewhere what they held before.
pub proof fn law_outputs_of_a_committed_bundle(
    old_err: Seq<i32>,
    old_exec: Seq<u32>,
    old_data: Seq<u32>,
    old_tips: Seq<u64>,
    new_err: Seq<i32>,
    new_exec: Seq<u32>,
    new_data: Seq<u32>,
    new_tips: Seq<u64>,
    results: Seq<TransactionProcessingResult>,
    data_costs: Seq<u64>,
    i: int,
)
    requires
        settles(results, data_costs, Ok(()), old_err.len()),
        outputs_hold(
            new_err,
            new_exec,
            new_data,
            new_tips,
            settled_entries(
                entries_of(old_err, old_exec, old_data, old_tips),
                results,
                data_costs,
                Ok(()),
            ),
        ),
        0 <= i < old_err.len(),
    ensures
        new_err.len() == old_err.len(),
        new_exec.len() == old_err.len(),
        new_data.len() == old_err.len(),
        new_tips.len() == old_err.len(),
        if i < results.len() {
            results[i] matches Ok(ProcessedTransaction::Executed(tx)) && {
                &&& new_err[i] == 0
                &&& new_exec[i] == tx.executed_units
                &&& new_data[i] == data_costs[i] % 0x1_0000_0000
                &&& 97 * tx.tips <= 100 * new_tips[i] < 97 * tx.tips + 100
            }
        } else {
            &&& new_err[i] == old_err[i]
            &&& new_exec[i] == old_exec[i]
            &&& new_data[i] == old_data[i]
            &&& new_tips[i] == old_tips[i]
        },
{
    let entries = settled_entries(
        entries_of(old_err, old_exec, old_data, old_tips),
        results,
        data_costs,
        Ok(()),
    );
    assert(new_err[i] == entries[i].transaction_err);
    if i < results.len() {
        assert(reportable_in_bundle(results[i]));
    }
}

/// After a bundle of which the transaction at `index` failed, that place holds the code of the
/// transaction's own error and every other place the code 40. Before it the outputs hold
/// exactly the units that each transaction used, the low 32 bits of its price and its tips
/// but for three percent, or what they held before where there is no result. From it on they
/// hold no units and no tips.
pub proof fn law_outputs_of_a_failed_bundle(
    old_err: Seq<i32>,
    old_exec: Seq<u32>,
    old_data: Seq<u32>,
    old_tips: Seq<u64>,
    new_err: Seq<i32>,
    new_exec: Seq<u32>,
    new_data: Seq<u32>,
    new_tips: Seq<u64>,
    results: Seq<TransactionProcessingResult>,
    data_costs: Seq<u64>,
    index: usize,
    execution_result: TransactionProcessingResult,
    i: int,
)
    requires
        settles(
            results,
            data_costs,
            Err(LoadAndExecuteBundleError::TransactionError { index, execution_result }),
            old_err.len(),
        ),
        outputs_hold(
            new_err,
            new_exec,
            new_data,
            new_tips,
            settled_entries(
                entries_of(old_err, old_exec, old_data, old_tips),
                results,
                data_costs,
                Err(LoadAndExecuteBundleError::TransactionError { index, execution_result }),
            ),
        ),
        0 <= i < old_err.len(),
    ensures
        new_err.len() == old_err.len(),
        new_exec.len() == old_err.len(),
        new_data.len() == old_err.len(),
        new_tips.len() == old_err.len(),
        if i == index {
            match execution_result {
                Ok(ProcessedTransaction::Executed(tx)) => tx.status matches Err(err) && new_err[i]
                    == error_code(err),
                Ok(ProcessedTransaction::FeesOnly(tx)) => new_err[i] == error_code(tx.load_error),
                Err(err) => new_err[i] == error_code(err),
            }
        } else {
            new_err[i] == 40
        },
        if i >= index {
            new_exec[i] == 0 && new_data[i] == 0 && new_tips[i] == 0
        } else if i < results.len() {
            results[i] matches Ok(ProcessedTransaction::Executed(tx)) && {
                &&& new_exec[i] == tx.executed_units
                &&& new_data[i] == data_costs[i] % 0x1_0000_0000
                &&& 97 * tx.tips <= 100 * new_tips[i] < 97 * tx.tips + 100
            }
        } else {
            new_exec[i] == old_exec[i] && new_data[i] == old_data[i] && new_tips[i] == old_tips[i]
        },
{
    let entries = settled_entries(
        entries_of(old_err, old_exec, old_data, old_tips),
        results,
        data_costs,
        Err(LoadAndExecuteBundleError::TransactionError { index, execution_result }),
    );
    assert(new_err[i] == entries[i].transaction_err);
    if i < results.len() {
        assert(reportable_in_bundle(results[i]));
    }
}

/// The outcome of a bundle can be reported exactly if there are no more results than
/// transactions and a price for each, every result is of an execution whose units and tips
/// fit, and a failure is one of a transaction of the bundle that did not succeed.
pub proof fn law_what_can_be_settled(
    results: Seq<TransactionProcessingResult>,
    data_costs: Seq<u64>,
    outcome: Result<(), LoadAndExecuteBundleError>,
    count: nat,
)
    ensures
        settles(results, data_costs, outcome, count) <==> {
            &&& results.len() <= count
            &&& results.len() <= data_costs.len()
            &&& forall|i: int|
                0 <= i < results.len() ==> (#[trigger] results[i] matches Ok(
                    ProcessedTransaction::Executed(tx),
                ) && tx.executed_units <= 0xffff_ffff && 3 * tx.tips <= 0xffff_ffff_ffff_ffff)
            &&& outcome matches Err(
                LoadAndExecuteBundleError::TransactionError { index, execution_result },
            ) ==> index < count && !(execution_result matches Ok(
                ProcessedTransaction::Executed(tx),
            ) && tx.status is Ok)
        },
{
    assert forall|i: int| 0 <= i < results.len() implies reportable_in_bundle(
        #[trigger] results[i],
    ) == (results[i] matches Ok(ProcessedTransaction::Executed(tx)) && tx.executed_units
        <= 0xffff_ffff && 3 * tx.tips <= 0xffff_ffff_ffff_ffff) by {}
}

/// A further batch adds its results after those of the batches before it, all of them and in
/// order, and without batches there are none.
pub proof fn law_batches_follow_one_another(
    batches: Seq<Vec<TransactionProcessingResult>>,
    batch: Vec<TransactionProcessingResult>,
)
    ensures
        flattened(Seq::empty()) == Seq::<TransactionProcessingResult>::empty(),
        flattened(batches.push(batch)) == flattened(batches) + batch@,
{
    let views = |batch: Vec<TransactionProcessingResult>| batch@;
    assert(Seq::<Vec<TransactionProcessingResult>>::empty().map_values(views) =~= Seq::empty());
    assert(batches.push(batch).map_values(views) =~= batches.map_values(views).push(batch@));
    batches.map_values(views).lemma_flatten_push(batch@);
}

/// A commit is one of what the runtime gave, with the transactions numbered from zero, and a
/// failure returns zero without any.
pub proof fn law_commit_starts_at_zero<Execution>(
    outcome: Result<(), LoadAndExecuteBundleError>,
    execution: Execution,
)
    ensures
        match settled_action(outcome, execution) {
            BundleAction::Commit { execution: committed, starting_transaction_index } => {
                &&& outcome is Ok
                &&& committed == execution
                &&& starting_transaction_index == Some(0usize)
            },
            BundleAction::Return(code) => outcome is Err && code == 0,
            _ => false,
        },
        BUNDLE_COMMITTED == 1,
{
}

/// The cause that is found for a failure is the error that the failed result itself holds.
pub proof fn law_found_cause_is_the_error_of_the_result(
    result: &TransactionProcessingResult,
    cause: TransactionError,
)
    requires
        failure_cause(*result) is Some,
        call_ensures(cause_of_failure, (result,), cause),
    ensures
        match *result {
            Ok(ProcessedTransaction::Executed(tx)) => tx.status matches Err(err) && cause == err,
            Ok(ProcessedTransaction::FeesOnly(tx)) => cause == tx.load_error,
            Err(err) => cause == err,
        },
{
}

} // verus!
