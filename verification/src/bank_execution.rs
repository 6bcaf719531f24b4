//! Loading and executing independent transactions, and reporting on each of them.
#[allow(unused_imports)]
use crate::processing::{
    charged_data_size, charged_data_sizes, law_report_of_executed, law_report_of_fees_only,
    law_report_of_refused, law_what_can_be_reported, priced, reportable, transaction_report,
    ProcessedTransaction,
};
#[allow(unused_imports)]
use crate::transaction_error::error_code;
use crate::processing::{
    data_sizes_to_price, is_reportable, report_transaction, TransactionProcessingResult,
    TransactionReport,
};
use crate::request::{ClusterType, LoadAndExecuteRequest};
use vstd::prelude::*;

verus! {

/// When the stages of an execution ended. A stage that was not reached is at zero.
#[derive(Clone, Copy, Debug, PartialEq, Eq)]
pub struct ExecutionTimestamps {
    pub tx_start: u64,
    pub tx_load_end: u64,
    pub tx_end: u64,
    pub tx_preload_end: u64,
}

/// What happens while transactions are loaded and executed.
pub enum LoadAndExecuteEvent<Budget, Output> {
    /// The transactions arrived.
    Start {
        cluster: ClusterType,
        check_program_modification_slot: bool,
        compute_budget: Budget,
        transaction_status_sender_enabled: bool,
    },
    /// The runtime processed them.
    Processed { processing_results: Vec<TransactionProcessingResult> },
    /// The account data sizes that they are charged for were priced. All that the runtime
    /// gave is kept for their commit.
    Priced {
        processing_results: Vec<TransactionProcessingResult>,
        data_costs: Vec<u64>,
        timestamps: ExecutionTimestamps,
        output: Output,
    },
}

/// What is to be done next.
pub enum LoadAndExecuteAction<Budget, Output> {
    Execute(LoadAndExecuteRequest<Budget>),
    Price(Vec<Option<u32>>),
    Return(Output),
}

/// Four timestamps for each of `count` transactions, in the order start, end of load,
/// end, end of preload.
pub open spec fn timestamp_rows(timestamps: ExecutionTimestamps, count: nat) -> Seq<u64> {
    Seq::new(
        4 * count,
        |i: int|
            if i % 4 == 0 {
                timestamps.tx_start
            } else if i % 4 == 1 {
                timestamps.tx_load_end
            } else if i % 4 == 2 {
                timestamps.tx_end
            } else {
                timestamps.tx_preload_end
            },
    )
}

/// The reports on the first `count` transactions.
pub open spec fn transaction_reports(
    results: Seq<TransactionProcessingResult>,
    data_costs: Seq<u64>,
    count: nat,
) -> Seq<TransactionReport> {
    Seq::new(
        count,
        |i: int| transaction_report(results[i], data_costs[i]),
    )
}

/// Whether the outputs hold the given reports.
pub open spec fn outputs_hold(
    processing_result: Seq<i32>,
    transaction_err: Seq<i32>,
    consumed_exec_cus: Seq<u32>,
    consumed_acct_data_cus: Seq<u32>,
    tips: Seq<u64>,
    reports: Seq<TransactionReport>,
) -> bool {
    &&& processing_result =~= reports.map_values(
        |report: TransactionReport| report.processing_result,
    )
    &&& transaction_err =~= reports.map_values(|report: TransactionReport| report.transaction_err)
    &&& consumed_exec_cus =~= reports.map_values(
        |report: TransactionReport| report.consumed_exec_cus,
    )
    &&& consumed_acct_data_cus =~= reports.map_values(
        |report: TransactionReport| report.consumed_acct_data_cus,
    )
    &&& tips =~= reports.map_values(|report: TransactionReport| report.tips)
}

/// Whether there is a result that fits its report, and a price, for each of the first
/// `count` transactions.
pub open spec fn covers(
    results: Seq<TransactionProcessingResult>,
    data_costs: Seq<u64>,
    count: nat,
) -> bool {
    &&& results.len() >= count
    &&& data_costs.len() >= count
    &&& forall|i: int| 0 <= i < count ==> reportable(#[trigger] results[i])
}

/// Checks that the first `count` transactions can be reported on.
pub fn can_report(
    processing_results: &[TransactionProcessingResult],
    data_costs: &[u64],
    count: usize,
) -> (possible: bool)
    ensures
        possible == covers(processing_results@, data_costs@, count as nat),
{
    if processing_results.len() < count || data_costs.len() < count {
        return false;
    }
    let mut i: usize = 0;
    while i < count
        invariant
            i <= count <= processing_results@.len(),
            forall|j: int|
                0 <= j < i ==> reportable(#[trigger] processing_results@[j]),
        decreases count - i,
    {
        if !is_reportable(&processing_results[i]) {
            assert(!reportable(processing_results@[i as int]));
            return false;
        }
        i = i + 1;
    }
    true
}

/// Writes the timestamps of the execution to every transaction.
pub fn write_timestamps(timestamps: ExecutionTimestamps, out_timestamps: &mut [u64])
    requires
        old(out_timestamps)@.len() % 4 == 0,
    ensures
        final(out_timestamps)@ == timestamp_rows(
            timestamps,
            (old(out_timestamps)@.len() / 4) as nat,
        ),
{
    let count: usize = out_timestamps.len() / 4;
    let mut i: usize = 0;
    while i < count
        invariant
            i <= count,
            4 * count <= usize::MAX,
            out_timestamps@.len() == 4 * count,
            out_timestamps@.len() == old(out_timestamps)@.len(),
            forall|j: int|
                0 <= j < 4 * i ==> out_timestamps@[j] == timestamp_rows(
                    timestamps,
                    count as nat,
                )[j],
        decreases count - i,
    {
        out_timestamps[4 * i] = timestamps.tx_start;
        out_timestamps[4 * i + 1] = timestamps.tx_load_end;
        out_timestamps[4 * i + 2] = timestamps.tx_end;
        out_timestamps[4 * i + 3] = timestamps.tx_preload_end;
        i = i + 1;
    }
    assert(out_timestamps@ =~= timestamp_rows(timestamps, count as nat));
}

/// Writes the report on each transaction, one value to each of the five outputs.
pub fn write_reports(
    processing_results: &[TransactionProcessingResult],
    data_costs: &[u64],
    out_processing_result: &mut [i32],
    out_transaction_err: &mut [i32],
    out_consumed_exec_cus: &mut [u32],
    out_consumed_acct_data_cus: &mut [u32],
    out_tips: &mut [u64],
)
    requires
        covers(processing_results@, data_costs@, old(out_processing_result)@.len()),
        old(out_transaction_err)@.len() == old(out_processing_result)@.len(),
        old(out_consumed_exec_cus)@.len() == old(out_processing_result)@.len(),
        old(out_consumed_acct_data_cus)@.len() == old(out_processing_result)@.len(),
        old(out_tips)@.len() == old(out_processing_result)@.len(),
    ensures
        outputs_hold(
            final(out_processing_result)@,
            final(out_transaction_err)@,
            final(out_consumed_exec_cus)@,
            final(out_consumed_acct_data_cus)@,
            final(out_tips)@,
            transaction_reports(
                processing_results@,
                data_costs@,
                old(out_processing_result)@.len(),
            ),
        ),
{
    let count: usize = out_processing_result.len();
    let ghost reports = transaction_reports(processing_results@, data_costs@, count as nat);
    let mut i: usize = 0;
    while i < count
        invariant
            i <= count,
            covers(processing_results@, data_costs@, count as nat),
            reports == transaction_reports(processing_results@, data_costs@, count as nat),
            out_processing_result@.len() == count,
            out_transaction_err@.len() == count,
            out_consumed_exec_cus@.len() == count,
            out_consumed_acct_data_cus@.len() == count,
            out_tips@.len() == count,
            forall|j: int|
                0 <= j < i ==> {
                    &&& out_processing_result@[j] == reports[j].processing_result
                    &&& out_transaction_err@[j] == reports[j].transaction_err
                    &&& out_consumed_exec_cus@[j] == reports[j].consumed_exec_cus
                    &&& out_consumed_acct_data_cus@[j] == reports[j].consumed_acct_data_cus
                    &&& out_tips@[j] == (#[trigger] reports[j]).tips
                },
        decreases count - i,
    {
        let report = report_transaction(&processing_results[i], data_costs[i]);
        assert(report == reports[i as int]);
        out_processing_result[i] = report.processing_result;
        out_transaction_err[i] = report.transaction_err;
        out_consumed_exec_cus[i] = report.consumed_exec_cus;
        out_consumed_acct_data_cus[i] = report.consumed_acct_data_cus;
        out_tips[i] = report.tips;
        i = i + 1;
    }
}

/// Decides what follows an event in the processing of transactions, one for each place
/// in the outputs. On arrival the runtime is asked to load and execute them; once it has,
/// the account data that they are charged for is to be priced; and with the prices known
/// the outputs are filled and what the runtime gave is returned as it is.
pub fn fd_ext_bank_load_and_execute_txns<Budget, Output>(
    event: LoadAndExecuteEvent<Budget, Output>,
    out_processing_result: &mut [i32],
    out_transaction_err: &mut [i32],
    out_consumed_exec_cus: &mut [u32],
    out_consumed_acct_data_cus: &mut [u32],
    out_timestamps: &mut [u64],
    out_tips: &mut [u64],
) -> (action: LoadAndExecuteAction<Budget, Output>)
    requires
        old(out_transaction_err)@.len() == old(out_processing_result)@.len(),
        old(out_consumed_exec_cus)@.len() == old(out_processing_result)@.len(),
        old(out_consumed_acct_data_cus)@.len() == old(out_processing_result)@.len(),
        old(out_tips)@.len() == old(out_processing_result)@.len(),
        old(out_timestamps)@.len() == 4 * old(out_processing_result)@.len(),
        event matches LoadAndExecuteEvent::Priced { processing_results, data_costs, .. }
            ==> covers(processing_results@, data_costs@, old(out_processing_result)@.len()),
    ensures
        match event {
            LoadAndExecuteEvent::Start {
                cluster,
                check_program_modification_slot,
                compute_budget,
                transaction_status_sender_enabled,
            } => {
                &&& action matches LoadAndExecuteAction::Execute(request) && request.is_for(
                    old(out_processing_result)@.len(),
                    cluster,
                    check_program_modification_slot,
                    compute_budget,
                    transaction_status_sender_enabled,
                )
                &&& final(out_processing_result)@ == old(out_processing_result)@
                &&& final(out_transaction_err)@ == old(out_transaction_err)@
                &&& final(out_consumed_exec_cus)@ == old(out_consumed_exec_cus)@
                &&& final(out_consumed_acct_data_cus)@ == old(out_consumed_acct_data_cus)@
                &&& final(out_timestamps)@ == old(out_timestamps)@
                &&& final(out_tips)@ == old(out_tips)@
            },
            LoadAndExecuteEvent::Processed { processing_results } => {
                &&& action matches LoadAndExecuteAction::Price(sizes) && sizes@
                    == charged_data_sizes(processing_results@)
                &&& final(out_processing_result)@ == old(out_processing_result)@
                &&& final(out_transaction_err)@ == old(out_transaction_err)@
                &&& final(out_consumed_exec_cus)@ == old(out_consumed_exec_cus)@
                &&& final(out_consumed_acct_data_cus)@ == old(out_consumed_acct_data_cus)@
                &&& final(out_timestamps)@ == old(out_timestamps)@
                &&& final(out_tips)@ == old(out_tips)@
            },
            LoadAndExecuteEvent::Priced { processing_results, data_costs, timestamps, output } => {
                let count = old(out_processing_result)@.len();
                &&& action == LoadAndExecuteAction::<Budget, Output>::Return(output)
                &&& outputs_hold(
                    final(out_processing_result)@,
                    final(out_transaction_err)@,
                    final(out_consumed_exec_cus)@,
                    final(out_consumed_acct_data_cus)@,
                    final(out_tips)@,
                    transaction_reports(processing_results@, data_costs@, count),
                )
                &&& final(out_timestamps)@ == timestamp_rows(timestamps, count)
            },
        },
{
    match event {
        LoadAndExecuteEvent::Start {
            cluster,
            check_program_modification_slot,
            compute_budget,
            transaction_status_sender_enabled,
        } => LoadAndExecuteAction::Execute(
            LoadAndExecuteRequest::new(
                out_processing_result.len(),
                cluster,
                check_program_modification_slot,
                compute_budget,
                transaction_status_sender_enabled,
            ),
        ),
        LoadAndExecuteEvent::Processed { processing_results } => LoadAndExecuteAction::Price(
            data_sizes_to_price(processing_results.as_slice()),
        ),
        LoadAndExecuteEvent::Priced { processing_results, data_costs, timestamps, output } => {
            write_timestamps(timestamps, out_timestamps);
            write_reports(
                processing_results.as_slice(),
                data_costs.as_slice(),
                out_processing_result,
                out_transaction_err,
                out_consumed_exec_cus,
                out_consumed_acct_data_cus,
                out_tips,
            );
            LoadAndExecuteAction::Return(output)
        },
    }
}

/// Every transaction is given the same four timestamps, those of the whole execution, next
/// to one another and in the same order.
pub proof fn law_transactions_share_timestamps(
    timestamps: ExecutionTimestamps,
    count: nat,
    position: int,
)
    requires
        0 <= position < count,
    ensures
        timestamp_rows(timestamps, count).len() == 4 * count,
        timestamp_rows(timestamps, count).subrange(4 * position, 4 * position + 4) == seq![
            timestamps.tx_start,
            timestamps.tx_load_end,
            timestamps.tx_end,
            timestamps.tx_preload_end,
        ],
{
    assert(timestamp_rows(timestamps, count).subrange(4 * position, 4 * position + 4) =~= seq![
        timestamps.tx_start,
        timestamps.tx_load_end,
        timestamps.tx_end,
        timestamps.tx_preload_end,
    ]);
}

/// Each transaction is reported with the price of the account data that it is charged for, of
/// which the report holds the low 32 bits, and with none if it does not enter the block.
pub proof fn law_data_is_reported_at_its_price(
    results: Seq<TransactionProcessingResult>,
    price: spec_fn(u32) -> u64,
    count: nat,
    position: int,
)
    requires
        0 <= position < count <= results.len(),
    ensures
        transaction_reports(results, priced(results, price), count)[position].consumed_acct_data_cus
            == match charged_data_size(results[position]) {
            Some(size) => price(size) % 0x1_0000_0000,
            None => 0,
        },
{
}

/// The outputs hold one value for each transaction, and at every place what is to be reported
/// of the transaction there: how far it got, the code of its own error, exactly the units that
/// it used, the low 32 bits of its price, and its tips but for three percent.
pub proof fn law_outputs_report_each_transaction(
    processing_result: Seq<i32>,
    transaction_err: Seq<i32>,
    consumed_exec_cus: Seq<u32>,
    consumed_acct_data_cus: Seq<u32>,
    tips: Seq<u64>,
    results: Seq<TransactionProcessingResult>,
    data_costs: Seq<u64>,
    count: nat,
    i: int,
)
    requires
        covers(results, data_costs, count),
        outputs_hold(
            processing_result,
            transaction_err,
            consumed_exec_cus,
            consumed_acct_data_cus,
            tips,
            transaction_reports(results, data_costs, count),
        ),
        0 <= i < count,
    ensures
        processing_result.len() == count,
        transaction_err.len() == count,
        consumed_exec_cus.len() == count,
        consumed_acct_data_cus.len() == count,
        tips.len() == count,
        match results[i] {
            Ok(ProcessedTransaction::Executed(tx)) => {
                &&& processing_result[i] == 3
                &&& consumed_exec_cus[i] == tx.executed_units
                &&& consumed_acct_data_cus[i] == data_costs[i] % 0x1_0000_0000
                &&& match tx.status {
                    Ok(_) => transaction_err[i] == 0 && 97 * tx.tips <= 100 * tips[i] < 97 * tx.tips
                        + 100,
                    Err(err) => transaction_err[i] == error_code(err) && tips[i] == 0,
                }
            },
            Ok(ProcessedTransaction::FeesOnly(tx)) => {
                &&& processing_result[i] == 1
                &&& transaction_err[i] == error_code(tx.load_error)
                &&& consumed_exec_cus[i] == 0
                &&& consumed_acct_data_cus[i] == data_costs[i] % 0x1_0000_0000
                &&& tips[i] == 0
            },
            Err(err) => {
                &&& processing_result[i] == 0
                &&& transaction_err[i] == error_code(err)
                &&& consumed_exec_cus[i] == 0
                &&& consumed_acct_data_cus[i] == 0
                &&& tips[i] == 0
            },
        },
{
    assert(reportable(results[i]));
    assert(transaction_reports(results, data_costs, count)[i] == transaction_report(
        results[i],
        data_costs[i],
    ));
    match results[i] {
        Ok(ProcessedTransaction::Executed(tx)) => law_report_of_executed(tx, data_costs[i]),
        Ok(ProcessedTransaction::FeesOnly(tx)) => law_report_of_fees_only(tx, data_costs[i]),
        Err(err) => law_report_of_refused(err, data_costs[i]),
    }
}

/// Transactions can be reported on exactly if there is a result and a price for each, and no
/// execution among them used more units than 32 bits hold, or succeeded with tips of which
/// three times as much is beyond 64 bits.
pub proof fn law_what_is_covered(
    results: Seq<TransactionProcessingResult>,
    data_costs: Seq<u64>,
    count: nat,
)
    ensures
        covers(results, data_costs, count) <==> (results.len() >= count && data_costs.len() >= count
            && forall|i: int|
            0 <= i < count ==> (#[trigger] results[i] matches Ok(
                ProcessedTransaction::Executed(tx),
            ) ==> tx.executed_units <= 0xffff_ffff && (tx.status is Ok ==> 3 * tx.tips
                <= 0xffff_ffff_ffff_ffff))),
{
    assert forall|i: int| 0 <= i < count implies reportable(#[trigger] results[i]) == (
    results[i] matches Ok(ProcessedTransaction::Executed(tx)) ==> tx.executed_units <= 0xffff_ffff
        && (tx.status is Ok ==> 3 * tx.tips <= 0xffff_ffff_ffff_ffff)) by {
        law_what_can_be_reported(results[i]);
    }
}

} // verus!
