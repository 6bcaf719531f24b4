//! What is reported of one processed transaction: how far it got, the code of its
//! failure, the compute units it is charged and the tips it leaves.
#[allow(unused_imports)]
use crate::transaction_error::error_code;
use crate::transaction_error::{transaction_error_to_code, TransactionError, SUCCESS_CODE};
use vstd::prelude::*;

verus! {

/// Set in a processing result when the transaction pays its fee and enters the block.
pub const FD_BANK_TRANSACTION_LANDED: i32 = 1;

/// Set in a processing result when the transaction was executed.
pub const FD_BANK_TRANSACTION_EXECUTED: i32 = 2;

/// Of one hundred parts of the tips, those withheld at the end of the block.
pub const TIP_FEE_PERCENT: u64 = 3;

/// A transaction that was executed, with or without success.
#[derive(Clone, Copy, Debug, PartialEq, Eq)]
pub struct ExecutedTransaction {
    pub status: Result<(), TransactionError>,
    pub executed_units: u64,
    pub loaded_accounts_data_size: u32,
    pub tips: u64,
}

/// A transaction that could not be loaded and pays its fee all the same.
#[derive(Clone, Copy, Debug, PartialEq, Eq)]
pub struct FeesOnlyTransaction {
    pub load_error: TransactionError,
    pub rollback_accounts_data_size: usize,
}

/// A transaction that enters the block.
#[derive(Clone, Copy, Debug, PartialEq, Eq)]
pub enum ProcessedTransaction {
    Executed(ExecutedTransaction),
    FeesOnly(FeesOnlyTransaction),
}

/// The outcome of processing one transaction; an error keeps it out of the block.
pub type TransactionProcessingResult = Result<ProcessedTransaction, TransactionError>;

/// The values reported of one transaction.
#[derive(Clone, Copy, Debug, PartialEq, Eq)]
pub struct TransactionReport {
    pub processing_result: i32,
    pub transaction_err: i32,
    pub consumed_exec_cus: u32,
    pub consumed_acct_data_cus: u32,
    pub tips: u64,
}

/// What is left of the tips once the block's share has been withheld. The share is
/// rounded down.
pub open spec fn net_tips(tips: u64) -> u64 {
    (tips - tips * TIP_FEE_PERCENT / 100) as u64
}

/// The tips whose share can be computed without overflow.
pub open spec fn tips_in_range(tips: u64) -> bool {
    tips * TIP_FEE_PERCENT <= u64::MAX
}

/// The low half of a data cost, which is what a report has room for.
pub open spec fn reported_data_cost(data_cost: u64) -> u32 {
    (data_cost % 0x1_0000_0000) as u32
}

/// The size of the account data that a transaction is charged for, where it enters
/// the block. A size that is rolled back counts modulo 2^32.
pub open spec fn charged_data_size(result: TransactionProcessingResult) -> Option<u32> {
    match result {
        Err(_) => None,
        Ok(ProcessedTransaction::Executed(tx)) => Some(tx.loaded_accounts_data_size),
        Ok(ProcessedTransaction::FeesOnly(tx)) => Some(
            (tx.rollback_accounts_data_size as int % 0x1_0000_0000) as u32,
        ),
    }
}

/// The sizes that a sequence of transactions is charged for.
pub open spec fn charged_data_sizes(results: Seq<TransactionProcessingResult>) -> Seq<
    Option<u32>,
> {
    results.map_values(|result: TransactionProcessingResult| charged_data_size(result))
}

/// The data costs of a sequence of transactions, where a size costs what `price` says and
/// a transaction that is charged for none costs nothing.
pub open spec fn priced(
    results: Seq<TransactionProcessingResult>,
    price: spec_fn(u32) -> u64,
) -> Seq<u64> {
    charged_data_sizes(results).map_values(
        |size: Option<u32>|
            match size {
                Some(size) => price(size),
                None => 0,
            },
    )
}

/// The results whose units and tips fit the report.
pub open spec fn reportable(result: TransactionProcessingResult) -> bool {
    match result {
        Ok(ProcessedTransaction::Executed(tx)) => {
            &&& tx.executed_units <= u32::MAX
            &&& tx.status is Ok ==> tips_in_range(tx.tips)
        },
        _ => true,
    }
}

/// The report on a transaction whose account data costs `data_cost`.
pub open spec fn transaction_report(
    result: TransactionProcessingResult,
    data_cost: u64,
) -> TransactionReport {
    match result {
        Err(err) => TransactionReport {
            processing_result: 0,
            transaction_err: error_code(err),
            consumed_exec_cus: 0,
            consumed_acct_data_cus: 0,
            tips: 0,
        },
        Ok(ProcessedTransaction::Executed(tx)) => TransactionReport {
            processing_result: (FD_BANK_TRANSACTION_LANDED + FD_BANK_TRANSACTION_EXECUTED) as i32,
            transaction_err: match tx.status {
                Ok(_) => SUCCESS_CODE,
                Err(err) => error_code(err),
            },
            consumed_exec_cus: tx.executed_units as u32,
            consumed_acct_data_cus: reported_data_cost(data_cost),
            tips: if tx.status is Ok {
                net_tips(tx.tips)
            } else {
                0
            },
        },
        Ok(ProcessedTransaction::FeesOnly(tx)) => TransactionReport {
            processing_result: FD_BANK_TRANSACTION_LANDED,
            transaction_err: error_code(tx.load_error),
            consumed_exec_cus: 0,
            consumed_acct_data_cus: reported_data_cost(data_cost),
            tips: 0,
        },
    }
}

/// The tips that remain after the block's share of three percent.
pub fn tips_after_fee(tips: u64) -> (net: u64)
    requires
        tips_in_range(tips),
    ensures
        net == net_tips(tips),
        net == tips - tips * 3 / 100,
{
    tips - tips * TIP_FEE_PERCENT / 100
}

/// The part of a data cost that fits a report.
pub fn report_data_cost(data_cost: u64) -> (units: u32)
    ensures
        units == reported_data_cost(data_cost),
        data_cost <= u32::MAX ==> units == data_cost,
{
    assert(data_cost as u32 == data_cost % 0x1_0000_0000) by (bit_vector);
    #[verifier::truncate]
    (data_cost as u32)
}

/// The account data size to be priced for a transaction, if it is charged for any.
pub fn data_size_to_price(result: &TransactionProcessingResult) -> (size: Option<u32>)
    ensures
        size == charged_data_size(*result),
{
    match result {
        Err(_) => None,
        Ok(ProcessedTransaction::Executed(tx)) => Some(tx.loaded_accounts_data_size),
        Ok(ProcessedTransaction::FeesOnly(tx)) => {
            let size: usize = tx.rollback_accounts_data_size;
            assert(size as u32 == size as u64 % 0x1_0000_0000) by (bit_vector);
            Some(
                #[verifier::truncate]
                (size as u32),
            )
        },
    }
}

/// The account data sizes to be priced, one for each transaction.
pub fn data_sizes_to_price(results: &[TransactionProcessingResult]) -> (sizes: Vec<Option<u32>>)
    ensures
        sizes@ == charged_data_sizes(results@),
{
    let mut sizes: Vec<Option<u32>> = Vec::new();
    let mut i: usize = 0;
    while i < results.len()
        invariant
            i <= results@.len(),
            sizes@ == charged_data_sizes(results@.take(i as int)),
        decreases results@.len() - i,
    {
        sizes.push(data_size_to_price(&results[i]));
        i = i + 1;
        assert(sizes@ =~= charged_data_sizes(results@.take(i as int)));
    }
    assert(results@.take(i as int) =~= results@);
    sizes
}

/// Checks that the block's share of the tips can be computed.
pub fn are_tips_in_range(tips: u64) -> (in_range: bool)
    ensures
        in_range == tips_in_range(tips),
{
    tips <= u64::MAX / TIP_FEE_PERCENT
}

/// Checks that the units and tips of a result fit the report.
pub fn is_reportable(result: &TransactionProcessingResult) -> (fits: bool)
    ensures
        fits == reportable(*result),
{
    match result {
        Ok(ProcessedTransaction::Executed(tx)) => tx.executed_units <= u32::MAX as u64 && (
        tx.status.is_err() || are_tips_in_range(tx.tips)),
        _ => true,
    }
}

/// The report on one transaction, given what its account data costs.
pub fn report_transaction(result: &TransactionProcessingResult, data_cost: u64) -> (report:
    TransactionReport)
    requires
        reportable(*result),
    ensures
        report == transaction_report(*result, data_cost),
{
    match result {
        Err(err) => TransactionReport {
            processing_result: 0,
            transaction_err: transaction_error_to_code(err),
            consumed_exec_cus: 0,
            consumed_acct_data_cus: 0,
            tips: 0,
        },
        Ok(ProcessedTransaction::Executed(tx)) => {
            assert(1i32 | 2i32 == 3i32) by (bit_vector);
            TransactionReport {
                processing_result: FD_BANK_TRANSACTION_LANDED | FD_BANK_TRANSACTION_EXECUTED,
                transaction_err: match &tx.status {
                    Ok(_) => SUCCESS_CODE,
                    Err(err) => transaction_error_to_code(err),
                },
                consumed_exec_cus: tx.executed_units as u32,
                consumed_acct_data_cus: report_data_cost(data_cost),
                tips: match &tx.status {
                    Ok(_) => tips_after_fee(tx.tips),
                    Err(_) => 0,
                },
            }
        },
        Ok(ProcessedTransaction::FeesOnly(tx)) => TransactionReport {
            processing_result: FD_BANK_TRANSACTION_LANDED,
            transaction_err: transaction_error_to_code(&tx.load_error),
            consumed_exec_cus: 0,
            consumed_acct_data_cus: report_data_cost(data_cost),
            tips: 0,
        },
    }
}

/// The two flags of a processing result say, each on its own, whether the transaction
/// enters the block and whether it was executed.
pub proof fn law_flags_tell_progress(result: TransactionProcessingResult, data_cost: u64)
    ensures
        ({
            let flags = transaction_report(result, data_cost).processing_result;
            &&& flags & FD_BANK_TRANSACTION_LANDED != 0 <==> result is Ok
            &&& flags & FD_BANK_TRANSACTION_EXECUTED != 0 <==> result matches Ok(
                ProcessedTransaction::Executed(_),
            )
        }),
{
    assert(0i32 & 1i32 == 0 && 0i32 & 2i32 == 0) by (bit_vector);
    assert(1i32 & 1i32 != 0 && 1i32 & 2i32 == 0) by (bit_vector);
    assert(3i32 & 1i32 != 0 && 3i32 & 2i32 != 0) by (bit_vector);
}

/// A report carries the success code exactly for a transaction that was executed
/// without failure, and no other transaction leaves tips.
pub proof fn law_only_success_leaves_tips(result: TransactionProcessingResult, data_cost: u64)
    ensures
        ({
            let report = transaction_report(result, data_cost);
            let succeeded = result matches Ok(ProcessedTransaction::Executed(tx))
                && tx.status is Ok;
            &&& report.transaction_err == SUCCESS_CODE <==> succeeded
            &&& !succeeded ==> report.tips == 0
        }),
{
}

/// The share withheld from the tips is three percent, short of it by less than one
/// unit, and never touches a tip below 34.
pub proof fn law_tip_share(tips: u64)
    requires
        tips_in_range(tips),
    ensures
        net_tips(tips) <= tips,
        97 * tips <= 100 * net_tips(tips) < 97 * tips + 100,
        net_tips(tips) == tips <==> tips < 34,
{
}

/// Higher tips never leave less.
pub proof fn law_net_tips_monotone(lower: u64, higher: u64)
    requires
        tips_in_range(higher),
        lower <= higher,
    ensures
        net_tips(lower) <= net_tips(higher),
{
}

/// An executed transaction is reported as landed and executed, with exactly the units that it
/// used and the low 32 bits of what its account data costs, whether it succeeded or not. A
/// success has code zero and leaves its tips but for three percent, rounded down; a failure
/// has the code of its own error and leaves none.
pub proof fn law_report_of_executed(tx: ExecutedTransaction, data_cost: u64)
    requires
        tx.executed_units <= u32::MAX,
        tx.status is Ok ==> 3 * tx.tips <= u64::MAX,
    ensures
        ({
            let report = transaction_report(Ok(ProcessedTransaction::Executed(tx)), data_cost);
            &&& report.processing_result == 3
            &&& report.consumed_exec_cus == tx.executed_units
            &&& report.consumed_acct_data_cus == data_cost % 0x1_0000_0000
            &&& match tx.status {
                Ok(_) => {
                    &&& report.transaction_err == 0
                    &&& 97 * tx.tips <= 100 * report.tips < 97 * tx.tips + 100
                },
                Err(err) => {
                    &&& report.transaction_err == error_code(err)
                    &&& report.tips == 0
                },
            }
        }),
{
}

/// A transaction that only pays its fee is reported as landed, with the code of the error for
/// which it was not loaded and the low 32 bits of what its account data costs, but with no
/// units executed and no tips.
pub proof fn law_report_of_fees_only(tx: FeesOnlyTransaction, data_cost: u64)
    ensures
        ({
            let report = transaction_report(Ok(ProcessedTransaction::FeesOnly(tx)), data_cost);
            &&& report.processing_result == 1
            &&& report.transaction_err == error_code(tx.load_error)
            &&& report.consumed_exec_cus == 0
            &&& report.consumed_acct_data_cus == data_cost % 0x1_0000_0000
            &&& report.tips == 0
        }),
{
}

/// A transaction that stays out of the block is reported with the code of its error and with
/// nothing charged, whatever price is given.
pub proof fn law_report_of_refused(err: TransactionError, data_cost: u64)
    ensures
        ({
            let report = transaction_report(Err(err), data_cost);
            &&& report.processing_result == 0
            &&& report.transaction_err == error_code(err)
            &&& report.consumed_exec_cus == 0
            &&& report.consumed_acct_data_cus == 0
            &&& report.tips == 0
        }),
{
}

/// Each transaction of a sequence is charged for its own account data: an executed one for
/// what it loaded, one that only pays its fee for the low 32 bits of what is rolled back, and
/// one that stays out of the block for none.
pub proof fn law_each_is_charged_for_its_data(results: Seq<TransactionProcessingResult>, i: int)
    requires
        0 <= i < results.len(),
    ensures
        charged_data_sizes(results).len() == results.len(),
        match results[i] {
            Ok(ProcessedTransaction::Executed(tx)) => charged_data_sizes(results)[i] == Some(
                tx.loaded_accounts_data_size,
            ),
            Ok(ProcessedTransaction::FeesOnly(tx)) => charged_data_sizes(results)[i] matches Some(
                size,
            ) && size == tx.rollback_accounts_data_size as int % 0x1_0000_0000,
            Err(_) => charged_data_sizes(results)[i] is None,
        },
        charged_data_sizes(results)[i] == charged_data_size(results[i]),
{
}

/// A price that fits the report is reported as it is, and prices that differ by a multiple of
/// 2^32 are reported alike.
pub proof fn law_reported_cost(data_cost: u64)
    ensures
        data_cost <= u32::MAX ==> reported_data_cost(data_cost) == data_cost,
        (data_cost - reported_data_cost(data_cost)) % 0x1_0000_0000 == 0,
{
}

/// All results can be reported on but those of an execution that used more units than 32 bits
/// hold, or that succeeded with tips of which three times as much is beyond 64 bits.
pub proof fn law_what_can_be_reported(result: TransactionProcessingResult)
    ensures
        !reportable(result) <==> (result matches Ok(ProcessedTransaction::Executed(tx)) && (
        tx.executed_units > 0xffff_ffff || (tx.status is Ok && 3 * tx.tips
            > 0xffff_ffff_ffff_ffff))),
{
}

/// Tips are in range up to a third of the largest number.
pub proof fn law_tips_in_range(tips: u64)
    ensures
        tips_in_range(tips) <==> tips <= 0x5555_5555_5555_5555,
{
}

/// Tips that were received are either kept or withheld: a hundred times what is withheld is
/// three times the tips, short of it by less than a hundred.
pub proof fn law_tips_are_kept_or_withheld(tips: u64, net: u64)
    requires
        tips_in_range(tips),
        call_ensures(tips_after_fee, (tips,), net),
    ensures
        net <= tips,
        3 * tips - 100 < 100 * (tips - net) <= 3 * tips,
{
}

/// What an executed transaction is reported with is what it used: a report on it has exactly
/// its units.
pub proof fn law_reported_units_are_executed_units(
    result: &TransactionProcessingResult,
    data_cost: u64,
    report: TransactionReport,
)
    requires
        reportable(*result),
        call_ensures(report_transaction, (result, data_cost), report),
    ensures
        *result matches Ok(ProcessedTransaction::Executed(tx)) ==> report.consumed_exec_cus
            == tx.executed_units,
        !(*result matches Ok(ProcessedTransaction::Executed(_))) ==> report.consumed_exec_cus == 0,
{
}

} // verus!
