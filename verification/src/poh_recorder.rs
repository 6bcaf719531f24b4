//! The recorder of proof of history: what the clock of the chain is told, and how its
//! answers are read.
#[allow(unused_imports)]
use crate::features::{
    activated_slots_of, activation_slots_of, active_features, disable_turbine_fanout_experiments,
    drop_unchained_merkle_shreds, enable_turbine_extended_fanout_experiments,
    enable_vote_address_leader_schedule, law_activation_slots_are_kept,
    law_features_are_looked_up_in_order,
};
use crate::features::{
    activated_slots, activation_slots, FD_POH_RECORDER_FEATURES_OF_INTEREST_CNT,
};
use crate::request::Pubkey;
use agave_feature_set::FeatureSet;
use crossbeam_channel::{Sender, TrySendError};
use std::sync::atomic::AtomicBool;
use std::sync::Arc;
use vstd::prelude::*;

verus! {

/// The number of hashes in a tick where none is configured.
pub const DEFAULT_HASHES_PER_TICK: u64 = 1;

/// A point in time at which a leader may produce a block.
pub type Slot = u64;

/// The digest of a ledger entry or of a block.
pub type Hash = [u8; 32];

/// Declares `crossbeam_channel::Sender`.
#[verifier::external_type_specification]
#[verifier::external_body]
#[verifier::reject_recursive_types(T)]
pub struct ExSender<T>(Sender<T>);

/// The pace of the clock: how long a tick takes, and how many hashes are to fill it.
#[derive(Clone, Copy, Debug, PartialEq, Eq)]
pub struct PohConfig {
    pub target_tick_duration_nanos: u128,
    pub hashes_per_tick: Option<u64>,
}

/// A bank that is held elsewhere, by its address.
#[derive(Clone, Copy, Debug, PartialEq, Eq)]
pub struct BankHandle {
    pub address: usize,
}

/// A bank that blocks are produced on, and since when.
pub struct BankStart {
    pub working_bank: BankHandle,
    pub bank_creation_time_nanos: u64,
}

/// Whether a block is in production.
#[derive(Clone, Copy, Debug, PartialEq, Eq)]
pub enum LeaderBankStatus {
    StandBy,
    InProgress,
}

/// Announces the bank that blocks are produced on.
#[derive(Debug)]
pub struct LeaderBankNotifier {
    pub status: LeaderBankStatus,
    pub bank: Option<BankHandle>,
    pub current_slot: Option<Slot>,
}

/// Whether the slot of a leader has come, and the slot of the block to build on.
#[derive(Clone, Copy, Debug, PartialEq, Eq)]
pub enum PohLeaderStatus {
    NotReached,
    Reached { poh_slot: Slot, parent_slot: Slot },
}

/// What a bank that starts production says of itself.
#[derive(Clone, Copy, Debug, PartialEq, Eq)]
pub struct LeaderBank {
    pub slot: Slot,
    pub epoch: u64,
    pub hashes_per_tick: Option<u64>,
    pub block_limit: u64,
}

/// The most compute units that a block may spend on votes and on writing one account.
#[derive(Clone, Copy, Debug, PartialEq, Eq)]
pub struct BlockCostLimits {
    pub max_vote_units: u64,
    pub max_writable_account_units: u64,
}

/// What a bank that the clock starts over from says of itself.
#[derive(Clone, Copy, Debug, PartialEq, Eq)]
pub struct ResetBank {
    pub slot: Slot,
    pub last_blockhash: Hash,
    pub hashes_per_tick: Option<u64>,
    pub block_id: Option<Hash>,
}

/// How the clock is set up.
pub struct PohInitialize {
    pub tick_duration_nanos: u64,
    pub hashcnt_per_tick: u64,
    pub ticks_per_slot: u64,
    pub tick_height: u64,
    pub last_entry_hash: Hash,
    pub signal_leader_change: Option<Sender<bool>>,
}

/// The question who leads after some slots, with the place for the answer.
#[derive(Clone, Copy, Debug, PartialEq, Eq)]
pub struct LeaderQuery {
    pub n: u64,
    pub out_pubkey: Pubkey,
}

/// How the clock is told that a bank starts production.
#[derive(Clone, Copy, Debug, PartialEq, Eq)]
pub struct PohBeginLeader {
    pub slot: Slot,
    pub epoch: u64,
    pub hashcnt_per_tick: u64,
    pub cus_block_limit: u64,
    pub cus_vote_cost_limit: u64,
    pub cus_account_cost_limit: u64,
}

/// How the clock is told to start over.
#[derive(Clone, Copy, Debug, PartialEq, Eq)]
pub struct PohReset {
    pub reset_bank_slot: Slot,
    pub reset_blockhash: Hash,
    pub hashcnt_per_tick: u64,
    pub block_id: Option<Hash>,
    pub features_activation_slot: [u64; FD_POH_RECORDER_FEATURES_OF_INTEREST_CNT],
}

/// What came of an attempt to send a message.
#[derive(Clone, Copy, Debug, PartialEq, Eq)]
pub enum SendOutcome {
    Sent,
    /// There was no room; the message is handed back.
    Full(bool),
    /// Nobody receives any more; the message is handed back.
    Disconnected(bool),
}

/// The recorder of proof of history.
pub struct PohRecorder {
    pub is_exited: Arc<AtomicBool>,
}

/// The number of hashes in a tick.
pub open spec fn hashcnt_per_tick(hashes_per_tick: Option<u64>) -> u64 {
    match hashes_per_tick {
        Some(hashes) => hashes,
        None => DEFAULT_HASHES_PER_TICK,
    }
}

/// How the clock is set up for a recorder.
pub open spec fn initialization(
    tick_height: u64,
    last_entry_hash: Hash,
    ticks_per_slot: u64,
    clear_bank_signal: Option<Sender<bool>>,
    poh_config: PohConfig,
) -> PohInitialize {
    PohInitialize {
        tick_duration_nanos: poh_config.target_tick_duration_nanos as u64,
        hashcnt_per_tick: hashcnt_per_tick(poh_config.hashes_per_tick),
        ticks_per_slot,
        tick_height,
        last_entry_hash,
        signal_leader_change: clear_bank_signal,
    }
}

/// The largest of the slots, or zero if there are none.
pub open spec fn latest_slot(slots: Seq<Slot>) -> Slot
    decreases slots.len(),
{
    if slots.len() == 0 {
        0
    } else if slots.last() >= latest_slot(slots.drop_last()) {
        slots.last()
    } else {
        latest_slot(slots.drop_last())
    }
}

/// The bank that an address stands for; the null address stands for none.
pub open spec fn acquired_bank(acquired: usize) -> Option<BankHandle> {
    if acquired == 0 {
        None
    } else {
        Some(BankHandle { address: acquired })
    }
}

/// The slot before a given one.
pub open spec fn preceding_slot(slot: Slot) -> Slot {
    (slot - 1) as u64
}

/// The status that the clock's answer stands for.
pub open spec fn leader_status(is_leader: i32, leader_slot: Slot, reset_slot: Slot) -> PohLeaderStatus {
    if is_leader != 0 {
        PohLeaderStatus::Reached {
            poh_slot: leader_slot,
            parent_slot: preceding_slot(reset_slot),
        }
    } else {
        PohLeaderStatus::NotReached
    }
}

impl PohReset {
    /// The message for starting over from a bank, given the slots in which the features of
    /// interest became active.
    pub open spec fn is_for(self, bank: ResetBank, activated_slots: Seq<Option<u64>>) -> bool {
        &&& self.reset_bank_slot == bank.slot
        &&& self.reset_blockhash == bank.last_blockhash
        &&& self.hashcnt_per_tick == hashcnt_per_tick(bank.hashes_per_tick)
        &&& self.block_id == bank.block_id
        &&& self.features_activation_slot@ == activation_slots_of(activated_slots)
    }
}

impl Default for LeaderBankNotifier {
    fn default() -> (notifier: Self)
        ensures
            notifier.status is StandBy,
            notifier.bank is None,
            notifier.current_slot is None,
    {
        LeaderBankNotifier { status: LeaderBankStatus::StandBy, bank: None, current_slot: None }
    }
}

/// Calls `crossbeam_channel::Sender::try_send`. Whether the message is taken depends on the
/// channel; where it is not, it is handed back.
#[verifier::external_body]
fn try_send(sender: &Sender<bool>, message: bool) -> (outcome: SendOutcome)
    ensures
        outcome matches SendOutcome::Full(returned) ==> returned == message,
        outcome matches SendOutcome::Disconnected(returned) ==> returned == message,
{
    match sender.try_send(message) {
        Ok(()) => SendOutcome::Sent,
        Err(TrySendError::Full(message)) => SendOutcome::Full(message),
        Err(TrySendError::Disconnected(message)) => SendOutcome::Disconnected(message),
    }
}

/// Whether an outcome is one that an attempt to send the message on the channel may have.
pub closed spec fn outcome_of_sending(
    sender: Sender<bool>,
    message: bool,
    outcome: SendOutcome,
) -> bool {
    call_ensures(try_send, (&sender, message), outcome)
}

/// A change of leader counts as signalled when the signal was taken and also when an
/// earlier one is still waiting. It fails only where nobody receives it, and then hands the
/// signal back.
pub open spec fn signalled(outcome: SendOutcome) -> Result<(), bool> {
    match outcome {
        SendOutcome::Sent | SendOutcome::Full(_) => Ok(()),
        SendOutcome::Disconnected(returned) => Err(returned),
    }
}

/// Whether a result is one of signalling a change of leader: without anybody to signal to
/// it is a success, and otherwise it is read from what came of sending `true`.
pub open spec fn signals(sender: Option<&Sender<bool>>, result: Result<(), bool>) -> bool {
    match sender {
        None => result is Ok,
        Some(sender) => exists|outcome: SendOutcome| #[trigger]
            outcome_of_sending(*sender, true, outcome) && result == signalled(outcome),
    }
}

/// Reads from the outcome of sending it whether a change of leader was signalled.
pub fn signal_result(outcome: SendOutcome) -> (result: Result<(), bool>)
    ensures
        result == signalled(outcome),
{
    match outcome {
        SendOutcome::Sent | SendOutcome::Full(_) => Ok(()),
        SendOutcome::Disconnected(returned) => Err(returned),
    }
}

/// Signals a change of leader to whoever asked for it, if anybody did. The signal is `true`,
/// sent without waiting, and the result is read from what came of sending it. A failure
/// hands the signal back.
pub fn fd_ext_poh_signal_leader_change(sender: Option<&Sender<bool>>) -> (result: Result<(), bool>)
    ensures
        signals(sender, result),
        result matches Err(returned) ==> returned,
{
    match sender {
        None => Ok(()),
        Some(sender) => {
            let outcome = try_send(sender, true);
            assert(outcome_of_sending(*sender, true, outcome));
            signal_result(outcome)
        },
    }
}

impl PohRecorder {
    /// Sets up a recorder and the clock that it speaks to.
    pub fn new_with_clear_signal(
        tick_height: u64,
        last_entry_hash: Hash,
        ticks_per_slot: u64,
        clear_bank_signal: Option<Sender<bool>>,
        poh_config: &PohConfig,
        is_exited: Arc<AtomicBool>,
    ) -> (made: (Self, PohInitialize))
        requires
            poh_config.target_tick_duration_nanos <= u64::MAX,
        ensures
            made.0.is_exited == is_exited,
            made.1 == initialization(
                tick_height,
                last_entry_hash,
                ticks_per_slot,
                clear_bank_signal,
                *poh_config,
            ),
    {
        (
            PohRecorder { is_exited },
            PohInitialize {
                tick_duration_nanos: poh_config.target_tick_duration_nanos as u64,
                hashcnt_per_tick: poh_config.hashes_per_tick.unwrap_or(DEFAULT_HASHES_PER_TICK),
                ticks_per_slot,
                tick_height,
                last_entry_hash,
                signal_leader_change: clear_bank_signal,
            },
        )
    }

    /// Asks who leads after `slots` slots.
    pub fn query_leader_after_n_slots(&self, slots: u64) -> (query: LeaderQuery)
        ensures
            query.n == slots,
            query.out_pubkey@ == Seq::new(32, |i: int| 0u8),
    {
        let query = LeaderQuery { n: slots, out_pubkey: [0u8; 32] };
        assert(query.out_pubkey@ =~= Seq::new(32, |i: int| 0u8));
        query
    }

    /// Who leads after some slots, by the clock's answer: it is known exactly when the
    /// status is one.
    pub fn leader_after_n_slots(&self, status: i32, pubkey: Pubkey) -> (leader: Option<Pubkey>)
        ensures
            leader == if status == 1 {
                Some(pubkey)
            } else {
                None
            },
    {
        if 1 == status {
            Some(pubkey)
        } else {
            None
        }
    }

    /// Always unknown: nothing that matters asks for it.
    pub fn leader_and_slot_after_n_slots(&self, _slots_in_the_future: u64) -> (leader: Option<
        (Pubkey, Slot),
    >)
        ensures
            leader is None,
    {
        None
    }

    /// Always absent: no bank is started through the recorder.
    pub fn bank_start(&self) -> (start: Option<BankStart>)
        ensures
            start is None,
    {
        None
    }

    /// Always true, so that votes are forwarded at any time.
    pub fn would_be_leader(&self, _within_next_n_ticks: u64) -> (leader: bool)
        ensures
            leader,
    {
        true
    }

    /// Whether the clock handed out a bank.
    pub fn has_bank(&self, acquired: usize) -> (present: bool)
        ensures
            present == acquired_bank(acquired) is Some,
    {
        self.bank(acquired).is_some()
    }

    /// The bank that the clock handed out; the null address stands for none.
    pub fn bank(&self, acquired: usize) -> (bank: Option<BankHandle>)
        ensures
            bank == acquired_bank(acquired),
    {
        if acquired == 0 {
            None
        } else {
            Some(BankHandle { address: acquired })
        }
    }

    /// A notifier that has nothing to announce.
    pub fn new_leader_bank_notifier(&self) -> (notifier: Arc<LeaderBankNotifier>)
        ensures
            notifier.status is StandBy,
            notifier.bank is None,
            notifier.current_slot is None,
    {
        Arc::new(LeaderBankNotifier::default())
    }

    /// The latest of the active descendants, which the clock is told; zero if there are none.
    pub fn update_start_bank_active_descendants(&mut self, active_descendants: &[Slot]) -> (
    max_active_descendant: Slot)
        ensures
            *final(self) == *old(self),
            max_active_descendant == latest_slot(active_descendants@),
    {
        let mut latest: Slot = 0;
        let mut i: usize = 0;
        assert(active_descendants@.take(0) =~= Seq::empty());
        while i < active_descendants.len()
            invariant
                i <= active_descendants@.len(),
                latest == latest_slot(active_descendants@.take(i as int)),
            decreases active_descendants@.len() - i,
        {
            assert(active_descendants@.take(i + 1).drop_last() =~= active_descendants@.take(
                i as int,
            ));
            if active_descendants[i] >= latest {
                latest = active_descendants[i];
            }
            i = i + 1;
        }
        assert(active_descendants@.take(i as int) =~= active_descendants@);
        latest
    }

    /// The slot that the recorder starts from, which precedes the clock's reset slot.
    pub fn start_slot(&self, reset_slot: Slot) -> (slot: Slot)
        requires
            reset_slot > 0,
        ensures
            slot == preceding_slot(reset_slot),
            slot == reset_slot - 1,
    {
        reset_slot - 1
    }

    /// Whether the leader's slot has come, by the clock's answer.
    pub fn reached_leader_slot(
        &self,
        is_leader: i32,
        leader_slot: Slot,
        reset_slot: Slot,
    ) -> (status: PohLeaderStatus)
        requires
            is_leader != 0 ==> reset_slot > 0,
        ensures
            status == leader_status(is_leader, leader_slot, reset_slot),
    {
        if is_leader != 0 {
            PohLeaderStatus::Reached { poh_slot: leader_slot, parent_slot: reset_slot - 1 }
        } else {
            PohLeaderStatus::NotReached
        }
    }

    /// Tells the clock that a bank starts production.
    pub fn set_bank(&mut self, bank: &LeaderBank, limits: &BlockCostLimits) -> (message:
        PohBeginLeader)
        ensures
            *final(self) == *old(self),
            message == (PohBeginLeader {
                slot: bank.slot,
                epoch: bank.epoch,
                hashcnt_per_tick: hashcnt_per_tick(bank.hashes_per_tick),
                cus_block_limit: bank.block_limit,
                cus_vote_cost_limit: limits.max_vote_units,
                cus_account_cost_limit: limits.max_writable_account_units,
            }),
    {
        PohBeginLeader {
            slot: bank.slot,
            epoch: bank.epoch,
            hashcnt_per_tick: bank.hashes_per_tick.unwrap_or(DEFAULT_HASHES_PER_TICK),
            cus_block_limit: bank.block_limit,
            cus_vote_cost_limit: limits.max_vote_units,
            cus_account_cost_limit: limits.max_writable_account_units,
        }
    }

    /// The message for starting over from a bank, given the slots in which the features of
    /// interest became active.
    pub fn reset_message(
        bank: &ResetBank,
        activated_slots: &[Option<u64>; FD_POH_RECORDER_FEATURES_OF_INTEREST_CNT],
    ) -> (message: PohReset)
        ensures
            message.is_for(*bank, activated_slots@),
    {
        PohReset {
            reset_bank_slot: bank.slot,
            reset_blockhash: bank.last_blockhash,
            hashcnt_per_tick: bank.hashes_per_tick.unwrap_or(DEFAULT_HASHES_PER_TICK),
            block_id: bank.block_id,
            features_activation_slot: activation_slots(activated_slots),
        }
    }

    /// Tells the clock to start over from a bank.
    pub fn reset(&mut self, bank: &ResetBank, feature_set: &FeatureSet) -> (message: PohReset)
        ensures
            *final(self) == *old(self),
            message.is_for(*bank, activated_slots_of(active_features(*feature_set))),
    {
        Self::reset_message(bank, &activated_slots(feature_set))
    }
}

/// The latest slot is one of the slots and none is later; without slots it is zero.
pub proof fn law_latest_slot(slots: Seq<Slot>)
    ensures
        forall|i: int| 0 <= i < slots.len() ==> #[trigger] slots[i] <= latest_slot(slots),
        slots.len() > 0 ==> slots.contains(latest_slot(slots)),
        slots.len() == 0 ==> latest_slot(slots) == 0,
    decreases slots.len(),
{
    if slots.len() > 0 {
        let rest = slots.drop_last();
        law_latest_slot(rest);
        assert(slots[slots.len() - 1] == slots.last());
        assert forall|i: int| 0 <= i < slots.len() implies #[trigger] slots[i] <= latest_slot(
            slots,
        ) by {
            if i < rest.len() {
                assert(rest[i] == slots[i]);
            }
        }
        if slots.last() < latest_slot(rest) {
            let i = choose|i: int| 0 <= i < rest.len() && rest[i] == latest_slot(rest);
            assert(slots[i] == latest_slot(rest));
        }
    }
}

/// Whoever is to be told of a change of leader when the recorder is set up is the one that
/// a signal from the clock goes to: without anybody it has no effect and succeeds, and
/// otherwise its result is read from sending `true` to the very sender that was given.
pub proof fn law_signal_goes_to_the_given_sender(
    tick_height: u64,
    last_entry_hash: Hash,
    ticks_per_slot: u64,
    clear_bank_signal: Option<Sender<bool>>,
    poh_config: PohConfig,
    result: Result<(), bool>,
)
    requires
        match initialization(
            tick_height,
            last_entry_hash,
            ticks_per_slot,
            clear_bank_signal,
            poh_config,
        ).signal_leader_change {
            None => signals(None, result),
            Some(sender) => signals(Some(&sender), result),
        },
    ensures
        clear_bank_signal is None ==> result is Ok,
        clear_bank_signal matches Some(sender) ==> exists|outcome: SendOutcome| #[trigger]
            outcome_of_sending(sender, true, outcome) && result == signalled(outcome),
{
}

/// A leader whose slot has come builds on the slot that the recorder starts from.
pub proof fn law_leader_builds_on_start_slot(is_leader: i32, leader_slot: Slot, reset_slot: Slot)
    requires
        reset_slot > 0,
    ensures
        leader_status(is_leader, leader_slot, reset_slot) matches PohLeaderStatus::Reached {
            poh_slot,
            parent_slot,
        } ==> parent_slot == preceding_slot(reset_slot) && parent_slot + 1 == reset_slot && poh_slot
            == leader_slot,
{
}

/// The leader's slot has come exactly if the clock's answer is not zero, whatever the slots.
/// Then the block is for the leader's slot and builds on the one before the reset slot.
pub proof fn law_leader_slot_has_come(is_leader: i32, leader_slot: Slot, reset_slot: Slot)
    ensures
        leader_status(is_leader, leader_slot, reset_slot) is Reached <==> is_leader != 0,
        leader_status(is_leader, leader_slot, reset_slot) is NotReached <==> is_leader == 0,
        leader_status(is_leader, leader_slot, reset_slot) matches PohLeaderStatus::Reached {
            poh_slot,
            parent_slot,
        } ==> poh_slot == leader_slot && (reset_slot > 0 ==> parent_slot + 1 == reset_slot),
        reset_slot > 0 ==> preceding_slot(reset_slot) + 1 == reset_slot,
{
}

/// A configured number of hashes is kept as it is, and otherwise a tick has one.
pub proof fn law_hashes_in_a_tick(hashes_per_tick: Option<u64>)
    ensures
        hashes_per_tick matches Some(hashes) ==> hashcnt_per_tick(hashes_per_tick) == hashes,
        hashes_per_tick is None ==> hashcnt_per_tick(hashes_per_tick) == 1,
{
}

/// Every address but the null one stands for a bank, and for the one at that address.
pub proof fn law_acquired_bank(acquired: usize)
    ensures
        acquired_bank(acquired) is Some <==> acquired != 0,
        acquired_bank(acquired) matches Some(bank) ==> bank.address == acquired,
{
}

/// The clock is set up with what the recorder is made with, and with one hash in a tick where
/// none is configured.
pub proof fn law_clock_is_set_up_as_configured(
    tick_height: u64,
    last_entry_hash: Hash,
    ticks_per_slot: u64,
    clear_bank_signal: Option<Sender<bool>>,
    poh_config: PohConfig,
)
    requires
        poh_config.target_tick_duration_nanos <= u64::MAX,
    ensures
        ({
            let setup = initialization(
                tick_height,
                last_entry_hash,
                ticks_per_slot,
                clear_bank_signal,
                poh_config,
            );
            &&& setup.tick_duration_nanos == poh_config.target_tick_duration_nanos
            &&& setup.hashcnt_per_tick == match poh_config.hashes_per_tick {
                Some(hashes) => hashes,
                None => 1,
            }
            &&& setup.ticks_per_slot == ticks_per_slot
            &&& setup.tick_height == tick_height
            &&& setup.last_entry_hash == last_entry_hash
            &&& setup.signal_leader_change == clear_bank_signal
        }),
{
}

/// The clock starts over from the bank's own slot, blockhash and block, at its pace or with one
/// hash in a tick where it has none, and learns of each feature the very slot in which it
/// became active, or the largest number.
pub proof fn law_reset_tells_of_the_bank(
    message: PohReset,
    bank: ResetBank,
    activated_slots: Seq<Option<u64>>,
    i: int,
)
    requires
        message.is_for(bank, activated_slots),
        0 <= i < activated_slots.len(),
    ensures
        message.reset_bank_slot == bank.slot,
        message.reset_blockhash == bank.last_blockhash,
        message.block_id == bank.block_id,
        message.hashcnt_per_tick == match bank.hashes_per_tick {
            Some(hashes) => hashes,
            None => 1,
        },
        message.features_activation_slot@.len() == activated_slots.len(),
        activated_slots[i] matches Some(slot) ==> message.features_activation_slot@[i] == slot,
        activated_slots[i] is None ==> message.features_activation_slot@[i]
            == 0xffff_ffff_ffff_ffff,
{
}

/// A signal fails exactly where nobody receives it any more, and then hands back what was to
/// be sent.
pub proof fn law_signal_fails_without_a_receiver(outcome: SendOutcome)
    ensures
        signalled(outcome) is Err <==> outcome is Disconnected,
        outcome matches SendOutcome::Disconnected(returned) ==> (signalled(outcome) matches Err(
            handed_back,
        ) && handed_back == returned),
{
}

/// Who leads is known exactly if the clock's status is one, and then it is whom the clock
/// named.
pub proof fn law_leader_is_known_by_status(
    recorder: &PohRecorder,
    status: i32,
    pubkey: Pubkey,
    leader: Option<Pubkey>,
)
    requires
        call_ensures(PohRecorder::leader_after_n_slots, (recorder, status, pubkey), leader),
    ensures
        leader is Some <==> status == 1,
        leader matches Some(named) ==> named == pubkey,
{
}

/// The clock is asked about as many slots as the recorder is, with room for an answer that
/// holds nothing yet.
pub proof fn law_question_is_passed_on(recorder: &PohRecorder, slots: u64, query: LeaderQuery)
    requires
        call_ensures(PohRecorder::query_leader_after_n_slots, (recorder, slots), query),
    ensures
        query.n == slots,
        query.out_pubkey@.len() == 32,
        forall|i: int| 0 <= i < 32 ==> #[trigger] query.out_pubkey@[i] == 0,
{
}

/// A recorder that is asked whether it leads and where it starts answers alike: a leader
/// builds on the slot that the recorder starts from, which the reset slot follows.
pub proof fn law_leader_and_start_agree(
    recorder: &PohRecorder,
    is_leader: i32,
    leader_slot: Slot,
    reset_slot: Slot,
    status: PohLeaderStatus,
    start: Slot,
)
    requires
        reset_slot > 0,
        call_ensures(
            PohRecorder::reached_leader_slot,
            (recorder, is_leader, leader_slot, reset_slot),
            status,
        ),
        call_ensures(PohRecorder::start_slot, (recorder, reset_slot), start),
    ensures
        start + 1 == reset_slot,
        is_leader != 0 ==> status == (PohLeaderStatus::Reached {
            poh_slot: leader_slot,
            parent_slot: start,
        }),
        is_leader == 0 ==> status == PohLeaderStatus::NotReached,
{
}

/// A recorder has a bank exactly if it can hand one out, which is for every address but the
/// null one, and it is the bank at that address.
pub proof fn law_bank_is_there_if_handed_out(
    recorder: &PohRecorder,
    acquired: usize,
    present: bool,
    bank: Option<BankHandle>,
)
    requires
        call_ensures(PohRecorder::has_bank, (recorder, acquired), present),
        call_ensures(PohRecorder::bank, (recorder, acquired), bank),
    ensures
        present <==> bank is Some,
        present <==> acquired != 0,
        bank matches Some(handle) ==> handle.address == acquired,
{
}

/// The clock is told a slot that no active descendant is beyond and that is one of theirs, or
/// zero if there are none.
pub proof fn law_clock_is_told_the_latest_descendant(
    recorder: &mut PohRecorder,
    active_descendants: &[Slot],
    told: Slot,
)
    requires
        call_ensures(
            PohRecorder::update_start_bank_active_descendants,
            (recorder, active_descendants),
            told,
        ),
    ensures
        forall|i: int|
            0 <= i < active_descendants@.len() ==> #[trigger] active_descendants@[i] <= told,
        active_descendants@.len() > 0 ==> active_descendants@.contains(told),
        active_descendants@.len() == 0 ==> told == 0,
{
    law_latest_slot(active_descendants@);
}

/// A bank starts production with its own slot, epoch, pace and limit, and with each limit on
/// costs in its own place.
pub proof fn law_production_starts_with_the_bank(
    recorder: &mut PohRecorder,
    bank: &LeaderBank,
    limits: &BlockCostLimits,
    message: PohBeginLeader,
)
    requires
        call_ensures(PohRecorder::set_bank, (recorder, bank, limits), message),
    ensures
        message.slot == bank.slot,
        message.epoch == bank.epoch,
        message.hashcnt_per_tick == match bank.hashes_per_tick {
            Some(hashes) => hashes,
            None => 1,
        },
        message.cus_block_limit == bank.block_limit,
        message.cus_vote_cost_limit == limits.max_vote_units,
        message.cus_account_cost_limit == limits.max_writable_account_units,
{
}

/// A reset hands on the bank's own values and, for each of the four features, the slot in
/// which the feature set has it active, or the largest number.
pub proof fn law_reset_looks_up_features(
    recorder: &mut PohRecorder,
    bank: &ResetBank,
    feature_set: &FeatureSet,
    message: PohReset,
    i: int,
)
    requires
        call_ensures(PohRecorder::reset, (recorder, bank, feature_set), message),
        0 <= i < 4,
    ensures
        message.reset_bank_slot == bank.slot,
        message.reset_blockhash == bank.last_blockhash,
        message.block_id == bank.block_id,
        message.hashcnt_per_tick == match bank.hashes_per_tick {
            Some(hashes) => hashes,
            None => 1,
        },
        ({
            let id = if i == 0 {
                disable_turbine_fanout_experiments()
            } else if i == 1 {
                enable_turbine_extended_fanout_experiments()
            } else if i == 2 {
                enable_vote_address_leader_schedule()
            } else {
                drop_unchained_merkle_shreds()
            };
            let active = active_features(*feature_set);
            if active.contains_key(id) {
                message.features_activation_slot@[i] == active[id]
            } else {
                message.features_activation_slot@[i] == 0xffff_ffff_ffff_ffff
            }
        }),
{
    law_features_are_looked_up_in_order(active_features(*feature_set));
    law_activation_slots_are_kept(activated_slots_of(active_features(*feature_set)), i);
}

/// Whatever it is asked for, a recorder knows no leader together with a slot, starts no bank
/// and would be leader.
pub proof fn law_answers_that_never_change(
    recorder: &PohRecorder,
    n: u64,
    leader: Option<(Pubkey, Slot)>,
    start: Option<BankStart>,
    would: bool,
)
    requires
        call_ensures(PohRecorder::leader_and_slot_after_n_slots, (recorder, n), leader),
        call_ensures(PohRecorder::bank_start, (recorder,), start),
        call_ensures(PohRecorder::would_be_leader, (recorder, n), would),
    ensures
        leader is None,
        start is None,
        would,
{
}

} // verus!
