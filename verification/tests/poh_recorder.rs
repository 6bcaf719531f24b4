use agave_feature_set::FeatureSet;
use banking_bridge::poh_recorder::{
    fd_ext_poh_signal_leader_change, signal_result, BankHandle, BlockCostLimits, LeaderBank,
    LeaderBankStatus, LeaderQuery, PohBeginLeader, PohConfig, PohLeaderStatus, PohRecorder,
    PohReset, ResetBank, SendOutcome,
};
use crossbeam_channel::{bounded, Sender};
use std::sync::atomic::{AtomicBool, Ordering};
use std::sync::Arc;

fn recorder() -> PohRecorder {
    PohRecorder { is_exited: Arc::new(AtomicBool::new(false)) }
}

#[test]
fn a_recorder_is_set_up_with_its_clock() {
    let (sender, receiver): (Sender<bool>, _) = bounded(1);
    let config =
        PohConfig { target_tick_duration_nanos: 6_250_000, hashes_per_tick: Some(62_500) };
    let exited = Arc::new(AtomicBool::new(true));
    let (made, setup) =
        PohRecorder::new_with_clear_signal(77, [9u8; 32], 64, Some(sender), &config, exited);
    assert!(made.is_exited.load(Ordering::Relaxed));
    assert_eq!(setup.tick_duration_nanos, 6_250_000);
    assert_eq!(setup.hashcnt_per_tick, 62_500);
    assert_eq!(setup.ticks_per_slot, 64);
    assert_eq!(setup.tick_height, 77);
    assert_eq!(setup.last_entry_hash, [9u8; 32]);
    assert_eq!(fd_ext_poh_signal_leader_change(setup.signal_leader_change.as_ref()), Ok(()));
    assert_eq!(receiver.try_recv(), Ok(true));
}

#[test]
fn a_tick_has_one_hash_unless_configured() {
    let config = PohConfig { target_tick_duration_nanos: 1, hashes_per_tick: None };
    let exited = Arc::new(AtomicBool::new(false));
    let (_, setup) = PohRecorder::new_with_clear_signal(0, [0u8; 32], 1, None, &config, exited);
    assert_eq!(setup.hashcnt_per_tick, 1);
    assert!(setup.signal_leader_change.is_none());
    assert_eq!(fd_ext_poh_signal_leader_change(setup.signal_leader_change.as_ref()), Ok(()));
}

#[test]
fn a_change_of_leader_is_signalled() {
    let (sender, receiver) = bounded(1);
    assert_eq!(fd_ext_poh_signal_leader_change(Some(&sender)), Ok(()));
    assert_eq!(fd_ext_poh_signal_leader_change(Some(&sender)), Ok(()));
    assert_eq!(receiver.try_recv(), Ok(true));
    assert!(receiver.try_recv().is_err());
    drop(receiver);
    assert_eq!(fd_ext_poh_signal_leader_change(Some(&sender)), Err(true));
    assert_eq!(fd_ext_poh_signal_leader_change(None), Ok(()));
}

#[test]
fn only_a_missing_receiver_fails_a_signal() {
    assert_eq!(signal_result(SendOutcome::Sent), Ok(()));
    assert_eq!(signal_result(SendOutcome::Full(true)), Ok(()));
    assert_eq!(signal_result(SendOutcome::Disconnected(true)), Err(true));
    assert_eq!(signal_result(SendOutcome::Disconnected(false)), Err(false));
}

#[test]
fn the_leader_is_known_for_one_status_only() {
    assert_eq!(
        recorder().query_leader_after_n_slots(4),
        LeaderQuery { n: 4, out_pubkey: [0u8; 32] }
    );
    assert_eq!(recorder().leader_after_n_slots(1, [8u8; 32]), Some([8u8; 32]));
    assert_eq!(recorder().leader_after_n_slots(0, [8u8; 32]), None);
    assert_eq!(recorder().leader_after_n_slots(-1, [8u8; 32]), None);
    assert_eq!(recorder().leader_after_n_slots(2, [8u8; 32]), None);
}

#[test]
fn unused_questions_have_fixed_answers() {
    assert!(recorder().leader_and_slot_after_n_slots(3).is_none());
    assert!(recorder().bank_start().is_none());
    assert!(recorder().would_be_leader(0));
    assert!(recorder().would_be_leader(u64::MAX));
    let notifier = recorder().new_leader_bank_notifier();
    assert_eq!(notifier.status, LeaderBankStatus::StandBy);
    assert_eq!(notifier.bank, None);
    assert_eq!(notifier.current_slot, None);
}

#[test]
fn a_bank_is_present_unless_its_address_is_null() {
    assert_eq!(recorder().bank(0), None);
    assert_eq!(recorder().bank(0x1000), Some(BankHandle { address: 0x1000 }));
    assert!(!recorder().has_bank(0));
    assert!(recorder().has_bank(1));
}

#[test]
fn the_latest_descendant_is_passed_on() {
    let mut made = recorder();
    assert_eq!(made.update_start_bank_active_descendants(&[]), 0);
    assert_eq!(made.update_start_bank_active_descendants(&[5]), 5);
    assert_eq!(made.update_start_bank_active_descendants(&[3, 9, 4]), 9);
    assert_eq!(made.update_start_bank_active_descendants(&[0, 0]), 0);
}

#[test]
fn a_leader_builds_on_the_start_slot() {
    assert_eq!(recorder().start_slot(101), 100);
    assert_eq!(
        recorder().reached_leader_slot(1, 105, 101),
        PohLeaderStatus::Reached { poh_slot: 105, parent_slot: 100 }
    );
    assert_eq!(
        recorder().reached_leader_slot(-3, 105, 1),
        PohLeaderStatus::Reached { poh_slot: 105, parent_slot: 0 }
    );
    assert_eq!(recorder().reached_leader_slot(0, 105, 0), PohLeaderStatus::NotReached);
}

#[test]
fn a_bank_starts_production_with_its_limits() {
    let bank = LeaderBank { slot: 10, epoch: 2, hashes_per_tick: None, block_limit: 60_000_000 };
    let limits =
        BlockCostLimits { max_vote_units: 36_000_000, max_writable_account_units: 12_000_000 };
    assert_eq!(
        recorder().set_bank(&bank, &limits),
        PohBeginLeader {
            slot: 10,
            epoch: 2,
            hashcnt_per_tick: 1,
            cus_block_limit: 60_000_000,
            cus_vote_cost_limit: 36_000_000,
            cus_account_cost_limit: 12_000_000,
        }
    );
}

#[test]
fn the_clock_starts_over_with_the_activation_slots() {
    let mut set = FeatureSet::default();
    set.activate(&agave_feature_set::disable_turbine_fanout_experiments::id(), 432_000);
    set.activate(&agave_feature_set::enable_vote_address_leader_schedule::id(), 250);
    let bank = ResetBank {
        slot: 500_000,
        last_blockhash: [5u8; 32],
        hashes_per_tick: Some(12),
        block_id: Some([6u8; 32]),
    };
    let expected = PohReset {
        reset_bank_slot: 500_000,
        reset_blockhash: [5u8; 32],
        hashcnt_per_tick: 12,
        block_id: Some([6u8; 32]),
        features_activation_slot: [432_000, u64::MAX, 250, u64::MAX],
    };
    assert_eq!(recorder().reset(&bank, &set), expected);
    assert_eq!(
        PohRecorder::reset_message(&bank, &[Some(432_000), None, Some(250), None]),
        expected
    );
}

#[test]
fn a_bank_may_have_no_block_and_no_features() {
    let bank =
        ResetBank { slot: 1, last_blockhash: [0u8; 32], hashes_per_tick: None, block_id: None };
    let message = recorder().reset(&bank, &FeatureSet::default());
    assert_eq!(message.block_id, None);
    assert_eq!(message.hashcnt_per_tick, 1);
    assert_eq!(message.features_activation_slot, [u64::MAX; 4]);
}

#[test]
fn the_signal_outlives_the_recorder() {
    let (sender, receiver) = bounded(1);
    let config = PohConfig { target_tick_duration_nanos: 1, hashes_per_tick: None };
    let exited = Arc::new(AtomicBool::new(false));
    let (made, setup) =
        PohRecorder::new_with_clear_signal(0, [0u8; 32], 1, Some(sender), &config, exited);
    drop(made);
    assert_eq!(fd_ext_poh_signal_leader_change(setup.signal_leader_change.as_ref()), Ok(()));
    assert_eq!(receiver.try_recv(), Ok(true));
    assert!(receiver.try_recv().is_err());
}
