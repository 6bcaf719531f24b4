//! When the protocol features that matter to block distribution became active.
use crate::request::Pubkey;
use agave_feature_set::FeatureSet;
use vstd::prelude::*;

verus! {

/// The number of features whose activation is passed on.
pub const FD_POH_RECORDER_FEATURES_OF_INTEREST_CNT: usize = 4;

/// Passed on for a feature that is not active.
pub const NOT_ACTIVATED: u64 = u64::MAX;

/// Declares `agave_feature_set::FeatureSet`.
#[verifier::external_type_specification]
#[verifier::external_body]
pub struct ExFeatureSet(FeatureSet);

/// The active features of a set, by identifier, with the slot in which each became active.
pub uninterp spec fn active_features(set: FeatureSet) -> Map<Seq<u8>, u64>;

/// The identifiers of the features whose activation is passed on, in order.
pub open spec fn features_of_interest() -> Seq<Seq<u8>> {
    seq![
        disable_turbine_fanout_experiments(),
        enable_turbine_extended_fanout_experiments(),
        enable_vote_address_leader_schedule(),
        drop_unchained_merkle_shreds(),
    ]
}

pub open spec fn disable_turbine_fanout_experiments() -> Seq<u8> {
    seq![
        0x0d, 0x4c, 0x62, 0x81, 0xbc, 0x9a, 0xbb, 0x74, 0xd1, 0x32, 0xac, 0x16, 0x8e, 0xd0, 0x61,
        0x9b, 0xb6, 0x1f, 0x0b, 0xdb, 0xaa, 0xa9, 0xa4, 0xd9, 0x55, 0xc7, 0xe5, 0xa1, 0x8d, 0xeb,
        0x2b, 0x73,
    ]
}

pub open spec fn enable_turbine_extended_fanout_experiments() -> Seq<u8> {
    seq![
        0x0d, 0x4c, 0x62, 0x79, 0xd8, 0xcc, 0xef, 0x78, 0x65, 0x4f, 0x1e, 0xcc, 0x95, 0x3e, 0xad,
        0xbb, 0x36, 0x1c, 0x4e, 0xaf, 0x0f, 0x1f, 0x18, 0xb6, 0xa6, 0xd1, 0xc1, 0xfb, 0x98, 0x6f,
        0xe1, 0xa9,
    ]
}

pub open spec fn enable_vote_address_leader_schedule() -> Seq<u8> {
    seq![
        0x40, 0x02, 0x73, 0x40, 0x0f, 0xb3, 0x11, 0x37, 0x08, 0x32, 0x50, 0x92, 0x29, 0x6a, 0x13,
        0x68, 0xe5, 0xe5, 0xde, 0x04, 0x99, 0x41, 0x79, 0xc5, 0xa0, 0xdf, 0xd8, 0x45, 0x51, 0x44,
        0x24, 0x80,
    ]
}

pub open spec fn drop_unchained_merkle_shreds() -> Seq<u8> {
    seq![
        0x40, 0x20, 0xfb, 0xe2, 0x35, 0xb3, 0xf6, 0x28, 0x09, 0x7d, 0x56, 0x40, 0x5b, 0xea, 0xc3,
        0x7a, 0xba, 0x14, 0x9f, 0xee, 0xf5, 0xc5, 0x5a, 0x83, 0xf5, 0x67, 0xbb, 0xa9, 0xee, 0x8c,
        0xd3, 0xdd,
    ]
}

/// Calls `agave_feature_set::FeatureSet::activated_slot`, which looks the identifier up among
/// the active features.
#[verifier::external_body]
fn activated_slot(set: &FeatureSet, id: &Pubkey) -> (slot: Option<u64>)
    ensures
        slot == active_features(*set).get(id@),
{
    set.activated_slot(&solana_pubkey::Pubkey::new_from_array(*id))
}

/// Calls `agave_feature_set::disable_turbine_fanout_experiments::id`, a constant.
#[verifier::external_body]
fn disable_turbine_fanout_experiments_id() -> (id: Pubkey)
    ensures
        id@ == disable_turbine_fanout_experiments(),
{
    agave_feature_set::disable_turbine_fanout_experiments::id().to_bytes()
}

/// Calls `agave_feature_set::enable_turbine_extended_fanout_experiments::id`, a constant.
#[verifier::external_body]
fn enable_turbine_extended_fanout_experiments_id() -> (id: Pubkey)
    ensures
        id@ == enable_turbine_extended_fanout_experiments(),
{
    agave_feature_set::enable_turbine_extended_fanout_experiments::id().to_bytes()
}

/// Calls `agave_feature_set::enable_vote_address_leader_schedule::id`, a constant.
#[verifier::external_body]
fn enable_vote_address_leader_schedule_id() -> (id: Pubkey)
    ensures
        id@ == enable_vote_address_leader_schedule(),
{
    agave_feature_set::enable_vote_address_leader_schedule::id().to_bytes()
}

/// Calls `agave_feature_set::drop_unchained_merkle_shreds::id`, a constant.
#[verifier::external_body]
fn drop_unchained_merkle_shreds_id() -> (id: Pubkey)
    ensures
        id@ == drop_unchained_merkle_shreds(),
{
    agave_feature_set::drop_unchained_merkle_shreds::id().to_bytes()
}

/// The slots in which the features of interest became active, by what a feature set holds.
pub open spec fn activated_slots_of(active: Map<Seq<u8>, u64>) -> Seq<Option<u64>> {
    features_of_interest().map_values(|id: Seq<u8>| active.get(id))
}

/// The slots in which the features of interest became active.
pub fn activated_slots(set: &FeatureSet) -> (slots: [Option<u64>; FD_POH_RECORDER_FEATURES_OF_INTEREST_CNT])
    ensures
        slots@ == activated_slots_of(active_features(*set)),
{
    let slots = [
        activated_slot(set, &disable_turbine_fanout_experiments_id()),
        activated_slot(set, &enable_turbine_extended_fanout_experiments_id()),
        activated_slot(set, &enable_vote_address_leader_schedule_id()),
        activated_slot(set, &drop_unchained_merkle_shreds_id()),
    ];
    assert(slots@ =~= activated_slots_of(active_features(*set)));
    slots
}

/// What is passed on for the features: the slot in which each became active, with a mark for
/// those that are not.
pub open spec fn activation_slots_of(slots: Seq<Option<u64>>) -> Seq<u64> {
    slots.map_values(
        |slot: Option<u64>|
            match slot {
                Some(slot) => slot,
                None => NOT_ACTIVATED,
            },
    )
}

/// The slots in which the features became active, with a mark for those that are not.
pub fn activation_slots(slots: &[Option<u64>; FD_POH_RECORDER_FEATURES_OF_INTEREST_CNT]) -> (marked:
    [u64; FD_POH_RECORDER_FEATURES_OF_INTEREST_CNT])
    ensures
        marked@ == activation_slots_of(slots@),
{
    let mut marked: [u64; FD_POH_RECORDER_FEATURES_OF_INTEREST_CNT] = [
        NOT_ACTIVATED,
        NOT_ACTIVATED,
        NOT_ACTIVATED,
        NOT_ACTIVATED,
    ];
    let mut i: usize = 0;
    while i < FD_POH_RECORDER_FEATURES_OF_INTEREST_CNT
        invariant
            i <= FD_POH_RECORDER_FEATURES_OF_INTEREST_CNT,
            forall|j: int| 0 <= j < i ==> marked@[j] == activation_slots_of(slots@)[j],
        decreases FD_POH_RECORDER_FEATURES_OF_INTEREST_CNT - i,
    {
        marked[i] = match slots[i] {
            None => NOT_ACTIVATED,
            Some(slot) => slot,
        };
        i = i + 1;
    }
    assert(marked@ =~= activation_slots_of(slots@));
    marked
}

/// The features of interest are different features.
pub proof fn law_features_of_interest_differ(i: int, j: int)
    requires
        0 <= i < j < features_of_interest().len(),
    ensures
        features_of_interest()[i] != features_of_interest()[j],
{
    let ids = features_of_interest();
    assert(ids[0][3] != ids[1][3]);
    assert(ids[0][0] != ids[2][0] && ids[0][0] != ids[3][0]);
    assert(ids[1][0] != ids[2][0] && ids[1][0] != ids[3][0]);
    assert(ids[2][1] != ids[3][1]);
}

/// The activation of a feature of interest shows at its own place and nowhere else.
pub proof fn law_activation_shows_in_place(active: Map<Seq<u8>, u64>, place: int, slot: u64)
    requires
        0 <= place < features_of_interest().len(),
    ensures
        activated_slots_of(active.insert(features_of_interest()[place], slot))
            == activated_slots_of(active).update(place, Some(slot)),
{
    let ids = features_of_interest();
    let after = active.insert(ids[place], slot);
    assert forall|i: int| 0 <= i < ids.len() implies after.get(ids[i]) == activated_slots_of(
        active,
    ).update(place, Some(slot))[i] by {
        if i < place {
            law_features_of_interest_differ(i, place);
        } else if i > place {
            law_features_of_interest_differ(place, i);
        }
    }
    assert(activated_slots_of(after) =~= activated_slots_of(active).update(place, Some(slot)));
}

/// The activation of any other feature does not show.
pub proof fn law_other_features_do_not_show(active: Map<Seq<u8>, u64>, id: Seq<u8>, slot: u64)
    requires
        !features_of_interest().contains(id),
    ensures
        activated_slots_of(active.insert(id, slot)) == activated_slots_of(active),
{
    let ids = features_of_interest();
    assert forall|i: int| 0 <= i < ids.len() implies active.insert(id, slot).get(ids[i])
        == active.get(ids[i]) by {
        assert(ids.contains(ids[i]));
    }
    assert(activated_slots_of(active.insert(id, slot)) =~= activated_slots_of(active));
}

/// For every feature the very slot in which it became active is passed on, also where that is
/// the first one, and the largest number for a feature that is not active.
pub proof fn law_activation_slots_are_kept(slots: Seq<Option<u64>>, i: int)
    requires
        0 <= i < slots.len(),
    ensures
        activation_slots_of(slots).len() == slots.len(),
        slots[i] matches Some(slot) ==> activation_slots_of(slots)[i] == slot,
        slots[i] is None ==> activation_slots_of(slots)[i] == 0xffff_ffff_ffff_ffff,
{
}

/// Four features are looked up, each by its own identifier and in this order.
pub proof fn law_features_are_looked_up_in_order(active: Map<Seq<u8>, u64>)
    ensures
        activated_slots_of(active).len() == 4,
        activated_slots_of(active)[0] == active.get(disable_turbine_fanout_experiments()),
        activated_slots_of(active)[1] == active.get(enable_turbine_extended_fanout_experiments()),
        activated_slots_of(active)[2] == active.get(enable_vote_address_leader_schedule()),
        activated_slots_of(active)[3] == active.get(drop_unchained_merkle_shreds()),
{
}

} // verus!
