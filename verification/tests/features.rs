use agave_feature_set::FeatureSet;
use banking_bridge::features::{activated_slots, activation_slots, NOT_ACTIVATED};

fn ids() -> [solana_pubkey::Pubkey; 4] {
    [
        agave_feature_set::disable_turbine_fanout_experiments::id(),
        agave_feature_set::enable_turbine_extended_fanout_experiments::id(),
        agave_feature_set::enable_vote_address_leader_schedule::id(),
        agave_feature_set::drop_unchained_merkle_shreds::id(),
    ]
}

#[test]
fn no_feature_is_active_at_first() {
    assert_eq!(activated_slots(&FeatureSet::default()), [None; 4]);
}

#[test]
fn each_feature_has_its_own_place() {
    for (i, id) in ids().iter().enumerate() {
        let mut set = FeatureSet::default();
        set.activate(id, 500);
        let mut expected = [None; 4];
        expected[i] = Some(500);
        assert_eq!(activated_slots(&set), expected);
    }
}

#[test]
fn other_features_do_not_show() {
    let mut set = FeatureSet::default();
    set.activate(&agave_feature_set::pico_inflation::id(), 500);
    assert_eq!(activated_slots(&set), [None; 4]);
}

#[test]
fn the_identifiers_are_those_written_down() {
    let written: [[u8; 32]; 4] = [
        [
            0x0d, 0x4c, 0x62, 0x81, 0xbc, 0x9a, 0xbb, 0x74, 0xd1, 0x32, 0xac, 0x16, 0x8e, 0xd0, 0x61,
            0x9b, 0xb6, 0x1f, 0x0b, 0xdb, 0xaa, 0xa9, 0xa4, 0xd9, 0x55, 0xc7, 0xe5, 0xa1, 0x8d, 0xeb,
            0x2b, 0x73,
        ],
        [
            0x0d, 0x4c, 0x62, 0x79, 0xd8, 0xcc, 0xef, 0x78, 0x65, 0x4f, 0x1e, 0xcc, 0x95, 0x3e, 0xad,
            0xbb, 0x36, 0x1c, 0x4e, 0xaf, 0x0f, 0x1f, 0x18, 0xb6, 0xa6, 0xd1, 0xc1, 0xfb, 0x98, 0x6f,
            0xe1, 0xa9,
        ],
        [
            0x40, 0x02, 0x73, 0x40, 0x0f, 0xb3, 0x11, 0x37, 0x08, 0x32, 0x50, 0x92, 0x29, 0x6a, 0x13,
            0x68, 0xe5, 0xe5, 0xde, 0x04, 0x99, 0x41, 0x79, 0xc5, 0xa0, 0xdf, 0xd8, 0x45, 0x51, 0x44,
            0x24, 0x80,
        ],
        [
            0x40, 0x20, 0xfb, 0xe2, 0x35, 0xb3, 0xf6, 0x28, 0x09, 0x7d, 0x56, 0x40, 0x5b, 0xea, 0xc3,
            0x7a, 0xba, 0x14, 0x9f, 0xee, 0xf5, 0xc5, 0x5a, 0x83, 0xf5, 0x67, 0xbb, 0xa9, 0xee, 0x8c,
            0xd3, 0xdd,
        ],
    ];
    for (id, bytes) in ids().iter().zip(written) {
        assert_eq!(id.to_bytes(), bytes);
    }
}

#[test]
fn activation_slots_are_passed_on_as_they_are() {
    assert_eq!(
        activation_slots(&[Some(0), Some(432_000), None, Some(u64::MAX - 1)]),
        [0, 432_000, NOT_ACTIVATED, u64::MAX - 1]
    );
    assert_eq!(activation_slots(&[None; 4]), [u64::MAX; 4]);
}
