use battle_royale::economics::{derive_stats, split_entry_fee, DerivedStats, FeeSplit};
use battle_royale::errors::BattleRoyaleError;
use battle_royale::join_battleground::{join_battleground, Arena, JoinBattleground};
use battle_royale::merkle::{hash_leaf, merkle_proof, merkle_root};
use battle_royale::provenance::{check_holder, verify_collection, verify_holder, MetadataCreator, NftMetadata};
use battle_royale::state::{
    BattleRoyaleState, BattlegroundState, BattlegroundStatus, CollectionInfo,
    CollectionRequirement, ParticipantRegistry,
};

const AUTHORITY: [u8; 32] = [7u8; 32];
const BG_KEY: [u8; 32] = [42u8; 32];

fn config(fee: u16) -> BattleRoyaleState {
    BattleRoyaleState {
        bump: 255,
        game_master: [1u8; 32],
        dev_fund: [2u8; 32],
        fee,
        last_battleground_id: 1,
    }
}

fn creators_info() -> CollectionInfo {
    CollectionInfo {
        collection: [3u8; 32],
        requirement: CollectionRequirement::VerifiedCreators { creators: vec![AUTHORITY] },
    }
}

fn battleground(cap: u32, entry_fee: u64, creator_fee: u16, info: CollectionInfo) -> BattlegroundState {
    BattlegroundState {
        bump: 254,
        id: 1,
        collection_info: info,
        start_time: 1_700_000_000,
        action_points_per_day: 10,
        participants_cap: cap,
        participants: 0,
        status: BattlegroundStatus::Preparing,
        pot_mint: [4u8; 32],
        entry_fee,
        creator: [5u8; 32],
        creator_fee,
        whitelist_root: None,
    }
}

fn arena(bg: BattlegroundState) -> Arena {
    Arena { battleground_key: BG_KEY, battleground: bg, participants: ParticipantRegistry::new() }
}

fn request(mint: [u8; 32], verified: bool) -> JoinBattleground {
    JoinBattleground {
        signer: [6u8; 32],
        nft_mint: mint,
        nft_metadata: NftMetadata {
            mint,
            creators: vec![
                MetadataCreator { address: [99u8; 32], verified: true },
                MetadataCreator { address: AUTHORITY, verified },
            ],
        },
        player_nft_amount: 1,
        participant_bump: 253,
    }
}

#[test]
fn example_fee_split() {
    assert_eq!(
        split_entry_fee(1000, 250, 500),
        FeeSplit { pot_share: 925, dev_fee: 25, creator_fee: 50 }
    );
}

#[test]
fn fee_rounding_goes_to_pot() {
    let s = split_entry_fee(999, 250, 500);
    assert_eq!(s, FeeSplit { pot_share: 926, dev_fee: 24, creator_fee: 49 });
    let s = split_entry_fee(1, 3333, 3333);
    assert_eq!(s, FeeSplit { pot_share: 1, dev_fee: 0, creator_fee: 0 });
}

#[test]
fn fee_split_of_largest_fee_does_not_overflow() {
    let s = split_entry_fee(u64::MAX, 10000, 0);
    assert_eq!(s, FeeSplit { pot_share: 0, dev_fee: u64::MAX, creator_fee: 0 });
    let s = split_entry_fee(u64::MAX, 5000, 5000);
    assert_eq!(s.pot_share + s.dev_fee + s.creator_fee, u64::MAX);
    assert_eq!(s.dev_fee, u64::MAX / 2);
}

#[test]
fn fee_split_of_zero_fee() {
    assert_eq!(split_entry_fee(0, 250, 500), FeeSplit { pot_share: 0, dev_fee: 0, creator_fee: 0 });
}

#[test]
fn fee_shares_always_sum_to_fee() {
    for fee in [0u64, 1, 7, 999, 10_000, 123_456_789] {
        for (p, c) in [(0u16, 0u16), (250, 500), (9999, 1), (10000, 0), (1, 1)] {
            let s = split_entry_fee(fee, p, c);
            assert_eq!(s.pot_share + s.dev_fee + s.creator_fee, fee);
        }
    }
}

#[test]
fn example_stats() {
    assert_eq!(
        derive_stats(30, 40),
        Ok(DerivedStats { attack: 130, defense: 90, health_points: 1200 })
    );
}

#[test]
fn stats_at_the_cap() {
    assert_eq!(
        derive_stats(0, 100),
        Ok(DerivedStats { attack: 100, defense: 150, health_points: 1500 })
    );
    assert_eq!(
        derive_stats(100, 0),
        Ok(DerivedStats { attack: 200, defense: 50, health_points: 1000 })
    );
    assert_eq!(derive_stats(0, 0), Ok(DerivedStats { attack: 100, defense: 50, health_points: 1000 }));
}

#[test]
fn stats_over_the_cap_are_rejected() {
    assert_eq!(derive_stats(50, 51), Err(BattleRoyaleError::InvalidStatistics));
    assert_eq!(derive_stats(u32::MAX, 1), Err(BattleRoyaleError::InvalidStatistics));
    assert_eq!(derive_stats(1, u32::MAX), Err(BattleRoyaleError::InvalidStatistics));
}

#[test]
fn example_join() {
    let mut a = arena(battleground(10, 1000, 500, creators_info()));
    let r = join_battleground(&mut a, &config(250), &request([11u8; 32], true), 30, 40, None, None)
        .expect("join");
    assert_eq!(r.fees, FeeSplit { pot_share: 925, dev_fee: 25, creator_fee: 50 });
    assert_eq!(r.event.battleground, BG_KEY);
    assert_eq!(r.event.nft_mint, [11u8; 32]);
    assert_eq!((r.event.attack, r.event.defense), (30, 40));
    assert_eq!(a.battleground.participants, 1);
    assert_eq!(a.participants.len(), 1);
    let p = a.participants.entry(0);
    assert_eq!((p.attack, p.defense, p.health_points), (130, 90, 1200));
    assert_eq!(p.action_points_spent, 0);
    assert!(p.alive);
    assert_eq!(p.battleground, BG_KEY);
    assert_eq!(p.nft_mint, [11u8; 32]);
    assert_eq!(p.bump, 253);
}

#[test]
fn over_allocated_join_changes_nothing() {
    let mut a = arena(battleground(10, 1000, 500, creators_info()));
    let r = join_battleground(&mut a, &config(250), &request([11u8; 32], true), 60, 41, None, None);
    assert_eq!(r.err(), Some(BattleRoyaleError::InvalidStatistics));
    assert_eq!(a.battleground.participants, 0);
    assert_eq!(a.participants.len(), 0);
}

#[test]
fn join_beyond_cap_fails() {
    let mut a = arena(battleground(2, 1000, 500, creators_info()));
    let c = config(250);
    assert!(join_battleground(&mut a, &c, &request([11u8; 32], true), 1, 1, None, None).is_ok());
    assert!(join_battleground(&mut a, &c, &request([12u8; 32], true), 1, 1, None, None).is_ok());
    let r = join_battleground(&mut a, &c, &request([13u8; 32], true), 1, 1, None, None);
    assert_eq!(r.err(), Some(BattleRoyaleError::BattlegroundFull));
    assert_eq!(a.battleground.participants, 2);
    assert_eq!(a.participants.len(), 2);
}

#[test]
fn join_outside_preparing_fails() {
    for status in [BattlegroundStatus::Ongoing, BattlegroundStatus::Finished] {
        let mut bg = battleground(10, 1000, 500, creators_info());
        bg.status = status;
        let mut a = arena(bg);
        let r = join_battleground(&mut a, &config(250), &request([11u8; 32], true), 1, 1, None, None);
        assert_eq!(r.err(), Some(BattleRoyaleError::WrongBattlegroundStatus));
        assert_eq!(a.battleground.participants, 0);
        assert_eq!(a.participants.len(), 0);
    }
}

#[test]
fn same_asset_cannot_join_twice() {
    let mut a = arena(battleground(10, 1000, 500, creators_info()));
    let c = config(250);
    assert!(join_battleground(&mut a, &c, &request([11u8; 32], true), 1, 1, None, None).is_ok());
    let r = join_battleground(&mut a, &c, &request([11u8; 32], true), 5, 5, None, None);
    assert_eq!(r.err(), Some(BattleRoyaleError::ParticipantAlreadyExists));
    assert_eq!(a.battleground.participants, 1);
    assert_eq!(a.participants.len(), 1);
    assert_eq!(a.participants.entry(0).attack, 101);
}

#[test]
fn unverified_creator_fails_collection_check() {
    let mut a = arena(battleground(10, 1000, 500, creators_info()));
    let r = join_battleground(&mut a, &config(250), &request([11u8; 32], false), 1, 1, None, None);
    assert_eq!(r.err(), Some(BattleRoyaleError::CollectionVerificationFailed));
    assert_eq!(a.participants.len(), 0);
}

#[test]
fn metadata_of_another_asset_fails_collection_check() {
    let mut a = arena(battleground(10, 1000, 500, creators_info()));
    let mut req = request([11u8; 32], true);
    req.nft_metadata.mint = [12u8; 32];
    let r = join_battleground(&mut a, &config(250), &req, 1, 1, None, None);
    assert_eq!(r.err(), Some(BattleRoyaleError::CollectionVerificationFailed));
}

#[test]
fn asset_not_held_fails() {
    let mut a = arena(battleground(10, 1000, 500, creators_info()));
    let mut req = request([11u8; 32], true);
    req.player_nft_amount = 0;
    let r = join_battleground(&mut a, &config(250), &req, 1, 1, None, None);
    assert_eq!(r.err(), Some(BattleRoyaleError::NftNotHeld));
    req.player_nft_amount = 2;
    let r = join_battleground(&mut a, &config(250), &req, 1, 1, None, None);
    assert_eq!(r.err(), Some(BattleRoyaleError::NftNotHeld));
}

#[test]
fn collection_allow_list_mode() {
    let mints: Vec<[u8; 32]> = (20..25u8).map(|i| [i; 32]).collect();
    let ls: Vec<[u8; 32]> = mints.iter().map(hash_leaf).collect();
    let root = merkle_root(&ls);
    let info = CollectionInfo { collection: [3u8; 32], requirement: CollectionRequirement::Whitelist { root } };
    let mut a = arena(battleground(10, 1000, 500, info));
    let c = config(250);
    let req = JoinBattleground {
        signer: [6u8; 32],
        nft_mint: mints[3],
        nft_metadata: NftMetadata { mint: mints[3], creators: vec![] },
        player_nft_amount: 1,
        participant_bump: 1,
    };
    let r = join_battleground(&mut a, &c, &req, 1, 1, None, None);
    assert_eq!(r.err(), Some(BattleRoyaleError::CollectionVerificationFailed));
    let wrong = merkle_proof(&ls, 2);
    let r = join_battleground(&mut a, &c, &req, 1, 1, Some(wrong), None);
    assert_eq!(r.err(), Some(BattleRoyaleError::CollectionVerificationFailed));
    let right = merkle_proof(&ls, 3);
    assert!(join_battleground(&mut a, &c, &req, 1, 1, Some(right), None).is_ok());
    assert_eq!(a.battleground.participants, 1);
}

#[test]
fn holder_allow_list_gate() {
    let holders: Vec<[u8; 32]> = vec![[6u8; 32], [60u8; 32], [61u8; 32]];
    let ls: Vec<[u8; 32]> = holders.iter().map(hash_leaf).collect();
    let root = merkle_root(&ls);
    let proof = merkle_proof(&ls, 0);
    assert!(verify_holder(&proof, &root, &holders[0]));
    assert!(!verify_holder(&proof, &root, &holders[1]));
    assert!(check_holder(&None, &None, &holders[0]));
    assert!(!check_holder(&Some(root), &None, &holders[0]));

    let mut bg = battleground(10, 1000, 500, creators_info());
    bg.whitelist_root = Some(root);
    let mut a = arena(bg);
    let c = config(250);
    let req = request([11u8; 32], true);
    let r = join_battleground(&mut a, &c, &req, 1, 1, None, None);
    assert_eq!(r.err(), Some(BattleRoyaleError::HolderVerificationFailed));
    let r = join_battleground(&mut a, &c, &req, 1, 1, None, Some(merkle_proof(&ls, 1)));
    assert_eq!(r.err(), Some(BattleRoyaleError::HolderVerificationFailed));
    assert!(join_battleground(&mut a, &c, &req, 1, 1, None, Some(proof)).is_ok());
}

#[test]
fn gates_are_checked_in_order() {
    let mut bg = battleground(0, 1000, 500, creators_info());
    bg.status = BattlegroundStatus::Finished;
    let mut a = arena(bg);
    let c = config(250);
    let req = request([11u8; 32], false);
    let r = join_battleground(&mut a, &c, &req, 100, 1, None, None);
    assert_eq!(r.err(), Some(BattleRoyaleError::InvalidStatistics));
    let r = join_battleground(&mut a, &c, &req, 1, 1, None, None);
    assert_eq!(r.err(), Some(BattleRoyaleError::BattlegroundFull));
}

#[test]
fn verified_creator_check_directly() {
    let info = creators_info();
    let req = request([11u8; 32], true);
    assert!(verify_collection(&req.nft_metadata, &info, &[11u8; 32], &None));
    let none = CollectionInfo {
        collection: [3u8; 32],
        requirement: CollectionRequirement::VerifiedCreators { creators: vec![] },
    };
    assert!(!verify_collection(&req.nft_metadata, &none, &[11u8; 32], &None));
}
