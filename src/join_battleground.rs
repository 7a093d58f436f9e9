//! The admission workflow: every gate in order, then the new participant
//! record, the count, and the fee split that the caller must pay out.

use vstd::prelude::*;
use crate::economics::{allocation_valid, derive_stats, fee_split_of, split_entry_fee, stats_of, FeeSplit};
use crate::errors::BattleRoyaleError;
use crate::provenance::{check_holder, collection_admits, holder_admitted, verify_collection, NftMetadata};
use crate::state::{has_key, BattleRoyaleState, BattlegroundState, BattlegroundStatus, ParticipantRegistry, ParticipantState};

verus! {

/// The state an admission reads and changes: one battleground, under its
/// address, and the store of participant records.
pub struct Arena {
    pub battleground_key: [u8; 32],
    pub battleground: BattlegroundState,
    pub participants: ParticipantRegistry,
}

impl Arena {
    pub open spec fn wf(&self) -> bool {
        self.battleground.wf() && self.participants.wf()
    }
}

/// What the caller presents to join: who signs, the asset, what the asset
/// custody shows of it, and the address chosen for the new record.
pub struct JoinBattleground {
    pub signer: [u8; 32],
    pub nft_mint: [u8; 32],
    pub nft_metadata: NftMetadata,
    /// How many units of the asset the caller's account holds.
    pub player_nft_amount: u64,
    pub participant_bump: u8,
}

/// Emitted on a successful join, with the allocation as requested.
#[derive(Clone, Copy, Debug, PartialEq, Eq)]
pub struct JoinBattlegroundEvent {
    pub battleground: [u8; 32],
    pub nft_mint: [u8; 32],
    pub attack: u32,
    pub defense: u32,
}

/// What a successful join leaves for the caller to carry out: the three
/// transfers of the fee split, and the event.
pub struct JoinReceipt {
    pub fees: FeeSplit,
    pub event: JoinBattlegroundEvent,
}

/// The first gate that a join fails, in the order they are checked; `None`
/// where it passes them all.
pub open spec fn join_error(
    arena: Arena,
    ctx: JoinBattleground,
    attack: u32,
    defense: u32,
    collection_whitelist_proof: Option<Vec<[u8; 32]>>,
    holder_whitelist_proof: Option<Vec<[u8; 32]>>,
) -> Option<BattleRoyaleError> {
    let bg = arena.battleground;
    if !allocation_valid(attack, defense) {
        Some(BattleRoyaleError::InvalidStatistics)
    } else if !holder_admitted(bg.whitelist_root, holder_whitelist_proof, ctx.signer) {
        Some(BattleRoyaleError::HolderVerificationFailed)
    } else if bg.participants >= bg.participants_cap {
        Some(BattleRoyaleError::BattlegroundFull)
    } else if bg.status != BattlegroundStatus::Preparing {
        Some(BattleRoyaleError::WrongBattlegroundStatus)
    } else if ctx.player_nft_amount != 1 {
        Some(BattleRoyaleError::NftNotHeld)
    } else if !collection_admits(
        bg.collection_info,
        ctx.nft_metadata,
        ctx.nft_mint,
        collection_whitelist_proof,
    ) {
        Some(BattleRoyaleError::CollectionVerificationFailed)
    } else if has_key(arena.participants@, arena.battleground_key, ctx.nft_mint) {
        Some(BattleRoyaleError::ParticipantAlreadyExists)
    } else {
        None
    }
}

/// The record that an admission creates.
pub open spec fn new_participant(
    battleground: [u8; 32],
    nft_mint: [u8; 32],
    bump: u8,
    attack: u32,
    defense: u32,
) -> ParticipantState {
    ParticipantState {
        bump,
        battleground,
        nft_mint,
        attack: stats_of(attack, defense).attack,
        defense: stats_of(attack, defense).defense,
        health_points: stats_of(attack, defense).health_points,
        action_points_spent: 0,
        alive: true,
    }
}

/// The battleground after one more participant has joined.
pub open spec fn with_one_more(bg: BattlegroundState) -> BattlegroundState {
    BattlegroundState { participants: (bg.participants + 1) as u32, ..bg }
}

/// Whether `after` is `before` with the participant of this request added.
pub open spec fn joined(
    before: Arena,
    after: Arena,
    ctx: JoinBattleground,
    attack: u32,
    defense: u32,
) -> bool {
    &&& after.battleground_key == before.battleground_key
    &&& after.battleground == with_one_more(before.battleground)
    &&& after.participants@ == before.participants@.push(
        new_participant(before.battleground_key, ctx.nft_mint, ctx.participant_bump, attack, defense),
    )
}

/// Admits the asset `ctx.nft_mint` into the arena's battleground, or says
/// which gate it failed and changes nothing.
pub fn join_battleground(
    arena: &mut Arena,
    config: &BattleRoyaleState,
    ctx: &JoinBattleground,
    attack: u32,
    defense: u32,
    collection_whitelist_proof: Option<Vec<[u8; 32]>>,
    holder_whitelist_proof: Option<Vec<[u8; 32]>>,
) -> (r: Result<JoinReceipt, BattleRoyaleError>)
    requires
        old(arena).wf(),
        config.fee + old(arena).battleground.creator_fee <= 10000,
    ensures
        final(arena).wf(),
        match r {
            Err(e) => {
                &&& join_error(
                    *old(arena),
                    *ctx,
                    attack,
                    defense,
                    collection_whitelist_proof,
                    holder_whitelist_proof,
                ) == Some(e)
                &&& *final(arena) == *old(arena)
            },
            Ok(receipt) => {
                &&& join_error(
                    *old(arena),
                    *ctx,
                    attack,
                    defense,
                    collection_whitelist_proof,
                    holder_whitelist_proof,
                ) is None
                &&& joined(*old(arena), *final(arena), *ctx, attack, defense)
                &&& receipt.fees == fee_split_of(
                    old(arena).battleground.entry_fee,
                    config.fee,
                    old(arena).battleground.creator_fee,
                )
                &&& receipt.event == (JoinBattlegroundEvent {
                    battleground: old(arena).battleground_key,
                    nft_mint: ctx.nft_mint,
                    attack,
                    defense,
                })
            },
        },
{
    let stats = match derive_stats(attack, defense) {
        Ok(s) => s,
        Err(e) => {
            return Err(e);
        },
    };
    if !check_holder(&arena.battleground.whitelist_root, &holder_whitelist_proof, &ctx.signer) {
        return Err(BattleRoyaleError::HolderVerificationFailed);
    }
    if arena.battleground.participants >= arena.battleground.participants_cap {
        return Err(BattleRoyaleError::BattlegroundFull);
    }
    if arena.battleground.status != BattlegroundStatus::Preparing {
        return Err(BattleRoyaleError::WrongBattlegroundStatus);
    }
    if ctx.player_nft_amount != 1 {
        return Err(BattleRoyaleError::NftNotHeld);
    }
    if !verify_collection(
        &ctx.nft_metadata,
        &arena.battleground.collection_info,
        &ctx.nft_mint,
        &collection_whitelist_proof,
    ) {
        return Err(BattleRoyaleError::CollectionVerificationFailed);
    }
    let participant = ParticipantState {
        bump: ctx.participant_bump,
        battleground: arena.battleground_key,
        nft_mint: ctx.nft_mint,
        attack: stats.attack,
        defense: stats.defense,
        health_points: stats.health_points,
        action_points_spent: 0,
        alive: true,
    };
    if !arena.participants.allocate(participant) {
        return Err(BattleRoyaleError::ParticipantAlreadyExists);
    }
    arena.battleground.participants = arena.battleground.participants + 1;
    let fees = split_entry_fee(
        arena.battleground.entry_fee,
        config.fee,
        arena.battleground.creator_fee,
    );
    let event = JoinBattlegroundEvent {
        battleground: arena.battleground_key,
        nft_mint: ctx.nft_mint,
        attack,
        defense,
    };
    Ok(JoinReceipt { fees, event })
}

/// A successful join stores the derived statistics: attack plus 100,
/// defense plus 50, 750 health plus five per point of derived defense, no
/// action points spent, alive.
pub proof fn law_join_stores_derived_stats(
    before: Arena,
    after: Arena,
    ctx: JoinBattleground,
    attack: u32,
    defense: u32,
)
    requires
        allocation_valid(attack, defense),
        joined(before, after, ctx, attack, defense),
    ensures
        ({
            let p = after.participants@.last();
            &&& p.battleground == before.battleground_key
            &&& p.nft_mint == ctx.nft_mint
            &&& p.attack == attack + 100
            &&& p.defense == defense + 50
            &&& p.health_points == 750 + (defense + 50) * 5
            &&& p.action_points_spent == 0
            &&& p.alive
        }),
{
}

/// A join whose allocation exceeds the cap fails with `InvalidStatistics`,
/// before any other gate; a failed join changes nothing.
pub proof fn law_overallocation_rejected(
    arena: Arena,
    ctx: JoinBattleground,
    attack: u32,
    defense: u32,
    collection_whitelist_proof: Option<Vec<[u8; 32]>>,
    holder_whitelist_proof: Option<Vec<[u8; 32]>>,
)
    requires
        attack + defense > 100,
    ensures
        join_error(arena, ctx, attack, defense, collection_whitelist_proof, holder_whitelist_proof)
            == Some(BattleRoyaleError::InvalidStatistics),
{
}

proof fn lemma_count_follows_joins(history: Seq<Arena>, i: int)
    requires
        0 <= i < history.len(),
        history[0].battleground.participants == 0,
        forall|k: int|
            0 <= k < history.len() - 1 ==> (#[trigger] history[k]).battleground.participants
                < history[k].battleground.participants_cap && history[k + 1].battleground
                == with_one_more(history[k].battleground),
    ensures
        history[i].battleground.participants == i,
        history[i].battleground.participants_cap == history[0].battleground.participants_cap,
        i <= history[0].battleground.participants_cap,
    decreases i,
{
    if i > 0 {
        lemma_count_follows_joins(history, i - 1);
        let prev = history[i - 1];
        assert(prev.battleground.participants < prev.battleground.participants_cap);
        assert(history[i].battleground == with_one_more(prev.battleground));
    }
}

/// Joins into a battleground that started empty each add one to its count,
/// so there are never more of them than its cap; once the cap is reached, a
/// further join fails, and with a valid allocation and holder proof it fails
/// because the battleground is full.
pub proof fn law_capacity(
    history: Seq<Arena>,
    ctx: JoinBattleground,
    attack: u32,
    defense: u32,
    collection_whitelist_proof: Option<Vec<[u8; 32]>>,
    holder_whitelist_proof: Option<Vec<[u8; 32]>>,
)
    requires
        history.len() >= 1,
        history[0].battleground.participants == 0,
        forall|k: int|
            0 <= k < history.len() - 1 ==> (#[trigger] history[k]).battleground.participants
                < history[k].battleground.participants_cap && history[k + 1].battleground
                == with_one_more(history[k].battleground),
    ensures
        history.len() - 1 <= history[0].battleground.participants_cap,
        history.len() - 1 == history[0].battleground.participants_cap ==> {
            let e = join_error(
                history.last(),
                ctx,
                attack,
                defense,
                collection_whitelist_proof,
                holder_whitelist_proof,
            );
            &&& e is Some
            &&& allocation_valid(attack, defense) && holder_admitted(
                history.last().battleground.whitelist_root,
                holder_whitelist_proof,
                ctx.signer,
            ) ==> e == Some(BattleRoyaleError::BattlegroundFull)
        },
{
    lemma_count_follows_joins(history, history.len() - 1);
}

/// A join into a battleground that is not preparing fails; where the
/// allocation, holder and capacity gates pass, it fails with
/// `WrongBattlegroundStatus`.
pub proof fn law_status_gate(
    arena: Arena,
    ctx: JoinBattleground,
    attack: u32,
    defense: u32,
    collection_whitelist_proof: Option<Vec<[u8; 32]>>,
    holder_whitelist_proof: Option<Vec<[u8; 32]>>,
)
    requires
        arena.battleground.status != BattlegroundStatus::Preparing,
    ensures
        ({
            let e = join_error(
                arena,
                ctx,
                attack,
                defense,
                collection_whitelist_proof,
                holder_whitelist_proof,
            );
            &&& e is Some
            &&& allocation_valid(attack, defense) && holder_admitted(
                arena.battleground.whitelist_root,
                holder_whitelist_proof,
                ctx.signer,
            ) && arena.battleground.participants < arena.battleground.participants_cap ==> e
                == Some(BattleRoyaleError::WrongBattlegroundStatus)
        }),
{
}

/// Once an asset has joined a battleground, a second join with the same
/// asset fails; where every earlier gate passes, it fails because the record
/// already exists.
pub proof fn law_one_entry_per_asset(
    before: Arena,
    after: Arena,
    first: JoinBattleground,
    attack: u32,
    defense: u32,
    second: JoinBattleground,
    second_attack: u32,
    second_defense: u32,
    collection_whitelist_proof: Option<Vec<[u8; 32]>>,
    holder_whitelist_proof: Option<Vec<[u8; 32]>>,
)
    requires
        joined(before, after, first, attack, defense),
        second.nft_mint == first.nft_mint,
    ensures
        ({
            let e = join_error(
                after,
                second,
                second_attack,
                second_defense,
                collection_whitelist_proof,
                holder_whitelist_proof,
            );
            let bg = after.battleground;
            &&& e is Some
            &&& allocation_valid(second_attack, second_defense) && holder_admitted(
                bg.whitelist_root,
                holder_whitelist_proof,
                second.signer,
            ) && bg.participants < bg.participants_cap && bg.status
                == BattlegroundStatus::Preparing && second.player_nft_amount == 1
                && collection_admits(
                bg.collection_info,
                second.nft_metadata,
                second.nft_mint,
                collection_whitelist_proof,
            ) ==> e == Some(BattleRoyaleError::ParticipantAlreadyExists)
        }),
{
    let entries = after.participants@;
    let i = entries.len() - 1;
    assert(entries[i].battleground == after.battleground_key && entries[i].nft_mint
        == second.nft_mint);
    assert(has_key(entries, after.battleground_key, second.nft_mint));
}

} // verus!
