//! Pure arithmetic of an admission: the entry-fee split and the derivation
//! of combat statistics from a player's allocation.

use vstd::prelude::*;
use crate::errors::BattleRoyaleError;

verus! {

/// The most basis points a rate can have: the whole amount.
pub const BPS_DENOMINATOR: u64 = 10000;

/// The most attack and defense points a player can allocate in total.
pub const MAX_ALLOCATION: u32 = 100;

/// How an entry fee is shared out.
#[derive(Clone, Copy, Debug, PartialEq, Eq, Structural)]
pub struct FeeSplit {
    /// What goes to the battleground's pot.
    pub pot_share: u64,
    /// What goes to the protocol treasury.
    pub dev_fee: u64,
    /// What goes to the battleground's creator.
    pub creator_fee: u64,
}

/// `amount * bps / 10000`, rounded down.
pub open spec fn share_of(amount: u64, bps: u16) -> int {
    (amount as int * bps as int) / 10000
}

/// The split of `entry_fee` at the two rates: each fee rounded down, the
/// pot taking the rest.
pub open spec fn fee_split_of(entry_fee: u64, protocol_fee_bps: u16, creator_fee_bps: u16) -> FeeSplit {
    FeeSplit {
        pot_share: (entry_fee - share_of(entry_fee, protocol_fee_bps) - share_of(
            entry_fee,
            creator_fee_bps,
        )) as u64,
        dev_fee: share_of(entry_fee, protocol_fee_bps) as u64,
        creator_fee: share_of(entry_fee, creator_fee_bps) as u64,
    }
}

proof fn lemma_shares_fit(entry_fee: u64, p: u16, c: u16)
    requires
        p + c <= 10000,
    ensures
        0 <= share_of(entry_fee, p),
        0 <= share_of(entry_fee, c),
        share_of(entry_fee, p) + share_of(entry_fee, c) <= entry_fee,
{
    let e = entry_fee as int;
    let x = e * p as int;
    let y = e * c as int;
    assert(0 <= x && 0 <= y) by (nonlinear_arith)
        requires
            e >= 0,
            p >= 0,
            c >= 0,
            x == e * p as int,
            y == e * c as int,
    ;
    assert(x + y <= e * 10000) by (nonlinear_arith)
        requires
            e >= 0,
            p + c <= 10000,
            x == e * p as int,
            y == e * c as int,
    ;
    assert((x / 10000) * 10000 <= x) by (nonlinear_arith)
        requires
            x >= 0,
    ;
    assert((y / 10000) * 10000 <= y) by (nonlinear_arith)
        requires
            y >= 0,
    ;
    assert(x / 10000 >= 0 && y / 10000 >= 0) by (nonlinear_arith)
        requires
            x >= 0,
            y >= 0,
    ;
    assert(x / 10000 + y / 10000 <= e) by (nonlinear_arith)
        requires
            (x / 10000) * 10000 <= x,
            (y / 10000) * 10000 <= y,
            x + y <= e * 10000,
    ;
}

/// Splits `entry_fee` into the pot's share, the protocol fee and the creator
/// fee.
pub fn split_entry_fee(entry_fee: u64, protocol_fee_bps: u16, creator_fee_bps: u16) -> (r: FeeSplit)
    requires
        protocol_fee_bps + creator_fee_bps <= 10000,
    ensures
        r == fee_split_of(entry_fee, protocol_fee_bps, creator_fee_bps),
        r.dev_fee == share_of(entry_fee, protocol_fee_bps),
        r.creator_fee == share_of(entry_fee, creator_fee_bps),
        r.pot_share + r.dev_fee + r.creator_fee == entry_fee,
{
    proof {
        lemma_shares_fit(entry_fee, protocol_fee_bps, creator_fee_bps);
    }
    let dev_wide: u128 = (entry_fee as u128) * (protocol_fee_bps as u128);
    let creator_wide: u128 = (entry_fee as u128) * (creator_fee_bps as u128);
    let dev_fee = (dev_wide / (BPS_DENOMINATOR as u128)) as u64;
    let creator_fee = (creator_wide / (BPS_DENOMINATOR as u128)) as u64;
    FeeSplit { pot_share: entry_fee - dev_fee - creator_fee, dev_fee, creator_fee }
}

/// Splitting an entry fee at rates that sum to at most the whole loses and
/// creates nothing: the three shares are non-negative and add up to the fee.
pub proof fn law_fee_split_conserves(entry_fee: u64, protocol_fee_bps: u16, creator_fee_bps: u16)
    requires
        protocol_fee_bps + creator_fee_bps <= 10000,
    ensures
        ({
            let s = fee_split_of(entry_fee, protocol_fee_bps, creator_fee_bps);
            &&& s.dev_fee + s.creator_fee + s.pot_share == entry_fee
            &&& s.pot_share == entry_fee - share_of(entry_fee, protocol_fee_bps) - share_of(
                entry_fee,
                creator_fee_bps,
            )
            &&& s.pot_share >= 0
        }),
{
    lemma_shares_fit(entry_fee, protocol_fee_bps, creator_fee_bps);
}

/// Combat statistics derived from an allocation.
#[derive(Clone, Copy, Debug, PartialEq, Eq, Structural)]
pub struct DerivedStats {
    pub attack: u16,
    pub defense: u16,
    pub health_points: u16,
}

/// Whether an allocation stays within the cap.
pub open spec fn allocation_valid(attack: u32, defense: u32) -> bool {
    attack + defense <= 100
}

/// The statistics of an allocation within the cap: a floor of 100 attack
/// and 50 defense, and 750 health plus five per point of defense.
pub open spec fn stats_of(attack: u32, defense: u32) -> DerivedStats {
    DerivedStats {
        attack: (attack + 100) as u16,
        defense: (defense + 50) as u16,
        health_points: (750 + (defense + 50) * 5) as u16,
    }
}

/// Derives combat statistics from an allocation, which must not exceed 100
/// points in total.
pub fn derive_stats(attack: u32, defense: u32) -> (r: Result<DerivedStats, BattleRoyaleError>)
    ensures
        allocation_valid(attack, defense) ==> r == Ok::<DerivedStats, BattleRoyaleError>(
            stats_of(attack, defense),
        ),
        !allocation_valid(attack, defense) ==> r == Err::<DerivedStats, BattleRoyaleError>(
            BattleRoyaleError::InvalidStatistics,
        ),
{
    if attack > MAX_ALLOCATION || defense > MAX_ALLOCATION - attack {
        return Err(BattleRoyaleError::InvalidStatistics);
    }
    let final_defense: u16 = (defense + 50) as u16;
    Ok(
        DerivedStats {
            attack: (attack + 100) as u16,
            defense: final_defense,
            health_points: 750 + final_defense * 5,
        },
    )
}

/// Within the cap, derived attack is the allocation plus 100, derived defense
/// the allocation plus 50, and health 750 plus five times derived defense.
pub proof fn law_stats_derivation(attack: u32, defense: u32)
    requires
        allocation_valid(attack, defense),
    ensures
        stats_of(attack, defense).attack == attack + 100,
        stats_of(attack, defense).defense == defense + 50,
        stats_of(attack, defense).health_points == 750 + (defense + 50) * 5,
{
}

} // verus!
