//! Persisted records of the game: the global configuration, battlegrounds and
//! participants, and the allocate-once store of participant records.

use vstd::prelude::*;

verus! {

/// The process-wide configuration, created once and read by every admission.
pub struct BattleRoyaleState {
    pub bump: u8,
    /// The administrator's identity.
    pub game_master: [u8; 32],
    /// The treasury that receives the protocol's share of entry fees.
    pub dev_fund: [u8; 32],
    /// The protocol fee rate, in basis points.
    pub fee: u16,
    /// How many battlegrounds were ever created.
    pub last_battleground_id: u64,
}

/// The lifecycle of a battleground: strictly forward, never back.
#[derive(Clone, Copy, Debug, PartialEq, Eq, Structural)]
pub enum BattlegroundStatus {
    Preparing,
    Ongoing,
    Finished,
}

/// The actions a participant can take once a battle is under way.
#[derive(Clone, Copy, Debug, PartialEq, Eq, Structural)]
pub enum ActionType {
    Attack,
    Heal,
    Flee,
}

/// How membership of the required collection is established.
pub enum CollectionRequirement {
    /// The asset's metadata lists one of these authorities as a verified creator.
    VerifiedCreators { creators: Vec<[u8; 32]> },
    /// The asset's identity is a leaf of the allow-list with this root.
    Whitelist { root: [u8; 32] },
}

/// The collection a battleground admits assets from.
pub struct CollectionInfo {
    pub collection: [u8; 32],
    pub requirement: CollectionRequirement,
}

/// One configured match.
pub struct BattlegroundState {
    pub bump: u8,
    pub id: u64,
    pub collection_info: CollectionInfo,
    pub start_time: i64,
    pub action_points_per_day: u32,
    pub participants_cap: u32,
    pub participants: u32,
    pub status: BattlegroundStatus,
    /// The asset that entry fees are paid in.
    pub pot_mint: [u8; 32],
    pub entry_fee: u64,
    pub creator: [u8; 32],
    /// The creator's fee rate, in basis points.
    pub creator_fee: u16,
    /// The root of the holder allow-list, when the battleground has one.
    pub whitelist_root: Option<[u8; 32]>,
}

impl BattlegroundState {
    /// The battleground's own invariant: never more participants than its cap.
    pub open spec fn wf(&self) -> bool {
        self.participants <= self.participants_cap
    }
}

/// The record of one asset's entry into one battleground.
#[derive(Clone, Copy, Debug, PartialEq, Eq)]
pub struct ParticipantState {
    pub bump: u8,
    pub battleground: [u8; 32],
    pub nft_mint: [u8; 32],
    pub attack: u16,
    pub defense: u16,
    pub health_points: u16,
    pub action_points_spent: u16,
    pub alive: bool,
}

/// Whether some record of `entries` is keyed by `(battleground, nft_mint)`.
pub open spec fn has_key(entries: Seq<ParticipantState>, battleground: [u8; 32], nft_mint: [u8; 32]) -> bool {
    exists|i: int|
        0 <= i < entries.len() && (#[trigger] entries[i]).battleground == battleground
            && entries[i].nft_mint == nft_mint
}

/// Whether no two records of `entries` share a `(battleground, nft_mint)` key.
pub open spec fn keys_unique(entries: Seq<ParticipantState>) -> bool {
    forall|i: int, j: int|
        0 <= i < entries.len() && 0 <= j < entries.len() && i != j
            ==> !((#[trigger] entries[i]).battleground == (#[trigger] entries[j]).battleground
            && entries[i].nft_mint == entries[j].nft_mint)
}

/// Participant records, keyed by `(battleground, nft_mint)`; a key, once
/// allocated, backs its record for good.
pub struct ParticipantRegistry {
    entries: Vec<ParticipantState>,
}

impl View for ParticipantRegistry {
    type V = Seq<ParticipantState>;

    closed spec fn view(&self) -> Seq<ParticipantState> {
        self.entries@
    }
}

impl ParticipantRegistry {
    pub open spec fn wf(&self) -> bool {
        keys_unique(self@)
    }

    /// An empty store.
    pub fn new() -> (r: Self)
        ensures
            r@ == Seq::<ParticipantState>::empty(),
            r.wf(),
    {
        ParticipantRegistry { entries: Vec::new() }
    }

    /// How many records the store holds.
    pub fn len(&self) -> (r: usize)
        ensures
            r == self@.len(),
    {
        self.entries.len()
    }

    /// The record at position `i`, in order of allocation.
    pub fn entry(&self, i: usize) -> (r: ParticipantState)
        requires
            i < self@.len(),
        ensures
            r == self@[i as int],
    {
        self.entries[i]
    }

    /// Whether a record is keyed by `(battleground, nft_mint)`.
    pub fn contains(&self, battleground: &[u8; 32], nft_mint: &[u8; 32]) -> (r: bool)
        ensures
            r == has_key(self@, *battleground, *nft_mint),
    {
        let mut i: usize = 0;
        while i < self.entries.len()
            invariant
                0 <= i <= self@.len(),
                forall|k: int|
                    0 <= k < i ==> !((#[trigger] self@[k]).battleground == *battleground
                        && self@[k].nft_mint == *nft_mint),
            decreases self@.len() - i,
        {
            let e = &self.entries[i];
            if crate::merkle::bytes_eq(&e.battleground, battleground) && crate::merkle::bytes_eq(
                &e.nft_mint,
                nft_mint,
            ) {
                return true;
            }
            i = i + 1;
        }
        false
    }

    /// Allocates the key of `p` and stores `p` under it; fails, changing
    /// nothing, where the key is already allocated.
    pub fn allocate(&mut self, p: ParticipantState) -> (r: bool)
        requires
            old(self).wf(),
        ensures
            final(self).wf(),
            r == !has_key(old(self)@, p.battleground, p.nft_mint),
            r ==> final(self)@ == old(self)@.push(p),
            !r ==> *final(self) == *old(self),
    {
        if self.contains(&p.battleground, &p.nft_mint) {
            return false;
        }
        self.entries.push(p);
        assert forall|i: int, j: int|
            0 <= i < self@.len() && 0 <= j < self@.len() && i != j implies !((
            #[trigger] self@[i]).battleground == (#[trigger] self@[j]).battleground
            && self@[i].nft_mint == self@[j].nft_mint) by {
            if i < old(self)@.len() && j < old(self)@.len() {
                assert(old(self)@[i] == self@[i] && old(self)@[j] == self@[j]);
            } else if i < old(self)@.len() {
                assert(old(self)@[i] == self@[i]);
            } else {
                assert(old(self)@[j] == self@[j]);
            }
        }
        true
    }
}

} // verus!
