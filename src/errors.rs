//! The reasons an instruction of the game can fail.

use vstd::prelude::*;

verus! {

/// Every failure of the game's instructions; each one aborts the whole
/// instruction with no change made.
#[derive(Clone, Copy, Debug, PartialEq, Eq, Structural)]
pub enum BattleRoyaleError {
    /// The attack and defense allocation exceeds the 100-point cap.
    InvalidStatistics,
    /// The collection symbol of a battleground's configuration is malformed.
    CollectionSymbolInvalid,
    /// The creator list of a battleground's configuration is malformed.
    VerifiedCreatorsInvalid,
    /// The presented asset could not be shown to belong to the collection.
    CollectionVerificationFailed,
    /// Not enough action points are left for the requested action.
    InsufficientActionPoints,
    /// The battleground is not in the status that the instruction needs.
    WrongBattlegroundStatus,
    /// The battleground already holds as many participants as it allows.
    BattlegroundFull,
    /// The caller is not on the battleground's holder allow-list.
    HolderVerificationFailed,
    /// The caller does not hold exactly one unit of the presented asset.
    NftNotHeld,
    /// The asset already has a participant record in this battleground.
    ParticipantAlreadyExists,
}

} // verus!
