//! Admission logic of a battle royale game: Merkle allow-lists, collection
//! provenance, stat derivation, entry-fee splitting and the join workflow.

pub mod merkle;
pub mod errors;
pub mod state;
pub mod economics;
pub mod provenance;
pub mod join_battleground;
