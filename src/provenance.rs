//! Gates on who may join and with what: the holder allow-list and the
//! collection membership of the presented asset.

use vstd::prelude::*;
use crate::merkle::{bytes_eq, hash_leaf, leaf_of, proof_root, verify};
use crate::state::{CollectionInfo, CollectionRequirement};

verus! {

/// One creator entry of an asset's certified metadata.
#[derive(Clone, Copy, Debug, PartialEq, Eq)]
pub struct MetadataCreator {
    pub address: [u8; 32],
    /// Set by the creator itself, never by the asset's holder.
    pub verified: bool,
}

/// The parts of an asset's certified metadata that provenance depends on.
pub struct NftMetadata {
    /// The asset the record describes.
    pub mint: [u8; 32],
    pub creators: Vec<MetadataCreator>,
}

/// Whether `holder`'s allow-list leaf leads to `root` through `whitelist_proof`.
pub open spec fn holder_listed(whitelist_proof: Seq<[u8; 32]>, root: [u8; 32], holder: [u8; 32]) -> bool {
    proof_root(leaf_of(holder), whitelist_proof) == root
}

/// Whether the caller passes the battleground's holder gate: always where it
/// has no allow-list, else only with a proof that lists the caller.
pub open spec fn holder_admitted(
    whitelist_root: Option<[u8; 32]>,
    whitelist_proof: Option<Vec<[u8; 32]>>,
    holder: [u8; 32],
) -> bool {
    match whitelist_root {
        None => true,
        Some(root) => {
            match whitelist_proof {
                Some(p) => holder_listed(p@, root, holder),
                None => false,
            }
        },
    }
}

/// Whether some verified creator of `metadata` is one of `authorities`.
pub open spec fn verified_by_one_of(metadata: Seq<MetadataCreator>, authorities: Seq<[u8; 32]>) -> bool {
    exists|i: int, k: int|
        0 <= i < metadata.len() && 0 <= k < authorities.len() && (#[trigger] metadata[i]).verified
            && metadata[i].address == #[trigger] authorities[k]
}

/// Whether the asset `nft_mint`, described by `metadata`, belongs to the
/// collection: by a verified creator, or by an allow-list proof of its leaf.
pub open spec fn collection_admits(
    info: CollectionInfo,
    metadata: NftMetadata,
    nft_mint: [u8; 32],
    whitelist_proof: Option<Vec<[u8; 32]>>,
) -> bool {
    match info.requirement {
        CollectionRequirement::VerifiedCreators { creators } => metadata.mint == nft_mint
            && verified_by_one_of(metadata.creators@, creators@),
        CollectionRequirement::Whitelist { root } => {
            match whitelist_proof {
                Some(p) => proof_root(leaf_of(nft_mint), p@) == root,
                None => false,
            }
        },
    }
}

/// Whether `holder` is on the allow-list with root `root`, as `whitelist_proof` shows.
pub fn verify_holder(whitelist_proof: &Vec<[u8; 32]>, root: &[u8; 32], holder: &[u8; 32]) -> (r: bool)
    ensures
        r == holder_listed(whitelist_proof@, *root, *holder),
{
    let leaf = hash_leaf(holder);
    verify(whitelist_proof, root, &leaf)
}

/// Whether the caller passes the holder gate of a battleground whose
/// allow-list root is `whitelist_root`.
pub fn check_holder(
    whitelist_root: &Option<[u8; 32]>,
    whitelist_proof: &Option<Vec<[u8; 32]>>,
    holder: &[u8; 32],
) -> (r: bool)
    ensures
        r == holder_admitted(*whitelist_root, *whitelist_proof, *holder),
{
    match whitelist_root {
        None => true,
        Some(root) => match whitelist_proof {
            Some(p) => verify_holder(p, root, holder),
            None => false,
        },
    }
}

fn has_verified_creator(metadata: &Vec<MetadataCreator>, authorities: &Vec<[u8; 32]>) -> (r: bool)
    ensures
        r == verified_by_one_of(metadata@, authorities@),
{
    let mut i: usize = 0;
    while i < metadata.len()
        invariant
            0 <= i <= metadata@.len(),
            forall|a: int, k: int|
                0 <= a < i && 0 <= k < authorities@.len() && (#[trigger] metadata@[a]).verified
                    ==> metadata@[a].address != #[trigger] authorities@[k],
        decreases metadata@.len() - i,
    {
        let c = &metadata[i];
        if c.verified {
            let mut k: usize = 0;
            while k < authorities.len()
                invariant
                    0 <= i < metadata@.len(),
                    0 <= k <= authorities@.len(),
                    *c == metadata@[i as int],
                    c.verified,
                    forall|j: int| 0 <= j < k ==> c.address != #[trigger] authorities@[j],
                decreases authorities@.len() - k,
            {
                if bytes_eq(&c.address, &authorities[k]) {
                    return true;
                }
                k = k + 1;
            }
        }
        i = i + 1;
    }
    false
}

/// Whether the asset `nft_mint`, described by `metadata`, belongs to the
/// collection that `info` requires.
pub fn verify_collection(
    metadata: &NftMetadata,
    info: &CollectionInfo,
    nft_mint: &[u8; 32],
    whitelist_proof: &Option<Vec<[u8; 32]>>,
) -> (r: bool)
    ensures
        r == collection_admits(*info, *metadata, *nft_mint, *whitelist_proof),
{
    match &info.requirement {
        CollectionRequirement::VerifiedCreators { creators } => bytes_eq(&metadata.mint, nft_mint)
            && has_verified_creator(&metadata.creators, creators),
        CollectionRequirement::Whitelist { root } => match whitelist_proof {
            Some(p) => {
                let leaf = hash_leaf(nft_mint);
                verify(p, root, &leaf)
            },
            None => false,
        },
    }
}

} // verus!
