//! Merkle inclusion proofs over Keccak-256, with sorted pair hashing.

use vstd::prelude::*;

verus! {

broadcast use vstd::array::group_array_axioms;

/// The Keccak-256 digest of a byte string.
pub uninterp spec fn keccak_of(data: Seq<u8>) -> [u8; 32];

/// Relies on `solana_program::keccak::hash` (re-exported by anchor_lang):
/// the Keccak-256 digest of the given bytes.
#[verifier::external_body]
fn keccak(data: &[u8]) -> (r: [u8; 32])
    ensures
        r == keccak_of(data@),
{
    anchor_lang::solana_program::keccak::hash(data).to_bytes()
}

/// Lexicographic order on byte strings (a proper prefix comes first).
pub open spec fn lex_le(a: Seq<u8>, b: Seq<u8>) -> bool
    decreases a.len(),
{
    if a.len() == 0 {
        true
    } else if b.len() == 0 {
        false
    } else if a[0] != b[0] {
        a[0] < b[0]
    } else {
        lex_le(a.drop_first(), b.drop_first())
    }
}

/// The parent of two nodes: the digest of the smaller followed by the larger.
pub open spec fn parent_of(a: [u8; 32], b: [u8; 32]) -> [u8; 32] {
    if lex_le(a@, b@) {
        keccak_of(a@ + b@)
    } else {
        keccak_of(b@ + a@)
    }
}

/// The leaf that stands for a 32-byte identity in an allow-list.
pub open spec fn leaf_of(id: [u8; 32]) -> [u8; 32] {
    keccak_of(id@)
}

/// The root reached from `node` by hashing it with each sibling in turn.
pub open spec fn proof_root(node: [u8; 32], siblings: Seq<[u8; 32]>) -> [u8; 32]
    decreases siblings.len(),
{
    if siblings.len() == 0 {
        node
    } else {
        proof_root(parent_of(node, siblings[0]), siblings.drop_first())
    }
}

/// The level above `level`: nodes are paired left to right, and an odd last
/// node is carried up unchanged.
pub open spec fn next_level(level: Seq<[u8; 32]>) -> Seq<[u8; 32]> {
    Seq::new(
        ((level.len() + 1) / 2) as nat,
        |j: int|
            if 2 * j + 1 < level.len() {
                parent_of(level[2 * j], level[2 * j + 1])
            } else {
                level[2 * j]
            },
    )
}

/// The root of the tree whose bottom level is `level`.
pub open spec fn tree_root(level: Seq<[u8; 32]>) -> [u8; 32]
    decreases level.len(),
{
    if level.len() <= 1 {
        level[0]
    } else {
        tree_root(next_level(level))
    }
}

/// The siblings met on the way from position `i` of `level` up to the root.
pub open spec fn tree_proof(level: Seq<[u8; 32]>, i: int) -> Seq<[u8; 32]>
    decreases level.len(),
{
    if level.len() <= 1 {
        Seq::empty()
    } else if i % 2 == 1 {
        seq![level[i - 1]] + tree_proof(next_level(level), i / 2)
    } else if i + 1 < level.len() {
        seq![level[i + 1]] + tree_proof(next_level(level), i / 2)
    } else {
        tree_proof(next_level(level), i / 2)
    }
}

proof fn lemma_lex_total(a: Seq<u8>, b: Seq<u8>)
    ensures
        lex_le(a, b) || lex_le(b, a),
        lex_le(a, b) && lex_le(b, a) ==> a == b,
    decreases a.len(),
{
    if a.len() > 0 && b.len() > 0 && a[0] == b[0] {
        lemma_lex_total(a.drop_first(), b.drop_first());
        if lex_le(a, b) && lex_le(b, a) {
            assert(a =~= seq![a[0]] + a.drop_first());
            assert(b =~= seq![b[0]] + b.drop_first());
        }
    }
}

proof fn lemma_parent_symmetric(a: [u8; 32], b: [u8; 32])
    ensures
        parent_of(a, b) == parent_of(b, a),
{
    lemma_lex_total(a@, b@);
    if lex_le(a@, b@) && lex_le(b@, a@) {
        assert(a =~= b);
    }
}

/// Every leaf of a tree is shown to belong to it by the proof generated for
/// its position: folding the proof from the leaf gives the tree's root.
pub proof fn law_tree_proofs_verify(level: Seq<[u8; 32]>, i: int)
    requires
        0 <= i < level.len(),
    ensures
        proof_root(level[i], tree_proof(level, i)) == tree_root(level),
    decreases level.len(),
{
    if level.len() > 1 {
        let next = next_level(level);
        let j = i / 2;
        law_tree_proofs_verify(next, j);
        let rest = tree_proof(next, j);
        if i % 2 == 1 {
            let p = seq![level[i - 1]] + rest;
            assert(p[0] == level[i - 1]);
            assert(p.drop_first() =~= rest);
            lemma_parent_symmetric(level[i], level[i - 1]);
            assert(next[j] == parent_of(level[i - 1], level[i]));
        } else if i + 1 < level.len() {
            let p = seq![level[i + 1]] + rest;
            assert(p[0] == level[i + 1]);
            assert(p.drop_first() =~= rest);
            assert(next[j] == parent_of(level[i], level[i + 1]));
        } else {
            assert(next[j] == level[i]);
        }
    }
}

/// Whether `a` comes before or equals `b` in lexicographic order.
pub fn bytes_le(a: &[u8; 32], b: &[u8; 32]) -> (r: bool)
    ensures
        r == lex_le(a@, b@),
{
    let mut i: usize = 0;
    assert(a@.subrange(0, 32) =~= a@);
    assert(b@.subrange(0, 32) =~= b@);
    while i < 32
        invariant
            0 <= i <= 32,
            lex_le(a@.subrange(i as int, 32), b@.subrange(i as int, 32)) == lex_le(a@, b@),
        decreases 32 - i,
    {
        assert(a@.subrange(i as int, 32).drop_first() =~= a@.subrange(i + 1, 32));
        assert(b@.subrange(i as int, 32).drop_first() =~= b@.subrange(i + 1, 32));
        if a[i] != b[i] {
            return a[i] < b[i];
        }
        i = i + 1;
    }
    true
}

/// Whether two 32-byte strings are equal.
pub fn bytes_eq(a: &[u8; 32], b: &[u8; 32]) -> (r: bool)
    ensures
        r == (*a == *b),
{
    let mut i: usize = 0;
    while i < 32
        invariant
            0 <= i <= 32,
            forall|k: int| 0 <= k < i ==> a@[k] == b@[k],
        decreases 32 - i,
    {
        if a[i] != b[i] {
            return false;
        }
        i = i + 1;
    }
    assert(*a =~= *b);
    true
}

fn concat(a: &[u8; 32], b: &[u8; 32]) -> (r: Vec<u8>)
    ensures
        r@ == a@ + b@,
{
    let mut out: Vec<u8> = Vec::new();
    let mut i: usize = 0;
    while i < 32
        invariant
            0 <= i <= 32,
            out@ == a@.subrange(0, i as int),
        decreases 32 - i,
    {
        out.push(a[i]);
        i = i + 1;
    }
    let mut k: usize = 0;
    while k < 32
        invariant
            0 <= k <= 32,
            out@ == a@ + b@.subrange(0, k as int),
        decreases 32 - k,
    {
        out.push(b[k]);
        k = k + 1;
    }
    assert(a@.subrange(0, 32) =~= a@);
    assert(b@.subrange(0, 32) =~= b@);
    out
}

/// The parent node of two sibling nodes.
pub fn hash_pair(a: &[u8; 32], b: &[u8; 32]) -> (r: [u8; 32])
    ensures
        r == parent_of(*a, *b),
{
    let data = if bytes_le(a, b) {
        concat(a, b)
    } else {
        concat(b, a)
    };
    keccak(data.as_slice())
}

/// The allow-list leaf of a 32-byte identity.
pub fn hash_leaf(id: &[u8; 32]) -> (r: [u8; 32])
    ensures
        r == leaf_of(*id),
{
    let mut data: Vec<u8> = Vec::new();
    let mut i: usize = 0;
    while i < 32
        invariant
            0 <= i <= 32,
            data@ == id@.subrange(0, i as int),
        decreases 32 - i,
    {
        data.push(id[i]);
        i = i + 1;
    }
    assert(id@.subrange(0, 32) =~= id@);
    keccak(data.as_slice())
}

/// Whether `siblings` lead from `leaf` to `root`.
pub fn verify(siblings: &Vec<[u8; 32]>, root: &[u8; 32], leaf: &[u8; 32]) -> (r: bool)
    ensures
        r == (proof_root(*leaf, siblings@) == *root),
{
    let mut node: [u8; 32] = *leaf;
    let mut i: usize = 0;
    assert(siblings@.subrange(0, siblings@.len() as int) =~= siblings@);
    while i < siblings.len()
        invariant
            0 <= i <= siblings@.len(),
            proof_root(node, siblings@.subrange(i as int, siblings@.len() as int)) == proof_root(
                *leaf,
                siblings@,
            ),
        decreases siblings@.len() - i,
    {
        let ghost len = siblings@.len() as int;
        assert(siblings@.subrange(i as int, len).drop_first() =~= siblings@.subrange(i + 1, len));
        node = hash_pair(&node, &siblings[i]);
        i = i + 1;
    }
    assert(siblings@.subrange(i as int, siblings@.len() as int) =~= Seq::<[u8; 32]>::empty());
    bytes_eq(&node, root)
}

fn copy_level(level: &Vec<[u8; 32]>) -> (r: Vec<[u8; 32]>)
    ensures
        r@ == level@,
{
    let mut out: Vec<[u8; 32]> = Vec::new();
    let mut i: usize = 0;
    while i < level.len()
        invariant
            0 <= i <= level@.len(),
            out@ == level@.subrange(0, i as int),
        decreases level@.len() - i,
    {
        out.push(level[i]);
        i = i + 1;
    }
    assert(level@.subrange(0, level@.len() as int) =~= level@);
    out
}

/// The level above `level` in a tree: pairs hashed left to right, an odd
/// last node carried up.
pub fn parent_level(level: &Vec<[u8; 32]>) -> (r: Vec<[u8; 32]>)
    ensures
        r@ == next_level(level@),
{
    let n = level.len();
    let mut out: Vec<[u8; 32]> = Vec::new();
    let mut i: usize = 0;
    while i < n
        invariant
            n == level@.len(),
            0 <= i <= n,
            i % 2 == 0 || i == n,
            out@.len() == (i + 1) / 2,
            forall|k: int| 0 <= k < out@.len() ==> out@[k] == #[trigger] next_level(level@)[k],
        decreases n - i,
    {
        if i + 1 < n {
            let h = hash_pair(&level[i], &level[i + 1]);
            out.push(h);
            i = i + 2;
        } else {
            out.push(level[i]);
            i = i + 1;
        }
    }
    assert(out@ =~= next_level(level@));
    out
}

/// The root of the tree whose leaves are `leaves`.
pub fn merkle_root(leaves: &Vec<[u8; 32]>) -> (r: [u8; 32])
    requires
        leaves@.len() >= 1,
    ensures
        r == tree_root(leaves@),
{
    let mut level = copy_level(leaves);
    while level.len() > 1
        invariant
            level@.len() >= 1,
            tree_root(level@) == tree_root(leaves@),
        decreases level@.len(),
    {
        level = parent_level(&level);
    }
    level[0]
}

/// The proof of the leaf at position `index`: its siblings from the bottom
/// level up to the root.
pub fn merkle_proof(leaves: &Vec<[u8; 32]>, index: usize) -> (r: Vec<[u8; 32]>)
    requires
        index < leaves@.len(),
    ensures
        r@ == tree_proof(leaves@, index as int),
{
    let mut level = copy_level(leaves);
    let mut i: usize = index;
    let mut out: Vec<[u8; 32]> = Vec::new();
    while level.len() > 1
        invariant
            i < level@.len(),
            out@ + tree_proof(level@, i as int) == tree_proof(leaves@, index as int),
        decreases level@.len(),
    {
        let ghost before = out@;
        let ghost rest = tree_proof(next_level(level@), (i / 2) as int);
        if i % 2 == 1 {
            out.push(level[i - 1]);
            assert(before + (seq![level@[i - 1]] + rest) =~= out@ + rest);
        } else if i + 1 < level.len() {
            out.push(level[i + 1]);
            assert(before + (seq![level@[i + 1]] + rest) =~= out@ + rest);
        }
        level = parent_level(&level);
        i = i / 2;
    }
    assert(out@ + Seq::<[u8; 32]>::empty() =~= out@);
    out
}

} // verus!
