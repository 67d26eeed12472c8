use vstd::prelude::*;
use crate::types::Key;

verus! {

/// The Keccak-256 digest of a byte string.
pub uninterp spec fn keccak_of(data: Seq<u8>) -> Seq<u8>;

/// Relies on solana_program::keccak::hashv: the Keccak-256 digest of the
/// bytes handed to it, a value of the bytes alone.
#[verifier::external_body]
#[allow(deprecated)]
fn keccak(data: &Vec<u8>) -> (r: Key)
    ensures
        r@ == keccak_of(data@),
{
    solana_program::keccak::hashv(&[data.as_slice()]).to_bytes()
}

/// `a` comes strictly before `b` in lexicographic byte order.
pub open spec fn lex_less(a: Seq<u8>, b: Seq<u8>) -> bool {
    exists|i: int|
        0 <= i < a.len() && i < b.len() && a[i] < b[i] && (forall|j: int| 0 <= j < i ==> a[j] == b[j])
}

/// Domain tag of a leaf of the allowlist tree.
pub const LEAF_TAG: u8 = 0;

/// Domain tag of an inner node of the allowlist tree.
pub const NODE_TAG: u8 = 1;

/// The digest of a commit-reveal value.
pub open spec fn commitment_of(reveal: Seq<u8>) -> Seq<u8> {
    keccak_of(reveal)
}

/// The leaf of the allowlist tree that stands for an identity.
pub open spec fn leaf_hash(identity: Seq<u8>) -> Seq<u8> {
    keccak_of(seq![LEAF_TAG] + identity)
}

/// An inner node over two children, the lexicographically smaller one first.
pub open spec fn node_hash(a: Seq<u8>, b: Seq<u8>) -> Seq<u8> {
    if lex_less(b, a) {
        keccak_of(seq![NODE_TAG] + b + a)
    } else {
        keccak_of(seq![NODE_TAG] + a + b)
    }
}

/// The root reached from `node` by combining it with each sibling of `path`
/// in turn.
pub open spec fn fold_path(node: Seq<u8>, path: Seq<Key>) -> Seq<u8>
    decreases path.len(),
{
    if path.len() == 0 {
        node
    } else {
        node_hash(fold_path(node, path.drop_last()), path.last()@)
    }
}

/// Whether `a` and `b` hold the same bytes.
pub fn keys_equal(a: &Key, b: &Key) -> (r: bool)
    ensures
        r == (a@ == b@),
{
    let mut i: usize = 0;
    while i < 32
        invariant
            0 <= i <= 32,
            a@.len() == 32,
            b@.len() == 32,
            forall|j: int| 0 <= j < i ==> a@[j] == b@[j],
        decreases 32 - i,
    {
        if a[i] != b[i] {
            return false;
        }
        i = i + 1;
    }
    assert(a@ =~= b@);
    true
}

/// Whether every byte of `a` is zero.
pub fn is_zero_key(a: &Key) -> (r: bool)
    ensures
        r == (a@ == seq![0u8; 32]),
{
    let mut i: usize = 0;
    while i < 32
        invariant
            0 <= i <= 32,
            a@.len() == 32,
            forall|j: int| 0 <= j < i ==> a@[j] == 0,
        decreases 32 - i,
    {
        if a[i] != 0 {
            assert(a@[i as int] != seq![0u8; 32][i as int]);
            return false;
        }
        i = i + 1;
    }
    assert(a@ =~= seq![0u8; 32]);
    true
}

/// Whether `a` comes strictly before `b` in lexicographic byte order.
pub fn key_less(a: &Key, b: &Key) -> (r: bool)
    ensures
        r == lex_less(a@, b@),
{
    let mut i: usize = 0;
    while i < 32
        invariant
            0 <= i <= 32,
            a@.len() == 32,
            b@.len() == 32,
            forall|j: int| 0 <= j < i ==> a@[j] == b@[j],
        decreases 32 - i,
    {
        if a[i] != b[i] {
            if a[i] < b[i] {
                assert(lex_less(a@, b@)) by {
                    assert(0 <= i < a@.len() && a@[i as int] < b@[i as int]);
                }
                return true;
            }
            assert(!lex_less(a@, b@)) by {
                if lex_less(a@, b@) {
                    let k = choose|k: int|
                        0 <= k < a@.len() && k < b@.len() && a@[k] < b@[k] && (forall|j: int|
                            0 <= j < k ==> a@[j] == b@[j]);
                    if k > i {
                        assert(a@[i as int] == b@[i as int]);
                    }
                }
            }
            return false;
        }
        i = i + 1;
    }
    false
}

/// Appends the bytes of `a` to `out`.
fn append_key(out: &mut Vec<u8>, a: &Key)
    ensures
        final(out)@ == old(out)@ + a@,
{
    let ghost start = out@;
    let mut i: usize = 0;
    while i < 32
        invariant
            0 <= i <= 32,
            a@.len() == 32,
            out@ == start + a@.subrange(0, i as int),
        decreases 32 - i,
    {
        out.push(a[i]);
        assert(a@.subrange(0, i + 1) =~= a@.subrange(0, i as int).push(a@[i as int]));
        i = i + 1;
    }
    assert(a@.subrange(0, 32) =~= a@);
}

/// The digest that a commitment to `reveal` holds.
pub fn commitment_digest(reveal: &Key) -> (r: Key)
    ensures
        r@ == commitment_of(reveal@),
{
    let mut data: Vec<u8> = Vec::new();
    append_key(&mut data, reveal);
    assert(data@ =~= reveal@);
    keccak(&data)
}

/// The allowlist leaf of an identity.
pub fn leaf_digest(identity: &Key) -> (r: Key)
    ensures
        r@ == leaf_hash(identity@),
{
    let mut data: Vec<u8> = Vec::new();
    data.push(LEAF_TAG);
    append_key(&mut data, identity);
    assert(data@ =~= seq![LEAF_TAG] + identity@);
    keccak(&data)
}

/// The inner node over two children.
pub fn node_digest(a: &Key, b: &Key) -> (r: Key)
    ensures
        r@ == node_hash(a@, b@),
{
    let mut data: Vec<u8> = Vec::new();
    data.push(NODE_TAG);
    if key_less(b, a) {
        append_key(&mut data, b);
        append_key(&mut data, a);
        assert(data@ =~= seq![NODE_TAG] + b@ + a@);
    } else {
        append_key(&mut data, a);
        append_key(&mut data, b);
        assert(data@ =~= seq![NODE_TAG] + a@ + b@);
    }
    keccak(&data)
}

/// Whether `proof` shows that `identity` is a member of the allowlist whose
/// tree has the root `root`.
pub fn verify_merkle_proof(proof: &Vec<Key>, root: &Key, identity: &Key) -> (r: bool)
    ensures
        r == (fold_path(leaf_hash(identity@), proof@) == root@),
{
    let mut node = leaf_digest(identity);
    let mut i: usize = 0;
    while i < proof.len()
        invariant
            0 <= i <= proof@.len(),
            node@ == fold_path(leaf_hash(identity@), proof@.subrange(0, i as int)),
        decreases proof@.len() - i,
    {
        let next = node_digest(&node, &proof[i]);
        proof {
            let p = proof@.subrange(0, i + 1);
            assert(p.drop_last() =~= proof@.subrange(0, i as int));
        }
        node = next;
        i = i + 1;
    }
    assert(proof@.subrange(0, proof@.len() as int) =~= proof@);
    keys_equal(&node, root)
}

} // verus!
