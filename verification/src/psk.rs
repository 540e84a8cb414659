//! Derivation of a tunnel pre-shared key from key-exchange shared secrets.
//!
//! The key-exchange collaborator returns one ciphertext per requested
//! algorithm; each yields a shared secret of the key width.  The secrets
//! are combined by a byte-wise XOR fold, in the order the ciphertexts were
//! appended — and the combined key is proved not to depend on that order
//! for a pair of secrets, XOR being commutative.

use vstd::prelude::*;

verus! {

/// Byte-wise XOR of two byte strings, at the width of the first.
pub open spec fn spec_xor_bytes(a: Seq<u8>, b: Seq<u8>) -> Seq<u8> {
    Seq::new(a.len(), |i: int| a[i] ^ b[i])
}

/// The all-zero key of the given width.
pub open spec fn spec_zero_key(width: nat) -> Seq<u8> {
    Seq::new(width, |i: int| 0u8)
}

/// The pre-shared key derived from the shared secrets in the order their
/// ciphertexts were appended: the byte-wise XOR of all of them.
pub open spec fn spec_combined_key(secrets: Seq<Seq<u8>>, width: nat) -> Seq<u8>
    decreases secrets.len(),
{
    if secrets.len() == 0 {
        spec_zero_key(width)
    } else {
        spec_xor_bytes(spec_combined_key(secrets.drop_last(), width), secrets.last())
    }
}

/// The derived key of two shared secrets does not depend on the order the
/// ciphertexts were appended.
pub proof fn lemma_two_secrets_order_independent(a: Seq<u8>, b: Seq<u8>, width: nat)
    requires
        a.len() == width,
        b.len() == width,
    ensures
        spec_combined_key(seq![a, b], width) == spec_combined_key(seq![b, a], width),
{
    reveal_with_fuel(spec_combined_key, 3);
    assert(seq![a, b].drop_last() =~= seq![a]);
    assert(seq![b, a].drop_last() =~= seq![b]);
    assert(seq![a].drop_last() =~= Seq::<Seq<u8>>::empty());
    assert(seq![b].drop_last() =~= Seq::<Seq<u8>>::empty());
    let ab = spec_combined_key(seq![a, b], width);
    let ba = spec_combined_key(seq![b, a], width);
    assert(forall|x: u8, y: u8| #[trigger] ((0u8 ^ x) ^ y) == (0u8 ^ y) ^ x) by (bit_vector);
    assert forall|i: int| 0 <= i < width implies ab[i] == ba[i] by {
        assert(ab[i] == (0u8 ^ a[i]) ^ b[i]);
        assert(ba[i] == (0u8 ^ b[i]) ^ a[i]);
    }
    assert(ab =~= ba);
}

/// Derives the pre-shared key: the byte-wise XOR fold of all shared
/// secrets, each of the key width.
pub fn combine_shared_secrets(secrets: &Vec<Vec<u8>>, width: usize) -> (r: Vec<u8>)
    requires
        forall|k: int| 0 <= k < secrets@.len() ==> (#[trigger] secrets@[k])@.len() == width,
    ensures
        r@ == spec_combined_key(secrets.deep_view(), width as nat),
{
    let mut key: Vec<u8> = Vec::new();
    let mut z: usize = 0;
    while z < width
        invariant
            z <= width,
            key@.len() == z,
            forall|t: int| 0 <= t < z ==> key@[t] == 0u8,
        decreases width - z,
    {
        key.push(0u8);
        z = z + 1;
    }
    proof {
        assert(key@ =~= spec_zero_key(width as nat));
    }
    let mut i: usize = 0;
    while i < secrets.len()
        invariant
            i <= secrets@.len(),
            key@.len() == width,
            forall|k: int| 0 <= k < secrets@.len() ==> (#[trigger] secrets@[k])@.len() == width,
            key@ == spec_combined_key(secrets.deep_view().subrange(0, i as int), width as nat),
        decreases secrets@.len() - i,
    {
        let ghost prev = key@;
        let secret: &Vec<u8> = &secrets[i];
        let mut j: usize = 0;
        while j < width
            invariant
                j <= width,
                key@.len() == width,
                secret@.len() == width,
                forall|t: int| 0 <= t < j ==> key@[t] == (prev[t] ^ secret@[t]),
                forall|t: int| j <= t < width ==> key@[t] == prev[t],
            decreases width - j,
        {
            let updated: u8 = key[j] ^ secret[j];
            key[j] = updated;
            j = j + 1;
        }
        proof {
            assert(key@ =~= spec_xor_bytes(prev, secret@));
            let dv = secrets.deep_view();
            assert(dv[i as int] =~= secret@);
            assert(dv.subrange(0, i as int + 1).drop_last() =~= dv.subrange(0, i as int));
            assert(dv.subrange(0, i as int + 1).last() == dv[i as int]);
        }
        i = i + 1;
    }
    proof {
        assert(secrets.deep_view().subrange(0, secrets@.len() as int) =~= secrets.deep_view());
    }
    key
}

} // verus!
