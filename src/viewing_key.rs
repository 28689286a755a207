use vstd::prelude::*;
use crate::crypto::{base64_encode, base64_of, prng_block, prng_block_of, sha256_of, sha_256};
use vstd::utf8::encode_utf8;
use crate::msg::Env;

verus! {

/// Length in bytes of a stored credential: the SHA-256 digest of a viewing key.
pub const VIEWING_KEY_SIZE: usize = 32;

/// A bearer credential that grants read access to one identity's record.
pub struct ViewingKey(pub String);

/// The outcome of a constant-time comparison, with the number of byte pairs it examined.
#[derive(Clone, Copy, Debug, PartialEq, Eq, Structural)]
pub struct Comparison {
    pub equal: bool,
    pub steps: usize,
}

/// Eight big-endian bytes of `x`.
pub open spec fn be64(x: u64) -> Seq<u8> {
    seq![
        (x >> 56u64) as u8, (x >> 48u64) as u8, (x >> 40u64) as u8, (x >> 32u64) as u8,
        (x >> 24u64) as u8, (x >> 16u64) as u8, (x >> 8u64) as u8, x as u8,
    ]
}

/// The entropy handed to the generator: block height, block time and the length of the
/// caller's identity as fixed-width fields, then the identity, then the caller's entropy.
/// The fixed widths and the length prefix keep the fields from sliding into each other.
pub open spec fn key_material(height: u64, time: u64, sender: Seq<u8>, entropy: Seq<u8>) -> Seq<u8> {
    be64(height) + be64(time) + be64(sender.len() as u64) + sender + entropy
}

/// The key issued for `seed` and generator input `material`.
pub open spec fn issued_key(seed: Seq<u8>, material: Seq<u8>) -> Seq<char> {
    base64_of(sha256_of(prng_block_of(seed, material)))
}

/// What the credential store keeps for a key: the SHA-256 digest of its UTF-8 bytes.
pub open spec fn key_digest(key: Seq<char>) -> Seq<u8> {
    sha256_of(encode_utf8(key))
}

/// Number of byte pairs that the comparison of buffers of these lengths examines.
pub open spec fn compare_steps(len_a: nat, len_b: nat) -> nat {
    if len_a == len_b { len_a } else { 0 }
}

fn push_be64(out: &mut Vec<u8>, x: u64)
    ensures
        final(out)@ == old(out)@ + be64(x),
{
    out.push((x >> 56u64) as u8);
    out.push((x >> 48u64) as u8);
    out.push((x >> 40u64) as u8);
    out.push((x >> 32u64) as u8);
    out.push((x >> 24u64) as u8);
    out.push((x >> 16u64) as u8);
    out.push((x >> 8u64) as u8);
    out.push(x as u8);
    assert(final(out)@ =~= old(out)@ + be64(x));
}

fn push_bytes(out: &mut Vec<u8>, b: &[u8])
    ensures
        final(out)@ == old(out)@ + b@,
{
    let mut i: usize = 0;
    while i < b.len()
        invariant
            i <= b@.len(),
            out@ == old(out)@ + b@.subrange(0, i as int),
        decreases b@.len() - i,
    {
        out.push(b[i]);
        i = i + 1;
        assert(out@ =~= old(out)@ + b@.subrange(0, i as int));
    }
    assert(b@.subrange(0, i as int) =~= b@);
}

/// Builds the generator input of `key_material`.
pub fn build_key_material(height: u64, time: u64, sender: &[u8], entropy: &[u8]) -> (r: Vec<u8>)
    ensures
        r@ == key_material(height, time, sender@, entropy@),
{
    let mut out: Vec<u8> = Vec::new();
    push_be64(&mut out, height);
    push_be64(&mut out, time);
    push_be64(&mut out, sender.len() as u64);
    push_bytes(&mut out, sender);
    push_bytes(&mut out, entropy);
    assert(out@ =~= key_material(height, time, sender@, entropy@));
    out
}

proof fn lemma_or_xor_zero(d: u8, x: u8, y: u8)
    ensures
        ((d | (x ^ y)) == 0) == (d == 0 && x == y),
{
    assert(((d | (x ^ y)) == 0) == (d == 0 && x == y)) by (bit_vector);
}

/// Compares two buffers in time that depends on their lengths alone: every byte pair is
/// examined, in order, with no exit at the first difference.
pub fn ct_slice_compare(a: &[u8], b: &[u8]) -> (r: Comparison)
    ensures
        r.equal == (a@ == b@),
        r.steps == compare_steps(a@.len(), b@.len()),
{
    if a.len() != b.len() {
        return Comparison { equal: false, steps: 0 };
    }
    let mut diff: u8 = 0;
    let mut steps: usize = 0;
    while steps < a.len()
        invariant
            a@.len() == b@.len(),
            steps <= a@.len(),
            (diff == 0) == (forall|j: int| 0 <= j < steps ==> a@[j] == b@[j]),
        decreases a@.len() - steps,
    {
        proof {
            lemma_or_xor_zero(diff, a@[steps as int], b@[steps as int]);
        }
        diff = diff | (a[steps] ^ b[steps]);
        steps = steps + 1;
    }
    assert((diff == 0) == (a@ =~= b@));
    Comparison { equal: diff == 0, steps }
}

impl ViewingKey {
    /// Issues a key from the deployment seed, the call's context and the caller's entropy.
    pub fn new(env: &Env, seed: &[u8], entropy: &[u8]) -> (r: Self)
        ensures
            r.0@ == issued_key(seed@, key_material(env.height, env.time, env.sender@, entropy@)),
    {
        let material = build_key_material(env.height, env.time, env.sender.as_slice(), entropy);
        let block = prng_block(seed, material.as_slice());
        let token = sha_256(block.as_slice());
        ViewingKey(base64_encode(token.as_slice()))
    }

    /// The form in which the credential store keeps this key.
    pub fn to_hashed(&self) -> (r: Vec<u8>)
        ensures
            r@ == key_digest(self.0@),
            r@.len() == VIEWING_KEY_SIZE,
    {
        sha_256(self.0.as_str().as_bytes())
    }

    /// Checks this key against a stored digest, in constant time.
    pub fn check_viewing_key(&self, hashed: &[u8]) -> (r: Comparison)
        ensures
            r.equal == (key_digest(self.0@) == hashed@),
            r.steps == compare_steps(VIEWING_KEY_SIZE as nat, hashed@.len()),
    {
        let mine = self.to_hashed();
        ct_slice_compare(mine.as_slice(), hashed)
    }
}

} // verus!
