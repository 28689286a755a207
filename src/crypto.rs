use vstd::prelude::*;

verus! {

/// Length in bytes of a SHA-256 digest and of a random block drawn from the seeded generator.
pub const DIGEST_SIZE: usize = 32;

/// The SHA-256 digest of `data`.
pub uninterp spec fn sha256_of(data: Seq<u8>) -> Seq<u8>;

/// The first 32-byte block of the ChaCha stream seeded from `seed` and `entropy`.
pub uninterp spec fn prng_block_of(seed: Seq<u8>, entropy: Seq<u8>) -> Seq<u8>;

/// The standard (padded) base64 text of `data`.
pub uninterp spec fn base64_of(data: Seq<u8>) -> Seq<char>;

/// Relies on secret_toolkit::crypto::sha_256: the SHA-256 digest of the input, 32 bytes.
#[verifier::external_body]
pub(crate) fn sha_256(data: &[u8]) -> (r: Vec<u8>)
    ensures
        r@ == sha256_of(data@),
        r@.len() == DIGEST_SIZE,
{
    secret_toolkit::crypto::sha_256(data).to_vec()
}

/// Relies on secret_toolkit::crypto::ContractPrng: `new(seed, entropy)` seeds ChaCha with
/// SHA-256(seed ++ entropy), and `rand_bytes` hands out the first 32 bytes of the stream.
#[verifier::external_body]
pub(crate) fn prng_block(seed: &[u8], entropy: &[u8]) -> (r: Vec<u8>)
    ensures
        r@ == prng_block_of(seed@, entropy@),
        r@.len() == DIGEST_SIZE,
{
    secret_toolkit::crypto::ContractPrng::new(seed, entropy).rand_bytes().to_vec()
}

/// Relies on base64::encode: the standard alphabet with padding.
#[verifier::external_body]
pub(crate) fn base64_encode(data: &[u8]) -> (r: String)
    ensures
        r@ == base64_of(data@),
{
    base64::encode(data)
}

} // verus!
