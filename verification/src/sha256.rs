use crypto::digest::Digest;
use crypto::sha2::Sha256;
use vstd::prelude::*;
use vstd::utf8::encode_utf8;

verus! {

/// `crypto::sha2::Sha256`, a streaming SHA-256 hasher. Its state is not
/// visible here; the three functions below name what matters about it.
#[verifier::external_type_specification]
#[verifier::external_body]
pub struct ExSha256(Sha256);

/// The message bytes that a hasher has been fed so far, in order.
pub uninterp spec fn fed(h: Sha256) -> Seq<u8>;

/// Whether a hasher has already produced its digest. A sealed hasher
/// refuses further input.
pub uninterp spec fn sealed(h: Sha256) -> bool;

/// The SHA-256 digest of a message: always `DIGEST_BYTES` bytes.
pub uninterp spec fn sha256(message: Seq<u8>) -> Seq<u8>;

/// Size of a SHA-256 digest in bytes.
pub const DIGEST_BYTES: usize = 32;

/// Largest message, in bytes, whose bit length the hasher can still count.
pub const MAX_MESSAGE_BYTES: u64 = 0x1fff_ffff_ffff_ffff;

/// Calls `Sha256::new`. Trusted: a new hasher has been fed nothing and is
/// not sealed.
#[verifier::external_body]
pub(crate) fn sha256_new() -> (h: Sha256)
    ensures
        fed(h) == Seq::<u8>::empty(),
        !sealed(h),
{
    Sha256::new()
}

/// Calls `Digest::input_str` on a `Sha256`. Trusted: the UTF-8 bytes of
/// `input` are appended to the message and the hasher stays unsealed. The
/// call panics on a sealed hasher and when the message would grow past
/// `MAX_MESSAGE_BYTES`, so both are required not to happen.
#[verifier::external_body]
pub(crate) fn sha256_input_str(h: &mut Sha256, input: &str)
    requires
        !sealed(*old(h)),
        fed(*old(h)).len() + encode_utf8(input@).len() <= MAX_MESSAGE_BYTES,
    ensures
        fed(*final(h)) == fed(*old(h)) + encode_utf8(input@),
        !sealed(*final(h)),
{
    h.input_str(input)
}

/// Calls `Digest::output_bytes` on a `Sha256`. Trusted: the answer is
/// `DIGEST_BYTES`.
#[verifier::external_body]
pub(crate) fn sha256_output_bytes(h: &Sha256) -> (n: usize)
    ensures
        n == DIGEST_BYTES,
{
    h.output_bytes()
}

/// Calls `Digest::result` on a `Sha256`. Trusted: the first `DIGEST_BYTES`
/// bytes of `out` become the digest of the message fed so far and the rest
/// of `out` is left alone; the message is unchanged and the hasher is
/// sealed. The call panics on a shorter buffer, which is required not to
/// be passed.
#[verifier::external_body]
pub(crate) fn sha256_result(h: &mut Sha256, out: &mut Vec<u8>)
    requires
        old(out)@.len() >= DIGEST_BYTES,
    ensures
        final(out)@.len() == old(out)@.len(),
        final(out)@.take(DIGEST_BYTES as int) == sha256(fed(*old(h))),
        final(out)@.skip(DIGEST_BYTES as int) == old(out)@.skip(DIGEST_BYTES as int),
        fed(*final(h)) == fed(*old(h)),
        sealed(*final(h)),
{
    h.result(out)
}

} // verus!
