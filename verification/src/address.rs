use crate::crockford::{crockford, crockford_encode, crockford_len, lemma_crockford_alphabet};
use crate::sha256::{
    fed, sealed, sha256, sha256_input_str, sha256_new, sha256_output_bytes, sha256_result,
    DIGEST_BYTES, MAX_MESSAGE_BYTES,
};
use crate::text::{ascii_lowercase, lowercase};
use crypto::sha2::Sha256;
use vstd::prelude::*;
use vstd::utf8::{encode_utf8, is_ascii_chars};

verus! {

/// Number of digest bytes asked for when a note's directory is named.
pub const FILENAME_BYTES: usize = 8;

/// How many leading digest bytes go into an address when `nbytes` are asked
/// for: one fewer than asked, and one fewer than the whole digest when
/// `nbytes` is zero or more than the digest has.
pub open spec fn kept_bytes(digest_len: nat, nbytes: nat) -> nat {
    if nbytes == 0 || nbytes > digest_len {
        (digest_len - 1) as nat
    } else {
        (nbytes - 1) as nat
    }
}

/// The address that a digest gives: its kept bytes in Crockford base 32,
/// lower-cased.
pub open spec fn digest_address(digest: Seq<u8>, nbytes: nat) -> Seq<char> {
    lowercase(crockford(digest.take(kept_bytes(digest.len(), nbytes) as int)))
}

/// The message that is hashed for a note: the stem's bytes, then the
/// secret's, with nothing between them.
pub open spec fn address_message(stem: Seq<char>, secret: Seq<char>) -> Seq<u8> {
    encode_utf8(stem) + encode_utf8(secret)
}

/// The address of a note with the given stem under the given secret.
pub open spec fn address_of(stem: Seq<char>, secret: Seq<char>, nbytes: nat) -> Seq<char> {
    digest_address(sha256(address_message(stem, secret)), nbytes)
}

/// The characters an address is made of: digits and the lower-case letters
/// other than `i`, `l`, `o` and `u`.
pub open spec fn is_address_char(c: char) -> bool {
    ('0' <= c && c <= '9') || ('a' <= c && c <= 'z' && c != 'i' && c != 'l' && c != 'o' && c
        != 'u')
}

/// Whether every character of `s` may occur in an address.
pub open spec fn is_address_text(s: Seq<char>) -> bool {
    forall|i: int| 0 <= i < s.len() ==> is_address_char(#[trigger] s[i])
}

/// Turns a digest into an address.
pub fn address_from_digest(digest: &[u8], nbytes: usize) -> (address: String)
    requires
        digest@.len() > 0,
    ensures
        address@ == digest_address(digest@, nbytes as nat),
        address@.len() == crockford_len(kept_bytes(digest@.len(), nbytes as nat)),
        is_address_text(address@),
{
    let trunc: usize = if nbytes == 0 || nbytes > digest.len() {
        digest.len()
    } else {
        nbytes
    };
    let kept = &digest[0..trunc - 1];
    let slug = crockford_encode(kept);
    proof {
        lemma_crockford_alphabet(kept@);
        assert(is_ascii_chars(slug@));
    }
    let address = ascii_lowercase(slug.as_str());
    assert(is_address_text(address@));
    address
}

/// Finishes a hasher and turns its digest into an address.
pub fn hash_str(h: &mut Sha256, nbytes: usize) -> (address: String)
    ensures
        address@ == digest_address(sha256(fed(*old(h))), nbytes as nat),
        sha256(fed(*old(h))).len() == DIGEST_BYTES,
        address@.len() == crockford_len(kept_bytes(DIGEST_BYTES as nat, nbytes as nat)),
        is_address_text(address@),
        fed(*final(h)) == fed(*old(h)),
        sealed(*final(h)),
{
    let hashbytes: usize = sha256_output_bytes(h);
    let mut bytes: Vec<u8> = vec![0; hashbytes];
    sha256_result(h, &mut bytes);
    address_from_digest(bytes.as_slice(), nbytes)
}

/// The address of the note with the given stem under the given secret:
/// the SHA-256 digest of stem and secret, cut to `truncate_bytes` less one
/// bytes, in lower-case Crockford base 32.
pub fn derive_address(stem: &str, secret: &str, truncate_bytes: usize) -> (address: String)
    requires
        address_message(stem@, secret@).len() <= MAX_MESSAGE_BYTES,
    ensures
        address@ == address_of(stem@, secret@, truncate_bytes as nat),
        address@.len() == crockford_len(kept_bytes(DIGEST_BYTES as nat, truncate_bytes as nat)),
        is_address_text(address@),
        truncate_bytes == 0 || truncate_bytes > DIGEST_BYTES ==> address@ == address_of(
            stem@,
            secret@,
            0,
        ),
{
    let mut h = sha256_new();
    sha256_input_str(&mut h, stem);
    sha256_input_str(&mut h, secret);
    hash_str(&mut h, truncate_bytes)
}

/// The name of the directory that the note with the given stem is
/// published in.
pub fn note_dirname(stem: &str, secret: &str) -> (name: String)
    requires
        address_message(stem@, secret@).len() <= MAX_MESSAGE_BYTES,
    ensures
        name@ == address_of(stem@, secret@, FILENAME_BYTES as nat),
        name@.len() == 12,
        is_address_text(name@),
{
    derive_address(stem, secret, FILENAME_BYTES)
}

/// An address is a function of stem, secret and length alone: two
/// addresses derived from the same three are the same text.
pub proof fn lemma_address_is_determined(
    stem: Seq<char>,
    secret: Seq<char>,
    nbytes: nat,
    first: Seq<char>,
    second: Seq<char>,
)
    requires
        first == address_of(stem, secret, nbytes),
        second == address_of(stem, secret, nbytes),
    ensures
        first == second,
{
}

/// Asking for no bytes, or for more bytes than the digest has, gives the
/// address of the whole digest (less its last byte, as always).
pub proof fn lemma_truncation_out_of_range(digest: Seq<u8>, nbytes: nat)
    requires
        nbytes == 0 || nbytes > digest.len(),
    ensures
        kept_bytes(digest.len(), nbytes) == kept_bytes(digest.len(), digest.len()),
        digest_address(digest, nbytes) == digest_address(digest, 0),
        digest_address(digest, nbytes) == digest_address(digest, digest.len()),
{
}

/// An address is safe as a single path segment on any file system: it is
/// printable ASCII without separators, dots or capital letters.
pub proof fn lemma_address_is_path_safe(address: Seq<char>)
    requires
        is_address_text(address),
    ensures
        is_ascii_chars(address),
        forall|i: int|
            0 <= i < address.len() ==> {
                let c = #[trigger] address[i];
                &&& c != '/'
                &&& c != '\\'
                &&& c != '.'
                &&& !('A' <= c && c <= 'Z')
                &&& ('0' <= c && c <= '9') || ('a' <= c && c <= 'z')
            },
{
}

} // verus!
