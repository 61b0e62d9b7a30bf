use vstd::arithmetic::power2::pow2;
use vstd::prelude::*;

verus! {

/// The thirty-two symbols of the Crockford alphabet, by their value: the
/// digits, then the capital letters without `I`, `L`, `O` and `U`.
pub open spec fn crockford_symbols() -> Seq<char> {
    "0123456789ABCDEFGHJKMNPQRSTVWXYZ"@
}

/// Whether `c` is a symbol of the Crockford alphabet.
pub open spec fn is_crockford_symbol(c: char) -> bool {
    ('0' <= c && c <= '9') || ('A' <= c && c <= 'Z' && c != 'I' && c != 'L' && c != 'O' && c
        != 'U')
}

/// Bit `i` of a byte string, counted from the most significant bit of its
/// first byte. Past the end every bit is zero.
pub open spec fn bit_at(data: Seq<u8>, i: int) -> int {
    if 0 <= i < 8 * data.len() {
        (data[i / 8] as int / pow2((7 - i % 8) as nat) as int) % 2
    } else {
        0
    }
}

/// The number that the five bits from bit `5 * k` on spell, most
/// significant first.
pub open spec fn quintet(data: Seq<u8>, k: int) -> int {
    16 * bit_at(data, 5 * k) + 8 * bit_at(data, 5 * k + 1) + 4 * bit_at(data, 5 * k + 2) + 2
        * bit_at(data, 5 * k + 3) + bit_at(data, 5 * k + 4)
}

/// Number of symbols that encode `bytes` bytes: one for every five bits,
/// the last group filled up.
pub open spec fn crockford_len(bytes: nat) -> nat {
    ((8 * bytes + 4) / 5) as nat
}

/// The Crockford base-32 text of a byte string, without padding.
pub open spec fn crockford(data: Seq<u8>) -> Seq<char> {
    Seq::new(crockford_len(data.len()), |k: int| crockford_symbols()[quintet(data, k)])
}

/// Every symbol of an encoded text is from the Crockford alphabet.
pub proof fn lemma_crockford_alphabet(data: Seq<u8>)
    ensures
        crockford(data).len() == crockford_len(data.len()),
        forall|k: int|
            0 <= k < crockford(data).len() ==> is_crockford_symbol(#[trigger] crockford(data)[k]),
{
    reveal_strlit("0123456789ABCDEFGHJKMNPQRSTVWXYZ");
    assert forall|k: int| 0 <= k < crockford(data).len() implies is_crockford_symbol(
        #[trigger] crockford(data)[k],
    ) by {
        assert(0 <= quintet(data, k) < 32);
    }
}

/// Calls `base32::encode` with the Crockford alphabet. Trusted: the result
/// is the Crockford text of `data`.
#[verifier::external_body]
pub(crate) fn crockford_encode(data: &[u8]) -> (text: String)
    ensures
        text@ == crockford(data@),
{
    base32::encode(base32::Alphabet::Crockford, data)
}

} // verus!
