use rand::{Rng, SeedableRng};
use sha2::Digest;
use vstd::prelude::*;

verus! {

/// Length of a claim key handed to a command-line client.
pub const CLAIM_KEY_LENGTH: usize = 16;

/// Length of a session identifier.
pub const SESSION_ID_LENGTH: usize = 32;

/// Length of the secret part of a newly minted API token.
pub const API_TOKEN_LENGTH: usize = 48;

/// An ASCII letter or digit.
pub open spec fn is_key_char(c: char) -> bool {
    ('a' <= c && c <= 'z') || ('A' <= c && c <= 'Z') || ('0' <= c && c <= '9')
}

/// `s` has `len` characters, each an ASCII letter or digit.
pub open spec fn is_alphanumeric_of_len(s: Seq<char>, len: nat) -> bool {
    &&& s.len() == len
    &&& forall|i: int| 0 <= i < s.len() ==> is_key_char(#[trigger] s[i])
}

/// The SHA-256 digest of the UTF-8 encoding of `s`.
pub uninterp spec fn sha256_of_text(s: Seq<char>) -> Seq<u8>;

/// The lowercase hexadecimal digits, in order of value.
pub open spec fn hex_digits() -> Seq<char> {
    "0123456789abcdef"@
}

/// The lowercase hexadecimal digit of `n`, for `n < 16`.
pub open spec fn hex_digit(n: int) -> char {
    hex_digits()[n]
}

/// `b` written as lowercase hexadecimal, two digits per byte, the high
/// half first.
pub open spec fn hex_lower(b: Seq<u8>) -> Seq<char>
    decreases b.len(),
{
    if b.len() == 0 {
        Seq::empty()
    } else {
        hex_lower(b.drop_last()).push(hex_digit(b.last() as int / 16)).push(hex_digit(b.last() as int % 16))
    }
}

/// Hexadecimal text has two digits per byte.
pub proof fn lemma_hex_lower_len(b: Seq<u8>)
    ensures
        hex_lower(b).len() == 2 * b.len(),
    decreases b.len(),
{
    if b.len() > 0 {
        lemma_hex_lower_len(b.drop_last());
    }
}

/// The stored form of an API token `t`: the hexadecimal SHA-256 digest.
pub open spec fn sha256_hex(t: Seq<char>) -> Seq<char> {
    hex_lower(sha256_of_text(t))
}

/// Relies on rand's `StdRng::from_entropy` and its `Alphanumeric`
/// distribution: `len` characters, each drawn from `A-Z`, `a-z`, `0-9`.
#[verifier::external_body]
pub(crate) fn random_alphanumeric(len: usize) -> (r: String)
    ensures
        is_alphanumeric_of_len(r@, len as nat),
{
    rand::rngs::StdRng::from_entropy()
        .sample_iter(&rand::distributions::Alphanumeric)
        .take(len)
        .map(char::from)
        .collect()
}

/// Relies on sha2's `Sha256::digest` over the bytes of `s`: the digest
/// depends on the text alone and is 32 bytes long.
#[verifier::external_body]
pub(crate) fn sha256_text(s: &str) -> (r: Vec<u8>)
    ensures
        r@ == sha256_of_text(s@),
        r@.len() == 32,
{
    sha2::Sha256::digest(s.as_bytes()).to_vec()
}

/// `b` written as lowercase hexadecimal, two digits per byte, the high
/// half first.
pub fn hex_encode(b: &[u8]) -> (r: String)
    ensures
        r@ == hex_lower(b@),
{
    let digits = "0123456789abcdef";
    proof {
        reveal_strlit("0123456789abcdef");
    }
    let mut out = String::new();
    let mut i: usize = 0;
    while i < b.len()
        invariant
            0 <= i <= b@.len(),
            digits@ == hex_digits(),
            digits@.len() == 16,
            out@ == hex_lower(b@.take(i as int)),
        decreases b@.len() - i,
    {
        let byte = b[i];
        let high = (byte / 16) as usize;
        let low = (byte % 16) as usize;
        let before = out;
        out = before.concat(digits.substring_char(high, high + 1)).concat(digits.substring_char(low, low + 1));
        proof {
            let t = b@.take(i as int + 1);
            assert(t.drop_last() == b@.take(i as int));
            assert(t.last() == byte);
            assert(out@ =~= hex_lower(b@.take(i as int)).push(hex_digit(byte as int / 16)).push(hex_digit(byte as int % 16)));
        }
        i += 1;
    }
    assert(b@.take(b@.len() as int) == b@);
    out
}

/// The stored form of an API token: its digest. A token is never kept or
/// compared in plain text.
pub fn hash_token(token: &str) -> (r: String)
    ensures
        r@ == sha256_hex(token@),
        r@.len() == 64,
{
    let digest = sha256_text(token);
    proof {
        lemma_hex_lower_len(digest@);
    }
    hex_encode(digest.as_slice())
}

/// A fresh API token secret and its digest, the value that the token
/// store keeps.
pub fn generate_api_token() -> (r: (String, String))
    ensures
        is_alphanumeric_of_len(r.0@, API_TOKEN_LENGTH as nat),
        r.1@ == sha256_hex(r.0@),
{
    let secret = random_alphanumeric(API_TOKEN_LENGTH);
    let digest = hash_token(secret.as_str());
    (secret, digest)
}

} // verus!
