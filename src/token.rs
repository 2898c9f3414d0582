//! Confirmation tokens: strings of letters and digits drawn from a secure
//! random source.
use uuid::Uuid;
use vstd::prelude::*;

use crate::domain::is_ascii_alphanumeric;

verus! {

/// The 62 symbols tokens are written with.
pub const TOKEN_ALPHABET: &'static str = "ABCDEFGHIJKLMNOPQRSTUVWXYZabcdefghijklmnopqrstuvwxyz0123456789";

/// The symbol that stands for the random byte `b`.
pub open spec fn token_symbol(b: u8) -> char {
    TOKEN_ALPHABET@[b as int % 62]
}

/// The token spelled by a sequence of random bytes, one symbol per byte.
pub open spec fn token_of(bytes: Seq<u8>) -> Seq<char> {
    Seq::new(bytes.len(), |i: int| token_symbol(bytes[i]))
}

/// The number of random bytes, and so of symbols, in a generated token.
pub const TOKEN_LEN: usize = 32;

/// Relies on `Uuid::new_v4` and `Uuid::as_bytes`: sixteen bytes, most of
/// them drawn from the operating system's secure random source.
#[verifier::external_body]
fn random_uuid_bytes() -> (r: Vec<u8>)
    ensures
        r@.len() == 16,
{
    Uuid::new_v4().as_bytes().to_vec()
}

/// Every symbol of the token alphabet is an ASCII letter or digit.
pub proof fn lemma_token_symbols_alphanumeric()
    ensures
        TOKEN_ALPHABET@.len() == 62,
        forall|k: int| 0 <= k < 62 ==> is_ascii_alphanumeric(#[trigger] TOKEN_ALPHABET@[k]),
{
    reveal_strlit("ABCDEFGHIJKLMNOPQRSTUVWXYZabcdefghijklmnopqrstuvwxyz0123456789");
}

/// Spells a token from random bytes: byte `b` becomes symbol `b % 62`.
pub fn token_from_bytes(bytes: &Vec<u8>) -> (r: String)
    ensures
        r@ == token_of(bytes@),
        forall|i: int| 0 <= i < r@.len() ==> is_ascii_alphanumeric(#[trigger] r@[i]),
{
    proof {
        lemma_token_symbols_alphanumeric();
    }
    let mut s = String::new();
    let mut i: usize = 0;
    while i < bytes.len()
        invariant
            i <= bytes@.len(),
            TOKEN_ALPHABET@.len() == 62,
            s@ == token_of(bytes@.subrange(0, i as int)),
        decreases bytes@.len() - i,
    {
        let k = (bytes[i] % 62) as usize;
        let sym = TOKEN_ALPHABET.substring_char(k, k + 1);
        s.append(sym);
        assert(token_of(bytes@.subrange(0, i + 1)) =~= token_of(bytes@.subrange(0, i as int))
            + sym@);
        i = i + 1;
    }
    assert(bytes@.subrange(0, bytes@.len() as int) =~= bytes@);
    s
}

/// A fresh confirmation token of 32 letters and digits.
pub fn generate_subscription_token() -> (r: String)
    ensures
        r@.len() == TOKEN_LEN,
        forall|i: int| 0 <= i < r@.len() ==> is_ascii_alphanumeric(#[trigger] r@[i]),
{
    let mut bytes = random_uuid_bytes();
    let mut more = random_uuid_bytes();
    bytes.append(&mut more);
    token_from_bytes(&bytes)
}

} // verus!
