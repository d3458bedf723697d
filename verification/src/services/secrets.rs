//! Password and code hashing with argon2, and the random one-time codes that
//! are mailed to users.

use vstd::prelude::*;
use argon2::{Argon2, PasswordHash, PasswordHasher, PasswordVerifier};
use argon2::password_hash::SaltString;
use argon2::password_hash::rand_core::OsRng;
use rand::Rng;
use crate::text::push_char;

verus! {

/// Whether argon2, with its default configuration, accepts `secret` against the
/// PHC string `hash`: the outcome of `Argon2::default().verify_password` on the
/// parsed hash.
pub uninterp spec fn argon2_verifies(secret: Seq<u8>, hash: Seq<char>) -> bool;

/// How every PHC string that argon2's default configuration writes begins:
/// the separator, the identifier of the Argon2id variant, the separator.
pub const ARGON2ID_PREFIX: &'static str = "$argon2id$";

/// Whether `hash` has the shape of an Argon2id PHC string: it begins with
/// `$argon2id$`.
pub open spec fn is_argon2id_phc(hash: Seq<char>) -> bool {
    ARGON2ID_PREFIX@.is_prefix_of(hash)
}

/// Hashes `secret` with argon2 under a fresh random salt and returns the PHC string.
///
/// Trusted: wraps `PasswordHasher::hash_password` of `Argon2::default()` with a
/// salt from `SaltString::generate(&mut OsRng)`, then `to_string`. The argon2
/// source fails only on a secret longer than `0xFFFFFFFF` bytes, which
/// `requires` leaves out. The contract claims what the crate's documentation
/// shows of the pair, that `verify_password` accepts the secret against the
/// string it produced, and what the source shows of the string's start:
/// `Argon2::default()` uses the default algorithm, Argon2id, whose identifier
/// is `argon2id`, and the PHC string is written as `$`, the identifier, `$`,
/// then the version. The rest of the string depends on the salt and is not stated.
#[verifier::external_body]
fn argon2_hash(secret: &[u8]) -> (hash: String)
    requires
        secret@.len() <= 0xFFFF_FFFF,
    ensures
        argon2_verifies(secret@, hash@),
        is_argon2id_phc(hash@),
{
    let salt = SaltString::generate(&mut OsRng);
    Argon2::default().hash_password(secret, &salt).expect("Password hashing failed").to_string()
}

/// Checks `secret` against the PHC string `hash`.
///
/// Trusted: wraps `PasswordHash::new` and `PasswordVerifier::verify_password`
/// of `Argon2::default()`; a string that does not parse counts as a mismatch.
/// The result is named by `argon2_verifies`; the contract adds one fact that the
/// source of `PasswordHash::new` shows: an empty string never parses.
#[verifier::external_body]
fn argon2_verify(secret: &[u8], hash: &str) -> (ok: bool)
    ensures
        ok == argon2_verifies(secret@, hash@),
        hash@.len() == 0 ==> !ok,
{
    match PasswordHash::new(hash) {
        Ok(parsed) => Argon2::default().verify_password(secret, &parsed).is_ok(),
        Err(_) => false,
    }
}

/// A uniformly drawn index below `bound`.
///
/// Trusted: wraps `rand::rng().random_range(0..bound)`; rand documents that the
/// result lies in the range and panics on an empty one, which `requires` leaves out.
#[verifier::external_body]
fn random_index(bound: usize) -> (i: usize)
    requires
        bound > 0,
    ensures
        i < bound,
{
    rand::rng().random_range(0..bound)
}

/// The UTF-8 bytes of a string, as `str::as_bytes` gives them.
pub open spec fn utf8_of(s: Seq<char>) -> Seq<u8> {
    vstd::utf8::encode_utf8(s)
}

/// A text takes at most four UTF-8 bytes per character.
pub proof fn lemma_utf8_len_bound(s: Seq<char>)
    ensures
        utf8_of(s).len() <= 4 * s.len(),
    decreases s.len(),
{
    if s.len() > 0 {
        lemma_utf8_len_bound(s.drop_first());
        assert(vstd::utf8::encode_scalar(s[0] as u32).len() <= 4);
    }
}

/// Hashes a password or a code for storage: the stored text is an Argon2id
/// PHC string that the secret verifies against, so it differs from every
/// secret that is not itself such a string.
pub fn hash_secret(secret: &str) -> (hash: String)
    requires
        utf8_of(secret@).len() <= 0xFFFF_FFFF,
    ensures
        argon2_verifies(utf8_of(secret@), hash@),
        is_argon2id_phc(hash@),
        !is_argon2id_phc(secret@) ==> hash@ != secret@,
{
    argon2_hash(secret.as_bytes())
}

/// Whether `secret` matches the stored `hash`.
pub fn verify_secret(secret: &str, hash: &str) -> (ok: bool)
    ensures
        ok == argon2_verifies(utf8_of(secret@), hash@),
        hash@.len() == 0 ==> !ok,
{
    argon2_verify(secret.as_bytes(), hash)
}

/// The characters that one-time codes are drawn from.
pub const TOKEN_ALPHABET: &'static str = "abcdefghijklmnopqrstuvwxyzABCDEFGHIJKLMNOPQRSTUVWXYZ1234567890";

/// How many characters a one-time code has.
pub const TOKEN_LEN: usize = 10;

/// The alphabet of one-time codes, as a sequence.
pub open spec fn token_alphabet() -> Seq<char> {
    TOKEN_ALPHABET@
}

/// No character of the alphabet is the separator of PHC strings.
pub proof fn lemma_alphabet_has_no_dollar()
    ensures
        !token_alphabet().contains('$'),
{
    reveal_strlit("abcdefghijklmnopqrstuvwxyzABCDEFGHIJKLMNOPQRSTUVWXYZ1234567890");
    assert forall|i: int| 0 <= i < token_alphabet().len() implies token_alphabet()[i] != '$' by {}
}

/// A text whose first character is in the alphabet is no PHC string.
pub proof fn lemma_alphabet_text_is_no_phc(text: Seq<char>)
    requires
        text.len() > 0,
        token_alphabet().contains(text[0]),
    ensures
        !is_argon2id_phc(text),
{
    lemma_alphabet_has_no_dollar();
    reveal_strlit("$argon2id$");
    if is_argon2id_phc(text) {
        assert(text[0] == ARGON2ID_PREFIX@[0]);
    }
}

/// The code spelled by `indices` into the alphabet.
pub fn token_from_indices(indices: &Vec<usize>) -> (token: String)
    requires
        forall|k: int| 0 <= k < indices@.len() ==> indices@[k] < token_alphabet().len(),
    ensures
        token@.len() == indices@.len(),
        forall|k: int| 0 <= k < indices@.len() ==> #[trigger] token@[k] == token_alphabet()[indices@[k] as int],
{
    let mut token = String::new();
    let mut k: usize = 0;
    while k < indices.len()
        invariant
            k <= indices@.len(),
            forall|j: int| 0 <= j < indices@.len() ==> indices@[j] < token_alphabet().len(),
            token@.len() == k,
            forall|j: int| 0 <= j < k ==> #[trigger] token@[j] == token_alphabet()[indices@[j] as int],
        decreases indices@.len() - k,
    {
        let c = TOKEN_ALPHABET.get_char(indices[k]);
        push_char(&mut token, c);
        k = k + 1;
    }
    token
}

/// A fresh random one-time code: ten characters, each drawn uniformly from the alphabet.
pub fn generate_token() -> (token: String)
    ensures
        token@.len() == TOKEN_LEN,
        forall|k: int| 0 <= k < TOKEN_LEN ==> token_alphabet().contains(#[trigger] token@[k]),
{
    proof {
        reveal_strlit("abcdefghijklmnopqrstuvwxyzABCDEFGHIJKLMNOPQRSTUVWXYZ1234567890");
    }
    let bound = TOKEN_ALPHABET.unicode_len();
    assert(bound == 62);
    let mut indices: Vec<usize> = Vec::new();
    while indices.len() < TOKEN_LEN
        invariant
            bound == token_alphabet().len(),
            bound == 62,
            indices@.len() <= TOKEN_LEN,
            forall|k: int| 0 <= k < indices@.len() ==> indices@[k] < token_alphabet().len(),
        decreases TOKEN_LEN - indices@.len(),
    {
        indices.push(random_index(bound));
    }
    let token = token_from_indices(&indices);
    assert forall|k: int| 0 <= k < TOKEN_LEN implies token_alphabet().contains(#[trigger] token@[k]) by {
        assert(token@[k] == token_alphabet()[indices@[k] as int]);
    }
    token
}

} // verus!
