//! Password hashing and API-key generation.
//!
//! Primitives, not user logic: nothing here knows what a user is.

use vstd::prelude::*;
use vstd::string::*;

use crate::text::concat;

verus! {

pub const API_KEY_PREFIX: &'static str = "trace_sk_";

/// What `password_hash` fails with.
#[verifier::external_type_specification]
#[verifier::external_body]
pub struct ExHashError(argon2::password_hash::Error);

/// The unpadded, URL-safe base64 encoding of `bytes`.
pub uninterp spec fn base64_url_unpadded(bytes: Seq<u8>) -> Seq<char>;

/// A character of the URL-safe base64 alphabet.
pub open spec fn url_safe_char(c: char) -> bool {
    ('A' <= c <= 'Z') || ('a' <= c <= 'z') || ('0' <= c <= '9') || c == '-' || c == '_'
}

/// The length of the unpadded base64 encoding of `n` bytes: four characters
/// for every three bytes, and two or three for a last group of one or two.
pub open spec fn unpadded_len(n: nat) -> nat {
    (4 * n + 2) / 3
}

/// Encodes with `base64`'s `URL_SAFE_NO_PAD` engine (`Engine::encode`). The
/// result is named, a function of the bytes alone; its length and alphabet are
/// stated, as the engine's encoder writes them.
#[verifier::external_body]
fn encode_base64_url(bytes: &[u8]) -> (r: String)
    requires
        bytes@.len() <= 0x3fff_ffff,
    ensures
        r@ == base64_url_unpadded(bytes@),
        r@.len() == unpadded_len(bytes@.len()),
        forall|i: int| 0 <= i < r@.len() ==> url_safe_char(#[trigger] r@[i]),
{
    base64::Engine::encode(&base64::engine::general_purpose::URL_SAFE_NO_PAD, bytes)
}

/// Fills 32 bytes from the operating system's random source (`OsRng`, through
/// `RngCore::fill_bytes`). Nothing is claimed about the bytes; `OsRng` panics
/// only when the operating system cannot supply randomness at all.
#[verifier::external_body]
fn random_key_bytes() -> (r: [u8; 32]) {
    let mut bytes = [0u8; 32];
    argon2::password_hash::rand_core::RngCore::fill_bytes(
        &mut argon2::password_hash::rand_core::OsRng,
        &mut bytes,
    );
    bytes
}

/// `bytes` are 32 bytes the operating system's random source handed out.
pub closed spec fn drawn_at_random(bytes: [u8; 32]) -> bool {
    call_ensures(random_key_bytes, (), bytes)
}

/// The PHC "B64" text of `bytes` (standard base64 without padding), as
/// `password_hash` writes a salt.
pub uninterp spec fn phc_b64(bytes: Seq<u8>) -> Seq<char>;

/// The PHC string Argon2id with its default parameters makes of `password`
/// and the salt whose B64 text is `salt`.
pub uninterp spec fn argon2id_phc(password: Seq<char>, salt: Seq<char>) -> Seq<char>;

/// `text` is the B64 text of between `min` and `max` bytes.
pub open spec fn is_salt_of(text: Seq<char>, min: nat, max: nat) -> bool {
    exists|bytes: Seq<u8>| min <= bytes.len() <= max && text == #[trigger] phc_b64(bytes)
}

/// A fresh random salt (`SaltString::generate` over `OsRng`), as its text.
/// `generate` fills 16 bytes from the random source and writes their B64
/// text; which bytes is left to chance.
#[verifier::external_body]
fn fresh_salt() -> (r: String)
    ensures
        is_salt_of(r@, 16, 16),
{
    argon2::password_hash::SaltString::generate(&mut argon2::password_hash::rand_core::OsRng)
        .as_str()
        .to_string()
}

/// Reads the salt text back (`SaltString::from_b64`), hashes with
/// `Argon2::default()` through `PasswordHasher::hash_password`, and renders the
/// PHC string. The result is named: Argon2id's output is a function of the
/// password and the salt alone. The PHC string starts with `$argon2id$`. With
/// the default parameters, hashing fails only for a password of more than
/// `0xFFFF_FFFF` bytes or a salt that does not decode to at least 8 bytes, so
/// a password of at most a quarter of that many characters and the B64 text
/// of 8 to 48 bytes always succeed.
#[verifier::external_body]
fn argon2_hash(password: &str, salt: &str) -> (r: Result<String, argon2::password_hash::Error>)
    ensures
        r is Ok ==> r->Ok_0@ == argon2id_phc(password@, salt@),
        r is Ok ==> "$argon2id$"@.is_prefix_of(r->Ok_0@),
        (password@.len() <= 0x3fff_ffff && exists|bytes: Seq<u8>|
            8 <= bytes.len() <= 48 && salt@ == #[trigger] phc_b64(bytes)) ==> r is Ok,
{
    let salt = match argon2::password_hash::SaltString::from_b64(salt) {
        Ok(salt) => salt,
        Err(err) => return Err(err),
    };
    match argon2::password_hash::PasswordHasher::hash_password(
        &argon2::Argon2::default(),
        password.as_bytes(),
        &salt,
    ) {
        Ok(hash) => Ok(hash.to_string()),
        Err(err) => Err(err),
    }
}

/// The `Display` text of a hashing failure. Nothing is claimed about it.
#[verifier::external_body]
fn describe_hash_error(err: &argon2::password_hash::Error) -> (r: String) {
    format!("{err}")
}

/// An API key made of the encoded random bytes: the prefix, for
/// greppability, then the encoding.
pub fn api_key_from(encoded: &str) -> (r: String)
    ensures
        r@ == API_KEY_PREFIX@ + encoded@,
{
    concat(API_KEY_PREFIX, encoded)
}

/// Generate an opaque API key: a prefix for greppability plus 256 bits of
/// entropy from the operating system, URL-safe base64-encoded.
pub fn generate_api_key() -> (r: String)
    ensures
        exists|bytes: [u8; 32]|
            drawn_at_random(bytes) && r@ == API_KEY_PREFIX@
                + #[trigger] base64_url_unpadded(bytes@),
        r@.len() == API_KEY_PREFIX@.len() + 43,
        forall|i: int|
            API_KEY_PREFIX@.len() <= i < r@.len() ==> url_safe_char(#[trigger] r@[i]),
{
    let bytes = random_key_bytes();
    let encoded = encode_base64_url(bytes.as_slice());
    let key = api_key_from(encoded.as_str());
    proof {
        assert(bytes@.len() == 32);
        assert(encoded@.len() == 43);
        assert forall|i: int| API_KEY_PREFIX@.len() <= i < key@.len() implies url_safe_char(
            #[trigger] key@[i],
        ) by {
            assert(key@[i] == encoded@[i - API_KEY_PREFIX@.len()]);
        }
    }
    key
}

/// Hash a password with Argon2id using a fresh random salt. The returned PHC
/// string carries the salt and parameters, so verification needs nothing else.
/// Hashing fails only for a password of more than `0xFFFF_FFFF` bytes.
///
/// This is CPU-bound by design — call it from a blocking thread.
pub fn hash_password(password: &str) -> (r: Result<String, String>)
    ensures
        password@.len() <= 0x3fff_ffff ==> r is Ok,
        r is Ok ==> exists|bytes: Seq<u8>|
            bytes.len() == 16 && r->Ok_0@ == argon2id_phc(password@, #[trigger] phc_b64(bytes)),
        r is Ok ==> "$argon2id$"@.is_prefix_of(r->Ok_0@),
        r is Err ==> "failed to hash password: "@.is_prefix_of(r->Err_0@),
{
    let salt = fresh_salt();
    let ghost salt_bytes = choose|bytes: Seq<u8>| 16 <= bytes.len() <= 16 && salt@ == phc_b64(bytes);
    match argon2_hash(password, salt.as_str()) {
        Ok(hash) => {
            proof {
                assert(hash@ == argon2id_phc(password@, phc_b64(salt_bytes)));
            }
            Ok(hash)
        },
        Err(err) => {
            proof {
                assert(8 <= salt_bytes.len() <= 48 && salt@ == phc_b64(salt_bytes));
            }
            let detail = describe_hash_error(&err);
            let message = concat("failed to hash password: ", detail.as_str());
            proof {
                let p = "failed to hash password: "@;
                assert(message@.subrange(0, p.len() as int) =~= p);
            }
            Err(message)
        },
    }
}

} // verus!
