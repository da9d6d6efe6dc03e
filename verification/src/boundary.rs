//! Calls into `uuid`, `time`, `argon2`, `pasetors` and the parts of `std` that the
//! verifier has no specification for. Each function here is believed, not
//! proved: its doc comment says what its contract claims of the code it calls.

use vstd::prelude::*;
use argon2::password_hash::{PasswordHasher, PasswordVerifier};

verus! {

/// The lower-case hexadecimal digit for `d` (`0 <= d < 16`).
pub open spec fn hex_digit(d: int) -> char {
    seq!['0', '1', '2', '3', '4', '5', '6', '7', '8', '9', 'a', 'b', 'c', 'd', 'e', 'f'][d]
}

/// The 32 lower-case hexadecimal digits of `u`, most significant first.
pub open spec fn hex_digits(u: u128) -> Seq<char> {
    Seq::new(32, |i: int| hex_digit(((u >> ((124 - 4 * i) as u128)) & 0xfu128) as int))
}

/// The text that `uuid::Uuid`'s `Display` gives for the identifier whose
/// 128-bit big-endian value is `u`: its hexadecimal digits in lower case,
/// grouped 8-4-4-4-12 with hyphens between the groups.
pub open spec fn uuid_hyphenated(u: u128) -> Seq<char> {
    let h = hex_digits(u);
    h.subrange(0, 8) + seq!['-'] + h.subrange(8, 12) + seq!['-'] + h.subrange(12, 16) + seq!['-']
        + h.subrange(16, 20) + seq!['-'] + h.subrange(20, 32)
}

/// The value that `uuid::Uuid::parse_str` gives for `s`, as a 128-bit
/// big-endian value, or `None` where it returns an error.
pub uninterp spec fn uuid_parsed(s: Seq<char>) -> Option<u128>;

/// The text that `time::OffsetDateTime`'s `Display` gives for the instant
/// `nanos` nanoseconds after the Unix epoch, in UTC.
pub uninterp spec fn offset_date_time_text(nanos: i128) -> Seq<char>;

/// The view of an optional string.
pub open spec fn opt_view(o: Option<String>) -> Option<Seq<char>> {
    match o {
        Some(s) => Some(s@),
        None => None,
    }
}

/// The text that `pasetors` decrypts from the PASETO v4 local `token` under
/// the 32-byte key `key`, or `None` where the key, the token's form or its
/// authentication tag is refused.
pub uninterp spec fn paseto_v4_local_open(key: Seq<u8>, token: Seq<char>) -> Option<Seq<char>>;

/// The PHC string that `argon2` (Argon2id, version 19, default parameters)
/// gives for `password` with the 16-byte salt whose big-endian value is
/// `salt`, or `None` where hashing fails.
pub uninterp spec fn argon2id_hash_text(password: Seq<char>, salt: u128) -> Option<Seq<char>>;

/// Whether `argon2` accepts `password` against the PHC string `hash`, or
/// `None` where `hash` cannot be parsed or its parameters are refused.
pub uninterp spec fn argon2_accepts(password: Seq<char>, hash: Seq<char>) -> Option<bool>;

/// The text that `str::to_lowercase` gives for `s`.
pub uninterp spec fn lowercase_text(s: Seq<char>) -> Seq<char>;

/// The text that `str::to_uppercase` gives for `s`.
pub uninterp spec fn uppercase_text(s: Seq<char>) -> Seq<char>;

/// Whether every character of `s` is ASCII.
pub open spec fn is_ascii_text(s: Seq<char>) -> bool {
    forall|i: int| 0 <= i < s.len() ==> (#[trigger] s[i] as u32) < 128
}

/// `c`, made small if it is an ASCII capital letter.
pub open spec fn ascii_lower(c: char) -> char {
    if 'A' <= c <= 'Z' {
        ((c as u32) + 32) as char
    } else {
        c
    }
}

/// `c`, made capital if it is an ASCII small letter.
pub open spec fn ascii_upper(c: char) -> char {
    if 'a' <= c <= 'z' {
        ((c as u32) - 32) as char
    } else {
        c
    }
}

/// The text that `format!("{:?}", v)` gives for a slice of strings whose
/// contents are `v`.
pub uninterp spec fn debug_list_text(v: Seq<Seq<char>>) -> Seq<char>;

/// Earliest instant `time::OffsetDateTime` represents: -9999-01-01 00:00:00 UTC,
/// in nanoseconds since the Unix epoch.
pub const MIN_TIMESTAMP_NANOS: i128 = -377_705_116_800_000_000_000;

/// Latest instant `time::OffsetDateTime` represents: 9999-12-31 23:59:59.999999999 UTC,
/// in nanoseconds since the Unix epoch.
pub const MAX_TIMESTAMP_NANOS: i128 = 253_402_300_799_999_999_999;

/// Calls `uuid::Uuid::new_v4` and returns the identifier's 128-bit
/// big-endian value. The source sets the version nibble to 4 and the variant
/// bits to `10`; the rest is random, so nothing else is claimed.
#[verifier::external_body]
pub(crate) fn new_uuid_v4() -> (u: u128)
    ensures
        (u >> 76u128) & 0xfu128 == 4,
        (u >> 62u128) & 0x3u128 == 2,
{
    uuid::Uuid::new_v4().as_u128()
}

/// Calls `Display` of `uuid::Uuid::from_u128(u)`; claims the text is the
/// lower-case hyphenated form `uuid_hyphenated(u)`.
#[verifier::external_body]
pub(crate) fn uuid_to_text(u: u128) -> (s: String)
    ensures
        s@ == uuid_hyphenated(u),
{
    uuid::Uuid::from_u128(u).to_string()
}

/// Calls `uuid::Uuid::parse_str`; claims the result is `uuid_parsed(s)`, and
/// that the text `Display` gives for an identifier parses back to it.
#[verifier::external_body]
pub(crate) fn parse_uuid(s: &str) -> (r: Option<u128>)
    ensures
        r == uuid_parsed(s@),
        forall|u: u128| s@ == #[trigger] uuid_hyphenated(u) ==> r == Some(u),
{
    match uuid::Uuid::parse_str(s) {
        Ok(u) => Some(u.as_u128()),
        Err(_) => None,
    }
}

/// Calls `time::OffsetDateTime::now_utc` and returns the instant as
/// nanoseconds since the Unix epoch. The value depends on the clock; the
/// only claim is that it lies in the range `OffsetDateTime` represents.
#[verifier::external_body]
pub(crate) fn now_utc_nanos() -> (n: i128)
    ensures
        MIN_TIMESTAMP_NANOS <= n <= MAX_TIMESTAMP_NANOS,
{
    time::OffsetDateTime::now_utc().unix_timestamp_nanos()
}

/// Calls `time::OffsetDateTime::from_unix_timestamp_nanos` and, on success,
/// its `Display`. Claims success exactly on the represented range, and that
/// the text is `offset_date_time_text(nanos)`.
#[verifier::external_body]
pub(crate) fn offset_date_time_to_text(nanos: i128) -> (r: Option<String>)
    ensures
        r is Some <==> MIN_TIMESTAMP_NANOS <= nanos <= MAX_TIMESTAMP_NANOS,
        r matches Some(s) ==> s@ == offset_date_time_text(nanos),
{
    match time::OffsetDateTime::from_unix_timestamp_nanos(nanos) {
        Ok(t) => Some(t.to_string()),
        Err(_) => None,
    }
}

/// Calls `pasetors::version4::LocalToken::encrypt` with no footer and no
/// implicit assertion, under the key `key`. Claims that a token is made only
/// under a 32-byte key, that it starts with `v4.local.`, and that decrypting
/// it under the same key gives `message` back. The nonce is random, so
/// nothing else is claimed of the token.
#[verifier::external_body]
pub(crate) fn paseto_v4_local_seal(key: &[u8], message: &str) -> (r: Option<String>)
    ensures
        r matches Some(t) ==> {
            &&& key@.len() == 32
            &&& t@.len() >= 9
            &&& t@.subrange(0, 9) == "v4.local."@
            &&& paseto_v4_local_open(key@, t@) == Some(message@)
        },
{
    let k = pasetors::keys::SymmetricKey::<pasetors::version4::V4>::from(key).ok()?;
    pasetors::version4::LocalToken::encrypt(&k, message.as_bytes(), None, None).ok()
}

/// Calls `pasetors::version4::LocalToken::decrypt` with no footer and no
/// implicit assertion, under the key `key`, and returns the payload. Claims
/// the result is `paseto_v4_local_open(key, token)`, and `None` for a key that
/// is not 32 bytes long.
#[verifier::external_body]
pub(crate) fn paseto_v4_local_unseal(key: &[u8], token: &str) -> (r: Option<String>)
    ensures
        match r {
            Some(s) => paseto_v4_local_open(key@, token@) == Some(s@),
            None => paseto_v4_local_open(key@, token@) is None,
        },
        key@.len() != 32 ==> r is None,
{
    let k = pasetors::keys::SymmetricKey::<pasetors::version4::V4>::from(key).ok()?;
    let t = pasetors::token::UntrustedToken::<pasetors::Local, pasetors::version4::V4>::try_from(token).ok()?;
    let trusted = pasetors::version4::LocalToken::decrypt(&k, &t, None, None).ok()?;
    Some(trusted.payload().to_string())
}

/// Calls `argon2::Argon2::default().hash_password` on the bytes of
/// `password`, with the salt `salt` (its 16 big-endian bytes, in the salt's
/// base64 form), and writes the PHC string. Claims the result is
/// `argon2id_hash_text(password, salt)`; that hashing succeeds whenever the
/// password has fewer than 2^30 characters (the crate refuses only passwords
/// of more than `0xFFFF_FFFF` bytes, and a character takes at most four);
/// that the string starts `$argon2id$v=19$` (the algorithm and the default
/// version, 0x13); and that `argon2` accepts `password` against it.
#[verifier::external_body]
pub(crate) fn argon2id_hash(password: &str, salt: u128) -> (r: Option<String>)
    ensures
        opt_view(r) == argon2id_hash_text(password@, salt),
        password@.len() < 0x4000_0000 ==> r is Some,
        r matches Some(h) ==> {
            &&& h@.len() >= 15
            &&& h@.subrange(0, 15) == "$argon2id$v=19$"@
            &&& argon2_accepts(password@, h@) == Some(true)
        },
{
    let s = argon2::password_hash::SaltString::encode_b64(&salt.to_be_bytes()).ok()?;
    let h = argon2::Argon2::default().hash_password(password.as_bytes(), &s).ok()?;
    Some(h.to_string())
}

/// Calls `argon2::password_hash::PasswordHash::new` on `hash` and
/// `argon2::Argon2::default().verify_password` on the bytes of `password`.
/// Claims the result is `argon2_accepts(password, hash)`: `Some(true)` when
/// the password matches, `Some(false)` when it does not, `None` when the
/// hash is refused.
#[verifier::external_body]
pub(crate) fn argon2_verify(password: &str, hash: &str) -> (r: Option<bool>)
    ensures
        r == argon2_accepts(password@, hash@),
{
    let parsed = argon2::password_hash::PasswordHash::new(hash).ok()?;
    match argon2::Argon2::default().verify_password(password.as_bytes(), &parsed) {
        Ok(()) => Some(true),
        Err(argon2::password_hash::Error::Password) => Some(false),
        Err(_) => None,
    }
}

/// Calls `str::to_lowercase`; claims the text is `lowercase_text(s)` and,
/// for ASCII text, that it is `s` with each ASCII capital made small (the
/// Unicode lowercase mapping of an ASCII character).
#[verifier::external_body]
pub(crate) fn to_lowercase(s: &str) -> (r: String)
    ensures
        r@ == lowercase_text(s@),
        is_ascii_text(s@) ==> r@ == s@.map_values(|c: char| ascii_lower(c)),
{
    s.to_lowercase()
}

/// Calls `str::to_uppercase`; claims the text is `uppercase_text(s)` and,
/// for ASCII text, that it is `s` with each ASCII small letter made capital
/// (the Unicode uppercase mapping of an ASCII character).
#[verifier::external_body]
pub(crate) fn to_uppercase(s: &str) -> (r: String)
    ensures
        r@ == uppercase_text(s@),
        is_ascii_text(s@) ==> r@ == s@.map_values(|c: char| ascii_upper(c)),
{
    s.to_uppercase()
}

/// Calls `format!("{:?}", v)`; claims the text is `debug_list_text` of the
/// contents of `v`.
#[verifier::external_body]
pub(crate) fn debug_list(v: &[String]) -> (r: String)
    ensures
        r@ == debug_list_text(v@.map_values(|s: String| s@)),
{
    format!("{:?}", v)
}

} // verus!
