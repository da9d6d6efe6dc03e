//! Password hashing with Argon2id, and session tokens sealed as PASETO v4
//! local tokens.
//!
//! A token seals the text `"<payload>:<seconds since the Unix epoch>"`
//! under the manager's 32-byte key; verifying a token under that key gives
//! the text back.

use vstd::prelude::*;
use vstd::string::*;
use vstd::slice::slice_to_vec;
use crate::boundary::{
    argon2_accepts, argon2_verify, argon2id_hash, argon2id_hash_text, new_uuid_v4,
    paseto_v4_local_open, paseto_v4_local_seal, paseto_v4_local_unseal,
};
use crate::timestamp::{Timestamp, representable};
use crate::boundary::MAX_TIMESTAMP_NANOS;
use crate::text::{decimal, digits_value, law_decimal, u64_text};

verus! {

#[derive(Debug, Clone, Copy, PartialEq, Eq)]
pub enum PasswordError {
    HashingFailed,
    VerificationFailed,
}

/// Hashes a password with Argon2id under a fresh random salt, giving its
/// PHC string. Hashing succeeds for every password of fewer than 2^30
/// characters; the hash names Argon2id version 19 and accepts the password
/// it was made from. The salt is random, so which hash comes out is not
/// stated.
pub fn hash_password(password: &str) -> (res: Result<String, PasswordError>)
    ensures
        password@.len() < 0x4000_0000 ==> res is Ok,
        match res {
            Ok(h) => {
                &&& exists|salt: u128| argon2id_hash_text(password@, salt) == Some(h@)
                &&& h@.len() >= 15
                &&& h@.subrange(0, 15) == "$argon2id$v=19$"@
                &&& argon2_accepts(password@, h@) == Some(true)
            },
            Err(e) => e == PasswordError::HashingFailed,
        },
{
    let salt = new_uuid_v4();
    match argon2id_hash(password, salt) {
        Some(h) => Ok(h),
        None => Err(PasswordError::HashingFailed),
    }
}

/// Checks a password against a PHC hash: `Ok(true)` when Argon2 accepts it,
/// `Ok(false)` when it does not, and `VerificationFailed` when the hash
/// cannot be read.
pub fn verify_password(password: &str, hash: &str) -> (res: Result<bool, PasswordError>)
    ensures
        match argon2_accepts(password@, hash@) {
            Some(b) => res == Ok::<bool, PasswordError>(b),
            None => res == Err::<bool, PasswordError>(PasswordError::VerificationFailed),
        },
{
    match argon2_verify(password, hash) {
        Some(b) => Ok(b),
        None => Err(PasswordError::VerificationFailed),
    }
}

#[derive(Debug, Clone, Copy, PartialEq, Eq)]
pub enum TokenError {
    GenerationFailed,
    VerificationFailed,
    InvalidToken,
}

/// The text a token issued at `secs` for `payload` carries.
pub open spec fn token_data(payload: Seq<char>, secs: u64) -> Seq<char> {
    payload + ":"@ + decimal(secs as nat)
}

/// The text a token carries is the payload, a colon, and then the decimal
/// digits of the seconds it was issued at, and nothing else.
pub proof fn law_token_text(payload: Seq<char>, secs: u64)
    ensures
        token_data(payload, secs).take(payload.len() as int) == payload,
        token_data(payload, secs)[payload.len() as int] == ':',
        digits_value(token_data(payload, secs).skip(payload.len() as int + 1)) == secs,
        forall|i: int|
            payload.len() < i < token_data(payload, secs).len() ==> '0' <= #[trigger] token_data(
                payload,
                secs,
            )[i] <= '9',
{
    let t = token_data(payload, secs);
    law_decimal(secs as nat);
    reveal_strlit(":");
    assert(t.take(payload.len() as int) =~= payload);
    assert(t.skip(payload.len() as int + 1) =~= decimal(secs as nat));
    assert forall|i: int| payload.len() < i < t.len() implies '0' <= #[trigger] t[i] <= '9' by {
        assert(t[i] == decimal(secs as nat)[i - payload.len() - 1]);
    }
}

/// The whole seconds from the epoch to an instant `nanos` nanoseconds
/// after it, as a token records them.
pub open spec fn issue_secs(nanos: int) -> u64 {
    (nanos / 1_000_000_000) as u64
}

/// A token records the instant of issue in whole seconds, rounded down:
/// the second it names starts at or before the instant, and the next one
/// starts after it. So a later instant never names an earlier second.
pub proof fn law_whole_seconds(nanos: int)
    requires
        0 <= nanos <= MAX_TIMESTAMP_NANOS,
    ensures
        issue_secs(nanos) * 1_000_000_000 <= nanos < (issue_secs(nanos) + 1) * 1_000_000_000,
        forall|later: int|
            nanos <= later <= MAX_TIMESTAMP_NANOS ==> issue_secs(nanos) <= #[trigger] issue_secs(
                later,
            ),
{
    let q = nanos / 1_000_000_000;
    assert(0 <= q < 0x1_0000_0000_0000_0000) by (nonlinear_arith)
        requires
            0 <= nanos <= 253_402_300_799_999_999_999int,
            q == nanos / 1_000_000_000,
    ;
    assert(q * 1_000_000_000 <= nanos < (q + 1) * 1_000_000_000) by (nonlinear_arith)
        requires
            0 <= nanos,
            q == nanos / 1_000_000_000,
    ;
    assert forall|later: int| nanos <= later <= MAX_TIMESTAMP_NANOS implies issue_secs(nanos)
        <= #[trigger] issue_secs(later) by {
        let ql = later / 1_000_000_000;
        assert(q <= ql && ql < 0x1_0000_0000_0000_0000) by (nonlinear_arith)
            requires
                0 <= nanos <= later <= 253_402_300_799_999_999_999int,
                q == nanos / 1_000_000_000,
                ql == later / 1_000_000_000,
        ;
    }
}

/// The text for `payload` at `secs` seconds after the epoch.
fn token_message(payload: &str, secs: u64) -> (m: String)
    ensures
        m@ == token_data(payload@, secs),
{
    let mut data = String::from_str(payload);
    data.append(":");
    let digits = u64_text(secs);
    data.append(digits.as_str());
    data
}

/// Issues and checks tokens.
pub struct TokenManager {
    secret: Vec<u8>,
}

impl TokenManager {
    /// The secret the manager was made with.
    pub closed spec fn secret(&self) -> Seq<u8> {
        self.secret@
    }

    /// A manager holding a copy of `secret`.
    pub fn new(secret: &[u8]) -> (m: Self)
        ensures
            m.secret() == secret@,
    {
        TokenManager { secret: slice_to_vec(secret) }
    }

    /// Issues a token for `payload`: the text `"<payload>:<seconds>"`, with
    /// the current Unix time in whole seconds, sealed as a PASETO v4 local
    /// token under the manager's key. Fails when the key is not 32 bytes
    /// long, when the clock reads before the epoch, or when sealing fails.
    pub fn generate(&self, payload: &str) -> (res: Result<String, TokenError>)
        ensures
            match res {
                Ok(t) => {
                    &&& t@.len() >= 9
                    &&& t@.subrange(0, 9) == "v4.local."@
                    &&& exists|secs: u64|
                        paseto_v4_local_open(self.secret(), t@) == Some(
                            #[trigger] token_data(payload@, secs),
                        )
                    &&& exists|now: Timestamp|
                        #![trigger issue_secs(now.nanos())]
                        0 <= now.nanos() <= MAX_TIMESTAMP_NANOS && paseto_v4_local_open(
                            self.secret(),
                            t@,
                        ) == Some(token_data(payload@, issue_secs(now.nanos())))
                },
                Err(e) => e == TokenError::GenerationFailed,
            },
            self.secret().len() != 32 ==> res is Err,
    {
        let now = Timestamp::now();
        let res = self.generate_at(payload, now);
        proof {
            if res is Ok {
                assert(issue_secs(now.nanos()) == issue_secs(now.nanos()));
            }
        }
        res
    }

    /// Issues a token for `payload` as `generate` does when the clock reads
    /// `now`: it carries `"<payload>:<s>"` with `s` the whole seconds from
    /// the epoch to `now`. Fails when the key is not 32 bytes long, when
    /// `now` is before the epoch, or when sealing fails.
    pub fn generate_at(&self, payload: &str, now: Timestamp) -> (res: Result<String, TokenError>)
        requires
            representable(now.nanos()),
        ensures
            match res {
                Ok(t) => {
                    &&& t@.len() >= 9
                    &&& t@.subrange(0, 9) == "v4.local."@
                    &&& paseto_v4_local_open(self.secret(), t@) == Some(
                        token_data(payload@, issue_secs(now.nanos())),
                    )
                },
                Err(e) => e == TokenError::GenerationFailed,
            },
            now.nanos() < 0 ==> res is Err,
            self.secret().len() != 32 ==> res is Err,
    {
        let nanos = now.unix_nanos();
        if nanos < 0 {
            return Err(TokenError::GenerationFailed);
        }
        proof {
            law_whole_seconds(nanos as int);
        }
        let secs = (nanos / 1_000_000_000) as u64;
        assert(secs == issue_secs(now.nanos()));
        let message = token_message(payload, secs);
        match paseto_v4_local_seal(self.secret.as_slice(), message.as_str()) {
            Some(t) => Ok(t),
            None => Err(TokenError::GenerationFailed),
        }
    }

    /// The text a token carries, opened under the manager's key; a token
    /// that the key does not open is `InvalidToken`. A token issued by
    /// `generate` of this manager gives back `"<payload>:<seconds>"`.
    pub fn verify(&self, token: &str) -> (res: Result<String, TokenError>)
        ensures
            match paseto_v4_local_open(self.secret(), token@) {
                Some(s) => res matches Ok(x) && x@ == s,
                None => res == Err::<String, TokenError>(TokenError::InvalidToken),
            },
    {
        match paseto_v4_local_unseal(self.secret.as_slice(), token) {
            Some(s) => Ok(s),
            None => Err(TokenError::InvalidToken),
        }
    }
}

} // verus!
