//! Error types of the domain and of the authentication layer.

use vstd::prelude::*;
use vstd::string::*;

verus! {

/// A broken business rule or a failure of a repository.
#[derive(Debug, Clone, PartialEq, Eq)]
pub enum DomainError {
    NotFound(String),
    Validation(String),
    Concurrency,
    Internal(String),
}

impl DomainError {
    /// The text the error is displayed with.
    pub open spec fn text(&self) -> Seq<char> {
        match self {
            DomainError::NotFound(msg) => "NotFound: "@ + msg@,
            DomainError::Validation(msg) => "Validation: "@ + msg@,
            DomainError::Concurrency => "Concurrency conflict"@,
            DomainError::Internal(msg) => "Internal: "@ + msg@,
        }
    }

    /// The text the error is displayed with.
    pub fn message(&self) -> (s: String)
        ensures
            s@ == self.text(),
    {
        match self {
            DomainError::NotFound(msg) => String::from_str("NotFound: ").concat(msg.as_str()),
            DomainError::Validation(msg) => String::from_str("Validation: ").concat(msg.as_str()),
            DomainError::Concurrency => String::from_str("Concurrency conflict"),
            DomainError::Internal(msg) => String::from_str("Internal: ").concat(msg.as_str()),
        }
    }
}

/// A failure of authentication.
#[derive(Debug, Clone, PartialEq, Eq)]
pub enum AuthError {
    InvalidCredentials,
    TokenExpired,
    TokenInvalid,
    PasswordHashingFailed,
    Internal(String),
}

impl AuthError {
    /// The text the error is displayed with.
    pub open spec fn text(&self) -> Seq<char> {
        match self {
            AuthError::InvalidCredentials => "Invalid credentials"@,
            AuthError::TokenExpired => "Token expired"@,
            AuthError::TokenInvalid => "Token invalid"@,
            AuthError::PasswordHashingFailed => "Password hashing failed"@,
            AuthError::Internal(msg) => "Internal: "@ + msg@,
        }
    }

    /// The text the error is displayed with.
    pub fn message(&self) -> (s: String)
        ensures
            s@ == self.text(),
    {
        match self {
            AuthError::InvalidCredentials => String::from_str("Invalid credentials"),
            AuthError::TokenExpired => String::from_str("Token expired"),
            AuthError::TokenInvalid => String::from_str("Token invalid"),
            AuthError::PasswordHashingFailed => String::from_str("Password hashing failed"),
            AuthError::Internal(msg) => String::from_str("Internal: ").concat(msg.as_str()),
        }
    }
}

} // verus!
