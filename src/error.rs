use vstd::prelude::*;

verus! {

/// Why a raw string was refused as a domain value.
#[derive(Debug, Clone, Copy, PartialEq, Eq, Structural)]
pub enum ValidationError {
    InvalidEmailFormat,
    PasswordTooShort,
}

/// Failures reported by the operations of a user store.
#[derive(Debug, Clone, Copy, PartialEq, Eq, Structural)]
pub enum UserStoreError {
    UserAlreadyExists,
    UserNotFound,
    InvalidCredentials,
    UnexpectedError,
}

/// Terminal failure outcomes of the signup workflow.
#[derive(Debug, Clone, Copy, PartialEq, Eq, Structural)]
pub enum AuthAPIError {
    UserAlreadyExists,
    InvalidCredentials,
    UnexpectedError,
}

} // verus!
