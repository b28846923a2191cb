//! The reasons for which the policy turns an operation down.

use vstd::prelude::*;

verus! {

/// Why an operation was rejected. Every rejection aborts the whole enclosing
/// transaction; nothing is changed by a call that returns one.
#[derive(Clone, Copy, Debug, PartialEq, Eq, Structural)]
pub enum Error {
    /// `init` was called on a contract that already has an administrator.
    AlreadyInitialized,
    /// No administrator has been set yet.
    NotInitialized,
    /// The delegate has no allowance on record.
    NotFound,
    /// The requested action has a shape the policy does not support, or lacks
    /// its amount argument.
    NotAllowed,
    /// The cooldown period since the last accepted deposit has not elapsed.
    TooSoon,
    /// The requested amount exceeds the delegate's ceiling.
    TooMuch,
    /// The deposit is addressed to another destination than the delegate's vault.
    WrongVault,
    /// The amount argument is present but does not decode as expected.
    Debug,
}

impl Error {
    /// The number under which the host reports this error.
    pub open spec fn spec_code(self) -> u32 {
        match self {
            Error::AlreadyInitialized => 1,
            Error::NotInitialized => 2,
            Error::NotFound => 3,
            Error::NotAllowed => 4,
            Error::TooSoon => 5,
            Error::TooMuch => 6,
            Error::WrongVault => 7,
            Error::Debug => 8,
        }
    }

    /// The number under which the host reports this error.
    pub fn code(&self) -> (c: u32)
        ensures
            c == self.spec_code(),
    {
        match self {
            Error::AlreadyInitialized => 1,
            Error::NotInitialized => 2,
            Error::NotFound => 3,
            Error::NotAllowed => 4,
            Error::TooSoon => 5,
            Error::TooMuch => 6,
            Error::WrongVault => 7,
            Error::Debug => 8,
        }
    }
}

} // verus!
