use vstd::prelude::*;

verus! {

/// Why a token operation was refused. Each has a stable numeric code.
#[derive(Clone, Copy, Debug, PartialEq, Eq, Structural)]
pub enum TokenError {
    InsufficientBalance,
    InsufficientAllowance,
    InvalidExpiration,
    LessThanZero,
    MathOverflow,
    CapExceeded,
    InvalidCap,
    EnforcedPause,
    ExpectedPause,
    AccountBlocked,
    AccountNotAllowed,
    InvalidBasisPoints,
    Unauthorized,
}

impl TokenError {
    pub open spec fn spec_code(self) -> u32 {
        match self {
            TokenError::InsufficientBalance => 100,
            TokenError::InsufficientAllowance => 101,
            TokenError::InvalidExpiration => 102,
            TokenError::LessThanZero => 103,
            TokenError::MathOverflow => 104,
            TokenError::CapExceeded => 105,
            TokenError::InvalidCap => 106,
            TokenError::EnforcedPause => 1000,
            TokenError::ExpectedPause => 1001,
            TokenError::AccountBlocked => 113,
            TokenError::AccountNotAllowed => 114,
            TokenError::InvalidBasisPoints => 300,
            TokenError::Unauthorized => 2000,
        }
    }

    /// The stable numeric code reported to the host.
    #[verifier::when_used_as_spec(spec_code)]
    pub fn code(self) -> (r: u32)
        ensures
            r == self.spec_code(),
    {
        match self {
            TokenError::InsufficientBalance => 100,
            TokenError::InsufficientAllowance => 101,
            TokenError::InvalidExpiration => 102,
            TokenError::LessThanZero => 103,
            TokenError::MathOverflow => 104,
            TokenError::CapExceeded => 105,
            TokenError::InvalidCap => 106,
            TokenError::EnforcedPause => 1000,
            TokenError::ExpectedPause => 1001,
            TokenError::AccountBlocked => 113,
            TokenError::AccountNotAllowed => 114,
            TokenError::InvalidBasisPoints => 300,
            TokenError::Unauthorized => 2000,
        }
    }
}

/// Errors of the pause extension.
#[derive(Clone, Copy, Debug, PartialEq, Eq, PartialOrd, Ord, Structural)]
pub enum PausableError {
    /// The operation failed because the contract is paused.
    EnforcedPause,
    /// The operation failed because the contract is not paused.
    ExpectedPause,
}

impl PausableError {
    pub open spec fn spec_into_token_error(self) -> TokenError {
        match self {
            PausableError::EnforcedPause => TokenError::EnforcedPause,
            PausableError::ExpectedPause => TokenError::ExpectedPause,
        }
    }

    /// The same failure as a general token error.
    #[verifier::when_used_as_spec(spec_into_token_error)]
    pub fn into_token_error(self) -> (r: TokenError)
        ensures
            r == self.spec_into_token_error(),
    {
        match self {
            PausableError::EnforcedPause => TokenError::EnforcedPause,
            PausableError::ExpectedPause => TokenError::ExpectedPause,
        }
    }

    /// The stable numeric code reported to the host.
    pub fn code(self) -> (r: u32)
        ensures
            r == self.spec_into_token_error().spec_code(),
    {
        self.into_token_error().code()
    }
}

} // verus!
