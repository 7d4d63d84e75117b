use vstd::prelude::*;

verus! {

/// Why an escrow operation was refused. A refused operation changes nothing.
#[derive(Clone, Copy, Debug, PartialEq, Eq, Structural)]
pub enum ErrorCode {
    /// The caller is not the tournament's authority.
    Unauthorized,
    /// An entry fee of zero was asked for.
    InvalidAmount,
    /// The storage slot for a new tournament already holds one.
    AlreadyExists,
    /// The tournament has been claimed and accepts nothing more.
    TournamentClosed,
    /// The player cannot cover the entry fee.
    InsufficientFunds,
    /// The stored record changed since it was read; read it again and retry.
    Conflict,
    /// A balance or counter would leave the range of `u64`.
    Overflow,
}

impl ErrorCode {
    /// A short human-readable description of the error.
    pub fn message(&self) -> (r: &'static str) {
        match self {
            ErrorCode::Unauthorized => "You are not authorized to perform this action.",
            ErrorCode::InvalidAmount => "The entry fee must be greater than zero.",
            ErrorCode::AlreadyExists => "A tournament already exists at this address.",
            ErrorCode::TournamentClosed => "The tournament is closed.",
            ErrorCode::InsufficientFunds => "Not enough funds to pay the entry fee.",
            ErrorCode::Conflict => "The tournament was updated concurrently; retry.",
            ErrorCode::Overflow => "The amount would overflow.",
        }
    }

    /// Whether retrying the same request may succeed.
    pub fn is_retriable(&self) -> (r: bool)
        ensures
            r == (*self == ErrorCode::Conflict),
    {
        match self {
            ErrorCode::Conflict => true,
            _ => false,
        }
    }
}

} // verus!
