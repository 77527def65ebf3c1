use vstd::prelude::*;

verus! {

/// Every way an operation of the ledger can be rejected. Each failure is a
/// synchronous, typed rejection of the single triggering call; no partial
/// state is ever observable afterwards.
#[derive(Clone, Copy, Debug, PartialEq, Eq, Structural)]
pub enum CreditsError {
    /// A zero amount was supplied where a positive one is required.
    InvalidAmount,
    /// An account's asset type does not match the configured accepted asset.
    InvalidMint,
    /// An account is owned by someone other than the identity the operation
    /// requires.
    InvalidOwner,
    /// A deposit too small to yield even one whole credit.
    BelowMinimum,
    /// A balance update would leave the unsigned 64-bit range.
    Overflow,
    /// The caller is neither the authority nor the delegated spender the
    /// operation demands.
    Unauthorized,
    /// A debit larger than the user's current balance.
    InsufficientCredits,
    /// A configuration record already exists for this authority.
    DuplicateConfig,
}

} // verus!
