use vstd::prelude::*;

verus! {

/// Base-asset units per one credit, fixed at genesis; no update path exists.
pub const CREDIT_UNIT: u64 = 100_000;

/// Per-authority configuration record. `authority`, `usdc_mint`,
/// `credit_unit` and `key` are immutable after creation; only `spender`
/// has an update path, and only the authority may take it.
#[derive(Clone, Copy, Debug, PartialEq, Eq, Structural)]
pub struct Config {
    /// Identity that administers this record and may withdraw pooled funds.
    pub authority: u64,
    /// Identity delegated to debit any user's credit balance.
    pub spender: u64,
    /// Identity of the one fungible asset accepted as payment.
    pub usdc_mint: u64,
    /// Base-asset units per one credit; fixed at `CREDIT_UNIT`.
    pub credit_unit: u64,
    /// The record's own derived address. The vault is owned by this key,
    /// and vault-outbound transfers are signed with it.
    pub key: u64,
}

/// Per-user credit balance, created on a user's first successful deposit
/// and never deleted.
#[derive(Clone, Copy, Debug, PartialEq, Eq, Structural)]
pub struct UserCredit {
    /// Identity that owns this balance.
    pub user: u64,
    /// Whole credits currently held.
    pub credits: u64,
}

/// The ledger's view of an externally custodied fungible-asset account:
/// the asset it holds, the identity that owns it, and its balance in base
/// units.
#[derive(Clone, Copy, Debug, PartialEq, Eq, Structural)]
pub struct TokenAccount {
    /// Identity of the asset this account holds.
    pub mint: u64,
    /// Identity that controls this account.
    pub owner: u64,
    /// Balance in base units.
    pub amount: u64,
}

/// Inputs to configuration bootstrap: the proven caller identity (which
/// becomes the authority), the accepted asset, and the derived address
/// under which the record will live.
#[derive(Clone, Copy, Debug, PartialEq, Eq, Structural)]
pub struct InitializeConfig {
    /// Proven identity of the caller; becomes the record's authority.
    pub authority: u64,
    /// Identity of the asset this deployment accepts.
    pub usdc_mint: u64,
    /// Derived address for the new record, supplied by the addressing
    /// substrate.
    pub config_key: u64,
}

/// Inputs to spender rotation: the proven caller identity and the
/// authority whose configuration record is targeted.
#[derive(Clone, Copy, Debug, PartialEq, Eq, Structural)]
pub struct SetSpender {
    /// Proven identity of the caller.
    pub caller: u64,
    /// Authority whose configuration record is addressed.
    pub authority: u64,
}

/// Inputs to a deposit: the paying user, the targeted configuration, the
/// user's source account, the pooled vault, and the asset the caller
/// presented.
#[derive(Clone, Copy, Debug, PartialEq, Eq, Structural)]
pub struct PayUsdc {
    /// Proven identity of the paying user.
    pub user: u64,
    /// Authority whose configuration record is addressed.
    pub authority: u64,
    /// The user's source account; debited by the deposit.
    pub user_usdc: TokenAccount,
    /// The pooled custody account; credited by the deposit.
    pub vault_usdc: TokenAccount,
    /// Identity of the asset the caller presented.
    pub usdc_mint: u64,
}

/// Inputs to a withdrawal: the proven caller identity, the targeted
/// configuration, the pooled vault, and the destination account.
#[derive(Clone, Copy, Debug, PartialEq, Eq, Structural)]
pub struct WithdrawUsdc {
    /// Proven identity of the caller; must be the configured authority.
    pub caller: u64,
    /// Authority whose configuration record is addressed.
    pub authority: u64,
    /// The pooled custody account; debited by the withdrawal.
    pub vault_usdc: TokenAccount,
    /// Destination account for the withdrawn funds.
    pub treasury_usdc: TokenAccount,
}

/// Inputs to a credit debit: the proven caller identity, the targeted
/// configuration, and the user whose balance is debited.
#[derive(Clone, Copy, Debug, PartialEq, Eq, Structural)]
pub struct ConsumeCredit {
    /// Proven identity of the caller; must be the configured spender.
    pub spender: u64,
    /// Authority whose configuration record is addressed.
    pub authority: u64,
    /// User whose credit record is debited.
    pub user: u64,
}

/// Notification of a completed deposit.
#[derive(Clone, Copy, Debug, PartialEq, Eq, Structural)]
pub struct Paid {
    /// The depositing user.
    pub user: u64,
    /// Base units moved into the vault.
    pub amount_base_units: u64,
    /// Whole credits added to the user's balance.
    pub credits_added: u64,
    /// The user's balance after the deposit.
    pub new_balance: u64,
}

/// Notification of a completed withdrawal.
#[derive(Clone, Copy, Debug, PartialEq, Eq, Structural)]
pub struct Withdrawn {
    /// The authority that withdrew.
    pub authority: u64,
    /// Base units moved from the vault to the destination.
    pub amount_base_units: u64,
}

/// Notification of a completed credit debit.
#[derive(Clone, Copy, Debug, PartialEq, Eq, Structural)]
pub struct CreditUsed {
    /// The user whose balance was debited.
    pub user: u64,
    /// Whole credits removed.
    pub amount: u64,
    /// The user's balance after the debit.
    pub new_balance: u64,
}

} // verus!
