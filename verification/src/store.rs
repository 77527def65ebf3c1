use vstd::prelude::*;
use std::collections::HashMap;
use crate::errors::CreditsError;
use crate::records::{
    Config, ConsumeCredit, CreditUsed, InitializeConfig, Paid, PayUsdc, SetSpender, TokenAccount,
    UserCredit, WithdrawUsdc, Withdrawn, CREDIT_UNIT,
};

verus! {

broadcast use vstd::std_specs::hash::group_hash_axioms;

/// Mathematical view of the ledger: the configuration records keyed by
/// authority, and the credit records keyed by user.
pub struct LedgerView {
    pub configs: Map<u64, Config>,
    pub credits: Map<u64, UserCredit>,
}

/// Every configuration record sits under its own authority's key and
/// carries the genesis conversion rate.
pub open spec fn configs_wf(configs: Map<u64, Config>) -> bool {
    forall|a: u64| #[trigger] configs.contains_key(a)
        ==> configs[a].authority == a && configs[a].credit_unit == CREDIT_UNIT
}

/// Every credit record sits under its own user's key.
pub open spec fn credits_wf(credits: Map<u64, UserCredit>) -> bool {
    forall|u: u64| #[trigger] credits.contains_key(u) ==> credits[u].user == u
}

/// A user's balance: the credits of their record, or zero where no record
/// exists yet.
pub open spec fn balance_of(credits: Map<u64, UserCredit>, user: u64) -> int {
    if credits.contains_key(user) {
        credits[user].credits as int
    } else {
        0
    }
}

/// Whole credits a deposit of `amount` base units yields: integer floor
/// division by the conversion rate. Any remainder is absorbed into the
/// vault with no partial-credit entry and no refund.
pub open spec fn credits_gained(amount: u64) -> int {
    amount as int / CREDIT_UNIT as int
}

/// The configuration record that bootstrap creates: the caller becomes
/// both authority and initial spender, and the rate is fixed at genesis.
pub open spec fn spec_new_config(ctx: InitializeConfig) -> Config {
    Config {
        authority: ctx.authority,
        spender: ctx.authority,
        usdc_mint: ctx.usdc_mint,
        credit_unit: CREDIT_UNIT,
        key: ctx.config_key,
    }
}

/// A configuration record after spender rotation: only `spender` changes.
pub open spec fn spec_with_spender(c: Config, spender: u64) -> Config {
    Config { spender, ..c }
}

/// A credit record holding `credits` for `user`.
pub open spec fn spec_user_credit(user: u64, credits: u64) -> UserCredit {
    UserCredit { user, credits }
}

/// A token account after `amount` base units left it.
pub open spec fn token_debited(t: TokenAccount, amount: u64) -> TokenAccount {
    TokenAccount { amount: (t.amount - amount) as u64, ..t }
}

/// A token account after `amount` base units entered it.
pub open spec fn token_credited(t: TokenAccount, amount: u64) -> TokenAccount {
    TokenAccount { amount: (t.amount + amount) as u64, ..t }
}

/// The credit map after a successful deposit of `amount` base units by
/// `user`: their record is created or updated to the old balance plus the
/// credits gained.
pub open spec fn pay_effect(credits: Map<u64, UserCredit>, user: u64, amount: u64) -> Map<
    u64,
    UserCredit,
> {
    credits.insert(
        user,
        spec_user_credit(user, (balance_of(credits, user) + credits_gained(amount)) as u64),
    )
}

/// The credit map after a successful debit of `amount` credits from
/// `user`'s record.
pub open spec fn consume_effect(credits: Map<u64, UserCredit>, user: u64, amount: u64) -> Map<
    u64,
    UserCredit,
> {
    credits.insert(user, spec_user_credit(user, (balance_of(credits, user) - amount) as u64))
}

/// The first rejection a deposit meets, or `None` where it succeeds:
/// a zero amount, then a presented, source or vault asset that is not the
/// accepted one, then a source not owned by the payer, then a vault not
/// owned by the configuration record, then a deposit below one credit,
/// then a balance that would leave the unsigned 64-bit range.
pub open spec fn pay_error(cfg: Config, balance: int, ctx: PayUsdc, amount: u64) -> Option<
    CreditsError,
> {
    if amount == 0 {
        Some(CreditsError::InvalidAmount)
    } else if ctx.usdc_mint != cfg.usdc_mint {
        Some(CreditsError::InvalidMint)
    } else if ctx.user_usdc.mint != cfg.usdc_mint {
        Some(CreditsError::InvalidMint)
    } else if ctx.vault_usdc.mint != cfg.usdc_mint {
        Some(CreditsError::InvalidMint)
    } else if ctx.user_usdc.owner != ctx.user {
        Some(CreditsError::InvalidOwner)
    } else if ctx.vault_usdc.owner != cfg.key {
        Some(CreditsError::InvalidOwner)
    } else if credits_gained(amount) == 0 {
        Some(CreditsError::BelowMinimum)
    } else if balance + credits_gained(amount) > u64::MAX {
        Some(CreditsError::Overflow)
    } else {
        None
    }
}

/// The first rejection a withdrawal meets, or `None` where it succeeds:
/// a caller other than the authority, then a zero amount, then a
/// destination or vault asset that is not the accepted one, then a vault
/// not owned by the configuration record.
pub open spec fn withdraw_error(cfg: Config, ctx: WithdrawUsdc, amount: u64) -> Option<
    CreditsError,
> {
    if ctx.caller != cfg.authority {
        Some(CreditsError::Unauthorized)
    } else if amount == 0 {
        Some(CreditsError::InvalidAmount)
    } else if ctx.treasury_usdc.mint != cfg.usdc_mint {
        Some(CreditsError::InvalidMint)
    } else if ctx.vault_usdc.mint != cfg.usdc_mint {
        Some(CreditsError::InvalidMint)
    } else if ctx.vault_usdc.owner != cfg.key {
        Some(CreditsError::InvalidOwner)
    } else {
        None
    }
}

/// The first rejection a debit meets, or `None` where it succeeds: a zero
/// amount, then a caller other than the delegated spender, then a record
/// that does not belong to the named user, then a balance smaller than the
/// debit.
pub open spec fn consume_error(cfg: Config, rec: UserCredit, ctx: ConsumeCredit, amount: u64) -> Option<
    CreditsError,
> {
    if amount == 0 {
        Some(CreditsError::InvalidAmount)
    } else if ctx.spender != cfg.spender {
        Some(CreditsError::Unauthorized)
    } else if rec.user != ctx.user {
        Some(CreditsError::InvalidOwner)
    } else if rec.credits < amount {
        Some(CreditsError::InsufficientCredits)
    } else {
        None
    }
}

/// Capability to move base units out of a token account. Its field is
/// private and the type has no public constructor, so a value exists only
/// inside the processors: either the paying user's own signature, or the
/// configuration record's derived signing key for vault-outbound
/// transfers.
struct TransferAuthority {
    owner: u64,
}

/// The fungible-asset transfer interface: moves `amount` base units from
/// `from` to `to`, authorized by the owner of `from`. Touches nothing but
/// the two balances.
fn transfer(auth: TransferAuthority, from: &mut TokenAccount, to: &mut TokenAccount, amount: u64)
    requires
        auth.owner == old(from).owner,
        old(from).amount >= amount,
        old(to).amount + amount <= u64::MAX,
    ensures
        *final(from) == token_debited(*old(from), amount),
        *final(to) == token_credited(*old(to), amount),
{
    from.amount = from.amount - amount;
    to.amount = to.amount + amount;
}

/// The ledger: one configuration record per authority and one credit
/// record per user, each addressed by its owner's identity.
pub struct CreditsStore {
    configs: HashMap<u64, Config>,
    credits: HashMap<u64, UserCredit>,
}

impl View for CreditsStore {
    type V = LedgerView;

    closed spec fn view(&self) -> LedgerView {
        LedgerView { configs: self.configs@, credits: self.credits@ }
    }
}

impl CreditsStore {
    /// Both record families are keyed by their owner's identity and carry
    /// the genesis conversion rate.
    pub open spec fn wf(self) -> bool {
        configs_wf(self@.configs) && credits_wf(self@.credits)
    }

    /// An empty ledger: no configuration, no credit records.
    pub fn new() -> (s: CreditsStore)
        ensures
            s.wf(),
            s@.configs == Map::<u64, Config>::empty(),
            s@.credits == Map::<u64, UserCredit>::empty(),
    {
        CreditsStore { configs: HashMap::new(), credits: HashMap::new() }
    }

    /// The configuration record of `authority`, where one exists.
    pub fn get_config(&self, authority: u64) -> (r: Option<Config>)
        ensures
            match r {
                Some(c) => self@.configs.contains_key(authority) && c == self@.configs[authority],
                None => !self@.configs.contains_key(authority),
            },
    {
        match self.configs.get(&authority) {
            Some(c) => Some(*c),
            None => None,
        }
    }

    /// The credit record of `user`, where one exists.
    pub fn get_user_credit(&self, user: u64) -> (r: Option<UserCredit>)
        ensures
            match r {
                Some(uc) => self@.credits.contains_key(user) && uc == self@.credits[user],
                None => !self@.credits.contains_key(user),
            },
    {
        match self.credits.get(&user) {
            Some(uc) => Some(*uc),
            None => None,
        }
    }

    /// The balance of `user`: zero where no record exists yet.
    pub fn credit_balance(&self, user: u64) -> (r: u64)
        ensures
            r as int == balance_of(self@.credits, user),
    {
        match self.credits.get(&user) {
            Some(uc) => uc.credits,
            None => 0,
        }
    }

    /// Configuration bootstrap. At most one record per authority ever
    /// exists: a second creation for the same authority is rejected as
    /// `DuplicateConfig` and changes nothing. Otherwise the record is
    /// created with the caller as both authority and initial spender and
    /// the conversion rate fixed at `CREDIT_UNIT`.
    pub fn initialize_config(&mut self, ctx: InitializeConfig) -> (r: Result<(), CreditsError>)
        requires
            old(self).wf(),
        ensures
            final(self).wf(),
            final(self)@.credits == old(self)@.credits,
            old(self)@.configs.contains_key(ctx.authority) ==> r == Err::<(), CreditsError>(
                CreditsError::DuplicateConfig,
            ) && final(self)@.configs == old(self)@.configs,
            !old(self)@.configs.contains_key(ctx.authority) ==> r == Ok::<(), CreditsError>(())
                && final(self)@.configs == old(self)@.configs.insert(
                ctx.authority,
                spec_new_config(ctx),
            ),
    {
        if self.configs.contains_key(&ctx.authority) {
            return Err(CreditsError::DuplicateConfig);
        }
        let config = Config {
            authority: ctx.authority,
            spender: ctx.authority,
            usdc_mint: ctx.usdc_mint,
            credit_unit: CREDIT_UNIT,
            key: ctx.config_key,
        };
        self.configs.insert(ctx.authority, config);
        Ok(())
    }

    /// Delegated-spender rotation. Only the configured authority may
    /// rotate; any other caller is rejected as `Unauthorized` and nothing
    /// changes. On success only the `spender` field changes; credit
    /// records are never touched.
    pub fn set_spender(&mut self, ctx: SetSpender, spender: u64) -> (r: Result<(), CreditsError>)
        requires
            old(self).wf(),
            old(self)@.configs.contains_key(ctx.authority),
        ensures
            final(self).wf(),
            final(self)@.credits == old(self)@.credits,
            ctx.caller != old(self)@.configs[ctx.authority].authority ==> r == Err::<
                (),
                CreditsError,
            >(CreditsError::Unauthorized) && final(self)@.configs == old(self)@.configs,
            ctx.caller == old(self)@.configs[ctx.authority].authority ==> r == Ok::<
                (),
                CreditsError,
            >(()) && final(self)@.configs == old(self)@.configs.insert(
                ctx.authority,
                spec_with_spender(old(self)@.configs[ctx.authority], spender),
            ),
    {
        let cfg = match self.configs.get(&ctx.authority) {
            Some(c) => *c,
            None => {
                return Err(CreditsError::Unauthorized);
            },
        };
        if ctx.caller != cfg.authority {
            return Err(CreditsError::Unauthorized);
        }
        let updated = Config { spender, ..cfg };
        self.configs.insert(ctx.authority, updated);
        Ok(())
    }

    /// Deposit-to-credit conversion. All validation completes before any
    /// mutation: on any rejection, the ledger, the source account and the
    /// vault are exactly as before. On success, as one atomic unit,
    /// `amount_base_units` move from the user's source account into the
    /// vault and the user's balance grows by `floor(amount / CREDIT_UNIT)`
    /// whole credits, the record being created on a first deposit. The
    /// conditional balance bounds in `requires` are the transfer
    /// interface's own feasibility limits, owed only where the deposit
    /// passes validation: a source that holds the amount, and a vault
    /// whose balance stays within the unsigned 64-bit range.
    pub fn pay_usdc(&mut self, ctx: &mut PayUsdc, amount_base_units: u64) -> (r: Result<
        Paid,
        CreditsError,
    >)
        requires
            old(self).wf(),
            old(self)@.configs.contains_key(old(ctx).authority),
            pay_error(
                old(self)@.configs[old(ctx).authority],
                balance_of(old(self)@.credits, old(ctx).user),
                *old(ctx),
                amount_base_units,
            ) is None ==> old(ctx).user_usdc.amount >= amount_base_units && old(
                ctx,
            ).vault_usdc.amount + amount_base_units <= u64::MAX,
        ensures
            final(self).wf(),
            final(self)@.configs == old(self)@.configs,
            final(ctx).user == old(ctx).user,
            final(ctx).authority == old(ctx).authority,
            final(ctx).usdc_mint == old(ctx).usdc_mint,
            ({
                let cfg = old(self)@.configs[old(ctx).authority];
                let bal = balance_of(old(self)@.credits, old(ctx).user);
                let gained = credits_gained(amount_base_units);
                match pay_error(cfg, bal, *old(ctx), amount_base_units) {
                    Some(e) => r == Err::<Paid, CreditsError>(e) && final(self)@.credits == old(
                        self,
                    )@.credits && *final(ctx) == *old(ctx),
                    None => r == Ok::<Paid, CreditsError>(
                        (Paid {
                            user: old(ctx).user,
                            amount_base_units,
                            credits_added: gained as u64,
                            new_balance: (bal + gained) as u64,
                        }),
                    ) && final(self)@.credits == pay_effect(
                        old(self)@.credits,
                        old(ctx).user,
                        amount_base_units,
                    ) && final(ctx).user_usdc == token_debited(
                        old(ctx).user_usdc,
                        amount_base_units,
                    ) && final(ctx).vault_usdc == token_credited(
                        old(ctx).vault_usdc,
                        amount_base_units,
                    ),
                }
            }),
    {
        if amount_base_units == 0 {
            return Err(CreditsError::InvalidAmount);
        }
        let cfg = match self.configs.get(&ctx.authority) {
            Some(c) => *c,
            None => {
                return Err(CreditsError::InvalidOwner);
            },
        };
        if ctx.usdc_mint != cfg.usdc_mint {
            return Err(CreditsError::InvalidMint);
        }
        if ctx.user_usdc.mint != cfg.usdc_mint {
            return Err(CreditsError::InvalidMint);
        }
        if ctx.vault_usdc.mint != cfg.usdc_mint {
            return Err(CreditsError::InvalidMint);
        }
        if ctx.user_usdc.owner != ctx.user {
            return Err(CreditsError::InvalidOwner);
        }
        if ctx.vault_usdc.owner != cfg.key {
            return Err(CreditsError::InvalidOwner);
        }
        let credits_to_add = amount_base_units / cfg.credit_unit;
        if credits_to_add == 0 {
            return Err(CreditsError::BelowMinimum);
        }
        let prior = match self.credits.get(&ctx.user) {
            Some(uc) => uc.credits,
            None => 0,
        };
        let new_balance = match prior.checked_add(credits_to_add) {
            Some(b) => b,
            None => {
                return Err(CreditsError::Overflow);
            },
        };
        let auth = TransferAuthority { owner: ctx.user };
        transfer(auth, &mut ctx.user_usdc, &mut ctx.vault_usdc, amount_base_units);
        self.credits.insert(ctx.user, UserCredit { user: ctx.user, credits: new_balance });
        Ok(
            Paid {
                user: ctx.user,
                amount_base_units,
                credits_added: credits_to_add,
                new_balance,
            },
        )
    }

    /// Pooled-fund withdrawal. Only the configured authority may withdraw;
    /// the authorization check comes before everything else. On success
    /// exactly `amount_base_units` move from the vault to the destination,
    /// signed with the configuration record's derived key. The ledger is
    /// read only — no credit record is touched in any outcome, which the
    /// shared borrow of `self` makes structural. The conditional balance
    /// bounds in `requires` are the transfer interface's feasibility
    /// limits, owed only where the withdrawal passes validation.
    pub fn withdraw_usdc(&self, ctx: &mut WithdrawUsdc, amount_base_units: u64) -> (r: Result<
        Withdrawn,
        CreditsError,
    >)
        requires
            self.wf(),
            self@.configs.contains_key(old(ctx).authority),
            withdraw_error(self@.configs[old(ctx).authority], *old(ctx), amount_base_units)
                is None ==> old(ctx).vault_usdc.amount >= amount_base_units && old(
                ctx,
            ).treasury_usdc.amount + amount_base_units <= u64::MAX,
        ensures
            final(ctx).caller == old(ctx).caller,
            final(ctx).authority == old(ctx).authority,
            ({
                let cfg = self@.configs[old(ctx).authority];
                match withdraw_error(cfg, *old(ctx), amount_base_units) {
                    Some(e) => r == Err::<Withdrawn, CreditsError>(e) && *final(ctx) == *old(ctx),
                    None => r == Ok::<Withdrawn, CreditsError>(
                        (Withdrawn { authority: old(ctx).caller, amount_base_units }),
                    ) && final(ctx).vault_usdc == token_debited(
                        old(ctx).vault_usdc,
                        amount_base_units,
                    ) && final(ctx).treasury_usdc == token_credited(
                        old(ctx).treasury_usdc,
                        amount_base_units,
                    ),
                }
            }),
    {
        let cfg = match self.configs.get(&ctx.authority) {
            Some(c) => *c,
            None => {
                return Err(CreditsError::Unauthorized);
            },
        };
        if ctx.caller != cfg.authority {
            return Err(CreditsError::Unauthorized);
        }
        if amount_base_units == 0 {
            return Err(CreditsError::InvalidAmount);
        }
        if ctx.treasury_usdc.mint != cfg.usdc_mint {
            return Err(CreditsError::InvalidMint);
        }
        if ctx.vault_usdc.mint != cfg.usdc_mint {
            return Err(CreditsError::InvalidMint);
        }
        if ctx.vault_usdc.owner != cfg.key {
            return Err(CreditsError::InvalidOwner);
        }
        let auth = TransferAuthority { owner: cfg.key };
        transfer(auth, &mut ctx.vault_usdc, &mut ctx.treasury_usdc, amount_base_units);
        Ok(Withdrawn { authority: ctx.caller, amount_base_units })
    }

    /// Credit consumption. Only the configured spender may debit, and only
    /// a record owned by the named user; a debit larger than the balance
    /// is rejected as `InsufficientCredits` with the balance unchanged. On
    /// success the user's balance shrinks by exactly `amount`. No token
    /// account moves: consumption spends credits, not pooled funds.
    pub fn consume_credit(&mut self, ctx: ConsumeCredit, amount: u64) -> (r: Result<
        CreditUsed,
        CreditsError,
    >)
        requires
            old(self).wf(),
            old(self)@.configs.contains_key(ctx.authority),
            old(self)@.credits.contains_key(ctx.user),
        ensures
            final(self).wf(),
            final(self)@.configs == old(self)@.configs,
            ({
                let cfg = old(self)@.configs[ctx.authority];
                let rec = old(self)@.credits[ctx.user];
                match consume_error(cfg, rec, ctx, amount) {
                    Some(e) => r == Err::<CreditUsed, CreditsError>(e) && final(self)@.credits
                        == old(self)@.credits,
                    None => r == Ok::<CreditUsed, CreditsError>(
                        (CreditUsed {
                            user: ctx.user,
                            amount,
                            new_balance: (rec.credits - amount) as u64,
                        }),
                    ) && final(self)@.credits == consume_effect(
                        old(self)@.credits,
                        ctx.user,
                        amount,
                    ),
                }
            }),
    {
        if amount == 0 {
            return Err(CreditsError::InvalidAmount);
        }
        let cfg = match self.configs.get(&ctx.authority) {
            Some(c) => *c,
            None => {
                return Err(CreditsError::Unauthorized);
            },
        };
        if ctx.spender != cfg.spender {
            return Err(CreditsError::Unauthorized);
        }
        let rec = match self.credits.get(&ctx.user) {
            Some(uc) => *uc,
            None => {
                return Err(CreditsError::InvalidOwner);
            },
        };
        if rec.user != ctx.user {
            return Err(CreditsError::InvalidOwner);
        }
        if rec.credits < amount {
            return Err(CreditsError::InsufficientCredits);
        }
        let new_balance = match rec.credits.checked_sub(amount) {
            Some(b) => b,
            None => {
                return Err(CreditsError::Overflow);
            },
        };
        self.credits.insert(ctx.user, UserCredit { user: ctx.user, credits: new_balance });
        Ok(CreditUsed { user: ctx.user, amount, new_balance })
    }
}

} // verus!
