use vstd::prelude::*;
use crate::records::UserCredit;
use crate::store::{balance_of, consume_effect, credits_gained, credits_wf, pay_effect};

verus! {

/// A balance-touching operation of the ledger, as the processors apply it:
/// a deposit of base units by a user, or a debit of credits from a user.
pub enum LedgerOp {
    Pay { user: u64, amount: u64 },
    Consume { user: u64, amount: u64 },
}

/// One step of the credit ledger under an operation. A deposit takes
/// effect only where it yields at least one credit and the grown balance
/// still fits in an unsigned 64-bit value; a debit only where it is
/// positive, the record exists and the balance covers it. Otherwise the
/// processor rejects the call (`BelowMinimum`, `Overflow`, `InvalidAmount`,
/// `InsufficientCredits`) and the ledger is unchanged, as the processors'
/// contracts state.
pub open spec fn ledger_step(credits: Map<u64, UserCredit>, op: LedgerOp) -> Map<u64, UserCredit> {
    match op {
        LedgerOp::Pay { user, amount } => {
            if credits_gained(amount) > 0 && balance_of(credits, user) + credits_gained(amount)
                <= u64::MAX {
                pay_effect(credits, user, amount)
            } else {
                credits
            }
        },
        LedgerOp::Consume { user, amount } => {
            if amount > 0 && credits.contains_key(user) && credits[user].credits >= amount {
                consume_effect(credits, user, amount)
            } else {
                credits
            }
        },
    }
}

/// The credit ledger after a whole sequence of operations, applied in
/// order.
pub open spec fn ledger_run(credits: Map<u64, UserCredit>, ops: Seq<LedgerOp>) -> Map<
    u64,
    UserCredit,
>
    decreases ops.len(),
{
    if ops.len() == 0 {
        credits
    } else {
        ledger_run(ledger_step(credits, ops[0]), ops.skip(1))
    }
}

/// No sequence of deposits and debits ever drives any balance below zero
/// or above `u64::MAX`: every operation either takes effect with the new
/// balance still a valid unsigned 64-bit amount, or is rejected with the
/// ledger unchanged. Record ownership is preserved throughout.
pub proof fn lemma_no_sequence_escapes_bounds(
    credits: Map<u64, UserCredit>,
    ops: Seq<LedgerOp>,
    user: u64,
)
    requires
        credits_wf(credits),
    ensures
        credits_wf(ledger_run(credits, ops)),
        0 <= balance_of(ledger_run(credits, ops), user) <= u64::MAX,
    decreases ops.len(),
{
    if ops.len() > 0 {
        let next = ledger_step(credits, ops[0]);
        assert(credits_wf(next));
        lemma_no_sequence_escapes_bounds(next, ops.skip(1), user);
    }
}

/// Order-independence of deposits: two deposits for the same user, both
/// yielding at least one credit and together fitting in the balance,
/// succeed in either order and leave the same ledger either way.
pub proof fn lemma_pay_order_independent(
    credits: Map<u64, UserCredit>,
    user: u64,
    a1: u64,
    a2: u64,
)
    requires
        credits_gained(a1) > 0,
        credits_gained(a2) > 0,
        balance_of(credits, user) + credits_gained(a1) + credits_gained(a2) <= u64::MAX,
    ensures
        balance_of(credits, user) + credits_gained(a1) <= u64::MAX,
        balance_of(credits, user) + credits_gained(a2) <= u64::MAX,
        balance_of(pay_effect(credits, user, a1), user) + credits_gained(a2) <= u64::MAX,
        balance_of(pay_effect(credits, user, a2), user) + credits_gained(a1) <= u64::MAX,
        pay_effect(pay_effect(credits, user, a1), user, a2) == pay_effect(
            pay_effect(credits, user, a2),
            user,
            a1,
        ),
{
    let one_then_two = pay_effect(pay_effect(credits, user, a1), user, a2);
    let two_then_one = pay_effect(pay_effect(credits, user, a2), user, a1);
    assert(one_then_two =~= two_then_one);
}

} // verus!
