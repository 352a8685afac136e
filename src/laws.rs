use vstd::prelude::*;

use crate::key::{lemma_pair_key_injective, spec_pair_key};
use crate::state::{
    close_outcome, initialize_outcome, withdraw_outcome, Close, ErrorCode, Initialize, LedgerView,
    Withdraw,
};

verus! {

/// One operation on a ledger, with what it is given.
pub enum Operation {
    Initialize { ctx: Initialize, total: u64, expires_at: i64 },
    Withdraw { ctx: Withdraw, amount: u64, now: i64 },
    Close { ctx: Close },
}

/// What one operation does: the state after it and its result.
pub open spec fn step(v: LedgerView, op: Operation) -> (LedgerView, Result<(), ErrorCode>) {
    match op {
        Operation::Initialize { ctx, total, expires_at } => initialize_outcome(
            v,
            ctx,
            total,
            expires_at,
        ),
        Operation::Withdraw { ctx, amount, now } => withdraw_outcome(v, ctx, amount, now),
        Operation::Close { ctx } => close_outcome(v, ctx),
    }
}

/// The state after a sequence of operations, each applied to the state the
/// one before it left, whether it succeeded or not.
pub open spec fn run(v: LedgerView, ops: Seq<Operation>) -> LedgerView
    decreases ops.len(),
{
    if ops.len() == 0 {
        v
    } else {
        run(step(v, ops[0]).0, ops.subrange(1, ops.len() as int))
    }
}

/// Every open entry has withdrawn no more than its total.
pub open spec fn within_totals(v: LedgerView) -> bool {
    forall|k: u128| #[trigger]
        v.entries.contains_key(k) ==> v.entries[k].withdrawn <= v.entries[k].total
}

/// The pair whose entry an operation addresses.
pub open spec fn addressed_pair(op: Operation) -> (u64, u64) {
    match op {
        Operation::Initialize { ctx, .. } => (ctx.giver, ctx.recipient),
        Operation::Withdraw { ctx, .. } => (ctx.giver, ctx.recipient),
        Operation::Close { ctx } => (ctx.giver, ctx.recipient),
    }
}

/// An operation leaves the entries of every other pair as they were: open or
/// not, with the same contents and the same balance held behind them.
pub proof fn lemma_other_pairs_untouched(v: LedgerView, op: Operation, giver: u64, recipient: u64)
    requires
        addressed_pair(op) != (giver, recipient),
    ensures
        ({
            let w = step(v, op).0;
            let k = spec_pair_key(giver, recipient);
            &&& w.entries.contains_key(k) == v.entries.contains_key(k)
            &&& w.entries[k] == v.entries[k]
            &&& w.vaults.contains_key(k) == v.vaults.contains_key(k)
            &&& w.vaults[k] == v.vaults[k]
        }),
{
    let (g, r) = addressed_pair(op);
    if spec_pair_key(g, r) == spec_pair_key(giver, recipient) {
        lemma_pair_key_injective(g, r, giver, recipient);
    }
}

/// What the two parties of a pair hold between them, counting the balance
/// held behind their entry (each account once where giver and recipient are
/// the same).
pub open spec fn pair_funds(v: LedgerView, giver: u64, recipient: u64) -> nat {
    let held = if v.has_entry(giver, recipient) {
        v.held(giver, recipient)
    } else {
        0
    };
    let other = if giver != recipient {
        v.balance_of(recipient)
    } else {
        0
    };
    v.balance_of(giver) + other + held
}

/// No operation creates or destroys funds: what it moves goes between the
/// giver, the balance held behind the entry and the recipient of the pair it
/// addresses, so that the three together hold as much after it as before.
pub proof fn lemma_funds_conserved(v: LedgerView, op: Operation)
    requires
        v.wf(),
    ensures
        ({
            let (g, r) = addressed_pair(op);
            pair_funds(step(v, op).0, g, r) == pair_funds(v, g, r)
        }),
{
    let (g, r) = addressed_pair(op);
    let k = spec_pair_key(g, r);
    if v.entries.contains_key(k) {
        let e = v.entries[k];
        lemma_pair_key_injective(e.giver, e.recipient, g, r);
    }
}

/// Every operation keeps the ledger's invariant.
pub proof fn lemma_step_keeps_wf(v: LedgerView, op: Operation)
    requires
        v.wf(),
    ensures
        step(v, op).0.wf(),
{
    let w = step(v, op).0;
    assert(w.vaults.dom() =~= w.entries.dom());
}

/// Whatever sequence of operations is applied to a well-formed ledger, it
/// stays well-formed, so that after every withdrawal each open entry has
/// withdrawn no more than its total.
pub proof fn lemma_withdrawn_within_total(v: LedgerView, ops: Seq<Operation>)
    requires
        v.wf(),
    ensures
        run(v, ops).wf(),
        within_totals(run(v, ops)),
    decreases ops.len(),
{
    if ops.len() > 0 {
        lemma_step_keeps_wf(v, ops[0]);
        lemma_withdrawn_within_total(step(v, ops[0]).0, ops.subrange(1, ops.len() as int));
    }
}

/// Over any operation, an entry that is open before and after keeps its
/// parties, total and expiry, and its withdrawn amount does not go down.
pub proof fn lemma_withdrawn_non_decreasing(
    v: LedgerView,
    op: Operation,
    giver: u64,
    recipient: u64,
)
    requires
        v.wf(),
        v.has_entry(giver, recipient),
        step(v, op).0.has_entry(giver, recipient),
    ensures
        ({
            let before = v.entry(giver, recipient);
            let after = step(v, op).0.entry(giver, recipient);
            &&& before.withdrawn <= after.withdrawn
            &&& after.giver == before.giver
            &&& after.recipient == before.recipient
            &&& after.total == before.total
            &&& after.expires_at == before.expires_at
        }),
{
}

/// A withdrawal of zero changes no entry, no held balance and no account
/// balance, and is never refused for its amount: where the entry is open,
/// the signer is its recipient and it has not expired, it succeeds.
pub proof fn lemma_withdraw_zero(v: LedgerView, ctx: Withdraw, now: i64)
    requires
        v.wf(),
    ensures
        ({
            let (w, r) = withdraw_outcome(v, ctx, 0, now);
            let e = v.entry(ctx.giver, ctx.recipient);
            &&& w.entries == v.entries
            &&& w.vaults == v.vaults
            &&& forall|a: u64| #[trigger] w.balance_of(a) == v.balance_of(a)
            &&& r != Err::<(), ErrorCode>(ErrorCode::LimitExceeded)
            &&& r != Err::<(), ErrorCode>(ErrorCode::BalanceOverflow)
            &&& (v.has_entry(ctx.giver, ctx.recipient) && ctx.signer == e.recipient && now
                <= e.expires_at) ==> r == Ok::<(), ErrorCode>(())
        }),
{
    let (w, r) = withdraw_outcome(v, ctx, 0, now);
    if r is Ok {
        assert(w.entries =~= v.entries);
        assert(w.vaults =~= v.vaults);
    }
}

/// A withdrawal signed by anyone but the entry's recipient fails with
/// `Unauthorized` and changes nothing.
pub proof fn lemma_withdraw_unauthorized(v: LedgerView, ctx: Withdraw, amount: u64, now: i64)
    requires
        v.has_entry(ctx.giver, ctx.recipient),
        ctx.signer != v.entry(ctx.giver, ctx.recipient).recipient,
    ensures
        withdraw_outcome(v, ctx, amount, now) == (v, Err::<(), ErrorCode>(ErrorCode::Unauthorized)),
{
}

/// A withdrawal by the recipient after the entry's expiry fails with
/// `Expired`, whatever is left of the allowance, and changes nothing.
pub proof fn lemma_withdraw_expired(v: LedgerView, ctx: Withdraw, amount: u64, now: i64)
    requires
        v.has_entry(ctx.giver, ctx.recipient),
        ctx.signer == v.entry(ctx.giver, ctx.recipient).recipient,
        now > v.entry(ctx.giver, ctx.recipient).expires_at,
    ensures
        withdraw_outcome(v, ctx, amount, now) == (v, Err::<(), ErrorCode>(ErrorCode::Expired)),
{
}

/// Once an entry is closed, no entry is open for its pair: a later
/// withdrawal or close on the pair fails with `EntryNotFound` and changes
/// nothing, and a new Create for the pair succeeds exactly where the giver
/// holds its total.
pub proof fn lemma_closed_pair_is_free(
    v: LedgerView,
    closing: Close,
    later_withdraw: Withdraw,
    amount: u64,
    now: i64,
    later_close: Close,
    reopen: Initialize,
    total: u64,
    expires_at: i64,
)
    requires
        v.wf(),
        close_outcome(v, closing).1 is Ok,
        later_withdraw.giver == closing.giver,
        later_withdraw.recipient == closing.recipient,
        later_close.giver == closing.giver,
        later_close.recipient == closing.recipient,
        reopen.giver == closing.giver,
        reopen.recipient == closing.recipient,
    ensures
        ({
            let after = close_outcome(v, closing).0;
            &&& !after.has_entry(closing.giver, closing.recipient)
            &&& withdraw_outcome(after, later_withdraw, amount, now) == (after, Err::<
                (),
                ErrorCode,
            >(ErrorCode::EntryNotFound))
            &&& close_outcome(after, later_close) == (after, Err::<(), ErrorCode>(
                ErrorCode::EntryNotFound,
            ))
            &&& (initialize_outcome(after, reopen, total, expires_at).1 is Ok <==> total
                <= after.balance_of(reopen.giver))
        }),
{
}

} // verus!
