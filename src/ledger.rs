use std::collections::HashMap;

use vstd::prelude::*;

use crate::key::pair_key;
use crate::state::{
    close_outcome, initialize_outcome, withdraw_outcome, Allowance, Close, ErrorCode, Initialize,
    LedgerView, Withdraw,
};

verus! {

broadcast use vstd::std_specs::hash::group_hash_axioms;

/// Account balances and open allowance entries. Each operation on it either
/// applies in full or, on an error, leaves it as it was.
pub struct Ledger {
    balances: HashMap<u64, u64>,
    entries: HashMap<u128, Allowance>,
    vaults: HashMap<u128, u64>,
}

impl View for Ledger {
    type V = LedgerView;

    closed spec fn view(&self) -> LedgerView {
        LedgerView { balances: self.balances@, entries: self.entries@, vaults: self.vaults@ }
    }
}

impl Ledger {
    /// The ledger's invariant.
    pub open spec fn wf(&self) -> bool {
        self@.wf()
    }

    /// A ledger with no balances and no entries.
    pub fn new() -> (r: Ledger)
        ensures
            r.wf(),
            r@.balances == Map::<u64, u64>::empty(),
            r@.entries == Map::<u128, Allowance>::empty(),
            r@.vaults == Map::<u128, u64>::empty(),
    {
        Ledger { balances: HashMap::new(), entries: HashMap::new(), vaults: HashMap::new() }
    }

    /// The balance of an account; zero for one never credited.
    pub fn balance(&self, account: u64) -> (r: u64)
        ensures
            r as nat == self@.balance_of(account),
    {
        match self.balances.get(&account) {
            Some(b) => *b,
            None => 0,
        }
    }

    /// Adds `amount` to an account's balance, or fails with
    /// `BalanceOverflow` (changing nothing) where the sum would not fit.
    pub fn deposit(&mut self, account: u64, amount: u64) -> (r: Result<(), ErrorCode>)
        requires
            old(self).wf(),
        ensures
            final(self).wf(),
            old(self)@.balance_of(account) + amount <= u64::MAX ==> r == Ok::<(), ErrorCode>(())
                && final(self)@ == old(self)@.credit(account, amount as nat),
            old(self)@.balance_of(account) + amount > u64::MAX ==> r == Err::<(), ErrorCode>(
                ErrorCode::BalanceOverflow,
            ) && final(self)@ == old(self)@,
    {
        let current = self.balance(account);
        match current.checked_add(amount) {
            Some(b) => {
                self.balances.insert(account, b);
                Ok(())
            },
            None => Err(ErrorCode::BalanceOverflow),
        }
    }

    /// The entry open for the pair, if any.
    pub fn lookup(&self, giver: u64, recipient: u64) -> (r: Option<Allowance>)
        ensures
            r == (if self@.has_entry(giver, recipient) {
                Some(self@.entry(giver, recipient))
            } else {
                None
            }),
    {
        match self.entries.get(&pair_key(giver, recipient)) {
            Some(e) => Some(*e),
            None => None,
        }
    }

    /// The balance held behind the pair's entry; zero where none is open.
    pub fn held(&self, giver: u64, recipient: u64) -> (r: u64)
        requires
            self.wf(),
        ensures
            self@.has_entry(giver, recipient) ==> r as nat == self@.held(giver, recipient),
            !self@.has_entry(giver, recipient) ==> r == 0,
    {
        match self.vaults.get(&pair_key(giver, recipient)) {
            Some(h) => *h,
            None => 0,
        }
    }
}

/// Opens the entry of the pair (giver, recipient), moving `total` from the
/// giver's balance into the balance held behind it, with nothing withdrawn.
/// Fails with `DuplicateEntry` where an entry for the pair is open, else with
/// `InsufficientFunds` where the giver holds less than `total`. A total of
/// zero, and an expiry already past, are accepted: such an entry allows no
/// withdrawal, and its giver may still close it.
pub fn initialize(ledger: &mut Ledger, ctx: Initialize, total: u64, expires_at: i64) -> (r: Result<
    (),
    ErrorCode,
>)
    requires
        old(ledger).wf(),
    ensures
        final(ledger).wf(),
        (final(ledger)@, r) == initialize_outcome(old(ledger)@, ctx, total, expires_at),
{
    let key = pair_key(ctx.giver, ctx.recipient);
    if ledger.entries.contains_key(&key) {
        return Err(ErrorCode::DuplicateEntry);
    }
    let funds = ledger.balance(ctx.giver);
    if funds < total {
        return Err(ErrorCode::InsufficientFunds);
    }
    let entry = Allowance {
        giver: ctx.giver,
        recipient: ctx.recipient,
        total,
        withdrawn: 0,
        expires_at,
        bump: ctx.bump,
    };
    ledger.balances.insert(ctx.giver, funds - total);
    ledger.entries.insert(key, entry);
    ledger.vaults.insert(key, total);
    proof {
        let v = ledger@;
        assert(v.vaults.dom() =~= v.entries.dom());
    }
    Ok(())
}

/// Withdraws `amount` from the pair's entry at time `now`, crediting it to the
/// recipient. The checks go in this order: the entry is open, the signer is its
/// recipient, `now` is not past its expiry, the new withdrawn amount stays
/// within its total (an overflowing sum counts as above it), and the
/// recipient's balance can take the credit.
pub fn withdraw(ledger: &mut Ledger, ctx: Withdraw, amount: u64, now: i64) -> (r: Result<
    (),
    ErrorCode,
>)
    requires
        old(ledger).wf(),
    ensures
        final(ledger).wf(),
        (final(ledger)@, r) == withdraw_outcome(old(ledger)@, ctx, amount, now),
{
    let key = pair_key(ctx.giver, ctx.recipient);
    let entry = match ledger.entries.get(&key) {
        Some(e) => *e,
        None => return Err(ErrorCode::EntryNotFound),
    };
    if ctx.signer != entry.recipient {
        return Err(ErrorCode::Unauthorized);
    }
    if now > entry.expires_at {
        return Err(ErrorCode::Expired);
    }
    let withdrawn = match entry.withdrawn.checked_add(amount) {
        Some(w) => w,
        None => return Err(ErrorCode::LimitExceeded),
    };
    if withdrawn > entry.total {
        return Err(ErrorCode::LimitExceeded);
    }
    let credited = match ledger.balance(entry.recipient).checked_add(amount) {
        Some(b) => b,
        None => return Err(ErrorCode::BalanceOverflow),
    };
    // The invariant gives every open entry a held balance; this arm never runs.
    let held = match ledger.vaults.get(&key) {
        Some(h) => *h,
        None => return Err(ErrorCode::EntryNotFound),
    };
    ledger.entries.insert(key, Allowance { withdrawn, ..entry });
    ledger.vaults.insert(key, held - amount);
    ledger.balances.insert(entry.recipient, credited);
    proof {
        let v = ledger@;
        assert(v.vaults.dom() =~= v.entries.dom());
    }
    Ok(())
}

/// Closes the pair's entry: the giver gets back what was not withdrawn, and
/// the entry and the balance held behind it are gone. Fails with
/// `EntryNotFound` where no entry is open, else with `Unauthorized` where the
/// signer is not the giver, else with `BalanceOverflow` where the giver's
/// balance cannot take the refund. Expiry plays no part: the giver may close
/// at any time.
pub fn close(ledger: &mut Ledger, ctx: Close) -> (r: Result<(), ErrorCode>)
    requires
        old(ledger).wf(),
    ensures
        final(ledger).wf(),
        (final(ledger)@, r) == close_outcome(old(ledger)@, ctx),
{
    let key = pair_key(ctx.giver, ctx.recipient);
    let entry = match ledger.entries.get(&key) {
        Some(e) => *e,
        None => return Err(ErrorCode::EntryNotFound),
    };
    if ctx.signer != entry.giver {
        return Err(ErrorCode::Unauthorized);
    }
    let remaining = entry.total.saturating_sub(entry.withdrawn);
    let refunded = match ledger.balance(entry.giver).checked_add(remaining) {
        Some(b) => b,
        None => return Err(ErrorCode::BalanceOverflow),
    };
    ledger.entries.remove(&key);
    ledger.vaults.remove(&key);
    ledger.balances.insert(entry.giver, refunded);
    proof {
        let v = ledger@;
        assert(v.vaults.dom() =~= v.entries.dom());
    }
    Ok(())
}

} // verus!
