use vstd::prelude::*;

use crate::key::spec_pair_key;

verus! {

/// The persisted record of one allowance, owned by the pair (giver, recipient).
#[derive(Clone, Copy, Debug, PartialEq, Eq, Structural)]
pub struct Allowance {
    /// The funding party; only it may close the entry.
    pub giver: u64,
    /// The only party that may withdraw from the entry.
    pub recipient: u64,
    /// The most that may ever be withdrawn in all.
    pub total: u64,
    /// What has been withdrawn so far.
    pub withdrawn: u64,
    /// The last instant at which a withdrawal is allowed.
    pub expires_at: i64,
    /// The derivation value handed in at creation, which locates the entry.
    pub bump: u8,
}

/// Why an operation on the ledger was refused. A refused operation changes
/// nothing.
#[derive(Clone, Copy, Debug, PartialEq, Eq, Structural)]
pub enum ErrorCode {
    /// An entry for the pair is already open.
    DuplicateEntry,
    /// The giver's balance is below the allowance's total.
    InsufficientFunds,
    /// The signer is not the party the operation belongs to.
    Unauthorized,
    /// The withdrawal comes after the entry's expiry.
    Expired,
    /// The withdrawal would take the withdrawn amount above the total.
    LimitExceeded,
    /// No entry is open for the pair.
    EntryNotFound,
    /// Crediting an account would take its balance above `u64::MAX`.
    BalanceOverflow,
}

/// The accounts of a Create: the giver, who signs and funds it, and the
/// recipient named in it.
#[derive(Clone, Copy, Debug, PartialEq, Eq, Structural)]
pub struct Initialize {
    pub giver: u64,
    pub recipient: u64,
    /// The derivation value to store in the new entry.
    pub bump: u8,
}

/// The accounts of a Withdraw: the pair that owns the entry, and the signer.
#[derive(Clone, Copy, Debug, PartialEq, Eq, Structural)]
pub struct Withdraw {
    pub giver: u64,
    pub recipient: u64,
    pub signer: u64,
}

/// The accounts of a Close: the pair that owns the entry, and the signer.
#[derive(Clone, Copy, Debug, PartialEq, Eq, Structural)]
pub struct Close {
    pub giver: u64,
    pub recipient: u64,
    pub signer: u64,
}

/// The abstract state of a ledger: the balance of each account, the open
/// entries by storage key, and the balance held behind each entry.
pub struct LedgerView {
    pub balances: Map<u64, u64>,
    pub entries: Map<u128, Allowance>,
    pub vaults: Map<u128, u64>,
}

impl LedgerView {
    /// The balance of an account; one that was never credited holds nothing.
    pub open spec fn balance_of(self, account: u64) -> nat {
        if self.balances.contains_key(account) {
            self.balances[account] as nat
        } else {
            0
        }
    }

    /// Whether an entry is open for the pair.
    pub open spec fn has_entry(self, giver: u64, recipient: u64) -> bool {
        self.entries.contains_key(spec_pair_key(giver, recipient))
    }

    /// The entry of the pair, where one is open.
    pub open spec fn entry(self, giver: u64, recipient: u64) -> Allowance {
        self.entries[spec_pair_key(giver, recipient)]
    }

    /// The balance held behind the pair's entry.
    pub open spec fn held(self, giver: u64, recipient: u64) -> nat {
        self.vaults[spec_pair_key(giver, recipient)] as nat
    }

    /// Each open entry is stored under its own pair's key, has withdrawn no
    /// more than its total, and is backed by exactly what remains of it.
    pub open spec fn wf(self) -> bool {
        &&& self.vaults.dom() == self.entries.dom()
        &&& forall|k: u128| #[trigger]
            self.entries.contains_key(k) ==> {
                let e = self.entries[k];
                &&& k == spec_pair_key(e.giver, e.recipient)
                &&& e.withdrawn <= e.total
                &&& self.vaults[k] == e.total - e.withdrawn
            }
    }

    /// This state with `amount` added to an account's balance.
    pub open spec fn credit(self, account: u64, amount: nat) -> LedgerView {
        LedgerView {
            balances: self.balances.insert(account, (self.balance_of(account) + amount) as u64),
            ..self
        }
    }
}

/// What a Create does: the state after it and its result.
pub open spec fn initialize_outcome(
    v: LedgerView,
    ctx: Initialize,
    total: u64,
    expires_at: i64,
) -> (LedgerView, Result<(), ErrorCode>) {
    let k = spec_pair_key(ctx.giver, ctx.recipient);
    if v.entries.contains_key(k) {
        (v, Err(ErrorCode::DuplicateEntry))
    } else if v.balance_of(ctx.giver) < total {
        (v, Err(ErrorCode::InsufficientFunds))
    } else {
        let entry = Allowance {
            giver: ctx.giver,
            recipient: ctx.recipient,
            total,
            withdrawn: 0,
            expires_at,
            bump: ctx.bump,
        };
        (
            LedgerView {
                balances: v.balances.insert(ctx.giver, (v.balance_of(ctx.giver) - total) as u64),
                entries: v.entries.insert(k, entry),
                vaults: v.vaults.insert(k, total),
            },
            Ok(()),
        )
    }
}

/// What a Withdraw at time `now` does: the state after it and its result.
pub open spec fn withdraw_outcome(v: LedgerView, ctx: Withdraw, amount: u64, now: i64) -> (
    LedgerView,
    Result<(), ErrorCode>,
) {
    let k = spec_pair_key(ctx.giver, ctx.recipient);
    let e = v.entries[k];
    if !v.entries.contains_key(k) {
        (v, Err(ErrorCode::EntryNotFound))
    } else if ctx.signer != e.recipient {
        (v, Err(ErrorCode::Unauthorized))
    } else if now > e.expires_at {
        (v, Err(ErrorCode::Expired))
    } else if e.withdrawn + amount > e.total {
        (v, Err(ErrorCode::LimitExceeded))
    } else if v.balance_of(e.recipient) + amount > u64::MAX {
        (v, Err(ErrorCode::BalanceOverflow))
    } else {
        let moved = LedgerView {
            entries: v.entries.insert(k, Allowance { withdrawn: (e.withdrawn + amount) as u64, ..e }),
            vaults: v.vaults.insert(k, (v.vaults[k] - amount) as u64),
            ..v
        };
        (moved.credit(e.recipient, amount as nat), Ok(()))
    }
}

/// What is left to withdraw from an entry, never below zero.
pub open spec fn remaining(e: Allowance) -> nat {
    if e.withdrawn <= e.total {
        (e.total - e.withdrawn) as nat
    } else {
        0
    }
}

/// What a Close does: the state after it and its result.
pub open spec fn close_outcome(v: LedgerView, ctx: Close) -> (LedgerView, Result<(), ErrorCode>) {
    let k = spec_pair_key(ctx.giver, ctx.recipient);
    let e = v.entries[k];
    if !v.entries.contains_key(k) {
        (v, Err(ErrorCode::EntryNotFound))
    } else if ctx.signer != e.giver {
        (v, Err(ErrorCode::Unauthorized))
    } else if v.balance_of(e.giver) + remaining(e) > u64::MAX {
        (v, Err(ErrorCode::BalanceOverflow))
    } else {
        let freed = LedgerView { entries: v.entries.remove(k), vaults: v.vaults.remove(k), ..v };
        (freed.credit(e.giver, remaining(e)), Ok(()))
    }
}

} // verus!
