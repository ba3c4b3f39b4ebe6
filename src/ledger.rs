use vstd::prelude::*;
use crate::derive::{cmp_pubkeys, Address};
use crate::error::EscrowError;

verus! {

/// A party's system account: its address, its native balance, and whether it
/// signed the operation at hand.
#[derive(Clone, Copy, Debug, PartialEq, Eq)]
pub struct Wallet {
    pub key: Address,
    pub lamports: u64,
    pub is_signer: bool,
}

/// A token account of the ledger: it holds `amount` units of `mint`, may be
/// moved from by `owner` alone, and carries a storage deposit of `lamports`.
#[derive(Clone, Copy, Debug, PartialEq, Eq)]
pub struct TokenAccount {
    pub key: Address,
    pub mint: Address,
    pub owner: Address,
    pub amount: u64,
    pub lamports: u64,
    pub is_open: bool,
}

/// Why moving `amount` of `mint` from `from` to `to` on behalf of `authority`
/// is refused, in the order the ledger checks; `None` when it succeeds.
pub open spec fn transfer_error(from: TokenAccount, to: TokenAccount, mint: Address, authority: Address, amount: u64) -> Option<EscrowError> {
    if !from.is_open || !to.is_open {
        Some(EscrowError::UninitializedAccount)
    } else if from.mint@ != mint@ || to.mint@ != mint@ {
        Some(EscrowError::MintMismatch)
    } else if from.owner@ != authority@ {
        Some(EscrowError::InvalidAuthority)
    } else if from.amount < amount {
        Some(EscrowError::InsufficientFunds)
    } else if to.amount + amount > u64::MAX {
        Some(EscrowError::Overflow)
    } else {
        None
    }
}

/// `a` with `amount` fewer units.
pub open spec fn debited(a: TokenAccount, amount: u64) -> TokenAccount {
    TokenAccount { amount: (a.amount - amount) as u64, ..a }
}

/// `a` with `amount` more units.
pub open spec fn credited(a: TokenAccount, amount: u64) -> TokenAccount {
    TokenAccount { amount: (a.amount + amount) as u64, ..a }
}

/// Why closing `account` into `dest` on behalf of `authority` is refused;
/// `None` when it succeeds.
pub open spec fn close_error(account: TokenAccount, dest: Wallet, authority: Address) -> Option<EscrowError> {
    if !account.is_open {
        Some(EscrowError::UninitializedAccount)
    } else if account.owner@ != authority@ {
        Some(EscrowError::InvalidAuthority)
    } else if account.amount != 0 {
        Some(EscrowError::NonZeroBalance)
    } else if dest.lamports + account.lamports > u64::MAX {
        Some(EscrowError::Overflow)
    } else {
        None
    }
}

/// A closed token account: no tokens, no deposit.
pub open spec fn closed(a: TokenAccount) -> TokenAccount {
    TokenAccount { amount: 0, lamports: 0, is_open: false, ..a }
}

/// `w` with `lamports` more.
pub open spec fn refunded(w: Wallet, lamports: u64) -> Wallet {
    Wallet { lamports: (w.lamports + lamports) as u64, ..w }
}

/// Moves `amount` units of `mint` from `from` to `to` on behalf of
/// `authority`; on refusal neither account changes.
pub fn transfer(from: &mut TokenAccount, to: &mut TokenAccount, mint: &Address, authority: &Address, amount: u64) -> (r: Result<(), EscrowError>)
    ensures
        match transfer_error(*old(from), *old(to), *mint, *authority, amount) {
            Some(e) => r == Err::<(), EscrowError>(e) && *final(from) == *old(from) && *final(to) == *old(to),
            None => r is Ok && *final(from) == debited(*old(from), amount) && *final(to) == credited(*old(to), amount),
        },
{
    if !from.is_open || !to.is_open {
        return Err(EscrowError::UninitializedAccount);
    }
    if !cmp_pubkeys(&from.mint, mint) || !cmp_pubkeys(&to.mint, mint) {
        return Err(EscrowError::MintMismatch);
    }
    if !cmp_pubkeys(&from.owner, authority) {
        return Err(EscrowError::InvalidAuthority);
    }
    if from.amount < amount {
        return Err(EscrowError::InsufficientFunds);
    }
    if to.amount > u64::MAX - amount {
        return Err(EscrowError::Overflow);
    }
    from.amount = from.amount - amount;
    to.amount = to.amount + amount;
    Ok(())
}

/// Closes the empty token account `account` on behalf of `authority` and
/// returns its deposit to `dest`; on refusal neither changes.
pub fn close_token_account(account: &mut TokenAccount, dest: &mut Wallet, authority: &Address) -> (r: Result<(), EscrowError>)
    ensures
        match close_error(*old(account), *old(dest), *authority) {
            Some(e) => r == Err::<(), EscrowError>(e) && *final(account) == *old(account) && *final(dest) == *old(dest),
            None => r is Ok && *final(account) == closed(*old(account)) && *final(dest) == refunded(*old(dest), old(account).lamports),
        },
{
    if !account.is_open {
        return Err(EscrowError::UninitializedAccount);
    }
    if !cmp_pubkeys(&account.owner, authority) {
        return Err(EscrowError::InvalidAuthority);
    }
    if account.amount != 0 {
        return Err(EscrowError::NonZeroBalance);
    }
    if dest.lamports > u64::MAX - account.lamports {
        return Err(EscrowError::Overflow);
    }
    dest.lamports = dest.lamports + account.lamports;
    account.lamports = 0;
    account.amount = 0;
    account.is_open = false;
    Ok(())
}

} // verus!
