use vstd::prelude::*;
use crate::escrow::{Account, EscrowError};

verus! {

/// Moves `amount` from the vault `from` to `to`. Fails, changing nothing, when
/// the vault holds less than `amount` or when `to` would overflow.
pub(crate) fn transfer_lamports(from: &mut Account, to: &mut Account, amount: u64) -> (r: Result<(), EscrowError>)
    ensures
        old(from).lamports < amount ==> r == Err::<(), EscrowError>(EscrowError::InsufficientVaultBalance),
        old(from).lamports >= amount && old(to).lamports + amount > u64::MAX
            ==> r == Err::<(), EscrowError>(EscrowError::MathOverflow),
        old(from).lamports >= amount && old(to).lamports + amount <= u64::MAX ==> {
            &&& r is Ok
            &&& *final(from) == old(from).with_lamports(old(from).lamports - amount)
            &&& *final(to) == old(to).with_lamports(old(to).lamports + amount)
        },
        r is Err ==> *final(from) == *old(from) && *final(to) == *old(to),
{
    if from.lamports < amount {
        return Err(EscrowError::InsufficientVaultBalance);
    }
    match to.lamports.checked_add(amount) {
        None => Err(EscrowError::MathOverflow),
        Some(credited) => {
            from.lamports = from.lamports - amount;
            to.lamports = credited;
            Ok(())
        },
    }
}

/// Moves the whole balance of `from` to `to`; nothing to do when it is empty.
pub(crate) fn drain_to(from: &mut Account, to: &mut Account) -> (r: Result<(), EscrowError>)
    ensures
        old(to).lamports + old(from).lamports > u64::MAX
            ==> r == Err::<(), EscrowError>(EscrowError::MathOverflow) && *final(from) == *old(from)
            && *final(to) == *old(to),
        old(to).lamports + old(from).lamports <= u64::MAX ==> {
            &&& r is Ok
            &&& *final(from) == old(from).with_lamports(0)
            &&& *final(to) == old(to).with_lamports(old(to).lamports + old(from).lamports)
        },
{
    let remaining = from.lamports;
    if remaining == 0 {
        return Ok(());
    }
    match to.lamports.checked_add(remaining) {
        None => Err(EscrowError::MathOverflow),
        Some(credited) => {
            from.lamports = 0;
            to.lamports = credited;
            Ok(())
        },
    }
}

/// A party pays its stake into the vault. Fails, changing nothing, when the
/// payer holds less than `amount` or when the vault would overflow.
pub(crate) fn deposit(payer: &mut Account, vault: &mut Account, amount: u64) -> (r: Result<(), EscrowError>)
    ensures
        old(payer).lamports < amount ==> r == Err::<(), EscrowError>(EscrowError::InsufficientFunds),
        old(payer).lamports >= amount && old(vault).lamports + amount > u64::MAX
            ==> r == Err::<(), EscrowError>(EscrowError::MathOverflow),
        old(payer).lamports >= amount && old(vault).lamports + amount <= u64::MAX ==> {
            &&& r is Ok
            &&& *final(payer) == old(payer).with_lamports(old(payer).lamports - amount)
            &&& *final(vault) == old(vault).with_lamports(old(vault).lamports + amount)
        },
        r is Err ==> *final(payer) == *old(payer) && *final(vault) == *old(vault),
{
    if payer.lamports < amount {
        return Err(EscrowError::InsufficientFunds);
    }
    match vault.lamports.checked_add(amount) {
        None => Err(EscrowError::MathOverflow),
        Some(credited) => {
            payer.lamports = payer.lamports - amount;
            vault.lamports = credited;
            Ok(())
        },
    }
}

} // verus!
