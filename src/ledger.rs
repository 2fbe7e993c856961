//! The balance moves that the ledger performs for the pool, over plain
//! token amounts: each one either happens whole or not at all.
use vstd::prelude::*;
use crate::error::AmmError;

verus! {

/// Whether moving `amount` from a balance `from` to a balance `to` succeeds:
/// the source holds enough and the destination does not overflow.
pub open spec fn can_transfer(from: u64, to: u64, amount: u64) -> bool {
    amount <= from && to + amount <= u64::MAX
}

/// Whether minting `amount` succeeds: neither the supply nor the receiving
/// balance overflows.
pub open spec fn can_mint(supply: u64, to: u64, amount: u64) -> bool {
    supply + amount <= u64::MAX && to + amount <= u64::MAX
}

/// Whether burning `amount` succeeds: the holder holds enough, and so does the supply.
pub open spec fn can_burn(supply: u64, from: u64, amount: u64) -> bool {
    amount <= from && amount <= supply
}

/// Moves `amount` from `from` to `to`.
pub fn transfer(from: &mut u64, to: &mut u64, amount: u64) -> (r: Result<(), AmmError>)
    ensures
        r is Ok <==> can_transfer(*old(from), *old(to), amount),
        r is Err ==> r->Err_0 == AmmError::TransferFailed,
        r is Err ==> *final(from) == *old(from) && *final(to) == *old(to),
        r is Ok ==> *final(from) == *old(from) - amount && *final(to) == *old(to) + amount,
{
    if amount > *from || *to > u64::MAX - amount {
        return Err(AmmError::TransferFailed);
    }
    *from = *from - amount;
    *to = *to + amount;
    Ok(())
}

/// Creates `amount` new shares in the balance `to`.
pub fn mint(supply: &mut u64, to: &mut u64, amount: u64) -> (r: Result<(), AmmError>)
    ensures
        r is Ok <==> can_mint(*old(supply), *old(to), amount),
        r is Err ==> r->Err_0 == AmmError::MintFailed,
        r is Err ==> *final(supply) == *old(supply) && *final(to) == *old(to),
        r is Ok ==> *final(supply) == *old(supply) + amount && *final(to) == *old(to) + amount,
{
    if *supply > u64::MAX - amount || *to > u64::MAX - amount {
        return Err(AmmError::MintFailed);
    }
    *supply = *supply + amount;
    *to = *to + amount;
    Ok(())
}

/// Destroys `amount` shares of the balance `from`.
pub fn burn(supply: &mut u64, from: &mut u64, amount: u64) -> (r: Result<(), AmmError>)
    ensures
        r is Ok <==> can_burn(*old(supply), *old(from), amount),
        r is Err ==> r->Err_0 == AmmError::BurnFailed,
        r is Err ==> *final(supply) == *old(supply) && *final(from) == *old(from),
        r is Ok ==> *final(supply) == *old(supply) - amount && *final(from) == *old(from) - amount,
{
    if amount > *from || amount > *supply {
        return Err(AmmError::BurnFailed);
    }
    *supply = *supply - amount;
    *from = *from - amount;
    Ok(())
}

} // verus!
