//! Custody of value: the single primitive through which every balance moves.
use vstd::prelude::*;

use crate::errors::ErrorCodes;

verus! {

/// The kind of balance a transfer draws from; it decides which error a
/// shortfall reports.
#[derive(Debug, Clone, Copy, PartialEq, Eq, Structural)]
pub enum HolderKind {
    /// A participant's external wallet.
    Wallet,
    /// A custodial vault (per identity, or the platform's).
    Vault,
}

/// The error a shortfall in a holder of the given kind reports.
pub open spec fn shortfall_error(kind: HolderKind) -> ErrorCodes {
    match kind {
        HolderKind::Wallet => ErrorCodes::InsufficientFundsInWallet,
        HolderKind::Vault => ErrorCodes::InsufficientFundsInVault,
    }
}

/// Outcome of moving `amount` from a balance `from` to a balance `to`.
pub open spec fn transfer_result(from: u64, to: u64, amount: u64, kind: HolderKind) -> Result<
    (),
    ErrorCodes,
> {
    if from < amount {
        Err(shortfall_error(kind))
    } else if to + amount > u64::MAX {
        Err(ErrorCodes::MathOverflow)
    } else {
        Ok(())
    }
}

/// Moves `amount` from `from` to `to`, all of it or nothing.
pub fn transfer(from: &mut u64, to: &mut u64, amount: u64, kind: HolderKind) -> (r: Result<
    (),
    ErrorCodes,
>)
    ensures
        r == transfer_result(*old(from), *old(to), amount, kind),
        r is Ok ==> *final(from) == *old(from) - amount && *final(to) == *old(to) + amount,
        r is Err ==> *final(from) == *old(from) && *final(to) == *old(to),
{
    if *from < amount {
        return Err(
            match kind {
                HolderKind::Wallet => ErrorCodes::InsufficientFundsInWallet,
                HolderKind::Vault => ErrorCodes::InsufficientFundsInVault,
            },
        );
    }
    let credited = match to.checked_add(amount) {
        Some(v) => v,
        None => {
            return Err(ErrorCodes::MathOverflow);
        },
    };
    *from = *from - amount;
    *to = credited;
    Ok(())
}

} // verus!
