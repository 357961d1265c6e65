//! Withdrawals from a participant's vault and from the platform vault.
use vstd::prelude::*;

use crate::errors::ErrorCodes;
use crate::states::Identity;
use crate::treasury::{transfer, transfer_result, HolderKind};

verus! {

/// The balances a participant's withdrawal moves between.
pub struct UserWithdraw {
    /// The verified caller.
    pub user: Identity,
    pub user_wallet: u64,
    pub user_vault: u64,
}

impl UserWithdraw {
    /// Moves `amount` from the caller's vault to the caller's wallet; fails
    /// with `InsufficientFundsInVault` when the vault holds less.
    pub fn user_withdraw(&mut self, amount: u64) -> (r: Result<(), ErrorCodes>)
        ensures
            r == transfer_result(old(self).user_vault, old(self).user_wallet, amount, HolderKind::Vault),
            r is Ok ==> *final(self) == (UserWithdraw {
                user_vault: (old(self).user_vault - amount) as u64,
                user_wallet: (old(self).user_wallet + amount) as u64,
                ..*old(self)
            }),
            r is Err ==> *final(self) == *old(self),
    {
        transfer(&mut self.user_vault, &mut self.user_wallet, amount, HolderKind::Vault)
    }
}

/// The balances an administrator's withdrawal moves between, and the fixed
/// set of administrators.
pub struct AdminWithdraw {
    /// The verified caller.
    pub admin: Identity,
    pub admin_wallet: u64,
    pub admin_vault: u64,
    pub admins: Vec<Identity>,
}

/// Outcome of an administrator's withdrawal: the vault balance is checked
/// first, then membership of the caller in the administrator set.
pub open spec fn admin_withdraw_check(
    admin_vault: u64,
    admin_wallet: u64,
    admin: Identity,
    admins: Seq<Identity>,
    amount: u64,
) -> Result<(), ErrorCodes> {
    if admin_vault < amount {
        Err(ErrorCodes::InsufficientFundsInVault)
    } else if !admins.contains(admin) {
        Err(ErrorCodes::UnauthorizedAdmin)
    } else {
        transfer_result(admin_vault, admin_wallet, amount, HolderKind::Vault)
    }
}

/// Whether `who` is in the list.
pub fn is_listed(list: &Vec<Identity>, who: Identity) -> (r: bool)
    ensures
        r == list@.contains(who),
{
    let mut i: usize = 0;
    while i < list.len()
        invariant
            i <= list@.len(),
            forall|j: int| 0 <= j < i ==> list@[j] != who,
        decreases list@.len() - i,
    {
        if list[i] == who {
            return true;
        }
        i = i + 1;
    }
    false
}

impl AdminWithdraw {
    /// Moves `amount` from the platform vault to an administrator's wallet.
    /// On failure nothing changes.
    pub fn admin_withdraw(&mut self, amount: u64) -> (r: Result<(), ErrorCodes>)
        ensures
            r == admin_withdraw_check(
                old(self).admin_vault,
                old(self).admin_wallet,
                old(self).admin,
                old(self).admins@,
                amount,
            ),
            r is Ok ==> *final(self) == (AdminWithdraw {
                admin_vault: (old(self).admin_vault - amount) as u64,
                admin_wallet: (old(self).admin_wallet + amount) as u64,
                ..*old(self)
            }),
            r is Err ==> *final(self) == *old(self),
    {
        if self.admin_vault < amount {
            return Err(ErrorCodes::InsufficientFundsInVault);
        }
        if !is_listed(&self.admins, self.admin) {
            return Err(ErrorCodes::UnauthorizedAdmin);
        }
        transfer(&mut self.admin_vault, &mut self.admin_wallet, amount, HolderKind::Vault)
    }
}

} // verus!
