//! Purchases: payment split between author and platform, and the receipt
//! that proves access.
use vstd::prelude::*;

use crate::errors::ErrorCodes;
use crate::fee::{fee_fits, fee_of, net_of, split_payment};
use crate::states::{AccessReceipt, Identity, ResearchPaper, User};
use crate::treasury::{transfer, HolderKind};

verus! {

/// The records and balances a purchase reads and writes.
pub struct PurchaseAccess {
    /// The verified caller.
    pub buyer: Identity,
    pub buyer_wallet: u64,
    pub research_paper: ResearchPaper,
    pub buyer_user_account: User,
    pub author_user_account: User,
    pub author_vault: u64,
    pub admin_vault: u64,
    /// Empty until the purchase creates the receipt.
    pub access_receipt: Option<AccessReceipt>,
}

/// Outcome of a purchase on the loaded records: the first check that fails,
/// in the order price, self-purchase, wallet balance, arithmetic.
pub open spec fn purchase_check(ctx: PurchaseAccess) -> Result<(), ErrorCodes> {
    let price = ctx.research_paper.price;
    let fee = fee_of(price as int);
    let net = net_of(price as int);
    if price == 0 {
        Err(ErrorCodes::ResearchPriceInvalid)
    } else if ctx.buyer == ctx.research_paper.author {
        Err(ErrorCodes::AuthorCantBuySelf)
    } else if ctx.buyer_wallet < price {
        Err(ErrorCodes::InsufficientFundsInWallet)
    } else if !fee_fits(price) || ctx.author_vault + net > u64::MAX || ctx.admin_vault + fee
        > u64::MAX || ctx.buyer_user_account.purchased + 1 > u16::MAX
        || ctx.research_paper.sales + 1 > u32::MAX || ctx.author_user_account.earning + net
        > u64::MAX || ctx.author_user_account.sold + 1 > u16::MAX {
        Err(ErrorCodes::MathOverflow)
    } else {
        Ok(())
    }
}

/// The records and balances after a successful purchase at time `now`.
pub open spec fn purchase_effect(ctx: PurchaseAccess, now: i64) -> PurchaseAccess {
    let price = ctx.research_paper.price;
    let fee = fee_of(price as int);
    let net = net_of(price as int);
    PurchaseAccess {
        buyer_wallet: (ctx.buyer_wallet - price) as u64,
        author_vault: (ctx.author_vault + net) as u64,
        admin_vault: (ctx.admin_vault + fee) as u64,
        research_paper: ResearchPaper {
            sales: (ctx.research_paper.sales + 1) as u32,
            ..ctx.research_paper
        },
        buyer_user_account: User {
            purchased: (ctx.buyer_user_account.purchased + 1) as u16,
            ..ctx.buyer_user_account
        },
        author_user_account: User {
            earning: (ctx.author_user_account.earning + net) as u64,
            sold: (ctx.author_user_account.sold + 1) as u16,
            ..ctx.author_user_account
        },
        access_receipt: Some(
            AccessReceipt {
                buyer: ctx.buyer,
                purchased_paper: ctx.research_paper.author,
                timestamp: now,
            },
        ),
        ..ctx
    }
}

impl PurchaseAccess {
    /// Buys access to the loaded listing: the buyer pays the price, the
    /// author's vault receives the net amount and the platform vault the fee,
    /// the receipt is created and the counters advance. On failure nothing
    /// changes.
    pub fn purchase_access(&mut self, now: i64) -> (r: Result<(), ErrorCodes>)
        ensures
            r == purchase_check(*old(self)),
            r is Ok ==> *final(self) == purchase_effect(*old(self), now),
            r is Err ==> *final(self) == *old(self),
    {
        let price = self.research_paper.price;
        if price == 0 {
            return Err(ErrorCodes::ResearchPriceInvalid);
        }
        if self.buyer == self.research_paper.author {
            return Err(ErrorCodes::AuthorCantBuySelf);
        }
        if self.buyer_wallet < price {
            return Err(ErrorCodes::InsufficientFundsInWallet);
        }
        let (fee, net) = match split_payment(price) {
            Ok(parts) => parts,
            Err(e) => {
                return Err(e);
            },
        };
        proof {
            crate::fee::lemma_fee_split(price);
        }
        if self.author_vault.checked_add(net).is_none() || self.admin_vault.checked_add(
            fee,
        ).is_none() {
            return Err(ErrorCodes::MathOverflow);
        }
        let purchased = match self.buyer_user_account.purchased.checked_add(1) {
            Some(v) => v,
            None => {
                return Err(ErrorCodes::MathOverflow);
            },
        };
        let sales = match self.research_paper.sales.checked_add(1) {
            Some(v) => v,
            None => {
                return Err(ErrorCodes::MathOverflow);
            },
        };
        let earning = match self.author_user_account.earning.checked_add(net) {
            Some(v) => v,
            None => {
                return Err(ErrorCodes::MathOverflow);
            },
        };
        let sold = match self.author_user_account.sold.checked_add(1) {
            Some(v) => v,
            None => {
                return Err(ErrorCodes::MathOverflow);
            },
        };
        let paid_author = transfer(
            &mut self.buyer_wallet,
            &mut self.author_vault,
            net,
            HolderKind::Wallet,
        );
        let paid_platform = transfer(
            &mut self.buyer_wallet,
            &mut self.admin_vault,
            fee,
            HolderKind::Wallet,
        );
        assert(paid_author is Ok && paid_platform is Ok);
        self.access_receipt = Some(
            AccessReceipt {
                buyer: self.buyer,
                purchased_paper: self.research_paper.author,
                timestamp: now,
            },
        );
        self.buyer_user_account.purchased = purchased;
        self.research_paper.sales = sales;
        self.author_user_account.earning = earning;
        self.author_user_account.sold = sold;
        Ok(())
    }
}

} // verus!
