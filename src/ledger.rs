//! The abstract state of the marketplace: every record, keyed as it is
//! stored, and every balance. The contracts of the operations are stated
//! over it.
use vstd::prelude::*;

use crate::access::{purchase_check, purchase_effect, PurchaseAccess};
use crate::catalog::{new_paper, publish_check, update_check, InitResearch, UpdateResearch};
use crate::constants::USER_NAME_MAX_LENGTH;
use crate::errors::ErrorCodes;
use crate::fee::{fee_of, lemma_fee_split};
use crate::identity::new_user;
use crate::review::{
    submit_check, submit_effect, verify_check, verify_effect, ReviewPaper, VerifyReview,
};
use crate::states::{
    text_ok, AccessReceipt, Identity, PeerReview, ResearchPaper, ReviewStatus, User,
};
use crate::treasury::{transfer_result, HolderKind};
use crate::withdraw::admin_withdraw_check;

verus! {

/// Every record and balance of the marketplace. Listings are keyed by their
/// author; receipts and reviews by (participant, listing author).
pub struct Ledger {
    pub users: Map<Identity, User>,
    pub papers: Map<Identity, ResearchPaper>,
    pub receipts: Map<(Identity, Identity), AccessReceipt>,
    pub reviews: Map<(Identity, Identity), PeerReview>,
    /// External wallet balances; an absent identity holds nothing.
    pub wallets: Map<Identity, u64>,
    /// Personal vault balances; an absent identity holds nothing.
    pub vaults: Map<Identity, u64>,
    /// The platform vault.
    pub admin_vault: u64,
    /// The fixed administrator allow-list.
    pub admins: Seq<Identity>,
}

/// The balance of `who` in a balance map.
pub open spec fn balance_of(m: Map<Identity, u64>, who: Identity) -> u64 {
    if m.contains_key(who) {
        m[who]
    } else {
        0
    }
}

impl Ledger {
    /// Records sit under their own keys, every listing has a registered
    /// author and a positive price, every receipt names a listing and a
    /// registered buyer other than its author, and every review rests on a
    /// receipt.
    pub open spec fn well_formed(self) -> bool {
        &&& forall|k: Identity| #[trigger]
            self.users.contains_key(k) ==> self.users[k].owner == k
        &&& forall|k: Identity| #[trigger]
            self.papers.contains_key(k) ==> self.papers[k].author == k && self.papers[k].price > 0
                && self.users.contains_key(k)
        &&& forall|b: Identity, p: Identity| #[trigger]
            self.receipts.contains_key((b, p)) ==> self.receipts[(b, p)].buyer == b
                && self.receipts[(b, p)].purchased_paper == p && b != p
                && self.users.contains_key(b) && self.papers.contains_key(p)
        &&& forall|r: Identity, p: Identity| #[trigger]
            self.reviews.contains_key((r, p)) ==> self.reviews[(r, p)].reviewer == r
                && self.reviews[(r, p)].reviewed_paper == p && self.receipts.contains_key((r, p))
    }

    /// Outcome of `init_user`: a duplicate record is refused before the name is checked.
    pub open spec fn init_user_outcome(self, caller: Identity, name: Seq<char>) -> Result<
        (),
        ErrorCodes,
    > {
        if self.users.contains_key(caller) {
            Err(ErrorCodes::UserAlreadyRegistered)
        } else if !text_ok(name, USER_NAME_MAX_LENGTH) {
            Err(ErrorCodes::UserNameInvalid)
        } else {
            Ok(())
        }
    }

    /// The ledger after a successful `init_user`.
    pub open spec fn after_init_user(self, caller: Identity, name: String, now: i64) -> Ledger {
        Ledger { users: self.users.insert(caller, new_user(caller, name, now)), ..self }
    }

    /// The records `init_research` hands to its handler.
    pub open spec fn publish_context(self, caller: Identity) -> InitResearch {
        InitResearch { author: caller, user_account: self.users[caller], research_paper: None }
    }

    /// Outcome of `init_research`.
    pub open spec fn init_research_outcome(
        self,
        caller: Identity,
        title: Seq<char>,
        description: Seq<char>,
        price: u64,
        encrypted_url: Seq<char>,
        encryption_key: Seq<char>,
    ) -> Result<(), ErrorCodes> {
        if self.papers.contains_key(caller) {
            Err(ErrorCodes::PaperAlreadyPublished)
        } else if !self.users.contains_key(caller) {
            Err(ErrorCodes::UserNotRegistered)
        } else {
            publish_check(
                self.publish_context(caller),
                title,
                description,
                price,
                encrypted_url,
                encryption_key,
            )
        }
    }

    /// The ledger after a successful `init_research`.
    pub open spec fn after_init_research(
        self,
        caller: Identity,
        title: String,
        description: String,
        price: u64,
        encrypted_url: String,
        encryption_key: String,
        now: i64,
    ) -> Ledger {
        let user = self.users[caller];
        Ledger {
            users: self.users.insert(
                caller,
                User { published: (user.published + 1) as u16, ..user },
            ),
            papers: self.papers.insert(
                caller,
                new_paper(caller, title, description, price, encrypted_url, encryption_key, now),
            ),
            ..self
        }
    }

    /// Outcome of `update_research`.
    pub open spec fn update_research_outcome(
        self,
        caller: Identity,
        paper: Identity,
        title: Seq<char>,
        description: Seq<char>,
        price: u64,
        encrypted_url: Seq<char>,
        encryption_key: Seq<char>,
    ) -> Result<(), ErrorCodes> {
        if !self.papers.contains_key(paper) {
            Err(ErrorCodes::PaperNotFound)
        } else {
            update_check(
                UpdateResearch { author: caller, research_paper: self.papers[paper] },
                title,
                description,
                price,
                encrypted_url,
                encryption_key,
            )
        }
    }

    /// The ledger after a successful `update_research`.
    pub open spec fn after_update_research(
        self,
        paper: Identity,
        title: String,
        description: String,
        price: u64,
        encrypted_url: String,
        encryption_key: String,
    ) -> Ledger {
        Ledger {
            papers: self.papers.insert(
                paper,
                ResearchPaper {
                    title,
                    description,
                    price,
                    encrypted_url,
                    encryption_key,
                    ..self.papers[paper]
                },
            ),
            ..self
        }
    }

    /// The records and balances `purchase_access` hands to its handler.
    pub open spec fn purchase_context(self, buyer: Identity, paper: Identity) -> PurchaseAccess {
        PurchaseAccess {
            buyer,
            buyer_wallet: balance_of(self.wallets, buyer),
            research_paper: self.papers[paper],
            buyer_user_account: self.users[buyer],
            author_user_account: self.users[paper],
            author_vault: balance_of(self.vaults, paper),
            admin_vault: self.admin_vault,
            access_receipt: None,
        }
    }

    /// Outcome of `purchase_access`: a missing listing or buyer record, or an
    /// earlier receipt, is refused before the handler's checks.
    pub open spec fn purchase_outcome(self, buyer: Identity, paper: Identity) -> Result<
        (),
        ErrorCodes,
    > {
        if !self.papers.contains_key(paper) {
            Err(ErrorCodes::PaperNotFound)
        } else if !self.users.contains_key(buyer) {
            Err(ErrorCodes::UserNotRegistered)
        } else if self.receipts.contains_key((buyer, paper)) {
            Err(ErrorCodes::AlreadyPurchased)
        } else {
            purchase_check(self.purchase_context(buyer, paper))
        }
    }

    /// The ledger after a successful `purchase_access`.
    pub open spec fn after_purchase(self, buyer: Identity, paper: Identity, now: i64) -> Ledger {
        let done = purchase_effect(self.purchase_context(buyer, paper), now);
        Ledger {
            users: self.users.insert(buyer, done.buyer_user_account).insert(
                paper,
                done.author_user_account,
            ),
            papers: self.papers.insert(paper, done.research_paper),
            receipts: self.receipts.insert(
                (buyer, paper),
                AccessReceipt { buyer, purchased_paper: paper, timestamp: now },
            ),
            wallets: self.wallets.insert(buyer, done.buyer_wallet),
            vaults: self.vaults.insert(paper, done.author_vault),
            admin_vault: done.admin_vault,
            ..self
        }
    }

    /// The records `review_paper` hands to its handler.
    pub open spec fn submit_context(self, reviewer: Identity, paper: Identity) -> ReviewPaper {
        ReviewPaper {
            reviewer,
            research_paper: self.papers[paper],
            access_receipt: self.receipts[(reviewer, paper)],
            reviewer_user_account: self.users[reviewer],
            peer_review: None,
        }
    }

    /// Outcome of `review_paper`: the receipt is required first, whatever the
    /// other inputs, then a review must not exist yet.
    pub open spec fn review_outcome(
        self,
        reviewer: Identity,
        paper: Identity,
        review_url: Seq<char>,
    ) -> Result<(), ErrorCodes> {
        if !self.receipts.contains_key((reviewer, paper)) {
            Err(ErrorCodes::PaperNotPurchased)
        } else if self.reviews.contains_key((reviewer, paper)) {
            Err(ErrorCodes::AlreadyReviewed)
        } else {
            submit_check(self.submit_context(reviewer, paper), review_url)
        }
    }

    /// The ledger after a successful `review_paper`.
    pub open spec fn after_review(
        self,
        reviewer: Identity,
        paper: Identity,
        review_url: String,
        proposed_reward: u64,
        now: i64,
    ) -> Ledger {
        let done = submit_effect(
            self.submit_context(reviewer, paper),
            review_url,
            proposed_reward,
            now,
        );
        Ledger {
            users: self.users.insert(reviewer, done.reviewer_user_account),
            papers: self.papers.insert(paper, done.research_paper),
            reviews: self.reviews.insert((reviewer, paper), done.peer_review.unwrap()),
            ..self
        }
    }

    /// The records and balances `verify_review` hands to its handler.
    pub open spec fn verify_context(self, caller: Identity, reviewer: Identity, paper: Identity) -> VerifyReview {
        VerifyReview {
            author: caller,
            author_wallet: balance_of(self.wallets, caller),
            peer_review: self.reviews[(reviewer, paper)],
            research_paper: self.papers[paper],
            reviewer_user_account: self.users[reviewer],
            reviewer_vault: balance_of(self.vaults, reviewer),
            admin_vault: self.admin_vault,
        }
    }

    /// Outcome of `verify_review`.
    pub open spec fn verify_outcome(
        self,
        caller: Identity,
        reviewer: Identity,
        paper: Identity,
        accept: bool,
    ) -> Result<(), ErrorCodes> {
        if !self.reviews.contains_key((reviewer, paper)) {
            Err(ErrorCodes::ReviewNotFound)
        } else {
            verify_check(self.verify_context(caller, reviewer, paper), accept)
        }
    }

    /// The ledger after a successful `verify_review`; a rejection writes only
    /// the review.
    pub open spec fn after_verify(
        self,
        caller: Identity,
        reviewer: Identity,
        paper: Identity,
        accept: bool,
    ) -> Ledger {
        let done = verify_effect(self.verify_context(caller, reviewer, paper), accept);
        if accept {
            Ledger {
                users: self.users.insert(reviewer, done.reviewer_user_account),
                reviews: self.reviews.insert((reviewer, paper), done.peer_review),
                wallets: self.wallets.insert(caller, done.author_wallet),
                vaults: self.vaults.insert(reviewer, done.reviewer_vault),
                admin_vault: done.admin_vault,
                ..self
            }
        } else {
            Ledger { reviews: self.reviews.insert((reviewer, paper), done.peer_review), ..self }
        }
    }

    /// Outcome of `user_withdraw`.
    pub open spec fn user_withdraw_outcome(self, caller: Identity, amount: u64) -> Result<
        (),
        ErrorCodes,
    > {
        transfer_result(
            balance_of(self.vaults, caller),
            balance_of(self.wallets, caller),
            amount,
            HolderKind::Vault,
        )
    }

    /// The ledger after a successful `user_withdraw`.
    pub open spec fn after_user_withdraw(self, caller: Identity, amount: u64) -> Ledger {
        Ledger {
            vaults: self.vaults.insert(caller, (balance_of(self.vaults, caller) - amount) as u64),
            wallets: self.wallets.insert(
                caller,
                (balance_of(self.wallets, caller) + amount) as u64,
            ),
            ..self
        }
    }

    /// Outcome of `admin_withdraw`.
    pub open spec fn admin_withdraw_outcome(self, caller: Identity, amount: u64) -> Result<
        (),
        ErrorCodes,
    > {
        admin_withdraw_check(
            self.admin_vault,
            balance_of(self.wallets, caller),
            caller,
            self.admins,
            amount,
        )
    }

    /// The ledger after a successful `admin_withdraw`.
    pub open spec fn after_admin_withdraw(self, caller: Identity, amount: u64) -> Ledger {
        Ledger {
            admin_vault: (self.admin_vault - amount) as u64,
            wallets: self.wallets.insert(
                caller,
                (balance_of(self.wallets, caller) + amount) as u64,
            ),
            ..self
        }
    }
}

/// A purchase by a registered buyer other than the author, with enough in the
/// wallet and without arithmetic overflow, succeeds: the author's vault gains
/// the price less the fee, the platform vault gains the fee, the buyer's
/// wallet loses the price, exactly one receipt for the pair appears, and the
/// listing's sales, the buyer's purchases and the author's sales and
/// earnings advance.
pub proof fn lemma_purchase_settles(m: Ledger, buyer: Identity, paper: Identity, now: i64)
    requires
        m.well_formed(),
        m.papers.contains_key(paper),
        m.users.contains_key(buyer),
        buyer != paper,
        !m.receipts.contains_key((buyer, paper)),
        balance_of(m.wallets, buyer) >= m.papers[paper].price,
        purchase_check(m.purchase_context(buyer, paper)) != Err::<(), ErrorCodes>(
            ErrorCodes::MathOverflow,
        ),
    ensures
        m.purchase_outcome(buyer, paper) is Ok,
        ({
            let m2 = m.after_purchase(buyer, paper, now);
            let price = m.papers[paper].price;
            &&& balance_of(m2.vaults, paper) == balance_of(m.vaults, paper) + price - fee_of(
                price as int,
            )
            &&& m2.admin_vault == m.admin_vault + fee_of(price as int)
            &&& balance_of(m2.wallets, buyer) == balance_of(m.wallets, buyer) - price
            &&& m2.receipts.dom() == m.receipts.dom().insert((buyer, paper))
            &&& m2.receipts[(buyer, paper)].buyer == buyer
            &&& m2.receipts[(buyer, paper)].purchased_paper == paper
            &&& m2.papers[paper].sales == m.papers[paper].sales + 1
            &&& m2.users[buyer].purchased == m.users[buyer].purchased + 1
            &&& m2.users[paper].sold == m.users[paper].sold + 1
            &&& m2.users[paper].earning == m.users[paper].earning + price - fee_of(price as int)
        }),
{
    lemma_fee_split(m.papers[paper].price);
}

/// Once a purchase has succeeded, the same buyer's second purchase of the
/// same listing fails as already purchased.
pub proof fn lemma_repeat_purchase_refused(
    m: Ledger,
    buyer: Identity,
    paper: Identity,
    now: i64,
)
    requires
        m.well_formed(),
        m.purchase_outcome(buyer, paper) is Ok,
    ensures
        m.after_purchase(buyer, paper, now).purchase_outcome(buyer, paper) == Err::<
            (),
            ErrorCodes,
        >(ErrorCodes::AlreadyPurchased),
{
}

/// Without a receipt for the pair, a review submission fails as not
/// purchased, whatever the review pointer.
pub proof fn lemma_review_needs_receipt(
    m: Ledger,
    reviewer: Identity,
    paper: Identity,
    review_url: Seq<char>,
)
    requires
        !m.receipts.contains_key((reviewer, paper)),
    ensures
        m.review_outcome(reviewer, paper, review_url) == Err::<(), ErrorCodes>(
            ErrorCodes::PaperNotPurchased,
        ),
{
}

/// Accepting a pending review with reward R, by the listing's author with
/// enough in the wallet and without overflow, succeeds: the referee's vault
/// gains R less the fee, the platform vault gains the fee, the author's
/// wallet loses R and the review is accepted. Any later decision on the same
/// review, by anyone, fails as not pending.
pub proof fn lemma_accept_settles(
    m: Ledger,
    caller: Identity,
    reviewer: Identity,
    paper: Identity,
    later_caller: Identity,
    later_accept: bool,
)
    requires
        m.well_formed(),
        m.reviews.contains_key((reviewer, paper)),
        m.reviews[(reviewer, paper)].status == ReviewStatus::Pending,
        caller == m.papers[paper].author,
        balance_of(m.wallets, caller) >= m.reviews[(reviewer, paper)].proposed_reward,
        m.verify_outcome(caller, reviewer, paper, true) != Err::<(), ErrorCodes>(
            ErrorCodes::MathOverflow,
        ),
    ensures
        m.verify_outcome(caller, reviewer, paper, true) is Ok,
        ({
            let m2 = m.after_verify(caller, reviewer, paper, true);
            let reward = m.reviews[(reviewer, paper)].proposed_reward;
            &&& balance_of(m2.vaults, reviewer) == balance_of(m.vaults, reviewer) + reward
                - fee_of(reward as int)
            &&& m2.admin_vault == m.admin_vault + fee_of(reward as int)
            &&& balance_of(m2.wallets, caller) == balance_of(m.wallets, caller) - reward
            &&& m2.reviews[(reviewer, paper)].status == ReviewStatus::Accepted
            &&& m2.verify_outcome(later_caller, reviewer, paper, later_accept) == Err::<
                (),
                ErrorCodes,
            >(ErrorCodes::ReviewNotPending)
        }),
{
    lemma_fee_split(m.reviews[(reviewer, paper)].proposed_reward);
}

/// Rejecting a pending review, by the listing's author, succeeds, marks it
/// rejected and moves no funds: every wallet, every vault and the platform
/// vault stay as they were.
pub proof fn lemma_reject_moves_nothing(
    m: Ledger,
    caller: Identity,
    reviewer: Identity,
    paper: Identity,
)
    requires
        m.well_formed(),
        m.reviews.contains_key((reviewer, paper)),
        m.reviews[(reviewer, paper)].status == ReviewStatus::Pending,
        caller == m.papers[paper].author,
    ensures
        m.verify_outcome(caller, reviewer, paper, false) is Ok,
        ({
            let m2 = m.after_verify(caller, reviewer, paper, false);
            &&& m2.reviews[(reviewer, paper)].status == ReviewStatus::Rejected
            &&& m2.wallets == m.wallets
            &&& m2.vaults == m.vaults
            &&& m2.admin_vault == m.admin_vault
        }),
{
}

/// A withdrawal of more than the caller's vault holds fails for want of
/// funds; one that succeeds leaves the vault holding the old balance less
/// the amount.
pub proof fn lemma_withdraw_within_vault(m: Ledger, caller: Identity, amount: u64)
    ensures
        amount > balance_of(m.vaults, caller) ==> m.user_withdraw_outcome(caller, amount)
            == Err::<(), ErrorCodes>(ErrorCodes::InsufficientFundsInVault),
        m.user_withdraw_outcome(caller, amount) is Ok ==> amount <= balance_of(m.vaults, caller)
            && balance_of(m.after_user_withdraw(caller, amount).vaults, caller) == balance_of(
            m.vaults,
            caller,
        ) - amount,
{
}

} // verus!
