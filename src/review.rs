//! Peer reviews: submission by a purchaser, and the author's single decision.
use vstd::prelude::*;

use crate::constants::REVIEW_URL_MAX_LENGTH;
use crate::errors::ErrorCodes;
use crate::fee::{fee_fits, fee_of, net_of, split_payment};
use crate::states::{
    text_ok, text_within, AccessReceipt, Identity, PeerReview, ResearchPaper, ReviewStatus, User,
};
use crate::treasury::{transfer, HolderKind};

verus! {

/// The records a review submission reads and writes.
pub struct ReviewPaper {
    /// The verified caller.
    pub reviewer: Identity,
    pub research_paper: ResearchPaper,
    pub access_receipt: AccessReceipt,
    pub reviewer_user_account: User,
    /// Empty until the submission creates the review.
    pub peer_review: Option<PeerReview>,
}

/// Outcome of a submission on the loaded records: the first check that
/// fails, in the order receipt, review pointer, self-review, counters.
pub open spec fn submit_check(ctx: ReviewPaper, review_url: Seq<char>) -> Result<(), ErrorCodes> {
    if ctx.access_receipt.buyer != ctx.reviewer || ctx.access_receipt.purchased_paper
        != ctx.research_paper.author {
        Err(ErrorCodes::PaperNotPurchased)
    } else if !text_ok(review_url, REVIEW_URL_MAX_LENGTH) {
        Err(ErrorCodes::ReviewUrlEmpty)
    } else if ctx.research_paper.author == ctx.reviewer {
        Err(ErrorCodes::AuthorCantReviewSelf)
    } else if ctx.research_paper.reviews + 1 > u32::MAX || ctx.reviewer_user_account.reviewed + 1
        > u16::MAX {
        Err(ErrorCodes::MathOverflow)
    } else {
        Ok(())
    }
}

/// The pending review a successful submission creates.
pub open spec fn new_review(
    reviewer: Identity,
    paper: Identity,
    review_url: String,
    proposed_reward: u64,
    now: i64,
) -> PeerReview {
    PeerReview {
        reviewer,
        reviewed_paper: paper,
        review_url,
        status: ReviewStatus::Pending,
        proposed_reward,
        timestamp: now,
    }
}

/// The records after a successful submission.
pub open spec fn submit_effect(
    ctx: ReviewPaper,
    review_url: String,
    proposed_reward: u64,
    now: i64,
) -> ReviewPaper {
    ReviewPaper {
        research_paper: ResearchPaper {
            reviews: (ctx.research_paper.reviews + 1) as u32,
            ..ctx.research_paper
        },
        reviewer_user_account: User {
            reviewed: (ctx.reviewer_user_account.reviewed + 1) as u16,
            ..ctx.reviewer_user_account
        },
        peer_review: Some(
            new_review(ctx.reviewer, ctx.research_paper.author, review_url, proposed_reward, now),
        ),
        ..ctx
    }
}

impl ReviewPaper {
    /// Submits a pending review of the loaded listing. On failure nothing
    /// changes.
    pub fn review_paper(&mut self, review_url: String, proposed_reward: u64, now: i64) -> (r:
        Result<(), ErrorCodes>)
        ensures
            r == submit_check(*old(self), review_url@),
            r is Ok ==> *final(self) == submit_effect(*old(self), review_url, proposed_reward, now),
            r is Err ==> *final(self) == *old(self),
    {
        if self.access_receipt.buyer != self.reviewer || self.access_receipt.purchased_paper
            != self.research_paper.author {
            return Err(ErrorCodes::PaperNotPurchased);
        }
        if !text_within(&review_url, REVIEW_URL_MAX_LENGTH) {
            return Err(ErrorCodes::ReviewUrlEmpty);
        }
        if self.research_paper.author == self.reviewer {
            return Err(ErrorCodes::AuthorCantReviewSelf);
        }
        let reviews = match self.research_paper.reviews.checked_add(1) {
            Some(v) => v,
            None => {
                return Err(ErrorCodes::MathOverflow);
            },
        };
        let reviewed = match self.reviewer_user_account.reviewed.checked_add(1) {
            Some(v) => v,
            None => {
                return Err(ErrorCodes::MathOverflow);
            },
        };
        self.peer_review = Some(
            PeerReview {
                reviewer: self.reviewer,
                reviewed_paper: self.research_paper.author,
                review_url,
                status: ReviewStatus::Pending,
                proposed_reward,
                timestamp: now,
            },
        );
        self.research_paper.reviews = reviews;
        self.reviewer_user_account.reviewed = reviewed;
        Ok(())
    }
}

/// The records and balances the author's decision on a review reads and
/// writes.
pub struct VerifyReview {
    /// The verified caller.
    pub author: Identity,
    pub author_wallet: u64,
    pub peer_review: PeerReview,
    pub research_paper: ResearchPaper,
    pub reviewer_user_account: User,
    pub reviewer_vault: u64,
    pub admin_vault: u64,
}

/// Outcome of a decision on the loaded records: the first check that fails,
/// in the order status, authorship, and, on acceptance, wallet balance and
/// arithmetic.
pub open spec fn verify_check(ctx: VerifyReview, accept: bool) -> Result<(), ErrorCodes> {
    let reward = ctx.peer_review.proposed_reward;
    if ctx.peer_review.status != ReviewStatus::Pending {
        Err(ErrorCodes::ReviewNotPending)
    } else if ctx.author != ctx.research_paper.author {
        Err(ErrorCodes::UnauthorizedUpdate)
    } else if !accept {
        Ok(())
    } else if ctx.author_wallet < reward {
        Err(ErrorCodes::InsufficientFundsInWallet)
    } else if !fee_fits(reward) || ctx.reviewer_vault + net_of(reward as int) > u64::MAX
        || ctx.admin_vault + fee_of(reward as int) > u64::MAX
        || ctx.reviewer_user_account.earning + net_of(reward as int) > u64::MAX {
        Err(ErrorCodes::MathOverflow)
    } else {
        Ok(())
    }
}

/// The records and balances after a successful decision.
pub open spec fn verify_effect(ctx: VerifyReview, accept: bool) -> VerifyReview {
    let reward = ctx.peer_review.proposed_reward;
    let fee = fee_of(reward as int);
    let net = net_of(reward as int);
    if accept {
        VerifyReview {
            author_wallet: (ctx.author_wallet - reward) as u64,
            reviewer_vault: (ctx.reviewer_vault + net) as u64,
            admin_vault: (ctx.admin_vault + fee) as u64,
            peer_review: PeerReview { status: ReviewStatus::Accepted, ..ctx.peer_review },
            reviewer_user_account: User {
                earning: (ctx.reviewer_user_account.earning + net) as u64,
                ..ctx.reviewer_user_account
            },
            ..ctx
        }
    } else {
        VerifyReview {
            peer_review: PeerReview { status: ReviewStatus::Rejected, ..ctx.peer_review },
            ..ctx
        }
    }
}

impl VerifyReview {
    /// The author accepts the review (paying the proposed reward, split
    /// between the referee's vault and the platform vault) or rejects it
    /// (no funds move). On failure nothing changes.
    pub fn verify_review(&mut self, accept_proposed_review: bool) -> (r: Result<(), ErrorCodes>)
        ensures
            r == verify_check(*old(self), accept_proposed_review),
            r is Ok ==> *final(self) == verify_effect(*old(self), accept_proposed_review),
            r is Err ==> *final(self) == *old(self),
    {
        if self.peer_review.status != ReviewStatus::Pending {
            return Err(ErrorCodes::ReviewNotPending);
        }
        if self.author != self.research_paper.author {
            return Err(ErrorCodes::UnauthorizedUpdate);
        }
        if accept_proposed_review {
            let reward = self.peer_review.proposed_reward;
            if self.author_wallet < reward {
                return Err(ErrorCodes::InsufficientFundsInWallet);
            }
            let (fee, net) = match split_payment(reward) {
                Ok(parts) => parts,
                Err(e) => {
                    return Err(e);
                },
            };
            proof {
                crate::fee::lemma_fee_split(reward);
            }
            if self.reviewer_vault.checked_add(net).is_none() || self.admin_vault.checked_add(
                fee,
            ).is_none() {
                return Err(ErrorCodes::MathOverflow);
            }
            let earning = match self.reviewer_user_account.earning.checked_add(net) {
                Some(v) => v,
                None => {
                    return Err(ErrorCodes::MathOverflow);
                },
            };
            let paid_reviewer = transfer(
                &mut self.author_wallet,
                &mut self.reviewer_vault,
                net,
                HolderKind::Wallet,
            );
            let paid_platform = transfer(
                &mut self.author_wallet,
                &mut self.admin_vault,
                fee,
                HolderKind::Wallet,
            );
            assert(paid_reviewer is Ok && paid_platform is Ok);
            self.peer_review.status = ReviewStatus::Accepted;
            self.reviewer_user_account.earning = earning;
        } else {
            self.peer_review.status = ReviewStatus::Rejected;
        }
        Ok(())
    }
}

} // verus!
