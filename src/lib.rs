//! Settlement and accounting core of a peer-to-peer research-paper marketplace.
//!
//! Identities register, authors publish one listing each, buyers purchase access
//! (the price is split between the author's vault and the platform vault),
//! purchasers submit peer reviews, and authors accept or reject them.
pub mod access;
pub mod catalog;
pub mod constants;
pub mod errors;
pub mod fee;
pub mod identity;
pub mod ledger;
pub mod marketplace;
pub mod review;
pub mod states;
pub mod treasury;
pub mod withdraw;

pub use access::PurchaseAccess;
pub use catalog::{InitResearch, UpdateResearch};
pub use errors::ErrorCodes;
pub use identity::InitUser;
pub use ledger::Ledger;
pub use marketplace::{
    admin_withdraw, init_research, init_user, purchase_access, review_paper, update_research,
    user_withdraw, verify_review, Marketplace,
};
pub use review::{ReviewPaper, VerifyReview};
pub use states::{AccessReceipt, Identity, PeerReview, ResearchPaper, ReviewStatus, User};
pub use withdraw::{AdminWithdraw, UserWithdraw};
