use vstd::prelude::*;

verus! {

/// Every way an operation of the marketplace can fail. A failed operation
/// leaves every record and every balance as it was.
#[derive(Debug, Clone, Copy, PartialEq, Eq, Structural)]
pub enum ErrorCodes {
    UserNameInvalid,
    PaperTitleInvalid,
    PaperDescriptionInvalid,
    PaperUrlEmptyOrTooLong,
    EncryptionKeyEmptyOrTooLong,
    ReviewUrlEmpty,
    ResearchPriceInvalid,
    MathOverflow,
    InsufficientFundsInVault,
    InsufficientUserEarnings,
    InsufficientFundsInWallet,
    UnauthorizedAdmin,
    UnauthorizedUpdate,
    AuthorCantBuySelf,
    AuthorCantReviewSelf,
    AlreadyPurchased,
    AlreadyReviewed,
    ReviewNotPending,
    PaperNotPurchased,
    /// An identity record already exists for this participant.
    UserAlreadyRegistered,
    /// The author already has a listing.
    PaperAlreadyPublished,
    /// No identity record exists for a participant the operation needs.
    UserNotRegistered,
    /// No listing exists under the given author.
    PaperNotFound,
    /// No review exists under the given (referee, listing) key.
    ReviewNotFound,
}

impl ErrorCodes {
    /// A human-readable description of the error.
    pub fn message(&self) -> &'static str {
        match self {
            ErrorCodes::UserNameInvalid => "User name cannot be empty or too long",
            ErrorCodes::PaperTitleInvalid => "Research Paper Title cannot be empty or too long",
            ErrorCodes::PaperDescriptionInvalid => "Research Paper Description cannot be empty or too long",
            ErrorCodes::PaperUrlEmptyOrTooLong => "Research Paper URL/CID cannot be empty or too long",
            ErrorCodes::EncryptionKeyEmptyOrTooLong => "Protocol Encryption Key cannot be empty or too long",
            ErrorCodes::ReviewUrlEmpty => "Review Link/CID cannot be empty or too long",
            ErrorCodes::ResearchPriceInvalid => "Price must be greater than zero",
            ErrorCodes::MathOverflow => "Mathematical Operation Overflow",
            ErrorCodes::InsufficientFundsInVault => "The vault does not have enough funds to fulfill this request",
            ErrorCodes::InsufficientUserEarnings => "User does not have enough accrued earnings for this withdrawal",
            ErrorCodes::InsufficientFundsInWallet => "The payer does not have enough funds in their wallet",
            ErrorCodes::UnauthorizedAdmin => "You are not authorized to perform this action (Admin Only)",
            ErrorCodes::UnauthorizedUpdate => "Only the original author can update this paper",
            ErrorCodes::AuthorCantBuySelf => "You cannot buy your own research paper",
            ErrorCodes::AuthorCantReviewSelf => "You cannot review your own research paper",
            ErrorCodes::AlreadyPurchased => "You have already purchased this paper",
            ErrorCodes::AlreadyReviewed => "You have already submitted a review for this paper",
            ErrorCodes::ReviewNotPending => "This review has already been processed (Accepted/Rejected)",
            ErrorCodes::PaperNotPurchased => "You must purchase the paper before reviewing it",
            ErrorCodes::UserAlreadyRegistered => "This participant is already registered",
            ErrorCodes::PaperAlreadyPublished => "This author already has a published paper",
            ErrorCodes::UserNotRegistered => "The participant is not registered",
            ErrorCodes::PaperNotFound => "No research paper is published under this author",
            ErrorCodes::ReviewNotFound => "No such peer review exists",
        }
    }
}

} // verus!
