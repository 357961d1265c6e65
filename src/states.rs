//! The persisted records of the marketplace.
use vstd::prelude::*;

use crate::constants::{
    ENCRYPTION_KEY_MAX_LENGTH, PAPER_DESCRIPTION_MAX_LENGTH, PAPER_TITLE_MAX_LENGTH,
    PAPER_URL_MAX_LENGTH,
};
use crate::errors::ErrorCodes;

verus! {

/// A participant, as handed in by the host: the verified caller of an
/// operation, or the owner of a record.
pub type Identity = u64;

/// Length of a text in UTF-8 bytes, as `str::len` reports it.
pub open spec fn byte_len(s: Seq<char>) -> usize {
    vstd::utf8::encode_utf8(s).len() as usize
}

/// A stored text is non-empty and at most `max` bytes long.
pub open spec fn text_ok(s: Seq<char>, max: usize) -> bool {
    0 < byte_len(s) <= max
}

/// Checks a text against its length bound.
pub fn text_within(s: &String, max: usize) -> (r: bool)
    ensures
        r == text_ok(s@, max),
{
    let n = s.as_str().len();
    0 < n && n <= max
}

/// A registered participant.
pub struct User {
    pub owner: Identity,
    pub name: String,
    pub published: u16,
    pub purchased: u16,
    pub sold: u16,
    pub reviewed: u16,
    pub earning: u64,
    pub timestamp: i64,
}

impl Clone for User {
    fn clone(&self) -> (r: Self)
        ensures
            r == *self,
    {
        User {
            owner: self.owner,
            name: self.name.clone(),
            published: self.published,
            purchased: self.purchased,
            sold: self.sold,
            reviewed: self.reviewed,
            earning: self.earning,
            timestamp: self.timestamp,
        }
    }
}

/// A research paper offered for sale, keyed by its author.
pub struct ResearchPaper {
    pub author: Identity,
    pub title: String,
    pub description: String,
    pub price: u64,
    pub sales: u32,
    pub reviews: u32,
    pub encrypted_url: String,
    pub encryption_key: String,
    pub timestamp: i64,
}

impl Clone for ResearchPaper {
    fn clone(&self) -> (r: Self)
        ensures
            r == *self,
    {
        ResearchPaper {
            author: self.author,
            title: self.title.clone(),
            description: self.description.clone(),
            price: self.price,
            sales: self.sales,
            reviews: self.reviews,
            encrypted_url: self.encrypted_url.clone(),
            encryption_key: self.encryption_key.clone(),
            timestamp: self.timestamp,
        }
    }
}

/// The first listing field that fails validation, in the order title,
/// description, content pointer, key material, price.
pub open spec fn listing_error(
    title: Seq<char>,
    description: Seq<char>,
    price: u64,
    encrypted_url: Seq<char>,
    encryption_key: Seq<char>,
) -> Option<ErrorCodes> {
    if !text_ok(title, PAPER_TITLE_MAX_LENGTH) {
        Some(ErrorCodes::PaperTitleInvalid)
    } else if !text_ok(description, PAPER_DESCRIPTION_MAX_LENGTH) {
        Some(ErrorCodes::PaperDescriptionInvalid)
    } else if !text_ok(encrypted_url, PAPER_URL_MAX_LENGTH) {
        Some(ErrorCodes::PaperUrlEmptyOrTooLong)
    } else if !text_ok(encryption_key, ENCRYPTION_KEY_MAX_LENGTH) {
        Some(ErrorCodes::EncryptionKeyEmptyOrTooLong)
    } else if price == 0 {
        Some(ErrorCodes::ResearchPriceInvalid)
    } else {
        None
    }
}

/// Validates the mutable fields of a listing.
pub fn validate_listing(
    title: &String,
    description: &String,
    price: u64,
    encrypted_url: &String,
    encryption_key: &String,
) -> (r: Result<(), ErrorCodes>)
    ensures
        match listing_error(title@, description@, price, encrypted_url@, encryption_key@) {
            Some(e) => r == Err::<(), ErrorCodes>(e),
            None => r is Ok,
        },
{
    if !text_within(title, PAPER_TITLE_MAX_LENGTH) {
        return Err(ErrorCodes::PaperTitleInvalid);
    }
    if !text_within(description, PAPER_DESCRIPTION_MAX_LENGTH) {
        return Err(ErrorCodes::PaperDescriptionInvalid);
    }
    if !text_within(encrypted_url, PAPER_URL_MAX_LENGTH) {
        return Err(ErrorCodes::PaperUrlEmptyOrTooLong);
    }
    if !text_within(encryption_key, ENCRYPTION_KEY_MAX_LENGTH) {
        return Err(ErrorCodes::EncryptionKeyEmptyOrTooLong);
    }
    if price == 0 {
        return Err(ErrorCodes::ResearchPriceInvalid);
    }
    Ok(())
}

/// Proof that `buyer` purchased the listing of author `purchased_paper`.
#[derive(Debug, Clone, Copy, PartialEq, Eq, Structural)]
pub struct AccessReceipt {
    pub buyer: Identity,
    pub purchased_paper: Identity,
    pub timestamp: i64,
}

/// Where a peer review stands: pending until the author decides, once.
#[derive(Debug, Clone, Copy, PartialEq, Eq, Structural)]
pub enum ReviewStatus {
    Pending,
    Accepted,
    Rejected,
}

/// A review of the listing of author `reviewed_paper`.
pub struct PeerReview {
    pub reviewer: Identity,
    pub reviewed_paper: Identity,
    pub review_url: String,
    pub status: ReviewStatus,
    pub proposed_reward: u64,
    pub timestamp: i64,
}

impl Clone for PeerReview {
    fn clone(&self) -> (r: Self)
        ensures
            r == *self,
    {
        PeerReview {
            reviewer: self.reviewer,
            reviewed_paper: self.reviewed_paper,
            review_url: self.review_url.clone(),
            status: self.status,
            proposed_reward: self.proposed_reward,
            timestamp: self.timestamp,
        }
    }
}

} // verus!
