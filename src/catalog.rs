//! Listings: publication and updates by their author.
use vstd::prelude::*;

use crate::constants::PAPER_INIT_STAT;
use crate::errors::ErrorCodes;
use crate::states::{listing_error, validate_listing, Identity, ResearchPaper, User};

verus! {

/// The records a publication reads and writes.
pub struct InitResearch {
    /// The verified caller.
    pub author: Identity,
    pub user_account: User,
    /// Empty until the publication creates the listing.
    pub research_paper: Option<ResearchPaper>,
}

/// A freshly published listing: no sales, no reviews.
pub open spec fn new_paper(
    author: Identity,
    title: String,
    description: String,
    price: u64,
    encrypted_url: String,
    encryption_key: String,
    now: i64,
) -> ResearchPaper {
    ResearchPaper {
        author,
        title,
        description,
        price,
        sales: 0,
        reviews: 0,
        encrypted_url,
        encryption_key,
        timestamp: now,
    }
}

/// Outcome of a publication: the first invalid field, else an overflow of
/// the author's `published` counter.
pub open spec fn publish_check(
    ctx: InitResearch,
    title: Seq<char>,
    description: Seq<char>,
    price: u64,
    encrypted_url: Seq<char>,
    encryption_key: Seq<char>,
) -> Result<(), ErrorCodes> {
    match listing_error(title, description, price, encrypted_url, encryption_key) {
        Some(e) => Err(e),
        None => if ctx.user_account.published + 1 > u16::MAX {
            Err(ErrorCodes::MathOverflow)
        } else {
            Ok(())
        },
    }
}

impl InitResearch {
    /// Publishes the caller's listing and counts it on the author's record.
    /// On failure nothing changes.
    pub fn initiate_research(
        &mut self,
        title: String,
        description: String,
        price: u64,
        encrypted_url: String,
        encryption_key: String,
        now: i64,
    ) -> (r: Result<(), ErrorCodes>)
        ensures
            r == publish_check(
                *old(self),
                title@,
                description@,
                price,
                encrypted_url@,
                encryption_key@,
            ),
            r is Ok ==> *final(self) == (InitResearch {
                user_account: User {
                    published: (old(self).user_account.published + 1) as u16,
                    ..old(self).user_account
                },
                research_paper: Some(
                    new_paper(
                        old(self).author,
                        title,
                        description,
                        price,
                        encrypted_url,
                        encryption_key,
                        now,
                    ),
                ),
                ..*old(self)
            }),
            r is Err ==> *final(self) == *old(self),
    {
        match validate_listing(&title, &description, price, &encrypted_url, &encryption_key) {
            Ok(()) => {},
            Err(e) => {
                return Err(e);
            },
        }
        let published = match self.user_account.published.checked_add(1) {
            Some(v) => v,
            None => {
                return Err(ErrorCodes::MathOverflow);
            },
        };
        self.research_paper = Some(
            ResearchPaper {
                author: self.author,
                title,
                description,
                price,
                sales: PAPER_INIT_STAT,
                reviews: PAPER_INIT_STAT,
                encrypted_url,
                encryption_key,
                timestamp: now,
            },
        );
        self.user_account.published = published;
        Ok(())
    }
}

/// The listing an update rewrites.
pub struct UpdateResearch {
    /// The verified caller.
    pub author: Identity,
    pub research_paper: ResearchPaper,
}

/// Outcome of an update: only the listing's author may update it, and the
/// fields are validated as on publication.
pub open spec fn update_check(
    ctx: UpdateResearch,
    title: Seq<char>,
    description: Seq<char>,
    price: u64,
    encrypted_url: Seq<char>,
    encryption_key: Seq<char>,
) -> Result<(), ErrorCodes> {
    if ctx.author != ctx.research_paper.author {
        Err(ErrorCodes::UnauthorizedUpdate)
    } else {
        match listing_error(title, description, price, encrypted_url, encryption_key) {
            Some(e) => Err(e),
            None => Ok(()),
        }
    }
}

impl UpdateResearch {
    /// Replaces the listing's title, description, price and content fields;
    /// sales, reviews and timestamp stay. On failure nothing changes.
    pub fn update_research(
        &mut self,
        title: String,
        description: String,
        price: u64,
        encrypted_url: String,
        encryption_key: String,
    ) -> (r: Result<(), ErrorCodes>)
        ensures
            r == update_check(
                *old(self),
                title@,
                description@,
                price,
                encrypted_url@,
                encryption_key@,
            ),
            r is Ok ==> *final(self) == (UpdateResearch {
                research_paper: ResearchPaper {
                    title,
                    description,
                    price,
                    encrypted_url,
                    encryption_key,
                    ..old(self).research_paper
                },
                ..*old(self)
            }),
            r is Err ==> *final(self) == *old(self),
    {
        if self.author != self.research_paper.author {
            return Err(ErrorCodes::UnauthorizedUpdate);
        }
        match validate_listing(&title, &description, price, &encrypted_url, &encryption_key) {
            Ok(()) => {},
            Err(e) => {
                return Err(e);
            },
        }
        self.research_paper.title = title;
        self.research_paper.description = description;
        self.research_paper.price = price;
        self.research_paper.encrypted_url = encrypted_url;
        self.research_paper.encryption_key = encryption_key;
        Ok(())
    }
}

} // verus!
