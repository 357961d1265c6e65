use vstd::prelude::*;

verus! {

/// Percentage of every settled payment kept by the platform vault.
pub const GLOBAL_FEE_PERCENTAGE: u64 = 5;

/// Initial value of a listing's counters.
pub const PAPER_INIT_STAT: u32 = 0;

/// Initial value of an identity's counters.
pub const USER_INIT_STAT: u16 = 0;

/// Length bounds, in UTF-8 bytes, of the stored text fields.
pub const USER_NAME_MAX_LENGTH: usize = 50;

pub const PAPER_TITLE_MAX_LENGTH: usize = 100;

pub const PAPER_DESCRIPTION_MAX_LENGTH: usize = 400;

pub const PAPER_URL_MAX_LENGTH: usize = 200;

pub const ENCRYPTION_KEY_MAX_LENGTH: usize = 300;

pub const REVIEW_URL_MAX_LENGTH: usize = 200;

} // verus!
