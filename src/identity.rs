//! Registration of participants.
use vstd::prelude::*;

use crate::constants::{USER_INIT_STAT, USER_NAME_MAX_LENGTH};
use crate::errors::ErrorCodes;
use crate::states::{text_ok, text_within, Identity, User};

verus! {

/// The record a registration creates.
pub struct InitUser {
    /// The verified caller.
    pub owner: Identity,
    /// Empty until the registration creates the record.
    pub user_account: Option<User>,
}

/// A freshly registered participant: every counter and the earnings at zero.
pub open spec fn new_user(owner: Identity, name: String, now: i64) -> User {
    User {
        owner,
        name,
        published: 0,
        purchased: 0,
        sold: 0,
        reviewed: 0,
        earning: 0,
        timestamp: now,
    }
}

impl InitUser {
    /// Creates the caller's identity record; fails with `UserNameInvalid`
    /// exactly when the name is empty or over its length bound.
    pub fn initiate_user(&mut self, name: String, now: i64) -> (r: Result<(), ErrorCodes>)
        ensures
            text_ok(name@, USER_NAME_MAX_LENGTH) ==> r is Ok && final(self).owner == old(
                self,
            ).owner && final(self).user_account == Some(new_user(old(self).owner, name, now)),
            !text_ok(name@, USER_NAME_MAX_LENGTH) ==> r == Err::<(), ErrorCodes>(
                ErrorCodes::UserNameInvalid,
            ) && *final(self) == *old(self),
    {
        if !text_within(&name, USER_NAME_MAX_LENGTH) {
            return Err(ErrorCodes::UserNameInvalid);
        }
        self.user_account = Some(
            User {
                owner: self.owner,
                name,
                published: USER_INIT_STAT,
                purchased: USER_INIT_STAT,
                sold: USER_INIT_STAT,
                reviewed: USER_INIT_STAT,
                earning: 0,
                timestamp: now,
            },
        );
        Ok(())
    }
}

} // verus!
