use vstd::prelude::*;

use crate::address::Address;
use crate::state::{Account, UserAccount};

verus! {

/// The bump seed found for the user's new points account.
#[derive(Debug, Clone, Copy, PartialEq, Eq)]
pub struct InitializeUserBumps {
    pub user_account: u8,
}

/// The accounts that registering a user reads: the user and the new points account.
pub struct InitializeUser {
    pub user: Address,
    pub user_account: Account<UserAccount>,
}

impl InitializeUser {
    /// Writes the user's points account: no points yet, and its bump.
    pub fn initialize_user(&mut self, bumps: &InitializeUserBumps) -> (r: Result<
        (),
        crate::error::MarketplaceError,
    >)
        ensures
            r is Ok,
            *final(self) == (InitializeUser {
                user_account: Account {
                    key: old(self).user_account.key,
                    data: UserAccount { bump: bumps.user_account, points: 0 },
                },
                ..*old(self)
            }),
    {
        self.user_account.data = UserAccount { bump: bumps.user_account, points: 0 };
        Ok(())
    }
}

} // verus!
