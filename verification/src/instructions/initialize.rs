use vstd::prelude::*;
use vstd::utf8::encode_utf8;

use crate::address::Address;
use crate::state::{Account, Marketplace};

verus! {

/// The most bytes a marketplace name may have: the name is a seed of the
/// marketplace's address, and a seed holds at most 32 bytes.
pub const MAX_NAME_LEN: usize = 32;

/// The bump seeds found for the marketplace's new accounts.
#[derive(Debug, Clone, Copy, PartialEq, Eq)]
pub struct InitializeBumps {
    pub marketplace: u8,
    pub rewards: u8,
    pub treasury: u8,
}

/// The accounts that creating a marketplace reads: its administrator, the new
/// marketplace, its treasury and its rewards mint.
pub struct Initialize {
    pub admin: Address,
    pub marketplace: Account<Marketplace>,
    pub treasury: Address,
    pub rewards: Address,
}

impl Initialize {
    /// The marketplace that `initialize` writes.
    pub open spec fn new_marketplace(
        &self,
        name: String,
        fee: u16,
        points_per_purchase: u16,
        bumps: InitializeBumps,
    ) -> Marketplace {
        Marketplace {
            bump: bumps.marketplace,
            rewards_bump: bumps.rewards,
            treasury_bump: bumps.treasury,
            points_per_purchase,
            fee,
            admin: self.admin,
            name,
        }
    }

    /// Writes the new marketplace: its name, its fee in basis points, the
    /// points a purchase is worth, the signer as its administrator, and the
    /// bumps of its addresses.
    pub fn initialize(
        &mut self,
        name: String,
        fee: u16,
        points_per_purchase: u16,
        bumps: &InitializeBumps,
    ) -> (r: Result<(), crate::error::MarketplaceError>)
        requires
            encode_utf8(name@).len() <= MAX_NAME_LEN,
        ensures
            r is Ok,
            *final(self) == (Initialize {
                marketplace: Account {
                    key: old(self).marketplace.key,
                    data: old(self).new_marketplace(name, fee, points_per_purchase, *bumps),
                },
                ..*old(self)
            }),
    {
        self.marketplace.data = Marketplace {
            bump: bumps.marketplace,
            rewards_bump: bumps.rewards,
            treasury_bump: bumps.treasury,
            points_per_purchase,
            fee,
            admin: self.admin,
            name,
        };
        Ok(())
    }
}

} // verus!
