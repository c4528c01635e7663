use vstd::prelude::*;

use crate::address::Address;
use crate::cpi::{Cpi, CpiView, MintTo};
use crate::seeds::{marketplace_signer, marketplace_signer_seeds};
use crate::state::{Account, Marketplace, UserAccount};

verus! {

/// The accounts that a claim reads: the user, the user's token account for the
/// rewards, the user's points, the marketplace and its rewards mint.
pub struct Claim {
    pub user: Address,
    pub user_reward_ata: Address,
    pub user_account: Account<UserAccount>,
    pub marketplace: Account<Marketplace>,
    pub rewards: Address,
}

impl Claim {
    /// The minting of one reward token unit per point into the user's token
    /// account, signed by the marketplace.
    pub open spec fn spec_mint_rewards(&self) -> CpiView {
        CpiView::MintTo {
            mint: self.rewards,
            to: self.user_reward_ata,
            authority: self.marketplace.key,
            amount: self.user_account.data.points as u64,
            signer: Some(marketplace_signer(self.marketplace.data.name@, self.marketplace.data.bump)),
        }
    }

    /// The accounts after a claim: the user's points at zero, all else as it was.
    pub open spec fn after_claim(&self) -> Claim {
        Claim {
            user_account: Account {
                key: self.user_account.key,
                data: UserAccount { points: 0, ..self.user_account.data },
            },
            ..*self
        }
    }

    /// Pays out the user's points as reward tokens and sets the points to zero.
    pub fn claim_rewards(&mut self) -> (request: Cpi)
        ensures
            request.deep_view() == old(self).spec_mint_rewards(),
            *final(self) == old(self).after_claim(),
    {
        let seeds = marketplace_signer_seeds(&self.marketplace.data);
        let request = Cpi::MintTo(MintTo {
            mint: self.rewards,
            to: self.user_reward_ata,
            authority: self.marketplace.key,
            amount: self.user_account.data.points as u64,
            signer_seeds: Some(seeds),
        });
        self.user_account.data.points = 0;
        request
    }
}

} // verus!
