use vstd::prelude::*;

use crate::address::Address;
use crate::cpi::{CloseAccount, Cpi, CpiView, TransferChecked};
use crate::seeds::{listing_signer, listing_signer_seeds};
use crate::state::{Account, Listing, Marketplace, Mint, TokenAccount};

verus! {

/// The accounts that a delisting reads: the lister, the marketplace, the NFT's
/// mint, the lister's token account for it, the listing and its vault.
pub struct Delist {
    pub lister: Address,
    pub marketplace: Account<Marketplace>,
    pub lister_nft_mint: Mint,
    pub lister_nft_ata: Address,
    pub listing: Account<Listing>,
    pub vault: TokenAccount,
}

impl Delist {
    /// The seeds with which the listing signs for the vault.
    pub open spec fn listing_seeds(&self) -> Seq<Seq<u8>> {
        listing_signer(self.marketplace.key, self.lister_nft_mint.key, self.listing.data.bump)
    }

    /// The transfer of the whole vault back to the lister's token account.
    pub open spec fn spec_withdraw_nft(&self) -> CpiView {
        CpiView::TransferChecked {
            from: self.vault.key,
            mint: self.lister_nft_mint.key,
            to: self.lister_nft_ata,
            authority: self.listing.key,
            amount: self.vault.amount,
            decimals: self.lister_nft_mint.decimals,
            signer: Some(self.listing_seeds()),
        }
    }

    /// The closing of the vault, its lamports going to the lister.
    pub open spec fn spec_close_vault(&self) -> CpiView {
        CpiView::CloseAccount {
            account: self.vault.key,
            destination: self.lister,
            authority: self.listing.key,
            signer: Some(self.listing_seeds()),
        }
    }

    /// The calls of a delisting, in order.
    pub open spec fn spec_delist(&self) -> Seq<CpiView> {
        seq![self.spec_withdraw_nft(), self.spec_close_vault()]
    }

    /// Takes the NFT off the market: the vault's tokens go back to the lister
    /// and the vault is closed in the lister's favour.
    pub fn delist(&self) -> (requests: Vec<Cpi>)
        ensures
            requests.deep_view() == self.spec_delist(),
    {
        let mut requests: Vec<Cpi> = Vec::new();
        requests.push(self.withdraw_nft());
        requests.push(self.close_vault());
        assert(requests.deep_view() =~= self.spec_delist());
        requests
    }

    /// The transfer of the whole vault back to the lister, signed by the listing.
    pub fn withdraw_nft(&self) -> (request: Cpi)
        ensures
            request.deep_view() == self.spec_withdraw_nft(),
    {
        let seeds = listing_signer_seeds(
            &self.marketplace.key,
            &self.lister_nft_mint.key,
            self.listing.data.bump,
        );
        Cpi::TransferChecked(TransferChecked {
            from: self.vault.key,
            mint: self.lister_nft_mint.key,
            to: self.lister_nft_ata,
            authority: self.listing.key,
            amount: self.vault.amount,
            decimals: self.lister_nft_mint.decimals,
            signer_seeds: Some(seeds),
        })
    }

    /// The closing of the vault, signed by the listing, in the lister's favour.
    pub fn close_vault(&self) -> (request: Cpi)
        ensures
            request.deep_view() == self.spec_close_vault(),
    {
        let seeds = listing_signer_seeds(
            &self.marketplace.key,
            &self.lister_nft_mint.key,
            self.listing.data.bump,
        );
        Cpi::CloseAccount(CloseAccount {
            account: self.vault.key,
            destination: self.lister,
            authority: self.listing.key,
            signer_seeds: Some(seeds),
        })
    }
}

} // verus!
