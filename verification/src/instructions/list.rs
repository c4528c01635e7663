use vstd::prelude::*;

use crate::address::{same_address, Address};
use crate::cpi::{Cpi, CpiView, TransferChecked};
use crate::error::MarketplaceError;
use crate::state::{Account, Listing, Marketplace, Mint, TokenAccount};

verus! {

/// The collection that an NFT's metadata names, and whether its membership
/// has been verified.
#[derive(Debug, Clone, Copy, PartialEq, Eq)]
pub struct Collection {
    pub verified: bool,
    pub key: Address,
}

/// What a listing reads of an NFT's metadata.
#[derive(Debug, Clone, Copy, PartialEq, Eq)]
pub struct Metadata {
    pub collection: Option<Collection>,
}

/// The bump seed of the listing's address, found when it is created.
#[derive(Debug, Clone, Copy, PartialEq, Eq)]
pub struct ListBumps {
    pub listing: u8,
}

/// What checking the NFT's collection gives: it must name `collection_mint`,
/// and its membership must be verified.
pub open spec fn collection_check(collection: Collection, collection_mint: Address) -> Result<
    (),
    MarketplaceError,
> {
    if collection.key != collection_mint {
        Err(MarketplaceError::CollectionMismatch)
    } else if !collection.verified {
        Err(MarketplaceError::CollectionNotVerified)
    } else {
        Ok(())
    }
}

/// The accounts that a listing reads: the lister, the marketplace, the NFT's
/// mint and the lister's token account for it, the new listing and its vault,
/// the collection's mint and the NFT's metadata.
pub struct List {
    pub lister: Address,
    pub marketplace: Account<Marketplace>,
    pub lister_nft_mint: Mint,
    pub lister_nft_ata: TokenAccount,
    pub listing: Account<Listing>,
    pub vault: Address,
    pub collection_mint: Mint,
    pub metadata: Metadata,
}

impl List {
    /// The listing that `initialize_listing(price, bump)` writes.
    pub open spec fn new_listing(&self, price: u32, bump: u8) -> Listing {
        Listing { bump, price, mint: self.lister_nft_mint.key, maker: self.lister }
    }

    /// The transfer of all the lister's tokens of the NFT into the vault,
    /// approved by the lister.
    pub open spec fn spec_deposit_nft(&self) -> CpiView {
        CpiView::TransferChecked {
            from: self.lister_nft_ata.key,
            mint: self.lister_nft_mint.key,
            to: self.vault,
            authority: self.lister,
            amount: self.lister_nft_ata.amount,
            decimals: self.lister_nft_mint.decimals,
            signer: None,
        }
    }

    /// Checks that the NFT belongs, verified, to the given collection.
    pub fn check_collection(&self) -> (r: Result<(), MarketplaceError>)
        requires
            self.metadata.collection is Some,
        ensures
            r == collection_check(self.metadata.collection->0, self.collection_mint.key),
    {
        let collection = self.metadata.collection.unwrap();
        if !same_address(&collection.key, &self.collection_mint.key) {
            Err(MarketplaceError::CollectionMismatch)
        } else if !collection.verified {
            Err(MarketplaceError::CollectionNotVerified)
        } else {
            Ok(())
        }
    }

    /// Puts the NFT on the market at `price` lamports: once its collection is
    /// checked, the listing records the price, the mint and the lister, and all
    /// the lister's tokens of the NFT go into the vault.
    pub fn list(&mut self, price: u32, bumps: &ListBumps) -> (r: Result<Vec<Cpi>, MarketplaceError>)
        requires
            old(self).metadata.collection is Some,
        ensures
            match collection_check(old(self).metadata.collection->0, old(self).collection_mint.key) {
                Err(e) => r == Err::<Vec<Cpi>, MarketplaceError>(e) && *final(self) == *old(self),
                Ok(_) => r is Ok && r->Ok_0.deep_view() == seq![old(self).spec_deposit_nft()]
                    && *final(self) == (List {
                        listing: Account {
                            key: old(self).listing.key,
                            data: old(self).new_listing(price, bumps.listing),
                        },
                        ..*old(self)
                    }),
            },
    {
        match self.check_collection() {
            Err(e) => return Err(e),
            Ok(()) => {},
        }
        let _ = self.initialize_listing(price, bumps.listing);
        let mut requests: Vec<Cpi> = Vec::new();
        requests.push(self.deposit_nft());
        assert(requests.deep_view() =~= seq![old(self).spec_deposit_nft()]);
        Ok(requests)
    }

    /// Writes the listing: the price, the NFT's mint, the lister, and `bump`.
    pub fn initialize_listing(&mut self, price: u32, bump: u8) -> (r: Result<(), MarketplaceError>)
        ensures
            r is Ok,
            *final(self) == (List {
                listing: Account { key: old(self).listing.key, data: old(self).new_listing(price, bump) },
                ..*old(self)
            }),
    {
        self.listing.data = Listing {
            bump,
            price,
            mint: self.lister_nft_mint.key,
            maker: self.lister,
        };
        Ok(())
    }

    /// The transfer of all the lister's tokens of the NFT into the vault.
    pub fn deposit_nft(&self) -> (request: Cpi)
        ensures
            request.deep_view() == self.spec_deposit_nft(),
    {
        Cpi::TransferChecked(TransferChecked {
            from: self.lister_nft_ata.key,
            mint: self.lister_nft_mint.key,
            to: self.vault,
            authority: self.lister,
            amount: self.lister_nft_ata.amount,
            decimals: self.lister_nft_mint.decimals,
            signer_seeds: None,
        })
    }
}

} // verus!
