use vstd::prelude::*;

use crate::address::Address;
use crate::cpi::{CloseAccount, Cpi, CpiView, Transfer, TransferChecked};
use crate::laws::cut_is_nothing_or_everything;
use crate::seeds::{listing_signer, listing_signer_seeds};
use crate::state::{Account, Listing, Marketplace, Mint, TokenAccount};

verus! {

/// The marketplace's cut of a sale at `price` lamports under a fee of `fee`:
/// the fee divided by 10 000 and rounded down, times the price.
pub open spec fn marketplace_fee(fee: u16, price: u32) -> int {
    (fee / 10000) as int * price as int
}

/// What the lister receives of a sale: the price less the marketplace's cut.
pub open spec fn lister_payout(fee: u16, price: u32) -> int {
    price - marketplace_fee(fee, price)
}

/// Whether a sale can be settled in 32-bit lamport amounts: the marketplace's
/// cut does not exceed the price.
pub open spec fn sale_settles(fee: u16, price: u32) -> bool {
    marketplace_fee(fee, price) <= price
}

/// The accounts that a purchase reads: the buyer, the lister, the marketplace
/// and its treasury, the NFT's mint, the buyer's token account for it, the
/// listing and the vault that holds the NFT.
pub struct Purchase {
    pub buyer: Address,
    pub lister: Address,
    pub marketplace: Account<Marketplace>,
    pub treasury: Address,
    pub nft_mint: Mint,
    pub buyer_nft_ata: Address,
    pub listing: Account<Listing>,
    pub vault: TokenAccount,
}

impl Purchase {
    /// The seeds with which the listing signs for the vault.
    pub open spec fn listing_seeds(&self) -> Seq<Seq<u8>> {
        listing_signer(self.marketplace.key, self.nft_mint.key, self.listing.data.bump)
    }

    /// The transfer of the whole vault to the buyer's token account.
    pub open spec fn spec_transfer_nft(&self) -> CpiView {
        CpiView::TransferChecked {
            from: self.vault.key,
            mint: self.nft_mint.key,
            to: self.buyer_nft_ata,
            authority: self.listing.key,
            amount: self.vault.amount,
            decimals: self.nft_mint.decimals,
            signer: Some(self.listing_seeds()),
        }
    }

    /// The payment of `amount` lamports from the buyer to the treasury.
    pub open spec fn spec_take_marketplace_fees(&self, amount: u64) -> CpiView {
        CpiView::Transfer { from: self.buyer, to: self.treasury, lamports: amount }
    }

    /// The payment of `amount` lamports from the buyer to the lister.
    pub open spec fn spec_pay_lister(&self, amount: u64) -> CpiView {
        CpiView::Transfer { from: self.buyer, to: self.lister, lamports: amount }
    }

    /// The closing of the vault, its lamports going to the lister.
    pub open spec fn spec_close_vault(&self) -> CpiView {
        CpiView::CloseAccount {
            account: self.vault.key,
            destination: self.lister,
            authority: self.listing.key,
            signer: Some(self.listing_seeds()),
        }
    }

    /// The calls of a purchase, in order.
    pub open spec fn spec_purchase(&self) -> Seq<CpiView> {
        let fee = self.marketplace.data.fee;
        let price = self.listing.data.price;
        seq![
            self.spec_transfer_nft(),
            self.spec_take_marketplace_fees(marketplace_fee(fee, price) as u64),
            self.spec_pay_lister(lister_payout(fee, price) as u64),
            self.spec_close_vault(),
        ]
    }

    /// Whether the sale settles, which `purchase` requires.
    pub fn can_settle(&self) -> (b: bool)
        ensures
            b == sale_settles(self.marketplace.data.fee, self.listing.data.price),
    {
        proof {
            cut_is_nothing_or_everything(self.marketplace.data.fee, self.listing.data.price);
        }
        self.marketplace.data.fee < 20_000 || self.listing.data.price == 0
    }

    /// Buys the listed NFT: the vault's tokens go to the buyer, the buyer pays
    /// the marketplace's cut to the treasury and the rest of the price to the
    /// lister, and the vault is closed in the lister's favour.
    pub fn purchase(&self) -> (requests: Vec<Cpi>)
        requires
            sale_settles(self.marketplace.data.fee, self.listing.data.price),
        ensures
            requests.deep_view() == self.spec_purchase(),
    {
        let fee_units: u32 = (self.marketplace.data.fee / 10_000) as u32;
        let price: u32 = self.listing.data.price;
        assert(fee_units * price <= price);
        let marketplace_fees: u32 = fee_units * price;
        let amount_to_pay_lister: u32 = price - marketplace_fees;
        let mut requests: Vec<Cpi> = Vec::new();
        requests.push(self.transfer_nft());
        requests.push(self.take_marketplace_fees(marketplace_fees as u64));
        requests.push(self.pay_lister(amount_to_pay_lister as u64));
        requests.push(self.close_vault());
        assert(requests.deep_view() =~= self.spec_purchase());
        requests
    }

    /// The transfer of the whole vault to the buyer, signed by the listing.
    pub fn transfer_nft(&self) -> (request: Cpi)
        ensures
            request.deep_view() == self.spec_transfer_nft(),
    {
        let seeds = listing_signer_seeds(&self.marketplace.key, &self.nft_mint.key, self.listing.data.bump);
        Cpi::TransferChecked(TransferChecked {
            from: self.vault.key,
            mint: self.nft_mint.key,
            to: self.buyer_nft_ata,
            authority: self.listing.key,
            amount: self.vault.amount,
            decimals: self.nft_mint.decimals,
            signer_seeds: Some(seeds),
        })
    }

    /// The payment of `amount` lamports from the buyer to the treasury.
    pub fn take_marketplace_fees(&self, amount: u64) -> (request: Cpi)
        ensures
            request.deep_view() == self.spec_take_marketplace_fees(amount),
    {
        Cpi::Transfer(Transfer { from: self.buyer, to: self.treasury, lamports: amount })
    }

    /// The payment of `amount` lamports from the buyer to the lister.
    pub fn pay_lister(&self, amount: u64) -> (request: Cpi)
        ensures
            request.deep_view() == self.spec_pay_lister(amount),
    {
        Cpi::Transfer(Transfer { from: self.buyer, to: self.lister, lamports: amount })
    }

    /// The closing of the vault, signed by the listing, in the lister's favour.
    pub fn close_vault(&self) -> (request: Cpi)
        ensures
            request.deep_view() == self.spec_close_vault(),
    {
        let seeds = listing_signer_seeds(&self.marketplace.key, &self.nft_mint.key, self.listing.data.bump);
        Cpi::CloseAccount(CloseAccount {
            account: self.vault.key,
            destination: self.lister,
            authority: self.listing.key,
            signer_seeds: Some(seeds),
        })
    }
}

} // verus!
