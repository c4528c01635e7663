use vstd::prelude::*;

use vstd::utf8::encode_utf8;

use crate::address::Address;
use crate::cpi::{CloseAccount, Cpi, CpiView, MintTo, Transfer, TransferChecked};
use crate::error::MarketplaceError;
use crate::instructions::claim::Claim;
use crate::instructions::delist::Delist;
use crate::instructions::initialize::{Initialize, InitializeBumps};
use crate::instructions::initialize_user::InitializeUserBumps;
use crate::instructions::list::{collection_check, Collection, List, ListBumps};
use crate::instructions::purchase::{lister_payout, marketplace_fee, sale_settles, Purchase};
use crate::ledger::{run, Ledger};
use crate::seeds::{listing_signer, marketplace_signer};
use crate::state::{Marketplace, UserAccount};

verus! {

/// The marketplace's cut of a sale is the fee in whole ten-thousands times the
/// price: under a fee below 10 000 it takes nothing and the lister receives
/// the whole price; under a fee from 10 000 up to 20 000 it takes the whole
/// price; a sale settles exactly when the fee is below 20 000 or the price is
/// zero, and then the cut is either nothing or the whole price.
pub proof fn cut_is_nothing_or_everything(fee: u16, price: u32)
    ensures
        fee < 10000 ==> marketplace_fee(fee, price) == 0 && lister_payout(fee, price) == price,
        10000 <= fee < 20000 ==> marketplace_fee(fee, price) == price && lister_payout(fee, price)
            == 0,
        sale_settles(fee, price) <==> (fee < 20000 || price == 0),
        sale_settles(fee, price) ==> marketplace_fee(fee, price) == 0 || marketplace_fee(fee, price)
            == price,
{
    let q: int = (fee / 10000) as int;
    assert(fee < 10000 ==> q == 0) by (nonlinear_arith)
        requires
            q == (fee / 10000) as int,
    ;
    assert(10000 <= fee < 20000 ==> q == 1) by (nonlinear_arith)
        requires
            q == (fee / 10000) as int,
    ;
    assert(fee >= 20000 ==> q >= 2) by (nonlinear_arith)
        requires
            q == (fee / 10000) as int,
    ;
    if fee >= 20000 && price > 0 {
        assert(q * price >= 2 * price) by (nonlinear_arith)
            requires
                q >= 2,
                price > 0,
        ;
    }
}

/// A purchase settles the sale: where the buyer can pay the price, the buyer
/// pays exactly the price, the treasury receives the marketplace's cut, the
/// lister receives the rest and the vault's lamports, the buyer's token
/// account receives the whole vault, and the vault is closed.
pub proof fn purchase_settles_the_sale(p: Purchase, ledger: Ledger)
    requires
        sale_settles(p.marketplace.data.fee, p.listing.data.price),
        p.buyer != p.lister,
        p.buyer != p.treasury,
        p.lister != p.treasury,
        p.vault.key != p.buyer,
        p.vault.key != p.lister,
        p.vault.key != p.treasury,
        p.vault.key != p.buyer_nft_ata,
        ledger.lamports.contains_key(p.buyer),
        ledger.lamports.contains_key(p.lister),
        ledger.lamports.contains_key(p.treasury),
        ledger.lamports.contains_key(p.vault.key),
        ledger.tokens.contains_key(p.vault.key),
        ledger.tokens.contains_key(p.buyer_nft_ata),
        ledger.tokens[p.vault.key] == p.vault.amount,
        ledger.lamports[p.buyer] >= p.listing.data.price,
    ensures
        run(ledger, p.spec_purchase()) is Some,
        ({
            let after = run(ledger, p.spec_purchase())->0;
            let fee = p.marketplace.data.fee;
            let price = p.listing.data.price;
            &&& after.lamports[p.buyer] == ledger.lamports[p.buyer] - price
            &&& after.lamports[p.treasury] == ledger.lamports[p.treasury] + marketplace_fee(fee, price)
            &&& after.lamports[p.lister] == ledger.lamports[p.lister] + lister_payout(fee, price)
                + ledger.lamports[p.vault.key]
            &&& after.tokens[p.buyer_nft_ata] == ledger.tokens[p.buyer_nft_ata] + p.vault.amount
            &&& !after.tokens.contains_key(p.vault.key)
            &&& !after.lamports.contains_key(p.vault.key)
        }),
{
    cut_is_nothing_or_everything(p.marketplace.data.fee, p.listing.data.price);
    reveal_with_fuel(run, 5);
    let calls = p.spec_purchase();
    assert(calls.drop_first().drop_first().drop_first().drop_first() =~= Seq::empty());
}

/// A purchase pays the rest of the price, and the vault's lamports, to the
/// account it names as the lister; where that account is the one that made
/// the listing, the maker is paid.
pub proof fn purchase_pays_the_listing_maker(p: Purchase)
    requires
        p.lister == p.listing.data.maker,
    ensures
        p.spec_purchase()[2] == (CpiView::Transfer {
            from: p.buyer,
            to: p.listing.data.maker,
            lamports: lister_payout(p.marketplace.data.fee, p.listing.data.price) as u64,
        }),
        p.spec_purchase()[3] matches CpiView::CloseAccount { destination, .. } && destination
            == p.listing.data.maker,
{
}

/// Listing and then delisting gives the NFT back: `list` moves all the
/// lister's tokens of the NFT into the vault, and a delisting of that listing
/// moves them all back to the same token account, signed with the listing's
/// seeds, and closes the vault in the lister's favour.
pub proof fn delist_returns_what_list_deposited(
    lst: List,
    price: u32,
    bumps: ListBumps,
    d: Delist,
    ledger: Ledger,
)
    requires
        d.lister == lst.lister,
        d.marketplace.key == lst.marketplace.key,
        d.lister_nft_mint == lst.lister_nft_mint,
        d.lister_nft_ata == lst.lister_nft_ata.key,
        d.listing.key == lst.listing.key,
        d.listing.data == lst.new_listing(price, bumps.listing),
        d.vault.key == lst.vault,
        d.vault.amount == lst.lister_nft_ata.amount,
        lst.vault != lst.lister_nft_ata.key,
        lst.vault != lst.lister,
        ledger.tokens.contains_key(lst.lister_nft_ata.key),
        ledger.tokens.contains_key(lst.vault),
        ledger.tokens[lst.lister_nft_ata.key] == lst.lister_nft_ata.amount,
        ledger.tokens[lst.vault] == 0,
        ledger.lamports.contains_key(lst.vault),
        ledger.lamports.contains_key(lst.lister),
    ensures
        d.listing_seeds() == listing_signer(
            lst.marketplace.key,
            d.listing.data.mint,
            d.listing.data.bump,
        ),
        run(ledger, seq![lst.spec_deposit_nft()]) is Some,
        ({
            let listed = run(ledger, seq![lst.spec_deposit_nft()])->0;
            &&& listed.tokens[lst.vault] == lst.lister_nft_ata.amount
            &&& listed.tokens[lst.lister_nft_ata.key] == 0
            &&& run(listed, d.spec_delist()) is Some
            &&& run(listed, d.spec_delist())->0.tokens[lst.lister_nft_ata.key]
                == ledger.tokens[lst.lister_nft_ata.key]
            &&& !run(listed, d.spec_delist())->0.tokens.contains_key(lst.vault)
            &&& run(listed, d.spec_delist())->0.lamports[lst.lister] == ledger.lamports[lst.lister]
                + ledger.lamports[lst.vault]
        }),
{
    reveal_with_fuel(run, 3);
    assert(seq![lst.spec_deposit_nft()].drop_first() =~= Seq::empty());
    assert(d.spec_delist().drop_first().drop_first() =~= Seq::empty());
}

/// Listing and then buying sells the NFT: the lister's tokens of it end in the
/// buyer's token account, the buyer pays exactly the listed price, the lister
/// receives the price less the marketplace's cut and the vault's lamports, the
/// treasury receives the cut, and the vault is closed.
pub proof fn list_then_purchase_sells_the_nft(
    lst: List,
    price: u32,
    bumps: ListBumps,
    p: Purchase,
    ledger: Ledger,
)
    requires
        p.listing.key == lst.listing.key,
        p.listing.data == lst.new_listing(price, bumps.listing),
        p.marketplace.key == lst.marketplace.key,
        p.nft_mint == lst.lister_nft_mint,
        p.lister == lst.lister,
        p.vault.key == lst.vault,
        p.vault.amount == lst.lister_nft_ata.amount,
        sale_settles(p.marketplace.data.fee, price),
        p.buyer != p.lister,
        p.buyer != p.treasury,
        p.lister != p.treasury,
        p.vault.key != p.buyer,
        p.vault.key != p.lister,
        p.vault.key != p.treasury,
        p.vault.key != p.buyer_nft_ata,
        lst.vault != lst.lister_nft_ata.key,
        p.buyer_nft_ata != lst.lister_nft_ata.key,
        ledger.lamports.contains_key(p.buyer),
        ledger.lamports.contains_key(p.lister),
        ledger.lamports.contains_key(p.treasury),
        ledger.lamports.contains_key(p.vault.key),
        ledger.tokens.contains_key(lst.lister_nft_ata.key),
        ledger.tokens.contains_key(p.vault.key),
        ledger.tokens.contains_key(p.buyer_nft_ata),
        ledger.tokens[lst.lister_nft_ata.key] == lst.lister_nft_ata.amount,
        ledger.tokens[p.vault.key] == 0,
        ledger.lamports[p.buyer] >= price,
    ensures
        run(ledger, seq![lst.spec_deposit_nft()]) is Some,
        ({
            let listed = run(ledger, seq![lst.spec_deposit_nft()])->0;
            let fee = p.marketplace.data.fee;
            &&& run(listed, p.spec_purchase()) is Some
            &&& run(listed, p.spec_purchase())->0.tokens[p.buyer_nft_ata]
                == ledger.tokens[p.buyer_nft_ata] + lst.lister_nft_ata.amount
            &&& run(listed, p.spec_purchase())->0.tokens[lst.lister_nft_ata.key] == 0
            &&& !run(listed, p.spec_purchase())->0.tokens.contains_key(p.vault.key)
            &&& run(listed, p.spec_purchase())->0.lamports[p.buyer] == ledger.lamports[p.buyer]
                - price
            &&& run(listed, p.spec_purchase())->0.lamports[p.treasury]
                == ledger.lamports[p.treasury] + marketplace_fee(fee, price)
            &&& run(listed, p.spec_purchase())->0.lamports[p.lister]
                == ledger.lamports[p.lister] + lister_payout(fee, price) + ledger.lamports[p.vault.key]
        }),
{
    reveal_with_fuel(run, 2);
    assert(seq![lst.spec_deposit_nft()].drop_first() =~= Seq::empty());
    let listed = run(ledger, seq![lst.spec_deposit_nft()])->0;
    purchase_settles_the_sale(p, listed);
    reveal_with_fuel(run, 5);
    assert(p.spec_purchase().drop_first().drop_first().drop_first().drop_first() =~= Seq::empty());
}

/// Claiming pays out each point once: a claim mints as many reward units as
/// the user has points into the user's reward account, and a claim right after
/// it mints nothing and leaves the accounts as they are.
pub proof fn claim_pays_each_point_once(c: Claim, ledger: Ledger)
    requires
        ledger.tokens.contains_key(c.user_reward_ata),
    ensures
        c.spec_mint_rewards() matches CpiView::MintTo { amount, .. } && amount
            == c.user_account.data.points,
        run(ledger, seq![c.spec_mint_rewards()]) is Some,
        run(ledger, seq![c.spec_mint_rewards()])->0.tokens[c.user_reward_ata]
            == ledger.tokens[c.user_reward_ata] + c.user_account.data.points,
        c.after_claim().spec_mint_rewards() matches CpiView::MintTo { amount, .. } && amount == 0,
        c.after_claim().after_claim() == c.after_claim(),
{
    reveal_with_fuel(run, 2);
    assert(seq![c.spec_mint_rewards()].drop_first() =~= Seq::empty());
}

/// A newly registered user has nothing to claim.
pub proof fn new_user_has_nothing_to_claim(bumps: InitializeUserBumps, c: Claim)
    requires
        c.user_account.data == (UserAccount { bump: bumps.user_account, points: 0 }),
    ensures
        c.spec_mint_rewards() matches CpiView::MintTo { amount, .. } && amount == 0,
{
}

/// The rewards of a marketplace are minted under the seeds of its own
/// address as `initialize` wrote it: the marketplace tag, its name and its bump.
pub proof fn rewards_are_signed_by_the_marketplace(
    i: Initialize,
    name: String,
    fee: u16,
    points_per_purchase: u16,
    bumps: InitializeBumps,
    c: Claim,
)
    requires
        c.marketplace.key == i.marketplace.key,
        c.marketplace.data == i.new_marketplace(name, fee, points_per_purchase, bumps),
    ensures
        c.spec_mint_rewards() matches CpiView::MintTo { authority, signer, .. } && authority
            == i.marketplace.key && signer == Some(marketplace_signer(name@, bumps.marketplace)),
{
}

/// A listing signs with four seeds: the bytes of the word `listing`, the
/// marketplace's address, the mint's address, and the bump.
pub proof fn listing_seeds_name_the_listing(marketplace: Address, mint: Address, bump: u8)
    ensures
        listing_signer(marketplace, mint, bump).len() == 4,
        listing_signer(marketplace, mint, bump)[0] == seq![108u8, 105u8, 115u8, 116u8, 105u8, 110u8, 103u8],
        listing_signer(marketplace, mint, bump)[1] == marketplace@,
        listing_signer(marketplace, mint, bump)[2] == mint@,
        listing_signer(marketplace, mint, bump)[3] == seq![bump],
{
}

/// A marketplace signs with three seeds: the bytes of the word `marketplace`,
/// the UTF-8 bytes of its name, and its bump.
pub proof fn marketplace_seeds_name_the_marketplace(name: Seq<char>, bump: u8)
    ensures
        marketplace_signer(name, bump).len() == 3,
        marketplace_signer(name, bump)[0] == seq![
            109u8,
            97u8,
            114u8,
            107u8,
            101u8,
            116u8,
            112u8,
            108u8,
            97u8,
            99u8,
            101u8,
        ],
        marketplace_signer(name, bump)[1] == encode_utf8(name),
        marketplace_signer(name, bump)[2] == seq![bump],
{
}

/// A purchase makes four calls. First the listing, owner of the vault and
/// signing with the listing's seeds, moves every token of the NFT's mint in the
/// vault to the buyer's token account; then the buyer pays the cut to the
/// treasury and the rest of the price to the lister; last the listing closes
/// the vault, its lamports going to the lister.
pub proof fn purchase_calls_are_the_sale(p: Purchase)
    ensures
        p.spec_purchase().len() == 4,
        p.spec_purchase()[0] matches CpiView::TransferChecked {
            from,
            mint,
            to,
            authority,
            amount,
            decimals,
            signer,
        } && from == p.vault.key && mint == p.nft_mint.key && to == p.buyer_nft_ata && authority
            == p.listing.key && amount == p.vault.amount && decimals == p.nft_mint.decimals
            && signer == Some(
            listing_signer(p.marketplace.key, p.nft_mint.key, p.listing.data.bump),
        ),
        p.spec_purchase()[1] matches CpiView::Transfer { from, to, lamports } && from == p.buyer
            && to == p.treasury && lamports == marketplace_fee(
            p.marketplace.data.fee,
            p.listing.data.price,
        ) as u64,
        p.spec_purchase()[2] matches CpiView::Transfer { from, to, lamports } && from == p.buyer
            && to == p.lister && lamports == lister_payout(
            p.marketplace.data.fee,
            p.listing.data.price,
        ) as u64,
        sale_settles(p.marketplace.data.fee, p.listing.data.price) ==> marketplace_fee(
            p.marketplace.data.fee,
            p.listing.data.price,
        ) + lister_payout(p.marketplace.data.fee, p.listing.data.price) == p.listing.data.price
            && marketplace_fee(p.marketplace.data.fee, p.listing.data.price) >= 0
            && lister_payout(p.marketplace.data.fee, p.listing.data.price) >= 0,
        p.spec_purchase()[3] matches CpiView::CloseAccount {
            account,
            destination,
            authority,
            signer,
        } && account == p.vault.key && destination == p.lister && authority == p.listing.key
            && signer == Some(
            listing_signer(p.marketplace.key, p.nft_mint.key, p.listing.data.bump),
        ),
        p.spec_transfer_nft() == p.spec_purchase()[0],
        p.spec_close_vault() == p.spec_purchase()[3],
        forall|amount: u64|
            #[trigger] p.spec_take_marketplace_fees(amount) == (CpiView::Transfer {
                from: p.buyer,
                to: p.treasury,
                lamports: amount,
            }),
        forall|amount: u64|
            #[trigger] p.spec_pay_lister(amount) == (CpiView::Transfer {
                from: p.buyer,
                to: p.lister,
                lamports: amount,
            }),
{
    cut_is_nothing_or_everything(p.marketplace.data.fee, p.listing.data.price);
}

/// A free sale costs nothing: at price zero the cut and the payout are both zero.
pub proof fn free_sale_moves_no_lamports(fee: u16)
    ensures
        marketplace_fee(fee, 0) == 0,
        lister_payout(fee, 0) == 0,
        sale_settles(fee, 0),
{
    let q: int = (fee / 10000) as int;
    assert(q * 0 == 0) by (nonlinear_arith);
}

/// A delisting makes two calls: the listing, signing with its seeds, moves
/// every token of the NFT's mint in the vault back to the lister's token
/// account, then closes the vault, its lamports going to the lister.
pub proof fn delist_calls_return_the_nft(d: Delist)
    ensures
        d.spec_delist().len() == 2,
        d.spec_delist()[0] matches CpiView::TransferChecked {
            from,
            mint,
            to,
            authority,
            amount,
            decimals,
            signer,
        } && from == d.vault.key && mint == d.lister_nft_mint.key && to == d.lister_nft_ata
            && authority == d.listing.key && amount == d.vault.amount && decimals
            == d.lister_nft_mint.decimals && signer == Some(
            listing_signer(d.marketplace.key, d.lister_nft_mint.key, d.listing.data.bump),
        ),
        d.spec_delist()[1] matches CpiView::CloseAccount { account, destination, authority, signer }
            && account == d.vault.key && destination == d.lister && authority == d.listing.key
            && signer == Some(
            listing_signer(d.marketplace.key, d.lister_nft_mint.key, d.listing.data.bump),
        ),
        d.spec_withdraw_nft() == d.spec_delist()[0],
        d.spec_close_vault() == d.spec_delist()[1],
{
}

/// The collection check accepts exactly a verified membership of the given
/// collection, comparing the whole address; it reports a mismatch exactly when
/// the addresses differ, and otherwise an unverified membership.
pub proof fn collection_check_is_exact(collection: Collection, collection_mint: Address)
    ensures
        collection_check(collection, collection_mint) is Ok <==> (collection.key == collection_mint
            && collection.verified),
        collection_check(collection, collection_mint) == Err::<(), MarketplaceError>(
            MarketplaceError::CollectionMismatch,
        ) <==> collection.key != collection_mint,
        collection_check(collection, collection_mint) == Err::<(), MarketplaceError>(
            MarketplaceError::CollectionNotVerified,
        ) <==> (collection.key == collection_mint && !collection.verified),
{
}

/// A listing records the price and bump it is given, the NFT's mint and the
/// lister as its maker; its deposit is one transfer, approved by the lister
/// without seeds, of all the lister's tokens of the NFT's mint into the vault.
pub proof fn listing_records_and_deposits(lst: List, price: u32, bump: u8)
    ensures
        lst.new_listing(price, bump).price == price,
        lst.new_listing(price, bump).bump == bump,
        lst.new_listing(price, bump).mint == lst.lister_nft_mint.key,
        lst.new_listing(price, bump).maker == lst.lister,
        lst.spec_deposit_nft() matches CpiView::TransferChecked {
            from,
            mint,
            to,
            authority,
            amount,
            decimals,
            signer,
        } && from == lst.lister_nft_ata.key && mint == lst.lister_nft_mint.key && to == lst.vault
            && authority == lst.lister && amount == lst.lister_nft_ata.amount && decimals
            == lst.lister_nft_mint.decimals && signer is None,
{
}

/// A claim mints, into the user's reward account, as many units of the
/// marketplace's rewards mint as the user has points, approved by the
/// marketplace signing with its seeds; afterwards the points are zero and
/// every other account is as it was.
pub proof fn claim_mints_the_points_of_the_rewards_mint(c: Claim)
    ensures
        c.spec_mint_rewards() matches CpiView::MintTo { mint, to, authority, amount, signer }
            && mint == c.rewards && to == c.user_reward_ata && authority == c.marketplace.key
            && amount == c.user_account.data.points && signer == Some(
            marketplace_signer(c.marketplace.data.name@, c.marketplace.data.bump),
        ),
        c.after_claim().user_account.data.points == 0,
        c.after_claim().user_account.data.bump == c.user_account.data.bump,
        c.after_claim().user_account.key == c.user_account.key,
        c.after_claim().user == c.user,
        c.after_claim().user_reward_ata == c.user_reward_ata,
        c.after_claim().marketplace == c.marketplace,
        c.after_claim().rewards == c.rewards,
{
}

/// A new marketplace records the signer as its administrator, and the name,
/// fee, points per purchase and bumps it is given.
pub proof fn new_marketplace_records_its_arguments(
    i: Initialize,
    name: String,
    fee: u16,
    points_per_purchase: u16,
    bumps: InitializeBumps,
)
    ensures
        ({
            let m: Marketplace = i.new_marketplace(name, fee, points_per_purchase, bumps);
            &&& m.admin == i.admin
            &&& m.name == name
            &&& m.fee == fee
            &&& m.points_per_purchase == points_per_purchase
            &&& m.bump == bumps.marketplace
            &&& m.rewards_bump == bumps.rewards
            &&& m.treasury_bump == bumps.treasury
        }),
{
}

/// The view of each call keeps every field of it in place: the accounts, the
/// amount, the decimals, and the seeds as byte sequences.
pub proof fn call_views_keep_their_fields(
    t: TransferChecked,
    s: Transfer,
    c: CloseAccount,
    m: MintTo,
)
    ensures
        Cpi::TransferChecked(t).deep_view() matches CpiView::TransferChecked {
            from,
            mint,
            to,
            authority,
            amount,
            decimals,
            signer,
        } && from == t.from && mint == t.mint && to == t.to && authority == t.authority && amount
            == t.amount && decimals == t.decimals && signer == t.signer_seeds.deep_view(),
        Cpi::Transfer(s).deep_view() matches CpiView::Transfer { from, to, lamports } && from
            == s.from && to == s.to && lamports == s.lamports,
        Cpi::CloseAccount(c).deep_view() matches CpiView::CloseAccount {
            account,
            destination,
            authority,
            signer,
        } && account == c.account && destination == c.destination && authority == c.authority
            && signer == c.signer_seeds.deep_view(),
        Cpi::MintTo(m).deep_view() matches CpiView::MintTo { mint, to, authority, amount, signer }
            && mint == m.mint && to == m.to && authority == m.authority && amount == m.amount
            && signer == m.signer_seeds.deep_view(),
{
}

} // verus!
