use nft_marketplace::address::same_address;
use nft_marketplace::{
    Account, Address, Claim, CloseAccount, Collection, Cpi, Delist, Initialize, InitializeBumps,
    InitializeUser, InitializeUserBumps, List, ListBumps, Listing, Marketplace, MarketplaceError,
    Metadata, Mint, MintTo, Purchase, TokenAccount, Transfer, TransferChecked, UserAccount,
};

fn addr(b: u8) -> Address {
    [b; 32]
}

fn market(fee: u16) -> Marketplace {
    Marketplace {
        bump: 254,
        rewards_bump: 253,
        treasury_bump: 252,
        points_per_purchase: 10,
        fee,
        admin: addr(1),
        name: "gallery".to_string(),
    }
}

fn listing_seeds(marketplace: Address, mint: Address, bump: u8) -> Vec<Vec<u8>> {
    vec![b"listing".to_vec(), marketplace.to_vec(), mint.to_vec(), vec![bump]]
}

const MARKET: u8 = 2;
const TREASURY: u8 = 3;
const MINT: u8 = 4;
const LISTER: u8 = 5;
const LISTER_ATA: u8 = 6;
const LISTING: u8 = 7;
const VAULT: u8 = 8;
const BUYER: u8 = 9;
const BUYER_ATA: u8 = 10;
const COLLECTION: u8 = 11;

fn purchase(fee: u16, price: u32) -> Purchase {
    Purchase {
        buyer: addr(BUYER),
        lister: addr(LISTER),
        marketplace: Account { key: addr(MARKET), data: market(fee) },
        treasury: addr(TREASURY),
        nft_mint: Mint { key: addr(MINT), decimals: 0 },
        buyer_nft_ata: addr(BUYER_ATA),
        listing: Account {
            key: addr(LISTING),
            data: Listing { bump: 250, price, mint: addr(MINT), maker: addr(LISTER) },
        },
        vault: TokenAccount { key: addr(VAULT), amount: 1 },
    }
}

fn list_accounts(collection: Option<Collection>) -> List {
    List {
        lister: addr(LISTER),
        marketplace: Account { key: addr(MARKET), data: market(250) },
        lister_nft_mint: Mint { key: addr(MINT), decimals: 0 },
        lister_nft_ata: TokenAccount { key: addr(LISTER_ATA), amount: 1 },
        listing: Account {
            key: addr(LISTING),
            data: Listing { bump: 0, price: 0, mint: [0; 32], maker: [0; 32] },
        },
        vault: addr(VAULT),
        collection_mint: Mint { key: addr(COLLECTION), decimals: 0 },
        metadata: Metadata { collection },
    }
}

fn claim_accounts(points: u32) -> Claim {
    Claim {
        user: addr(BUYER),
        user_reward_ata: addr(12),
        user_account: Account { key: addr(13), data: UserAccount { bump: 249, points } },
        marketplace: Account { key: addr(MARKET), data: market(250) },
        rewards: addr(14),
    }
}

fn transfer_amounts(requests: &[Cpi]) -> (u64, u64) {
    match (&requests[1], &requests[2]) {
        (Cpi::Transfer(fee), Cpi::Transfer(pay)) => (fee.lamports, pay.lamports),
        _ => panic!("a purchase pays the treasury, then the lister"),
    }
}

#[test]
fn purchase_makes_the_four_calls_in_order() {
    let p = purchase(250, 1_000_000);
    let requests = p.purchase();
    let seeds = listing_seeds(addr(MARKET), addr(MINT), 250);
    assert_eq!(
        requests,
        vec![
            Cpi::TransferChecked(TransferChecked {
                from: addr(VAULT),
                mint: addr(MINT),
                to: addr(BUYER_ATA),
                authority: addr(LISTING),
                amount: 1,
                decimals: 0,
                signer_seeds: Some(seeds.clone()),
            }),
            Cpi::Transfer(Transfer { from: addr(BUYER), to: addr(TREASURY), lamports: 0 }),
            Cpi::Transfer(Transfer { from: addr(BUYER), to: addr(LISTER), lamports: 1_000_000 }),
            Cpi::CloseAccount(CloseAccount {
                account: addr(VAULT),
                destination: addr(LISTER),
                authority: addr(LISTING),
                signer_seeds: Some(seeds),
            }),
        ]
    );
}

#[test]
fn fee_below_ten_thousand_takes_nothing() {
    for fee in [0u16, 1, 250, 9_999] {
        let p = purchase(fee, 777);
        assert!(p.can_settle());
        assert_eq!(transfer_amounts(&p.purchase()), (0, 777));
    }
}

#[test]
fn fee_of_ten_thousand_or_more_takes_the_whole_price() {
    for fee in [10_000u16, 15_000, 19_999] {
        let p = purchase(fee, 777);
        assert!(p.can_settle());
        assert_eq!(transfer_amounts(&p.purchase()), (777, 0));
    }
}

#[test]
fn fee_of_twenty_thousand_does_not_settle_unless_free() {
    assert!(!purchase(20_000, 1).can_settle());
    assert!(!purchase(65_535, 4_000_000_000).can_settle());
    let free = purchase(65_535, 0);
    assert!(free.can_settle());
    assert_eq!(transfer_amounts(&free.purchase()), (0, 0));
}

#[test]
fn purchase_payments_add_up_to_the_price() {
    for (fee, price) in [(0u16, 5u32), (12_000, 5), (500, u32::MAX), (10_000, u32::MAX)] {
        let (cut, rest) = transfer_amounts(&purchase(fee, price).purchase());
        assert_eq!(cut + rest, price as u64);
    }
}

#[test]
fn purchase_parts_match_the_whole() {
    let p = purchase(250, 42);
    let requests = p.purchase();
    assert_eq!(requests[0], p.transfer_nft());
    assert_eq!(requests[1], p.take_marketplace_fees(0));
    assert_eq!(requests[2], p.pay_lister(42));
    assert_eq!(requests[3], p.close_vault());
}

#[test]
fn list_records_the_listing_and_deposits_the_nft() {
    let mut l = list_accounts(Some(Collection { verified: true, key: addr(COLLECTION) }));
    let requests = l.list(1_500, &ListBumps { listing: 251 }).unwrap();
    assert_eq!(
        l.listing.data,
        Listing { bump: 251, price: 1_500, mint: addr(MINT), maker: addr(LISTER) }
    );
    assert_eq!(l.listing.key, addr(LISTING));
    assert_eq!(
        requests,
        vec![Cpi::TransferChecked(TransferChecked {
            from: addr(LISTER_ATA),
            mint: addr(MINT),
            to: addr(VAULT),
            authority: addr(LISTER),
            amount: 1,
            decimals: 0,
            signer_seeds: None,
        })]
    );
}

#[test]
fn list_refuses_another_collection() {
    let mut l = list_accounts(Some(Collection { verified: true, key: addr(99) }));
    assert_eq!(
        l.list(1_500, &ListBumps { listing: 251 }),
        Err(MarketplaceError::CollectionMismatch)
    );
    assert_eq!(l.listing.data.price, 0);
    assert_eq!(l.check_collection(), Err(MarketplaceError::CollectionMismatch));
}

#[test]
fn list_refuses_an_unverified_collection() {
    let mut l = list_accounts(Some(Collection { verified: false, key: addr(COLLECTION) }));
    assert_eq!(
        l.list(1_500, &ListBumps { listing: 251 }),
        Err(MarketplaceError::CollectionNotVerified)
    );
    assert_eq!(l.listing.data.maker, [0; 32]);
}

#[test]
fn initialize_listing_writes_price_mint_and_maker() {
    let mut l = list_accounts(None);
    assert_eq!(l.initialize_listing(9, 3), Ok(()));
    assert_eq!(l.listing.data, Listing { bump: 3, price: 9, mint: addr(MINT), maker: addr(LISTER) });
    assert_eq!(l.deposit_nft(), Cpi::TransferChecked(TransferChecked {
        from: addr(LISTER_ATA),
        mint: addr(MINT),
        to: addr(VAULT),
        authority: addr(LISTER),
        amount: 1,
        decimals: 0,
        signer_seeds: None,
    }));
}

#[test]
fn delist_returns_what_list_deposited() {
    let mut l = list_accounts(Some(Collection { verified: true, key: addr(COLLECTION) }));
    let deposit = l.list(1_500, &ListBumps { listing: 251 }).unwrap();
    let deposited = match &deposit[0] {
        Cpi::TransferChecked(t) => t.clone(),
        _ => panic!("a listing deposits the NFT"),
    };
    let d = Delist {
        lister: l.lister,
        marketplace: l.marketplace.clone(),
        lister_nft_mint: l.lister_nft_mint,
        lister_nft_ata: l.lister_nft_ata.key,
        listing: l.listing.clone(),
        vault: TokenAccount { key: l.vault, amount: deposited.amount },
    };
    let requests = d.delist();
    let seeds = listing_seeds(addr(MARKET), addr(MINT), 251);
    assert_eq!(
        requests,
        vec![
            Cpi::TransferChecked(TransferChecked {
                from: deposited.to,
                mint: deposited.mint,
                to: deposited.from,
                authority: addr(LISTING),
                amount: deposited.amount,
                decimals: deposited.decimals,
                signer_seeds: Some(seeds.clone()),
            }),
            Cpi::CloseAccount(CloseAccount {
                account: addr(VAULT),
                destination: addr(LISTER),
                authority: addr(LISTING),
                signer_seeds: Some(seeds),
            }),
        ]
    );
    assert_eq!(requests[0], d.withdraw_nft());
    assert_eq!(requests[1], d.close_vault());
}

#[test]
fn claim_mints_the_points_and_resets_them() {
    let mut c = claim_accounts(42);
    let request = c.claim_rewards();
    assert_eq!(
        request,
        Cpi::MintTo(MintTo {
            mint: addr(14),
            to: addr(12),
            authority: addr(MARKET),
            amount: 42,
            signer_seeds: Some(vec![b"marketplace".to_vec(), b"gallery".to_vec(), vec![254]]),
        })
    );
    assert_eq!(c.user_account.data, UserAccount { bump: 249, points: 0 });
}

#[test]
fn second_claim_mints_nothing() {
    let mut c = claim_accounts(u32::MAX);
    match c.claim_rewards() {
        Cpi::MintTo(m) => assert_eq!(m.amount, u32::MAX as u64),
        _ => panic!("a claim mints"),
    }
    match c.claim_rewards() {
        Cpi::MintTo(m) => assert_eq!(m.amount, 0),
        _ => panic!("a claim mints"),
    }
    assert_eq!(c.user_account.data.points, 0);
}

#[test]
fn claim_signs_with_the_utf8_name() {
    let mut c = claim_accounts(1);
    c.marketplace.data.name = "gal\u{e9}rie".to_string();
    match c.claim_rewards() {
        Cpi::MintTo(m) => assert_eq!(
            m.signer_seeds,
            Some(vec![b"marketplace".to_vec(), "gal\u{e9}rie".as_bytes().to_vec(), vec![254]])
        ),
        _ => panic!("a claim mints"),
    }
}

#[test]
fn initialize_writes_the_marketplace() {
    let mut i = Initialize {
        admin: addr(1),
        marketplace: Account { key: addr(MARKET), data: market(0) },
        treasury: addr(TREASURY),
        rewards: addr(14),
    };
    i.marketplace.data.admin = [0; 32];
    let bumps = InitializeBumps { marketplace: 200, rewards: 201, treasury: 202 };
    assert_eq!(i.initialize("bazaar".to_string(), 500, 7, &bumps), Ok(()));
    assert_eq!(
        i.marketplace.data,
        Marketplace {
            bump: 200,
            rewards_bump: 201,
            treasury_bump: 202,
            points_per_purchase: 7,
            fee: 500,
            admin: addr(1),
            name: "bazaar".to_string(),
        }
    );
    assert_eq!(i.marketplace.key, addr(MARKET));
}

#[test]
fn initialize_then_claim_signs_with_the_new_marketplace() {
    let mut i = Initialize {
        admin: addr(1),
        marketplace: Account { key: addr(MARKET), data: market(0) },
        treasury: addr(TREASURY),
        rewards: addr(14),
    };
    let bumps = InitializeBumps { marketplace: 17, rewards: 18, treasury: 19 };
    i.initialize("x".repeat(32), 0, 0, &bumps).unwrap();
    let mut c = claim_accounts(3);
    c.marketplace = i.marketplace.clone();
    match c.claim_rewards() {
        Cpi::MintTo(m) => {
            assert_eq!(m.authority, addr(MARKET));
            assert_eq!(
                m.signer_seeds,
                Some(vec![b"marketplace".to_vec(), vec![b'x'; 32], vec![17]])
            );
        }
        _ => panic!("a claim mints"),
    }
}

#[test]
fn new_user_has_no_points() {
    let mut u = InitializeUser {
        user: addr(BUYER),
        user_account: Account { key: addr(13), data: UserAccount { bump: 0, points: 5 } },
    };
    assert_eq!(u.initialize_user(&InitializeUserBumps { user_account: 248 }), Ok(()));
    assert_eq!(u.user_account.data, UserAccount { bump: 248, points: 0 });
    let mut c = claim_accounts(0);
    c.user_account = u.user_account.clone();
    match c.claim_rewards() {
        Cpi::MintTo(m) => assert_eq!(m.amount, 0),
        _ => panic!("a claim mints"),
    }
}

#[test]
fn purchase_pays_whoever_is_named_lister() {
    let mut p = purchase(0, 100);
    p.lister = addr(BUYER);
    let requests = p.purchase();
    assert_eq!(
        requests[2],
        Cpi::Transfer(Transfer { from: addr(BUYER), to: addr(BUYER), lamports: 100 })
    );
}

#[test]
fn same_address_compares_every_byte() {
    let a = addr(7);
    let mut b = addr(7);
    assert!(same_address(&a, &b));
    b[31] = 8;
    assert!(!same_address(&a, &b));
    b[31] = 7;
    b[0] = 0;
    assert!(!same_address(&a, &b));
}
