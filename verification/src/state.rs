use vstd::prelude::*;

use crate::address::Address;

verus! {

/// A marketplace: its fee in basis points, the reward points a purchase is
/// worth, its administrator, its name, and the bump seeds of its own address,
/// of its rewards mint and of its treasury.
#[derive(Debug, Clone, PartialEq, Eq)]
pub struct Marketplace {
    pub bump: u8,
    pub rewards_bump: u8,
    pub treasury_bump: u8,
    pub points_per_purchase: u16,
    pub fee: u16,
    pub admin: Address,
    pub name: String,
}

/// An NFT offered for sale: its price in lamports, its mint, and who listed it.
#[derive(Debug, Clone, Copy, PartialEq, Eq)]
pub struct Listing {
    pub bump: u8,
    pub price: u32,
    pub mint: Address,
    pub maker: Address,
}

/// A user's record of reward points not yet claimed.
#[derive(Debug, Clone, Copy, PartialEq, Eq)]
pub struct UserAccount {
    pub bump: u8,
    pub points: u32,
}

/// An account owned by the marketplace program: its address and its data.
#[derive(Debug, Clone, PartialEq, Eq)]
pub struct Account<T> {
    pub key: Address,
    pub data: T,
}

/// What the instructions read of a token mint.
#[derive(Debug, Clone, Copy, PartialEq, Eq)]
pub struct Mint {
    pub key: Address,
    pub decimals: u8,
}

/// What the instructions read of a token account.
#[derive(Debug, Clone, Copy, PartialEq, Eq)]
pub struct TokenAccount {
    pub key: Address,
    pub amount: u64,
}

} // verus!
