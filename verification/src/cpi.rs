use vstd::prelude::*;

use crate::address::Address;

verus! {

/// A transfer of `amount` tokens of `mint` from the token account `from` to
/// the token account `to`, approved by `authority`. Where `signer_seeds` is
/// present, the authority is an address of this program that signs with those
/// seeds; where it is absent, the authority signed the transaction itself.
#[derive(Debug, Clone, PartialEq, Eq)]
pub struct TransferChecked {
    pub from: Address,
    pub mint: Address,
    pub to: Address,
    pub authority: Address,
    pub amount: u64,
    pub decimals: u8,
    pub signer_seeds: Option<Vec<Vec<u8>>>,
}

/// A transfer of `lamports` from the system account `from` to `to`; `from`
/// signed the transaction.
#[derive(Debug, Clone, PartialEq, Eq)]
pub struct Transfer {
    pub from: Address,
    pub to: Address,
    pub lamports: u64,
}

/// The closing of the token account `account`, whose lamports go to
/// `destination`, approved by `authority`.
#[derive(Debug, Clone, PartialEq, Eq)]
pub struct CloseAccount {
    pub account: Address,
    pub destination: Address,
    pub authority: Address,
    pub signer_seeds: Option<Vec<Vec<u8>>>,
}

/// The minting of `amount` new tokens of `mint` into the token account `to`,
/// approved by the mint's authority `authority`.
#[derive(Debug, Clone, PartialEq, Eq)]
pub struct MintTo {
    pub mint: Address,
    pub to: Address,
    pub authority: Address,
    pub amount: u64,
    pub signer_seeds: Option<Vec<Vec<u8>>>,
}

/// A call that an instruction asks the runtime to make into the token program
/// or the system program.
#[derive(Debug, Clone, PartialEq, Eq)]
pub enum Cpi {
    TransferChecked(TransferChecked),
    Transfer(Transfer),
    CloseAccount(CloseAccount),
    MintTo(MintTo),
}

/// A `Cpi` as a mathematical value, its seeds as sequences of byte sequences.
pub enum CpiView {
    TransferChecked {
        from: Address,
        mint: Address,
        to: Address,
        authority: Address,
        amount: u64,
        decimals: u8,
        signer: Option<Seq<Seq<u8>>>,
    },
    Transfer { from: Address, to: Address, lamports: u64 },
    CloseAccount {
        account: Address,
        destination: Address,
        authority: Address,
        signer: Option<Seq<Seq<u8>>>,
    },
    MintTo {
        mint: Address,
        to: Address,
        authority: Address,
        amount: u64,
        signer: Option<Seq<Seq<u8>>>,
    },
}

impl DeepView for Cpi {
    type V = CpiView;

    open spec fn deep_view(&self) -> CpiView {
        match self {
            Cpi::TransferChecked(t) => CpiView::TransferChecked {
                from: t.from,
                mint: t.mint,
                to: t.to,
                authority: t.authority,
                amount: t.amount,
                decimals: t.decimals,
                signer: t.signer_seeds.deep_view(),
            },
            Cpi::Transfer(t) => CpiView::Transfer { from: t.from, to: t.to, lamports: t.lamports },
            Cpi::CloseAccount(c) => CpiView::CloseAccount {
                account: c.account,
                destination: c.destination,
                authority: c.authority,
                signer: c.signer_seeds.deep_view(),
            },
            Cpi::MintTo(m) => CpiView::MintTo {
                mint: m.mint,
                to: m.to,
                authority: m.authority,
                amount: m.amount,
                signer: m.signer_seeds.deep_view(),
            },
        }
    }
}

} // verus!
