use vstd::prelude::*;

use crate::address::Address;
use crate::cpi::CpiView;

verus! {

/// A model of the balances that the calls of an instruction act on: the
/// lamports of each account, and the token amount of each open token account.
/// `apply` states what the marketplace counts on each call to do; the laws
/// about what an instruction achieves are stated over this model.
pub struct Ledger {
    pub lamports: Map<Address, int>,
    pub tokens: Map<Address, int>,
}

/// `amount` moved from `from` to `to` in `balances`.
pub open spec fn move_amount(balances: Map<Address, int>, from: Address, to: Address, amount: int) -> Map<
    Address,
    int,
> {
    let taken = balances.insert(from, balances[from] - amount);
    taken.insert(to, taken[to] + amount)
}

/// What a call does to the balances, or `None` where the call fails: a
/// transfer fails where an account is missing or the source holds too little;
/// a close fails where the token account still holds tokens; a mint fails
/// where the token account is missing.
pub open spec fn apply(ledger: Ledger, call: CpiView) -> Option<Ledger> {
    match call {
        CpiView::TransferChecked { from, to, amount, .. } => {
            if ledger.tokens.contains_key(from) && ledger.tokens.contains_key(to)
                && ledger.tokens[from] >= amount {
                Some(Ledger { tokens: move_amount(ledger.tokens, from, to, amount as int), ..ledger })
            } else {
                None
            }
        },
        CpiView::Transfer { from, to, lamports } => {
            if ledger.lamports.contains_key(from) && ledger.lamports.contains_key(to)
                && ledger.lamports[from] >= lamports {
                Some(
                    Ledger {
                        lamports: move_amount(ledger.lamports, from, to, lamports as int),
                        ..ledger
                    },
                )
            } else {
                None
            }
        },
        CpiView::CloseAccount { account, destination, .. } => {
            if ledger.tokens.contains_key(account) && ledger.tokens[account] == 0
                && ledger.lamports.contains_key(account) && ledger.lamports.contains_key(
                destination,
            ) && account != destination {
                Some(
                    Ledger {
                        lamports: move_amount(
                            ledger.lamports,
                            account,
                            destination,
                            ledger.lamports[account],
                        ).remove(account),
                        tokens: ledger.tokens.remove(account),
                    },
                )
            } else {
                None
            }
        },
        CpiView::MintTo { to, amount, .. } => {
            if ledger.tokens.contains_key(to) {
                Some(
                    Ledger {
                        tokens: ledger.tokens.insert(to, ledger.tokens[to] + amount),
                        ..ledger
                    },
                )
            } else {
                None
            }
        },
    }
}

/// The balances after the calls, made in order, or `None` where one fails
/// (and the whole instruction with it).
pub open spec fn run(ledger: Ledger, calls: Seq<CpiView>) -> Option<Ledger>
    decreases calls.len(),
{
    if calls.len() == 0 {
        Some(ledger)
    } else {
        match apply(ledger, calls[0]) {
            Some(next) => run(next, calls.drop_first()),
            None => None,
        }
    }
}

} // verus!
