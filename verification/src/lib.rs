//! The rules of an NFT marketplace: listing an NFT for a price, taking it off
//! the market, buying it (with a marketplace fee for the treasury), and
//! claiming reward points. Each instruction reads a snapshot of its accounts
//! as plain values and answers with the new account data and the ordered
//! token-program and system-program calls that the runtime is asked to make.
pub mod address;
pub mod cpi;
pub mod error;
pub mod instructions;
pub mod laws;
pub mod ledger;
pub mod seeds;
pub mod state;

pub use address::Address;
pub use cpi::{CloseAccount, Cpi, MintTo, Transfer, TransferChecked};
pub use error::MarketplaceError;
pub use instructions::claim::Claim;
pub use instructions::delist::Delist;
pub use instructions::initialize::{Initialize, InitializeBumps, MAX_NAME_LEN};
pub use instructions::initialize_user::{InitializeUser, InitializeUserBumps};
pub use instructions::list::{Collection, List, ListBumps, Metadata};
pub use instructions::purchase::Purchase;
pub use state::{Account, Listing, Marketplace, Mint, TokenAccount, UserAccount};
