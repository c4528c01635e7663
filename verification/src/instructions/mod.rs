pub mod claim;
pub mod delist;
pub mod initialize;
pub mod initialize_user;
pub mod list;
pub mod purchase;
