pub mod derive;
pub mod error;
pub mod ledger;
pub mod escrow;
