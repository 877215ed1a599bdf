//! UHPO (unspent hasher payout) transactions: the payout update that gathers a
//! matured coinbase (and the previous update) into the next pool output, and the
//! payout settlement that pays the miners out of the latest update.

pub mod bitcoin_tx;
pub mod builder;
pub mod error;
pub mod payout_settlement;
pub mod payout_update;
pub mod signature;
