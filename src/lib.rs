//! A ledger-resident lottery: ticket sales into a vault, a pseudo-random
//! winner drawn after the sales window, a protocol fee, and a prize claim.
pub mod address;
pub mod randomness;
pub mod state;
pub mod lottery;
pub mod laws;
