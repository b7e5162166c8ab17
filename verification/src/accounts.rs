//! The records this program keeps in accounts.

pub mod fund;
pub mod vault;
pub mod whitelist;
