//! Ledger logic of an ORD-20 style token indexer: decimal amounts, the
//! ordinal position resolver, the inscription decoder, the token ledger
//! state machine and the ordered block fetch scheduler.

pub mod decimal;
pub mod ordinals;
pub mod models;
pub mod util;
pub mod ledger;
pub mod indexer;
pub mod scheduler;
