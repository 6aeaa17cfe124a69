//! Decoding of decentralized-exchange activity into typed records, and
//! resolution of those records into normalized trade facts.

pub mod amount;
pub mod balance_delta;
pub mod classifier;
pub mod identifier;
pub mod json;
pub mod metadata;
pub mod pumpswap;
pub mod raydium_amm_v4;
pub mod raydium_cpmm;
pub mod resolver;
pub mod trade;
pub mod unified;
pub mod wire;

pub use crate::trade::{TradeDirection, TradeInfo};
pub use crate::unified::CopyTradeableEvent;
