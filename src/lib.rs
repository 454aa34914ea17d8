//! Client-side pricing replica and instruction encoder for a constant-product
//! AMM: address derivation, account-state decoding, fee and slippage
//! arithmetic, and byte-exact instruction assembly.

pub mod address;
pub mod ids;
pub mod error;
pub mod state;
pub mod pricing;
pub mod instruction;
pub mod pumpfun_cpi;
pub mod launchpad;
pub mod amm;
pub mod entrypoint;

pub use address::Address;
pub use entrypoint::{BuyInstruction, Instructions, SwapPerformed};
pub use error::Error;
pub use pricing::PoolData;
pub use state::{Pool, PoolGlobalConfig};
