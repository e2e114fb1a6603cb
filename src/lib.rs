//! A constant-product liquidity pool: curve arithmetic, swap and withdrawal
//! validation, and the deterministic authority seeds that sign reserve
//! transfers.

pub mod asset_error;
pub mod curve;
pub mod error;
pub mod pool;
pub mod swap;
pub mod withdraw;

pub use asset_error::{MPLXCoreError, ERROR_CODE_OFFSET};
pub use curve::{ConstantProduct, LiquidityPair, SwapResult, XYAmounts, FEE_DENOMINATOR};
pub use error::AmmError;
pub use pool::{u64_le_bytes, Config, PRECISION};
pub use swap::Swap;
pub use withdraw::Withdraw;
