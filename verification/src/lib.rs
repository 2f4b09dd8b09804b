//! Decision logic and arithmetic of a Uniswap V3 liquidity-position manager:
//! the range a position covers, the liquidity a deposit buys, which token
//! to buy or sell, when to move a position, when to send a transaction
//! again and with which gas, and the 256-bit arithmetic these rest on.

pub mod liquidity;
pub mod logs;
pub mod pricing;
pub mod strategy;
pub mod text;
pub mod ticks;
pub mod tx;
pub mod uint256;
pub mod wide;
