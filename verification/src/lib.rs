//! A pricing engine for a two-asset liquidity pool.
//!
//! Reserves and amounts are decimal quantities ([`dec::Dec`]); the arithmetic
//! on them is `rust_decimal`'s, reached through the trusted wrappers in
//! [`dec`].  The pool capability ([`liquidity_pool::LiquidityPool`]) defines
//! the shared add/remove/swap algorithms once over four strategy primitives;
//! three pricing strategies implement it.

pub mod dec;
pub mod liquidity_pool;
pub mod cpmm;
pub mod csmm;
pub mod pidmm;
pub mod pool;
