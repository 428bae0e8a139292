//! Withdrawal path of a two-asset constant-product liquidity pool.
//!
//! A holder burns a quantity of pool-share tokens and is owed proportional
//! quantities of the pool's two reserve assets, subject to caller-supplied
//! slippage bounds and a pool-wide lock flag.  The library computes the exact
//! payouts, decides every failure case, and keeps the pool's bookkeeping
//! consistent; the ledger effects themselves (token transfers and the share
//! burn) are performed by the surrounding host, in the fixed order that
//! [`withdraw::effects`] states.

pub mod curve;
pub mod errors;
pub mod state;
pub mod withdraw;

pub use curve::payout;
pub use curve::withdraw_liquidity;
pub use errors::AmmError;
pub use state::PoolState;
pub use state::DEFAULT_PRECISION;
pub use state::WithdrawRequest;
pub use state::WithdrawResult;
pub use withdraw::effects;
pub use withdraw::withdraw;
pub use withdraw::LedgerEffect;
