//! Deposit authorisation for a two-asset constant-product liquidity pool.
//!
//! A provider asks for an amount of pool-share tokens and caps what they are
//! willing to pay in each reserve asset. The library checks the request,
//! quotes the two amounts that the pool requires and holds them against the
//! caps. It moves no funds: on success it hands back the amounts to settle.

pub mod deposit;
pub mod error;
pub mod guard;
pub mod math;
pub mod quote;
pub mod slippage;

pub use deposit::{Deposit, Settlement};
pub use error::{CurveError, DepositError};
pub use guard::validate;
pub use quote::{quote_from_lp_amount, DEPOSIT_PRECISION};
pub use slippage::enforce_slippage;
