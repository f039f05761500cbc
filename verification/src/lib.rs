//! Homa Lite: minting of a liquid staking currency against a staking currency
//! that is locked on the relay chain.
//!
//! The crate holds the pallet's decisions and arithmetic as verified code:
//! the exchange rate between the two currencies, the checks that a mint request
//! has to pass, the amount of liquid currency that a mint yields, the governance
//! updates of the pallet's storage, the routing of EVM precompile addresses, and
//! the weights charged for each call.

pub mod fixed;
pub mod laws;
pub mod pallet;
pub mod precompile;
pub mod weights;
