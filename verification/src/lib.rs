//! A token-exchange core: a registry that indexes liquidity pools by an
//! unordered token pair and a fee tier, and the reserve accounting of a pool.
//! Every function is stated over a mathematical model and proved against it.

pub mod account;
pub mod events;
pub mod factory;
pub mod factory_state;
pub mod ledger;
pub mod pair;
pub mod pair_state;
pub mod psp22;
pub mod wide;
