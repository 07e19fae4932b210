//! The records that the factory and a pool emit for observers.

use crate::account::AccountId;
use vstd::prelude::*;

verus! {

/// The factory has a new owner.
#[derive(Clone, Copy, Debug, PartialEq, Eq)]
pub struct OwnerChanged {
    pub old_owner: AccountId,
    pub new_owner: AccountId,
}

/// A pool was created for the pair `token_0 < token_1` and the fee tier `fee`.
/// `pool_len` is the number of pools that exist once this one is counted.
#[derive(Clone, Copy, Debug, PartialEq, Eq)]
pub struct PoolCreated {
    pub token_0: AccountId,
    pub token_1: AccountId,
    pub fee: u8,
    pub tickspacing: i8,
    pub pool: AccountId,
    pub pool_len: u64,
}

/// A fee tier was enabled with the given tick spacing.
#[derive(Clone, Copy, Debug, PartialEq, Eq)]
pub struct FeeAmountEnabled {
    pub fee: u8,
    pub tickspacing: i8,
}

/// What the factory emits.
#[derive(Clone, Copy, Debug, PartialEq, Eq)]
pub enum FactoryEvent {
    OwnerChanged(OwnerChanged),
    PoolCreated(PoolCreated),
    FeeAmountEnabled(FeeAmountEnabled),
}

/// Liquidity was minted for a deposit of `amount_0` and `amount_1`.
#[derive(Clone, Copy, Debug, PartialEq, Eq)]
pub struct Mint {
    pub sender: AccountId,
    pub amount_0: u128,
    pub amount_1: u128,
}

/// Liquidity was burned and `amount_0` and `amount_1` were paid out to `to`.
#[derive(Clone, Copy, Debug, PartialEq, Eq)]
pub struct Burn {
    pub sender: AccountId,
    pub amount_0: u128,
    pub amount_1: u128,
    pub to: AccountId,
}

/// A swap paid the outputs to `to` and received the inputs.
#[derive(Clone, Copy, Debug, PartialEq, Eq)]
pub struct Swap {
    pub sender: AccountId,
    pub amount_0_in: u128,
    pub amount_1_in: u128,
    pub amount_0_out: u128,
    pub amount_1_out: u128,
    pub to: AccountId,
}

/// The synced reserves were set to these values.
#[derive(Clone, Copy, Debug, PartialEq, Eq)]
pub struct Sync {
    pub reserve_0: u128,
    pub reserve_1: u128,
}

/// Liquidity units moved. No source means that they were minted, no
/// destination that they were burned.
#[derive(Clone, Copy, Debug, PartialEq, Eq)]
pub struct Transfer {
    pub from: Option<AccountId>,
    pub to: Option<AccountId>,
    pub value: u128,
}

/// The protocol's share of the swap fee was changed.
#[derive(Clone, Copy, Debug, PartialEq, Eq)]
pub struct SetFeeProtocol {
    pub fee_protocol0_old: u8,
    pub fee_protocol1_old: u8,
    pub fee_protocol0_new: u8,
    pub fee_protocol1_new: u8,
}

/// The accrued protocol fees were paid out to `recipient`.
#[derive(Clone, Copy, Debug, PartialEq, Eq)]
pub struct CollectProtocol {
    pub sender: AccountId,
    pub recipient: AccountId,
    pub amount0: u128,
    pub amount1: u128,
}

/// What a pool emits.
#[derive(Clone, Copy, Debug, PartialEq, Eq)]
pub enum PairEvent {
    Transfer(Transfer),
    Sync(Sync),
    Mint(Mint),
    Burn(Burn),
    Swap(Swap),
    SetFeeProtocol(SetFeeProtocol),
    CollectProtocol(CollectProtocol),
}

} // verus!
