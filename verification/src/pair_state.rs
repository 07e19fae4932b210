//! The pool as a state machine over mathematical values.
//!
//! Each message of a pool is a function from the state before it to the state
//! after it and the answer. A message that pays tokens out only opens the
//! operation: it validates, takes the lock and answers with the amounts to pay.
//! The caller pays and then hands in what it saw, and `settle` finishes the
//! operation or undoes it, releasing the lock either way.

use crate::account::{null_account, AccountId};
use crate::events::{Burn, CollectProtocol, Mint, PairEvent, SetFeeProtocol, Swap, Sync, Transfer};
use crate::psp22::{PSP22Error, Psp22State};
use crate::wide::is_sqrt_of;
use vstd::prelude::*;

verus! {

/// The liquidity units that the first mint locks away for good.
pub const MINIMUM_LIQUIDITY: u128 = 1000;

/// Why a pool refused a message.
#[derive(Clone, Copy, Debug, PartialEq, Eq, Structural)]
pub enum PairError {
    /// The liquidity token refused.
    PSP22Error(PSP22Error),
    /// A payment of an underlying token failed.
    TransferFailed,
    /// The pool was initialized before, or already holds liquidity.
    AlreadyInitialized,
    /// The deposit is worth no liquidity.
    InsufficientLiquidityMinted,
    /// The liquidity handed in is worth nothing of one of the tokens.
    InsufficientLiquidityBurned,
    /// More was asked for than the pool holds.
    InsufficientLiquidity,
    /// Nothing was paid in.
    InsufficientInputAmount,
    /// Nothing was asked for.
    InsufficientOutputAmount,
    /// The recipient is one of the pool's own tokens.
    InvalidTo,
    /// The fee-adjusted product of the balances would fall below the product of the reserves.
    KInvariantViolation,
    /// Another operation of this pool is in progress.
    ReentrancyGuarded,
    /// The caller is not the owner.
    Unauthorized,
    /// The supply of liquidity would leave the range of 128 bits.
    Overflow,
    /// There is no operation to settle.
    NothingPending,
}

/// The operation in progress. Anything but `Idle` is the reentrancy lock held.
#[derive(Clone, Copy, Debug, PartialEq, Eq)]
pub enum Phase {
    Idle,
    Swap { sender: AccountId, to: AccountId, amount0_out: u128, amount1_out: u128 },
    Burn { sender: AccountId, to: AccountId, liquidity: u128, amount0: u128, amount1: u128 },
    Skim,
    Collect { sender: AccountId, recipient: AccountId, amount0: u128, amount1: u128 },
}

/// What the caller reports once it has made the payments of an operation.
#[derive(Clone, Copy, Debug, PartialEq, Eq)]
pub enum Settlement {
    /// A payment failed.
    Failed,
    /// The payments were made, and these are the pool's token balances after them.
    Paid { balance0: u128, balance1: u128 },
}

/// By how much `balance` exceeds `base`, zero where it does not.
pub open spec fn excess(balance: int, base: int) -> int {
    if balance > base {
        balance - base
    } else {
        0
    }
}

/// The integer square root of `n`.
pub open spec fn sqrt_floor(n: int) -> int {
    choose|r: int| is_sqrt_of(r, n)
}

/// The smaller of two numbers.
pub open spec fn smaller(a: int, b: int) -> int {
    if a <= b {
        a
    } else {
        b
    }
}

/// `x`, or the largest 128-bit number where `x` is larger.
pub open spec fn capped(x: int) -> u128 {
    if x > u128::MAX {
        u128::MAX
    } else {
        x as u128
    }
}

/// The swap check. Of each input 0.3% is the fee and does not count: the
/// balances less that fee must multiply to at least the product of the
/// reserves. Both sides are scaled by a thousand per factor.
pub open spec fn k_holds(
    balance0: int,
    balance1: int,
    in0: int,
    in1: int,
    reserve0: int,
    reserve1: int,
) -> bool {
    (1000 * balance0 - 3 * in0) * (1000 * balance1 - 3 * in1) >= 1_000_000 * (reserve0
        * reserve1)
}

/// The part of the fee on `amount_in` that accrues to the protocol: none where
/// `fee_protocol` is zero, else the fee divided by `fee_protocol`.
pub open spec fn protocol_share(amount_in: int, fee_protocol: u8) -> int {
    if fee_protocol == 0 {
        0
    } else {
        (amount_in * 3 / 1000) / (fee_protocol as int)
    }
}

/// The state of a pool.
pub struct PairState {
    /// The pool's own account, which holds the liquidity handed in for burning.
    pub account_id: AccountId,
    pub factory: AccountId,
    pub owner: AccountId,
    pub token_0: AccountId,
    pub token_1: AccountId,
    pub initialized: bool,
    pub reserve_0: u128,
    pub reserve_1: u128,
    pub lp: Psp22State,
    pub fee_protocol0: u8,
    pub fee_protocol1: u8,
    pub fee_growth_protocol0: u128,
    pub fee_growth_protocol1: u128,
    pub phase: Phase,
    pub events: Seq<PairEvent>,
}

impl PairState {
    /// An operation is in progress.
    pub open spec fn locked(self) -> bool {
        !(self.phase is Idle)
    }

    /// The same state with no operation in progress.
    pub open spec fn unlocked(self) -> PairState {
        PairState { phase: Phase::Idle, ..self }
    }

    /// What holds of every state that a pool reaches.
    pub open spec fn valid(self) -> bool {
        &&& forall|who: AccountId| #[trigger] self.lp.balances.dom().contains(who)
        &&& forall|who: AccountId| #[trigger] self.lp.balances[who] <= self.lp.supply
        &&& forall|pair: (AccountId, AccountId)| #[trigger] self.lp.allowances.dom().contains(pair)
        &&& match self.phase {
            Phase::Swap { amount0_out, amount1_out, .. } => amount0_out <= self.reserve_0
                && amount1_out <= self.reserve_1,
            Phase::Collect { amount0, amount1, .. } => amount0 <= self.reserve_0 && amount1
                <= self.reserve_1,
            _ => true,
        }
    }

    /// The product of the two reserves.
    pub open spec fn k(self) -> int {
        self.reserve_0 * self.reserve_1
    }

    /// The state with `event` appended to the log.
    pub open spec fn emitted(self, event: PairEvent) -> PairState {
        PairState { events: self.events.push(event), ..self }
    }

    /// The state with the reserves set and the `Sync` record logged.
    pub open spec fn updated(self, balance0: u128, balance1: u128) -> PairState {
        PairState { reserve_0: balance0, reserve_1: balance1, ..self }.emitted(
            PairEvent::Sync(Sync { reserve_0: balance0, reserve_1: balance1 }),
        )
    }

    /// The state after `amount` new liquidity units went to `to`.
    pub open spec fn lp_minted(self, to: AccountId, amount: u128) -> PairState {
        PairState { lp: self.lp.minted(to, amount), ..self }.emitted(
            PairEvent::Transfer(Transfer { from: None, to: Some(to), value: amount }),
        )
    }

    /// The state after `amount` liquidity units of `from` were destroyed.
    pub open spec fn lp_burned(self, from: AccountId, amount: u128) -> PairState {
        PairState { lp: self.lp.burned(from, amount), ..self }.emitted(
            PairEvent::Transfer(Transfer { from: Some(from), to: None, value: amount }),
        )
    }

    /// The state after `amount` liquidity units went from `from` to `to`.
    pub open spec fn lp_moved(self, from: AccountId, to: AccountId, amount: u128) -> PairState {
        PairState { lp: self.lp.moved(from, to, amount), ..self }.emitted(
            PairEvent::Transfer(Transfer { from: Some(from), to: Some(to), value: amount }),
        )
    }

    /// `initialize`: fixes the two tokens, once, and only while no liquidity exists.
    pub open spec fn initialize(self, token_0: AccountId, token_1: AccountId) -> (
        PairState,
        Result<(), PairError>,
    ) {
        if self.locked() {
            (self, Err(PairError::ReentrancyGuarded))
        } else if self.initialized || self.lp.supply > 0 {
            (self, Err(PairError::AlreadyInitialized))
        } else {
            (PairState { token_0, token_1, initialized: true, ..self }, Ok(()))
        }
    }

    /// The liquidity that a deposit of `amount0` and `amount1` is worth: for
    /// the first deposit the square root of the product, of which the minimum
    /// stays locked; later the smaller of the two shares of the supply.
    pub open spec fn liquidity_for(self, amount0: int, amount1: int) -> int {
        if self.lp.supply == 0 {
            sqrt_floor(amount0 * amount1) - MINIMUM_LIQUIDITY
        } else if self.reserve_0 == 0 || self.reserve_1 == 0 {
            0
        } else {
            smaller(
                amount0 * self.lp.supply / (self.reserve_0 as int),
                amount1 * self.lp.supply / (self.reserve_1 as int),
            )
        }
    }

    /// `mint`: issues liquidity to `to` for what the balances exceed the reserves by.
    pub open spec fn mint(self, sender: AccountId, to: AccountId, balance0: u128, balance1: u128)
        -> (PairState, Result<u128, PairError>) {
        let amount0 = excess(balance0 as int, self.reserve_0 as int);
        let amount1 = excess(balance1 as int, self.reserve_1 as int);
        let liquidity = self.liquidity_for(amount0, amount1);
        let locked_floor: int = if self.lp.supply == 0 {
            MINIMUM_LIQUIDITY as int
        } else {
            0
        };
        if self.locked() {
            (self, Err(PairError::ReentrancyGuarded))
        } else if liquidity <= 0 {
            (self, Err(PairError::InsufficientLiquidityMinted))
        } else if self.lp.supply + locked_floor + liquidity > u128::MAX {
            (self, Err(PairError::Overflow))
        } else {
            let funded = if self.lp.supply == 0 {
                self.lp_minted(null_account(), MINIMUM_LIQUIDITY)
            } else {
                self
            };
            (
                funded.lp_minted(to, liquidity as u128).updated(balance0, balance1).emitted(
                    PairEvent::Mint(
                        Mint { sender, amount_0: amount0 as u128, amount_1: amount1 as u128 },
                    ),
                ),
                Ok(liquidity as u128),
            )
        }
    }

    /// `burn`, opened: the liquidity that the pool's own account holds is
    /// redeemed for its share of each reserve, rounded down.
    pub open spec fn burn(self, sender: AccountId, to: AccountId) -> (
        PairState,
        Result<(u128, u128), PairError>,
    ) {
        let liquidity = self.lp.balances[self.account_id];
        let amount0 = liquidity * self.reserve_0 / (self.lp.supply as int);
        let amount1 = liquidity * self.reserve_1 / (self.lp.supply as int);
        if self.locked() {
            (self, Err(PairError::ReentrancyGuarded))
        } else if self.lp.supply == 0 || amount0 == 0 || amount1 == 0 {
            (self, Err(PairError::InsufficientLiquidityBurned))
        } else {
            (
                PairState {
                    phase: Phase::Burn {
                        sender,
                        to,
                        liquidity,
                        amount0: amount0 as u128,
                        amount1: amount1 as u128,
                    },
                    ..self
                },
                Ok((amount0 as u128, amount1 as u128)),
            )
        }
    }

    /// `swap`, opened: the outputs are validated and are to be paid to `to`.
    pub open spec fn swap(self, sender: AccountId, amount0_out: u128, amount1_out: u128, to: AccountId)
        -> (PairState, Result<(), PairError>) {
        if self.locked() {
            (self, Err(PairError::ReentrancyGuarded))
        } else if amount0_out == 0 && amount1_out == 0 {
            (self, Err(PairError::InsufficientOutputAmount))
        } else if amount0_out > self.reserve_0 || amount1_out > self.reserve_1 {
            (self, Err(PairError::InsufficientLiquidity))
        } else if to == self.token_0 || to == self.token_1 {
            (self, Err(PairError::InvalidTo))
        } else {
            (PairState { phase: Phase::Swap { sender, to, amount0_out, amount1_out }, ..self }, Ok(()))
        }
    }

    /// `skim`, opened: what the balances exceed the reserves by is to be paid out.
    pub open spec fn skim(self, balance0: u128, balance1: u128) -> (
        PairState,
        Result<(u128, u128), PairError>,
    ) {
        if self.locked() {
            (self, Err(PairError::ReentrancyGuarded))
        } else {
            (
                PairState { phase: Phase::Skim, ..self },
                Ok(
                    (
                        excess(balance0 as int, self.reserve_0 as int) as u128,
                        excess(balance1 as int, self.reserve_1 as int) as u128,
                    ),
                ),
            )
        }
    }

    /// `collect_protocol`, opened: the owner has the accrued protocol fees paid to `recipient`.
    pub open spec fn collect_protocol(self, caller: AccountId, recipient: AccountId) -> (
        PairState,
        Result<(u128, u128), PairError>,
    ) {
        if self.locked() {
            (self, Err(PairError::ReentrancyGuarded))
        } else if caller != self.owner {
            (self, Err(PairError::Unauthorized))
        } else if self.fee_growth_protocol0 > self.reserve_0 || self.fee_growth_protocol1
            > self.reserve_1 {
            (self, Err(PairError::InsufficientLiquidity))
        } else {
            (
                PairState {
                    phase: Phase::Collect {
                        sender: caller,
                        recipient,
                        amount0: self.fee_growth_protocol0,
                        amount1: self.fee_growth_protocol1,
                    },
                    ..self
                },
                Ok((self.fee_growth_protocol0, self.fee_growth_protocol1)),
            )
        }
    }

    /// The end of a swap whose outputs were paid, at the balances seen after it.
    pub open spec fn settle_swap(
        self,
        sender: AccountId,
        to: AccountId,
        amount0_out: u128,
        amount1_out: u128,
        balance0: u128,
        balance1: u128,
    ) -> (PairState, Result<(), PairError>) {
        let in0 = excess(balance0 as int, self.reserve_0 - amount0_out);
        let in1 = excess(balance1 as int, self.reserve_1 - amount1_out);
        if in0 == 0 && in1 == 0 {
            (self.unlocked(), Err(PairError::InsufficientInputAmount))
        } else if !k_holds(
            balance0 as int,
            balance1 as int,
            in0,
            in1,
            self.reserve_0 as int,
            self.reserve_1 as int,
        ) {
            (self.unlocked(), Err(PairError::KInvariantViolation))
        } else {
            (
                PairState {
                    fee_growth_protocol0: capped(
                        self.fee_growth_protocol0 + protocol_share(in0, self.fee_protocol0),
                    ),
                    fee_growth_protocol1: capped(
                        self.fee_growth_protocol1 + protocol_share(in1, self.fee_protocol1),
                    ),
                    ..self.unlocked()
                }.updated(balance0, balance1).emitted(
                    PairEvent::Swap(
                        Swap {
                            sender,
                            amount_0_in: in0 as u128,
                            amount_1_in: in1 as u128,
                            amount_0_out: amount0_out,
                            amount_1_out: amount1_out,
                            to,
                        },
                    ),
                ),
                Ok(()),
            )
        }
    }

    /// The end of a burn whose amounts were paid, at the balances seen after it.
    pub open spec fn settle_burn(
        self,
        sender: AccountId,
        to: AccountId,
        liquidity: u128,
        amount0: u128,
        amount1: u128,
        balance0: u128,
        balance1: u128,
    ) -> (PairState, Result<(), PairError>) {
        if self.lp.balances[self.account_id] < liquidity {
            (self.unlocked(), Err(PairError::PSP22Error(PSP22Error::InsufficientBalance)))
        } else {
            (
                self.unlocked().lp_burned(self.account_id, liquidity).updated(
                    balance0,
                    balance1,
                ).emitted(PairEvent::Burn(Burn { sender, amount_0: amount0, amount_1: amount1, to })),
                Ok(()),
            )
        }
    }

    /// The end of a collection of protocol fees that were paid.
    pub open spec fn settle_collect(
        self,
        sender: AccountId,
        recipient: AccountId,
        amount0: u128,
        amount1: u128,
    ) -> (PairState, Result<(), PairError>) {
        (
            PairState {
                fee_growth_protocol0: 0,
                fee_growth_protocol1: 0,
                ..self.unlocked()
            }.updated(
                (self.reserve_0 - amount0) as u128,
                (self.reserve_1 - amount1) as u128,
            ).emitted(
                PairEvent::CollectProtocol(CollectProtocol { sender, recipient, amount0, amount1 }),
            ),
            Ok(()),
        )
    }

    /// `settle`: finishes the operation in progress, or undoes it where a
    /// payment failed or a check on the balances fails. The lock is released
    /// in every case.
    pub open spec fn settle(self, outcome: Settlement) -> (PairState, Result<(), PairError>) {
        match self.phase {
            Phase::Idle => (self, Err(PairError::NothingPending)),
            Phase::Swap { sender, to, amount0_out, amount1_out } => match outcome {
                Settlement::Failed => (self.unlocked(), Err(PairError::TransferFailed)),
                Settlement::Paid { balance0, balance1 } => self.settle_swap(
                    sender,
                    to,
                    amount0_out,
                    amount1_out,
                    balance0,
                    balance1,
                ),
            },
            Phase::Burn { sender, to, liquidity, amount0, amount1 } => match outcome {
                Settlement::Failed => (self.unlocked(), Err(PairError::TransferFailed)),
                Settlement::Paid { balance0, balance1 } => self.settle_burn(
                    sender,
                    to,
                    liquidity,
                    amount0,
                    amount1,
                    balance0,
                    balance1,
                ),
            },
            Phase::Skim => match outcome {
                Settlement::Failed => (self.unlocked(), Err(PairError::TransferFailed)),
                Settlement::Paid { .. } => (self.unlocked(), Ok(())),
            },
            Phase::Collect { sender, recipient, amount0, amount1 } => match outcome {
                Settlement::Failed => (self.unlocked(), Err(PairError::TransferFailed)),
                Settlement::Paid { .. } => self.settle_collect(sender, recipient, amount0, amount1),
            },
        }
    }

    /// `sync`: the reserves become the balances.
    pub open spec fn sync(self, balance0: u128, balance1: u128) -> (
        PairState,
        Result<(), PairError>,
    ) {
        if self.locked() {
            (self, Err(PairError::ReentrancyGuarded))
        } else {
            (self.updated(balance0, balance1), Ok(()))
        }
    }

    /// `set_fee_protocol`: the owner sets the protocol's share of the fee on each token.
    pub open spec fn set_fee_protocol(self, caller: AccountId, fee0: u8, fee1: u8) -> (
        PairState,
        Result<(), PairError>,
    ) {
        if self.locked() {
            (self, Err(PairError::ReentrancyGuarded))
        } else if caller != self.owner {
            (self, Err(PairError::Unauthorized))
        } else {
            (
                PairState { fee_protocol0: fee0, fee_protocol1: fee1, ..self }.emitted(
                    PairEvent::SetFeeProtocol(
                        SetFeeProtocol {
                            fee_protocol0_old: self.fee_protocol0,
                            fee_protocol1_old: self.fee_protocol1,
                            fee_protocol0_new: fee0,
                            fee_protocol1_new: fee1,
                        },
                    ),
                ),
                Ok(()),
            )
        }
    }

    /// `transfer` of the liquidity token: `caller` sends `value` units to `to`.
    pub open spec fn transfer(self, caller: AccountId, to: AccountId, value: u128) -> (
        PairState,
        Result<(), PSP22Error>,
    ) {
        if self.lp.balances[caller] < value {
            (self, Err(PSP22Error::InsufficientBalance))
        } else {
            (self.lp_moved(caller, to, value), Ok(()))
        }
    }

    /// `transfer_from` of the liquidity token: `caller` sends `value` units of `from` to `to`.
    pub open spec fn transfer_from(self, caller: AccountId, from: AccountId, to: AccountId, value: u128)
        -> (PairState, Result<(), PSP22Error>) {
        match self.lp.spent(caller, from, to, value) {
            Ok(lp) => (
                PairState { lp, ..self }.emitted(
                    PairEvent::Transfer(Transfer { from: Some(from), to: Some(to), value }),
                ),
                Ok(()),
            ),
            Err(e) => (self, Err(e)),
        }
    }

    /// `approve` of the liquidity token: `caller` allows `spender` to move `value` units.
    pub open spec fn approve(self, caller: AccountId, spender: AccountId, value: u128) -> PairState {
        PairState { lp: self.lp.approved(caller, spender, value), ..self }
    }
}

/// A share `part * whole / supply` of `whole` is at most `whole` where `part <= supply`.
pub proof fn lemma_share_bounded(part: int, whole: int, supply: int)
    requires
        0 <= part <= supply,
        0 < supply,
        0 <= whole,
    ensures
        0 <= part * whole / supply <= whole,
{
    assert(part * whole <= supply * whole) by (nonlinear_arith)
        requires
            0 <= part <= supply,
            0 <= whole,
    ;
    assert(0 <= part * whole) by (nonlinear_arith)
        requires
            0 <= part,
            0 <= whole,
    ;
    vstd::arithmetic::div_mod::lemma_div_is_ordered(part * whole, supply * whole, supply);
    vstd::arithmetic::div_mod::lemma_div_multiples_vanish(whole, supply);
    assert(supply * whole == whole * supply) by (nonlinear_arith);
    vstd::arithmetic::div_mod::lemma_div_pos_is_pos(part * whole, supply);
}

/// Invariant non-decrease, one step: settling a swap never lowers the product
/// of the reserves. Where the swap is refused, the reserves are as before.
pub proof fn lemma_settled_swap_keeps_k(s: PairState, outcome: Settlement)
    requires
        s.valid(),
        s.phase is Swap,
    ensures
        s.settle(outcome).0.k() >= s.k(),
        s.settle(outcome).0.valid(),
        !s.settle(outcome).0.locked(),
        s.settle(outcome).1 is Err ==> s.settle(outcome).0 == s.unlocked(),
{
    if s.settle(outcome).1 is Ok {
        let balance0 = outcome->balance0;
        let balance1 = outcome->balance1;
        let in0 = excess(balance0 as int, s.reserve_0 - s.phase->Swap_amount0_out);
        let in1 = excess(balance1 as int, s.reserve_1 - s.phase->Swap_amount1_out);
        let x0 = 1000 * balance0 - 3 * in0;
        let x1 = 1000 * balance1 - 3 * in1;
        assert(x0 * x1 <= (1000 * balance0) * (1000 * balance1)) by (nonlinear_arith)
            requires
                0 <= x0 <= 1000 * balance0,
                0 <= x1 <= 1000 * balance1,
        ;
        assert((1000 * balance0) * (1000 * balance1) == 1_000_000 * (balance0 * balance1))
            by (nonlinear_arith);
        assert(s.settle(outcome).0.reserve_0 == balance0);
        assert(s.settle(outcome).0.reserve_1 == balance1);
    }
}

/// A swap from its opening to its settlement.
pub struct SwapCall {
    pub sender: AccountId,
    pub amount0_out: u128,
    pub amount1_out: u128,
    pub to: AccountId,
    pub outcome: Settlement,
}

impl PairState {
    /// The state after a whole swap: opened, paid, settled. A swap that is
    /// refused at its opening changes nothing.
    pub open spec fn swapped(self, call: SwapCall) -> PairState {
        let (opened, answer) = self.swap(call.sender, call.amount0_out, call.amount1_out, call.to);
        if answer is Ok {
            opened.settle(call.outcome).0
        } else {
            self
        }
    }

    /// The state after a sequence of whole swaps, the first of them first.
    pub open spec fn swapped_all(self, calls: Seq<SwapCall>) -> PairState
        decreases calls.len(),
    {
        if calls.len() == 0 {
            self
        } else {
            self.swapped_all(calls.drop_last()).swapped(calls.last())
        }
    }
}

/// A whole swap on a pool at rest never lowers the product of the reserves,
/// and where it fails at either stage the pool is as it was.
pub proof fn lemma_swap_keeps_k(s: PairState, call: SwapCall)
    requires
        s.valid(),
        !s.locked(),
    ensures
        s.swapped(call).k() >= s.k(),
        s.swapped(call).valid(),
        !s.swapped(call).locked(),
        s.swap(call.sender, call.amount0_out, call.amount1_out, call.to).1 is Err ==> s.swapped(
            call,
        ) == s,
        s.swap(call.sender, call.amount0_out, call.amount1_out, call.to).1 is Ok && s.swap(
            call.sender,
            call.amount0_out,
            call.amount1_out,
            call.to,
        ).0.settle(call.outcome).1 is Err ==> s.swapped(call) == s,
{
    let (opened, answer) = s.swap(call.sender, call.amount0_out, call.amount1_out, call.to);
    if answer is Ok {
        lemma_settled_swap_keeps_k(opened, call.outcome);
        assert(opened.unlocked() == s);
    }
}

/// Invariant non-decrease: after any sequence of swaps on a pool at rest, the
/// product of the reserves is at least what it was before.
pub proof fn lemma_swaps_keep_k(s: PairState, calls: Seq<SwapCall>)
    requires
        s.valid(),
        !s.locked(),
    ensures
        s.swapped_all(calls).k() >= s.k(),
        s.swapped_all(calls).valid(),
        !s.swapped_all(calls).locked(),
    decreases calls.len(),
{
    if calls.len() > 0 {
        lemma_swaps_keep_k(s, calls.drop_last());
        lemma_swap_keeps_k(s.swapped_all(calls.drop_last()), calls.last());
    }
}

/// Liquidity is issued only for a deposit of both tokens: a mint raises both
/// reserves, and with them their product.
pub proof fn lemma_mint_raises_reserves(
    s: PairState,
    sender: AccountId,
    to: AccountId,
    balance0: u128,
    balance1: u128,
)
    requires
        s.mint(sender, to, balance0, balance1).1 is Ok,
    ensures
        s.mint(sender, to, balance0, balance1).0.reserve_0 == balance0,
        s.mint(sender, to, balance0, balance1).0.reserve_1 == balance1,
        balance0 > s.reserve_0,
        balance1 > s.reserve_1,
        s.mint(sender, to, balance0, balance1).0.k() >= s.k(),
{
    let amount0 = excess(balance0 as int, s.reserve_0 as int);
    let amount1 = excess(balance1 as int, s.reserve_1 as int);
    if amount0 == 0 || amount1 == 0 {
        assert(amount0 * amount1 == 0) by (nonlinear_arith)
            requires
                amount0 == 0 || amount1 == 0,
        ;
        assert(amount0 * s.lp.supply == 0 || amount1 * s.lp.supply == 0) by (nonlinear_arith)
            requires
                amount0 == 0 || amount1 == 0,
        ;
        if s.lp.supply == 0 {
            assert(is_sqrt_of(0, 0));
            let r = sqrt_floor(0);
            assert(r == 0) by (nonlinear_arith)
                requires
                    0 <= r,
                    r * r <= 0,
            ;
        }
        assert(false);
    }
    assert(balance0 * balance1 >= s.reserve_0 * s.reserve_1) by (nonlinear_arith)
        requires
            balance0 > s.reserve_0,
            balance1 > s.reserve_1,
            s.reserve_0 >= 0,
            s.reserve_1 >= 0,
    ;
}

/// Mint and burn round trip: who deposits `(x, y)` into an empty pool, hands
/// all the liquidity received back to the pool and burns it, is paid at most
/// `x` and at most `y`: the share of the deposit that the pool's own liquidity
/// is of the supply, rounded down. The locked minimum stays behind.
pub proof fn lemma_mint_then_burn_returns_no_more(
    s: PairState,
    sender: AccountId,
    to: AccountId,
    x: u128,
    y: u128,
)
    requires
        s.valid(),
        !s.locked(),
        s.lp.supply == 0,
        s.reserve_0 == 0,
        s.reserve_1 == 0,
        s.mint(sender, to, x, y).1 is Ok,
    ensures
        ({
            let (minted, liquidity) = s.mint(sender, to, x, y);
            let (handed, moved) = minted.transfer(to, s.account_id, liquidity.unwrap());
            let (opened, paid) = handed.burn(sender, to);
            &&& minted.lp.supply == liquidity.unwrap() + MINIMUM_LIQUIDITY
            &&& minted.reserve_0 == x && minted.reserve_1 == y
            &&& moved is Ok
            &&& handed.lp.balances[s.account_id] <= minted.lp.supply
            &&& paid is Ok ==> {
                &&& paid.unwrap().0 <= x
                &&& paid.unwrap().1 <= y
                &&& paid.unwrap().0 == handed.lp.balances[s.account_id] * x / (
                minted.lp.supply as int)
                &&& paid.unwrap().1 == handed.lp.balances[s.account_id] * y / (
                minted.lp.supply as int)
            }
        }),
{
    let (minted, liquidity) = s.mint(sender, to, x, y);
    let (handed, moved) = minted.transfer(to, s.account_id, liquidity.unwrap());
    let own = handed.lp.balances[s.account_id];
    let supply = minted.lp.supply;
    assert(s.lp.balances[null_account()] == 0);
    assert(s.lp.balances[to] == 0);
    assert(s.lp.balances[s.account_id] == 0);
    assert(own <= supply);
    lemma_share_bounded(own as int, x as int, supply as int);
    lemma_share_bounded(own as int, y as int, supply as int);
}

/// Reentrancy rejection: while an operation is in progress, every message of
/// the pool that takes the lock fails with `ReentrancyGuarded` and changes nothing.
pub proof fn lemma_locked_pool_refuses(
    s: PairState,
    sender: AccountId,
    to: AccountId,
    amount0: u128,
    amount1: u128,
    fee0: u8,
    fee1: u8,
)
    requires
        s.locked(),
    ensures
        s.initialize(sender, to) == (s, Err::<(), PairError>(PairError::ReentrancyGuarded)),
        s.mint(sender, to, amount0, amount1) == (
            s,
            Err::<u128, PairError>(PairError::ReentrancyGuarded),
        ),
        s.burn(sender, to) == (s, Err::<(u128, u128), PairError>(PairError::ReentrancyGuarded)),
        s.swap(sender, amount0, amount1, to) == (
            s,
            Err::<(), PairError>(PairError::ReentrancyGuarded),
        ),
        s.skim(amount0, amount1) == (
            s,
            Err::<(u128, u128), PairError>(PairError::ReentrancyGuarded),
        ),
        s.collect_protocol(sender, to) == (
            s,
            Err::<(u128, u128), PairError>(PairError::ReentrancyGuarded),
        ),
        s.sync(amount0, amount1) == (s, Err::<(), PairError>(PairError::ReentrancyGuarded)),
        s.set_fee_protocol(sender, fee0, fee1) == (
            s,
            Err::<(), PairError>(PairError::ReentrancyGuarded),
        ),
{
}

/// Reentrancy rejection, seen from the outer call: a swap that is attempted on
/// the same pool while the payments of an open swap are under way fails with
/// `ReentrancyGuarded`, and the open swap then settles exactly as it would have
/// without the attempt.
pub proof fn lemma_reentrant_swap_changes_nothing(
    s: PairState,
    outer: SwapCall,
    inner: SwapCall,
)
    requires
        s.swap(outer.sender, outer.amount0_out, outer.amount1_out, outer.to).1 is Ok,
    ensures
        ({
            let opened = s.swap(outer.sender, outer.amount0_out, outer.amount1_out, outer.to).0;
            let (after, answer) = opened.swap(
                inner.sender,
                inner.amount0_out,
                inner.amount1_out,
                inner.to,
            );
            &&& answer == Err::<(), PairError>(PairError::ReentrancyGuarded)
            &&& after.settle(outer.outcome) == opened.settle(outer.outcome)
            &&& after.settle(outer.outcome).0 == s.swapped(outer)
        }),
{
}

/// No partial change: a message that fails leaves the pool as it was, and a
/// settlement that fails leaves it as it was before the operation was opened.
/// The lock is released by every settlement.
pub proof fn lemma_failure_changes_nothing(
    s: PairState,
    sender: AccountId,
    to: AccountId,
    amount0: u128,
    amount1: u128,
    fee0: u8,
    fee1: u8,
    outcome: Settlement,
)
    ensures
        s.initialize(sender, to).1 is Err ==> s.initialize(sender, to).0 == s,
        s.mint(sender, to, amount0, amount1).1 is Err ==> s.mint(sender, to, amount0, amount1).0
            == s,
        s.burn(sender, to).1 is Err ==> s.burn(sender, to).0 == s,
        s.swap(sender, amount0, amount1, to).1 is Err ==> s.swap(sender, amount0, amount1, to).0
            == s,
        s.skim(amount0, amount1).1 is Err ==> s.skim(amount0, amount1).0 == s,
        s.collect_protocol(sender, to).1 is Err ==> s.collect_protocol(sender, to).0 == s,
        s.sync(amount0, amount1).1 is Err ==> s.sync(amount0, amount1).0 == s,
        s.set_fee_protocol(sender, fee0, fee1).1 is Err ==> s.set_fee_protocol(
            sender,
            fee0,
            fee1,
        ).0 == s,
        s.transfer(sender, to, amount0).1 is Err ==> s.transfer(sender, to, amount0).0 == s,
        s.transfer_from(sender, sender, to, amount0).1 is Err ==> s.transfer_from(
            sender,
            sender,
            to,
            amount0,
        ).0 == s,
        s.burn(sender, to).1 is Ok ==> s.burn(sender, to).0.unlocked() == s,
        s.swap(sender, amount0, amount1, to).1 is Ok ==> s.swap(
            sender,
            amount0,
            amount1,
            to,
        ).0.unlocked() == s,
        s.skim(amount0, amount1).1 is Ok ==> s.skim(amount0, amount1).0.unlocked() == s,
        s.collect_protocol(sender, to).1 is Ok ==> s.collect_protocol(sender, to).0.unlocked()
            == s,
        !s.locked() ==> s.settle(outcome) == (
            s,
            Err::<(), PairError>(PairError::NothingPending),
        ),
        s.locked() ==> !s.settle(outcome).0.locked(),
        s.locked() && s.settle(outcome).1 is Err ==> s.settle(outcome).0 == s.unlocked(),
{
}

} // verus!
