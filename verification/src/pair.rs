//! A pool: two token reserves and the liquidity token that is a claim on them.

use crate::account::{null_account, AccountId};
use crate::events::{Burn, CollectProtocol, Mint, PairEvent, SetFeeProtocol, Swap, Sync, Transfer};
use crate::pair_state::{
    capped, excess, k_holds, lemma_share_bounded, protocol_share, sqrt_floor, PairError, PairState,
    Phase, Settlement, MINIMUM_LIQUIDITY,
};
use crate::psp22::{PSP22Error, Psp22Data, Psp22State};
use crate::wide::{is_sqrt_of, lemma_sqrt_unique, mul_div, mul_wide, sqrt_product, Quad, Wide};
use vstd::prelude::*;

verus! {

/// A pool of two tokens.
#[derive(Debug)]
pub struct PairContract {
    psp22: Psp22Data,
    ownable: AccountId,
    guard: Phase,
    account_id: AccountId,
    factory: AccountId,
    token_0: AccountId,
    token_1: AccountId,
    initialized: bool,
    reserve_0: u128,
    reserve_1: u128,
    fee_protocol0: u8,
    fee_protocol1: u8,
    fee_growth_protocol0: u128,
    fee_growth_protocol1: u128,
    events: Vec<PairEvent>,
}

impl View for PairContract {
    type V = PairState;

    closed spec fn view(&self) -> PairState {
        PairState {
            account_id: self.account_id,
            factory: self.factory,
            owner: self.ownable,
            token_0: self.token_0,
            token_1: self.token_1,
            initialized: self.initialized,
            reserve_0: self.reserve_0,
            reserve_1: self.reserve_1,
            lp: self.psp22@,
            fee_protocol0: self.fee_protocol0,
            fee_protocol1: self.fee_protocol1,
            fee_growth_protocol0: self.fee_growth_protocol0,
            fee_growth_protocol1: self.fee_growth_protocol1,
            phase: self.guard,
            events: self.events@,
        }
    }
}

/// The integer square root is the number that `is_sqrt_of` describes.
pub proof fn lemma_sqrt_floor(r: int, n: int)
    requires
        is_sqrt_of(r, n),
    ensures
        sqrt_floor(n) == r,
{
    lemma_sqrt_unique(r, sqrt_floor(n), n);
}

/// By how much `balance` exceeds `base`, zero where it does not.
fn excess_of(balance: u128, base: u128) -> (r: u128)
    ensures
        r == excess(balance as int, base as int),
{
    if balance > base {
        balance - base
    } else {
        0
    }
}

/// The swap check on balances, inputs and reserves.
fn k_check(balance0: u128, balance1: u128, in0: u128, in1: u128, reserve0: u128, reserve1: u128)
    -> (r: bool)
    requires
        in0 <= balance0,
        in1 <= balance1,
    ensures
        r == k_holds(
            balance0 as int,
            balance1 as int,
            in0 as int,
            in1 as int,
            reserve0 as int,
            reserve1 as int,
        ),
{
    let gross0: Wide = mul_wide(1000, balance0);
    let fee0: Wide = mul_wide(3, in0);
    let gross1: Wide = mul_wide(1000, balance1);
    let fee1: Wide = mul_wide(3, in1);
    let adjusted0: Wide = gross0.minus(&fee0);
    let adjusted1: Wide = gross1.minus(&fee1);
    let left: Quad = adjusted0.times(&adjusted1);
    let product: Wide = mul_wide(reserve0, reserve1);
    let scale: Wide = Wide::from_u128(1_000_000);
    let right: Quad = scale.times(&product);
    right.le(&left)
}

/// The protocol's part of the fee on `amount_in`.
fn protocol_share_of(amount_in: u128, fee_protocol: u8) -> (r: u128)
    ensures
        r == protocol_share(amount_in as int, fee_protocol),
{
    if fee_protocol == 0 {
        0
    } else {
        let fee: u128 = amount_in / 1000 * 3 + (amount_in % 1000) * 3 / 1000;
        fee / (fee_protocol as u128)
    }
}

/// The sum of an accrual and a share, held at the largest 128-bit number.
fn accrued(growth: u128, share: u128) -> (r: u128)
    ensures
        r == capped(growth + share),
{
    if share > u128::MAX - growth {
        u128::MAX
    } else {
        growth + share
    }
}

impl PairState {
    /// The state of a pool that `caller` has just created at `account_id`.
    pub open spec fn created(caller: AccountId, account_id: AccountId) -> PairState {
        PairState {
            account_id,
            factory: caller,
            owner: caller,
            token_0: null_account(),
            token_1: null_account(),
            initialized: false,
            reserve_0: 0,
            reserve_1: 0,
            lp: Psp22State::empty(),
            fee_protocol0: 0,
            fee_protocol1: 0,
            fee_growth_protocol0: 0,
            fee_growth_protocol1: 0,
            phase: Phase::Idle,
            events: Seq::empty(),
        }
    }
}

impl PairContract {
    /// The liquidity token is well formed, and an operation in progress asks
    /// for no more than the reserves hold.
    pub closed spec fn wf(&self) -> bool {
        &&& self.psp22.wf()
        &&& match self.guard {
            Phase::Swap { amount0_out, amount1_out, .. } => amount0_out <= self.reserve_0
                && amount1_out <= self.reserve_1,
            Phase::Collect { amount0, amount1, .. } => amount0 <= self.reserve_0 && amount1
                <= self.reserve_1,
            _ => true,
        }
    }

    /// The state of a well-formed pool is valid.
    pub proof fn lemma_valid(&self)
        requires
            self.wf(),
        ensures
            self@.valid(),
    {
        self.psp22.lemma_wf();
    }

    /// A pool at `account_id`, created and owned by `caller`, with no tokens set,
    /// empty reserves and no liquidity.
    pub fn new(caller: AccountId, account_id: AccountId) -> (r: PairContract)
        ensures
            r.wf(),
            r@ == PairState::created(caller, account_id),
    {
        PairContract {
            psp22: Psp22Data::new(),
            ownable: caller,
            guard: Phase::Idle,
            account_id,
            factory: caller,
            token_0: AccountId::zero(),
            token_1: AccountId::zero(),
            initialized: false,
            reserve_0: 0,
            reserve_1: 0,
            fee_protocol0: 0,
            fee_protocol1: 0,
            fee_growth_protocol0: 0,
            fee_growth_protocol1: 0,
            events: Vec::new(),
        }
    }

    /// The pool's own account.
    pub fn account_id(&self) -> (r: AccountId)
        ensures
            r == self@.account_id,
    {
        self.account_id
    }

    /// The account that created the pool.
    pub fn factory(&self) -> (r: AccountId)
        ensures
            r == self@.factory,
    {
        self.factory
    }

    /// The account that may set and collect the protocol fee.
    pub fn owner(&self) -> (r: AccountId)
        ensures
            r == self@.owner,
    {
        self.ownable
    }

    /// The first token of the pair.
    pub fn token_0(&self) -> (r: AccountId)
        ensures
            r == self@.token_0,
    {
        self.token_0
    }

    /// The second token of the pair.
    pub fn token_1(&self) -> (r: AccountId)
        ensures
            r == self@.token_1,
    {
        self.token_1
    }

    /// The synced reserves.
    pub fn get_reserves(&self) -> (r: (u128, u128))
        ensures
            r == (self@.reserve_0, self@.reserve_1),
    {
        (self.reserve_0, self.reserve_1)
    }

    /// The protocol's share of the fee on each token, as a divisor; zero is none.
    pub fn fee_protocol(&self) -> (r: (u8, u8))
        ensures
            r == (self@.fee_protocol0, self@.fee_protocol1),
    {
        (self.fee_protocol0, self.fee_protocol1)
    }

    /// The protocol fees accrued and not yet collected.
    pub fn protocol_fees(&self) -> (r: (u128, u128))
        ensures
            r == (self@.fee_growth_protocol0, self@.fee_growth_protocol1),
    {
        (self.fee_growth_protocol0, self.fee_growth_protocol1)
    }

    /// The operation in progress.
    pub fn phase(&self) -> (r: Phase)
        ensures
            r == self@.phase,
    {
        self.guard
    }

    /// Whether an operation is in progress.
    pub fn is_locked(&self) -> (r: bool)
        ensures
            r == self@.locked(),
    {
        match self.guard {
            Phase::Idle => false,
            _ => true,
        }
    }

    /// The records emitted so far, oldest first.
    pub fn events(&self) -> (r: &Vec<PairEvent>)
        ensures
            r@ == self@.events,
    {
        &self.events
    }

    /// The liquidity units in existence.
    pub fn total_supply(&self) -> (r: u128)
        ensures
            r == self@.lp.supply,
    {
        self.psp22.total_supply()
    }

    /// The liquidity units that `who` holds.
    pub fn balance_of(&self, who: AccountId) -> (r: u128)
        requires
            self.wf(),
        ensures
            r == self@.lp.balances[who],
    {
        self.psp22.balance_of(&who)
    }

    /// The liquidity units that `spender` may move out of the account of `owner`.
    pub fn allowance(&self, owner: AccountId, spender: AccountId) -> (r: u128)
        requires
            self.wf(),
        ensures
            r == self@.lp.allowances[(owner, spender)],
    {
        self.psp22.allowance(&owner, &spender)
    }

    fn _emit_transfer_event(&mut self, from: Option<AccountId>, to: Option<AccountId>, amount: u128)
        requires
            old(self).wf(),
        ensures
            final(self).wf(),
            final(self)@ == old(self)@.emitted(
                PairEvent::Transfer(Transfer { from, to, value: amount }),
            ),
    {
        self.events.push(PairEvent::Transfer(Transfer { from, to, value: amount }));
    }

    fn _emit_mint_event(&mut self, sender: AccountId, amount_0: u128, amount_1: u128)
        requires
            old(self).wf(),
        ensures
            final(self).wf(),
            final(self)@ == old(self)@.emitted(PairEvent::Mint(Mint { sender, amount_0, amount_1 })),
    {
        self.events.push(PairEvent::Mint(Mint { sender, amount_0, amount_1 }));
    }

    fn _emit_burn_event(&mut self, sender: AccountId, amount_0: u128, amount_1: u128, to: AccountId)
        requires
            old(self).wf(),
        ensures
            final(self).wf(),
            final(self)@ == old(self)@.emitted(
                PairEvent::Burn(Burn { sender, amount_0, amount_1, to }),
            ),
    {
        self.events.push(PairEvent::Burn(Burn { sender, amount_0, amount_1, to }));
    }

    fn _emit_swap_event(
        &mut self,
        sender: AccountId,
        amount_0_in: u128,
        amount_1_in: u128,
        amount_0_out: u128,
        amount_1_out: u128,
        to: AccountId,
    )
        requires
            old(self).wf(),
        ensures
            final(self).wf(),
            final(self)@ == old(self)@.emitted(
                PairEvent::Swap(
                    Swap { sender, amount_0_in, amount_1_in, amount_0_out, amount_1_out, to },
                ),
            ),
    {
        self.events.push(
            PairEvent::Swap(
                Swap { sender, amount_0_in, amount_1_in, amount_0_out, amount_1_out, to },
            ),
        );
    }

    fn _emit_sync_event(&mut self, reserve_0: u128, reserve_1: u128)
        requires
            old(self).wf(),
        ensures
            final(self).wf(),
            final(self)@ == old(self)@.emitted(PairEvent::Sync(Sync { reserve_0, reserve_1 })),
    {
        self.events.push(PairEvent::Sync(Sync { reserve_0, reserve_1 }));
    }

    /// Sets the reserves and logs the `Sync` record. No operation may be in progress.
    fn _update(&mut self, balance0: u128, balance1: u128)
        requires
            old(self).wf(),
            !old(self)@.locked(),
        ensures
            final(self).wf(),
            final(self)@ == old(self)@.updated(balance0, balance1),
    {
        self.reserve_0 = balance0;
        self.reserve_1 = balance1;
        self._emit_sync_event(balance0, balance1);
    }

    /// Issues `amount` new liquidity units to `account`. The null account is no exception.
    fn _mint_to(&mut self, account: AccountId, amount: u128) -> (r: Result<(), PSP22Error>)
        requires
            old(self).wf(),
            old(self)@.lp.supply + amount <= u128::MAX,
        ensures
            final(self).wf(),
            r is Ok,
            final(self)@ == old(self)@.lp_minted(account, amount),
    {
        let _ = self.psp22.credit(account, amount);
        self._emit_transfer_event(None, Some(account), amount);
        Ok(())
    }

    /// Destroys `amount` liquidity units of `account`, which must hold as many.
    fn _burn_from(&mut self, account: AccountId, amount: u128) -> (r: Result<(), PSP22Error>)
        requires
            old(self).wf(),
        ensures
            final(self).wf(),
            old(self)@.lp.balances[account] < amount ==> r == Err::<(), PSP22Error>(
                PSP22Error::InsufficientBalance,
            ) && final(self)@ == old(self)@,
            old(self)@.lp.balances[account] >= amount ==> r is Ok && final(self)@ == old(
                self,
            )@.lp_burned(account, amount),
    {
        match self.psp22.debit(account, amount) {
            Ok(()) => {
                self._emit_transfer_event(Some(account), None, amount);
                Ok(())
            },
            Err(e) => Err(e),
        }
    }

    /// Records that `owner` allows `spender` to move `amount` liquidity units.
    fn _approve_from_to(&mut self, owner: AccountId, spender: AccountId, amount: u128) -> (r:
        Result<(), PSP22Error>)
        requires
            old(self).wf(),
        ensures
            final(self).wf(),
            r is Ok,
            final(self)@ == old(self)@.approve(owner, spender, amount),
    {
        self.psp22.set_allowance(owner, spender, amount)
    }

    /// Moves `amount` liquidity units from `from` to `to`; `from` must hold as many.
    fn _transfer_from_to(&mut self, from: AccountId, to: AccountId, amount: u128) -> (r: Result<
        (),
        PSP22Error,
    >)
        requires
            old(self).wf(),
        ensures
            final(self).wf(),
            (final(self)@, r) == old(self)@.transfer(from, to, amount),
    {
        match self.psp22.move_units(from, to, amount) {
            Ok(()) => {
                self._emit_transfer_event(Some(from), Some(to), amount);
                Ok(())
            },
            Err(e) => Err(e),
        }
    }

    /// `caller` sends `value` liquidity units to `to`.
    pub fn transfer(&mut self, caller: AccountId, to: AccountId, value: u128) -> (r: Result<
        (),
        PSP22Error,
    >)
        requires
            old(self).wf(),
        ensures
            final(self).wf(),
            (final(self)@, r) == old(self)@.transfer(caller, to, value),
    {
        self._transfer_from_to(caller, to, value)
    }

    /// `caller` allows `spender` to move `value` liquidity units, in place of any
    /// earlier allowance.
    pub fn approve(&mut self, caller: AccountId, spender: AccountId, value: u128) -> (r: Result<
        (),
        PSP22Error,
    >)
        requires
            old(self).wf(),
        ensures
            final(self).wf(),
            r is Ok,
            final(self)@ == old(self)@.approve(caller, spender, value),
    {
        self._approve_from_to(caller, spender, value)
    }

    /// `caller` sends `value` liquidity units of `from` to `to`. It must be allowed
    /// as many; an allowance of `u128::MAX` is unlimited and is never reduced.
    pub fn transfer_from(&mut self, caller: AccountId, from: AccountId, to: AccountId, value: u128)
        -> (r: Result<(), PSP22Error>)
        requires
            old(self).wf(),
        ensures
            final(self).wf(),
            (final(self)@, r) == old(self)@.transfer_from(caller, from, to, value),
    {
        let allowance: u128 = self.allowance(from, caller);
        if allowance != u128::MAX && allowance < value {
            return Err(PSP22Error::InsufficientAllowance);
        }
        if self.balance_of(from) < value {
            return Err(PSP22Error::InsufficientBalance);
        }
        if allowance != u128::MAX {
            let _ = self._approve_from_to(from, caller, allowance - value);
        }
        self._transfer_from_to(from, to, value)
    }

    /// Fixes the two tokens of the pool. This works once, and only while no
    /// liquidity exists.
    pub fn initialize(&mut self, token_0: AccountId, token_1: AccountId) -> (r: Result<
        (),
        PairError,
    >)
        requires
            old(self).wf(),
        ensures
            final(self).wf(),
            (final(self)@, r) == old(self)@.initialize(token_0, token_1),
    {
        if self.is_locked() {
            return Err(PairError::ReentrancyGuarded);
        }
        if self.initialized || self.psp22.total_supply() > 0 {
            return Err(PairError::AlreadyInitialized);
        }
        self.token_0 = token_0;
        self.token_1 = token_1;
        self.initialized = true;
        Ok(())
    }

    /// Issues liquidity to `to` for the deposit that `balance0` and `balance1`,
    /// the pool's token balances, show over the reserves, and syncs the reserves
    /// to them. Returns the liquidity issued.
    pub fn mint(&mut self, sender: AccountId, to: AccountId, balance0: u128, balance1: u128) -> (r:
        Result<u128, PairError>)
        requires
            old(self).wf(),
        ensures
            final(self).wf(),
            (final(self)@, r) == old(self)@.mint(sender, to, balance0, balance1),
    {
        if self.is_locked() {
            return Err(PairError::ReentrancyGuarded);
        }
        let amount0: u128 = excess_of(balance0, self.reserve_0);
        let amount1: u128 = excess_of(balance1, self.reserve_1);
        let supply: u128 = self.psp22.total_supply();
        let liquidity: u128;
        if supply == 0 {
            let root: u128 = sqrt_product(amount0, amount1);
            proof {
                lemma_sqrt_floor(root as int, amount0 * amount1);
            }
            if root <= MINIMUM_LIQUIDITY {
                return Err(PairError::InsufficientLiquidityMinted);
            }
            liquidity = root - MINIMUM_LIQUIDITY;
            let _ = self._mint_to(AccountId::zero(), MINIMUM_LIQUIDITY);
        } else {
            if self.reserve_0 == 0 || self.reserve_1 == 0 {
                return Err(PairError::InsufficientLiquidityMinted);
            }
            let share0: Option<u128> = mul_div(amount0, supply, self.reserve_0);
            let share1: Option<u128> = mul_div(amount1, supply, self.reserve_1);
            let share: Option<u128> = match (share0, share1) {
                (Some(x), Some(y)) => Some(if x <= y {
                    x
                } else {
                    y
                }),
                (Some(x), None) => Some(x),
                (None, Some(y)) => Some(y),
                (None, None) => None,
            };
            match share {
                None => {
                    return Err(PairError::Overflow);
                },
                Some(l) => {
                    if l == 0 {
                        return Err(PairError::InsufficientLiquidityMinted);
                    }
                    if l > u128::MAX - supply {
                        return Err(PairError::Overflow);
                    }
                    liquidity = l;
                },
            }
        }
        let _ = self._mint_to(to, liquidity);
        self._update(balance0, balance1);
        self._emit_mint_event(sender, amount0, amount1);
        Ok(liquidity)
    }

    /// Opens a burn of the liquidity that the pool's own account holds. Returns
    /// the amounts of the two tokens to pay to `to`; `settle` then finishes the burn.
    pub fn burn(&mut self, sender: AccountId, to: AccountId) -> (r: Result<(u128, u128), PairError>)
        requires
            old(self).wf(),
        ensures
            final(self).wf(),
            (final(self)@, r) == old(self)@.burn(sender, to),
    {
        if self.is_locked() {
            return Err(PairError::ReentrancyGuarded);
        }
        let liquidity: u128 = self.psp22.balance_of(&self.account_id);
        let supply: u128 = self.psp22.total_supply();
        if supply == 0 {
            return Err(PairError::InsufficientLiquidityBurned);
        }
        proof {
            lemma_share_bounded(liquidity as int, self.reserve_0 as int, supply as int);
            lemma_share_bounded(liquidity as int, self.reserve_1 as int, supply as int);
        }
        let amount0: u128 = match mul_div(liquidity, self.reserve_0, supply) {
            Some(a) => a,
            None => 0,
        };
        let amount1: u128 = match mul_div(liquidity, self.reserve_1, supply) {
            Some(a) => a,
            None => 0,
        };
        if amount0 == 0 || amount1 == 0 {
            return Err(PairError::InsufficientLiquidityBurned);
        }
        self.guard = Phase::Burn { sender, to, liquidity, amount0, amount1 };
        Ok((amount0, amount1))
    }

    /// Opens a swap. The outputs are to be paid to `to`; `settle` then checks
    /// what was paid in against them and finishes the swap.
    pub fn swap(&mut self, sender: AccountId, amount0_out: u128, amount1_out: u128, to: AccountId)
        -> (r: Result<(), PairError>)
        requires
            old(self).wf(),
        ensures
            final(self).wf(),
            (final(self)@, r) == old(self)@.swap(sender, amount0_out, amount1_out, to),
    {
        if self.is_locked() {
            return Err(PairError::ReentrancyGuarded);
        }
        if amount0_out == 0 && amount1_out == 0 {
            return Err(PairError::InsufficientOutputAmount);
        }
        if amount0_out > self.reserve_0 || amount1_out > self.reserve_1 {
            return Err(PairError::InsufficientLiquidity);
        }
        if to == self.token_0 || to == self.token_1 {
            return Err(PairError::InvalidTo);
        }
        self.guard = Phase::Swap { sender, to, amount0_out, amount1_out };
        Ok(())
    }

    /// Opens a skim. Returns what `balance0` and `balance1`, the pool's token
    /// balances, exceed the reserves by: the amounts to pay out.
    pub fn skim(&mut self, balance0: u128, balance1: u128) -> (r: Result<(u128, u128), PairError>)
        requires
            old(self).wf(),
        ensures
            final(self).wf(),
            (final(self)@, r) == old(self)@.skim(balance0, balance1),
    {
        if self.is_locked() {
            return Err(PairError::ReentrancyGuarded);
        }
        let amount0: u128 = excess_of(balance0, self.reserve_0);
        let amount1: u128 = excess_of(balance1, self.reserve_1);
        self.guard = Phase::Skim;
        Ok((amount0, amount1))
    }

    /// Opens the collection of the accrued protocol fees by the owner. Returns
    /// the amounts to pay to `recipient`.
    pub fn collect_protocol(&mut self, caller: AccountId, recipient: AccountId) -> (r: Result<
        (u128, u128),
        PairError,
    >)
        requires
            old(self).wf(),
        ensures
            final(self).wf(),
            (final(self)@, r) == old(self)@.collect_protocol(caller, recipient),
    {
        if self.is_locked() {
            return Err(PairError::ReentrancyGuarded);
        }
        if caller != self.ownable {
            return Err(PairError::Unauthorized);
        }
        if self.fee_growth_protocol0 > self.reserve_0 || self.fee_growth_protocol1
            > self.reserve_1 {
            return Err(PairError::InsufficientLiquidity);
        }
        let amount0: u128 = self.fee_growth_protocol0;
        let amount1: u128 = self.fee_growth_protocol1;
        self.guard = Phase::Collect { sender: caller, recipient, amount0, amount1 };
        Ok((amount0, amount1))
    }

    /// Finishes the operation in progress, given what became of its payments,
    /// and releases the lock. Where a payment failed or the balances do not pass
    /// the operation's check, the pool is as it was before the operation.
    pub fn settle(&mut self, outcome: Settlement) -> (r: Result<(), PairError>)
        requires
            old(self).wf(),
        ensures
            final(self).wf(),
            (final(self)@, r) == old(self)@.settle(outcome),
    {
        let phase: Phase = self.guard;
        match phase {
            Phase::Idle => {
                return Err(PairError::NothingPending);
            },
            _ => {},
        }
        self.guard = Phase::Idle;
        let (balance0, balance1): (u128, u128) = match outcome {
            Settlement::Failed => {
                return Err(PairError::TransferFailed);
            },
            Settlement::Paid { balance0, balance1 } => (balance0, balance1),
        };
        match phase {
            Phase::Idle => Ok(()),
            Phase::Skim => Ok(()),
            Phase::Swap { sender, to, amount0_out, amount1_out } => {
                let in0: u128 = excess_of(balance0, self.reserve_0 - amount0_out);
                let in1: u128 = excess_of(balance1, self.reserve_1 - amount1_out);
                if in0 == 0 && in1 == 0 {
                    return Err(PairError::InsufficientInputAmount);
                }
                if !k_check(balance0, balance1, in0, in1, self.reserve_0, self.reserve_1) {
                    return Err(PairError::KInvariantViolation);
                }
                self.fee_growth_protocol0 = accrued(
                    self.fee_growth_protocol0,
                    protocol_share_of(in0, self.fee_protocol0),
                );
                self.fee_growth_protocol1 = accrued(
                    self.fee_growth_protocol1,
                    protocol_share_of(in1, self.fee_protocol1),
                );
                self._update(balance0, balance1);
                self._emit_swap_event(sender, in0, in1, amount0_out, amount1_out, to);
                Ok(())
            },
            Phase::Burn { sender, to, liquidity, amount0, amount1 } => {
                let own: AccountId = self.account_id;
                match self._burn_from(own, liquidity) {
                    Err(e) => Err(PairError::PSP22Error(e)),
                    Ok(()) => {
                        self._update(balance0, balance1);
                        self._emit_burn_event(sender, amount0, amount1, to);
                        Ok(())
                    },
                }
            },
            Phase::Collect { sender, recipient, amount0, amount1 } => {
                self.fee_growth_protocol0 = 0;
                self.fee_growth_protocol1 = 0;
                let left0: u128 = self.reserve_0 - amount0;
                let left1: u128 = self.reserve_1 - amount1;
                self._update(left0, left1);
                self.events.push(
                    PairEvent::CollectProtocol(
                        CollectProtocol { sender, recipient, amount0, amount1 },
                    ),
                );
                Ok(())
            },
        }
    }

    /// Sets the reserves to `balance0` and `balance1`, the pool's token balances.
    pub fn sync(&mut self, balance0: u128, balance1: u128) -> (r: Result<(), PairError>)
        requires
            old(self).wf(),
        ensures
            final(self).wf(),
            (final(self)@, r) == old(self)@.sync(balance0, balance1),
    {
        if self.is_locked() {
            return Err(PairError::ReentrancyGuarded);
        }
        self._update(balance0, balance1);
        Ok(())
    }

    /// The owner sets the protocol's share of the swap fee on each token: zero
    /// for none, else the divisor of the fee.
    pub fn set_fee_protocol(&mut self, caller: AccountId, fee0: u8, fee1: u8) -> (r: Result<
        (),
        PairError,
    >)
        requires
            old(self).wf(),
        ensures
            final(self).wf(),
            (final(self)@, r) == old(self)@.set_fee_protocol(caller, fee0, fee1),
    {
        if self.is_locked() {
            return Err(PairError::ReentrancyGuarded);
        }
        if caller != self.ownable {
            return Err(PairError::Unauthorized);
        }
        let old0: u8 = self.fee_protocol0;
        let old1: u8 = self.fee_protocol1;
        self.fee_protocol0 = fee0;
        self.fee_protocol1 = fee1;
        self.events.push(
            PairEvent::SetFeeProtocol(
                SetFeeProtocol {
                    fee_protocol0_old: old0,
                    fee_protocol1_old: old1,
                    fee_protocol0_new: fee0,
                    fee_protocol1_new: fee1,
                },
            ),
        );
        Ok(())
    }
}

} // verus!
