//! The factory as a state machine over mathematical values: the fee tiers, the
//! registry of pools under their canonical keys, and the owner.

use crate::account::{lemma_account_order_total, null_account, AccountId};
use crate::events::{FactoryEvent, FeeAmountEnabled, OwnerChanged, PoolCreated};
use crate::pair_state::PairError;
use vstd::prelude::*;

verus! {

/// Why the factory refused a message.
#[derive(Clone, Copy, Debug, PartialEq, Eq, Structural)]
pub enum FactoryError {
    /// The new pool refused to be initialized.
    PairError(PairError),
    /// The caller is not the owner.
    Unauthorized,
    /// The lower token of the pair is the null account.
    ZeroAddress,
    /// The two tokens are the same.
    IdenticalAddresses,
    /// The pair already has a pool in this fee tier.
    PairExists,
    /// The fee tier is not enabled.
    TickSpacingIsZero,
    /// A tick spacing must be positive.
    InvalidTickSpacing,
    /// The fee tier is enabled already.
    FeeAlreadyEnabled,
    /// No pool could be deployed, or not at an address of its own.
    PoolInstantiationFailed,
}

/// A pool in the registry: its address, the canonical key it was created for,
/// and its creation index.
#[derive(Clone, Copy, Debug, PartialEq, Eq)]
pub struct PoolRecord {
    pub pool: AccountId,
    pub token_0: AccountId,
    pub token_1: AccountId,
    pub fee: u8,
    pub index: u64,
}

/// The pair in canonical order: the lower token first.
pub open spec fn sorted(token_a: AccountId, token_b: AccountId) -> (AccountId, AccountId) {
    if token_a.spec_lt(&token_b) {
        (token_a, token_b)
    } else {
        (token_b, token_a)
    }
}

/// The state of a factory.
pub struct FactoryState {
    pub owner: AccountId,
    pub pair_contract_code_hash: Seq<u8>,
    /// The tick spacing of every fee tier; zero stands for "not enabled".
    pub tick_spacing: Map<u8, i8>,
    pub pools: Seq<PoolRecord>,
    pub events: Seq<FactoryEvent>,
}

impl FactoryState {
    /// The factory as `owner` creates it: no fee tier, no pool, and the record
    /// of the first owner in the log.
    pub open spec fn created(owner: AccountId, pair_contract_code_hash: Seq<u8>) -> FactoryState {
        FactoryState {
            owner,
            pair_contract_code_hash,
            tick_spacing: Map::new(|fee: u8| true, |fee: u8| 0i8),
            pools: Seq::empty(),
            events: seq![
                FactoryEvent::OwnerChanged(
                    OwnerChanged { old_owner: null_account(), new_owner: owner },
                ),
            ],
        }
    }

    /// The record at `i` is for the canonical key `(low, high, fee)`.
    pub open spec fn key_at(self, i: int, low: AccountId, high: AccountId, fee: u8) -> bool {
        0 <= i < self.pools.len() && self.pools[i].token_0 == low && self.pools[i].token_1 == high
            && self.pools[i].fee == fee
    }

    /// A pool is registered under the canonical key `(low, high, fee)`.
    pub open spec fn registered(self, low: AccountId, high: AccountId, fee: u8) -> bool {
        exists|i: int| self.key_at(i, low, high, fee)
    }

    /// The position of the pool registered under `(low, high, fee)`.
    pub open spec fn index_of(self, low: AccountId, high: AccountId, fee: u8) -> int {
        choose|i: int| self.key_at(i, low, high, fee)
    }

    /// Some registered pool lives at `pool`.
    pub open spec fn address_used(self, pool: AccountId) -> bool {
        exists|i: int| 0 <= i < self.pools.len() && (#[trigger] self.pools[i]).pool == pool
    }

    /// What holds of every state that a factory reaches: the tick spacings are
    /// not negative and each is defined; every pool stands under a canonical key
    /// of an enabled fee tier, at an address of its own that is not null, with
    /// its position as index; and no key has two pools.
    pub open spec fn valid(self) -> bool {
        &&& forall|fee: u8| #[trigger] self.tick_spacing.dom().contains(fee)
        &&& forall|fee: u8| #[trigger] self.tick_spacing[fee] >= 0
        &&& forall|i: int|
            0 <= i < self.pools.len() ==> {
                let p = #[trigger] self.pools[i];
                &&& p.token_0.spec_lt(&p.token_1)
                &&& p.token_0 != null_account()
                &&& p.pool != null_account()
                &&& self.tick_spacing[p.fee] > 0
                &&& p.index == i
            }
        &&& forall|i: int, j: int|
            0 <= i < j < self.pools.len() ==> {
                let p = #[trigger] self.pools[i];
                let q = #[trigger] self.pools[j];
                p.pool != q.pool && !(p.token_0 == q.token_0 && p.token_1 == q.token_1 && p.fee
                    == q.fee)
            }
    }

    /// `fee_amount_tick_spacing`: the tick spacing of a fee tier, zero where it is not enabled.
    pub open spec fn fee_amount_tick_spacing(self, fee: u8) -> i8 {
        self.tick_spacing[fee]
    }

    /// `get_pool`: the pool of the pair in the fee tier, whichever token is named first.
    pub open spec fn get_pool(self, token_a: AccountId, token_b: AccountId, fee: u8) -> Option<
        AccountId,
    > {
        let (low, high) = sorted(token_a, token_b);
        if self.registered(low, high, fee) {
            Some(self.pools[self.index_of(low, high, fee)].pool)
        } else {
            None
        }
    }

    /// `enable_fee_amount`: the owner enables the fee tier with a positive tick spacing, once.
    pub open spec fn enable_fee_amount(self, caller: AccountId, fee: u8, tick_spacing: i8) -> (
        FactoryState,
        Result<(), FactoryError>,
    ) {
        if caller != self.owner {
            (self, Err(FactoryError::Unauthorized))
        } else if tick_spacing <= 0 {
            (self, Err(FactoryError::InvalidTickSpacing))
        } else if self.tick_spacing[fee] != 0 {
            (self, Err(FactoryError::FeeAlreadyEnabled))
        } else {
            (
                FactoryState {
                    tick_spacing: self.tick_spacing.insert(fee, tick_spacing),
                    events: self.events.push(
                        FactoryEvent::FeeAmountEnabled(
                            FeeAmountEnabled { fee, tickspacing: tick_spacing },
                        ),
                    ),
                    ..self
                },
                Ok(()),
            )
        }
    }

    /// `set_owner`: the owner hands the factory to `new_owner`.
    pub open spec fn set_owner(self, caller: AccountId, new_owner: AccountId) -> (
        FactoryState,
        Result<(), FactoryError>,
    ) {
        if caller != self.owner {
            (self, Err(FactoryError::Unauthorized))
        } else {
            (
                FactoryState {
                    owner: new_owner,
                    events: self.events.push(
                        FactoryEvent::OwnerChanged(
                            OwnerChanged { old_owner: self.owner, new_owner },
                        ),
                    ),
                    ..self
                },
                Ok(()),
            )
        }
    }

    /// The checks that come before a pool is deployed. They give the canonical
    /// pair and the tick spacing of the fee tier, or the reason to refuse.
    pub open spec fn check_pool(self, token_a: AccountId, token_b: AccountId, fee: u8) -> Result<
        (AccountId, AccountId, i8),
        FactoryError,
    > {
        let (low, high) = sorted(token_a, token_b);
        if token_a == token_b {
            Err(FactoryError::IdenticalAddresses)
        } else if low == null_account() {
            Err(FactoryError::ZeroAddress)
        } else if self.registered(low, high, fee) {
            Err(FactoryError::PairExists)
        } else if self.tick_spacing[fee] == 0 {
            Err(FactoryError::TickSpacingIsZero)
        } else {
            Ok((low, high, self.tick_spacing[fee]))
        }
    }

    /// The state with a pool at `pool` registered under `(low, high, fee)`, and
    /// the record of its creation in the log.
    pub open spec fn with_pool(
        self,
        low: AccountId,
        high: AccountId,
        fee: u8,
        tick_spacing: i8,
        pool: AccountId,
    ) -> FactoryState {
        FactoryState {
            pools: self.pools.push(
                PoolRecord { pool, token_0: low, token_1: high, fee, index: self.pools.len() as u64 },
            ),
            events: self.events.push(
                FactoryEvent::PoolCreated(
                    PoolCreated {
                        token_0: low,
                        token_1: high,
                        fee,
                        tickspacing: tick_spacing,
                        pool,
                        pool_len: (self.pools.len() + 1) as u64,
                    },
                ),
            ),
            ..self
        }
    }

    /// `create_pool`, given what became of the deployment: the checks, then the
    /// deployment's own failure, then the registration. A pool that came up at
    /// the null account or at the address of another pool counts as not deployed,
    /// and so does one for which the registry has no creation index left.
    pub open spec fn create_pool(
        self,
        token_a: AccountId,
        token_b: AccountId,
        fee: u8,
        deployed: Result<AccountId, FactoryError>,
    ) -> (FactoryState, Result<AccountId, FactoryError>) {
        match self.check_pool(token_a, token_b, fee) {
            Err(e) => (self, Err(e)),
            Ok((low, high, tick_spacing)) => match deployed {
                Err(e) => (self, Err(e)),
                Ok(pool) => if pool == null_account() || self.address_used(pool)
                    || self.pools.len() >= u64::MAX {
                    (self, Err(FactoryError::PoolInstantiationFailed))
                } else {
                    (self.with_pool(low, high, fee, tick_spacing, pool), Ok(pool))
                },
            },
        }
    }
}

/// The canonical order of a pair does not depend on which token is named first.
pub proof fn lemma_sorted_symmetric(token_a: AccountId, token_b: AccountId)
    ensures
        sorted(token_a, token_b) == sorted(token_b, token_a),
        token_a != token_b ==> sorted(token_a, token_b).0.spec_lt(&sorted(token_a, token_b).1),
{
    lemma_account_order_total(token_a, token_b);
}

/// In a valid state the pool of a registered key is the one at any position that holds the key.
pub proof fn lemma_registered_at(s: FactoryState, i: int, low: AccountId, high: AccountId, fee: u8)
    requires
        s.valid(),
        s.key_at(i, low, high, fee),
    ensures
        s.registered(low, high, fee),
        s.index_of(low, high, fee) == i,
{
    let j = s.index_of(low, high, fee);
    assert(s.key_at(j, low, high, fee));
    if i < j {
        assert(s.pools[i].fee == s.pools[j].fee);
    } else if j < i {
        assert(s.pools[j].fee == s.pools[i].fee);
    }
}

/// Registering a pool under a free key, at a fresh address that is not null,
/// in an enabled fee tier, keeps the state valid.
pub proof fn lemma_with_pool_valid(
    s: FactoryState,
    low: AccountId,
    high: AccountId,
    fee: u8,
    tick_spacing: i8,
    pool: AccountId,
)
    requires
        s.valid(),
        low.spec_lt(&high),
        low != null_account(),
        pool != null_account(),
        !s.address_used(pool),
        !s.registered(low, high, fee),
        s.tick_spacing[fee] > 0,
        s.pools.len() < u64::MAX,
    ensures
        s.with_pool(low, high, fee, tick_spacing, pool).valid(),
{
    let t = s.with_pool(low, high, fee, tick_spacing, pool);
    assert forall|i: int, j: int| 0 <= i < j < t.pools.len() implies {
        let p = #[trigger] t.pools[i];
        let q = #[trigger] t.pools[j];
        p.pool != q.pool && !(p.token_0 == q.token_0 && p.token_1 == q.token_1 && p.fee == q.fee)
    } by {
        if j == s.pools.len() {
            assert(t.pools[i] == s.pools[i]);
            assert(!s.key_at(i, low, high, fee));
        } else {
            assert(t.pools[i] == s.pools[i]);
            assert(t.pools[j] == s.pools[j]);
        }
    }
    assert forall|i: int| 0 <= i < t.pools.len() implies {
        let p = #[trigger] t.pools[i];
        &&& p.token_0.spec_lt(&p.token_1)
        &&& p.token_0 != null_account()
        &&& p.pool != null_account()
        &&& t.tick_spacing[p.fee] > 0
        &&& p.index == i
    } by {
        if i < s.pools.len() {
            assert(t.pools[i] == s.pools[i]);
        }
    }
}

/// `create_pool` keeps a valid state valid, whatever became of the deployment.
pub proof fn lemma_create_pool_valid(
    s: FactoryState,
    token_a: AccountId,
    token_b: AccountId,
    fee: u8,
    deployed: Result<AccountId, FactoryError>,
)
    requires
        s.valid(),
    ensures
        s.create_pool(token_a, token_b, fee, deployed).0.valid(),
        s.create_pool(token_a, token_b, fee, deployed).1 is Err ==> s.create_pool(
            token_a,
            token_b,
            fee,
            deployed,
        ).0 == s,
{
    if s.create_pool(token_a, token_b, fee, deployed).1 is Ok {
        let (low, high, tick_spacing) = s.check_pool(token_a, token_b, fee).unwrap();
        lemma_sorted_symmetric(token_a, token_b);
        lemma_with_pool_valid(s, low, high, fee, tick_spacing, deployed.unwrap());
    }
}

/// Canonical ordering: a pool created for `(A, B, fee)` is what `get_pool`
/// returns for `(B, A, fee)`, and for `(A, B, fee)`.
pub proof fn lemma_created_pool_is_found(
    s: FactoryState,
    token_a: AccountId,
    token_b: AccountId,
    fee: u8,
    deployed: Result<AccountId, FactoryError>,
)
    requires
        s.valid(),
        s.create_pool(token_a, token_b, fee, deployed).1 is Ok,
    ensures
        s.create_pool(token_a, token_b, fee, deployed).0.get_pool(token_b, token_a, fee)
            == Some(s.create_pool(token_a, token_b, fee, deployed).1.unwrap()),
        s.create_pool(token_a, token_b, fee, deployed).0.get_pool(token_a, token_b, fee)
            == Some(s.create_pool(token_a, token_b, fee, deployed).1.unwrap()),
{
    let t = s.create_pool(token_a, token_b, fee, deployed).0;
    let (low, high) = sorted(token_a, token_b);
    lemma_create_pool_valid(s, token_a, token_b, fee, deployed);
    lemma_sorted_symmetric(token_a, token_b);
    assert(t.key_at(s.pools.len() as int, low, high, fee));
    lemma_registered_at(t, s.pools.len() as int, low, high, fee);
}

/// No duplicate pools: once a pair has a pool in a fee tier, `create_pool`
/// fails with `PairExists` for it, whichever token is named first and whatever
/// the deployment would have come to, and changes nothing.
pub proof fn lemma_registered_pair_is_refused(
    s: FactoryState,
    token_a: AccountId,
    token_b: AccountId,
    fee: u8,
    deployed: Result<AccountId, FactoryError>,
)
    requires
        s.valid(),
        s.get_pool(token_a, token_b, fee) is Some,
    ensures
        s.create_pool(token_a, token_b, fee, deployed) == (
            s,
            Err::<AccountId, FactoryError>(FactoryError::PairExists),
        ),
        s.create_pool(token_b, token_a, fee, deployed) == (
            s,
            Err::<AccountId, FactoryError>(FactoryError::PairExists),
        ),
{
    let (low, high) = sorted(token_a, token_b);
    lemma_sorted_symmetric(token_a, token_b);
    lemma_account_order_total(token_a, token_b);
    let i = s.index_of(low, high, fee);
    assert(s.key_at(i, low, high, fee));
    assert(s.pools[i].token_0.spec_lt(&s.pools[i].token_1));
}

/// Fee-tier gating: in a fee tier that is not enabled `create_pool` creates
/// nothing. For two distinct tokens of which the lower is not the null account
/// the error is `TickSpacingIsZero`.
pub proof fn lemma_disabled_fee_is_refused(
    s: FactoryState,
    token_a: AccountId,
    token_b: AccountId,
    fee: u8,
    deployed: Result<AccountId, FactoryError>,
)
    requires
        s.valid(),
        s.fee_amount_tick_spacing(fee) == 0,
    ensures
        s.create_pool(token_a, token_b, fee, deployed).1 is Err,
        s.create_pool(token_a, token_b, fee, deployed).0 == s,
        token_a != token_b && sorted(token_a, token_b).0 != null_account() ==> s.create_pool(
            token_a,
            token_b,
            fee,
            deployed,
        ).1 == Err::<AccountId, FactoryError>(FactoryError::TickSpacingIsZero),
{
    let (low, high) = sorted(token_a, token_b);
    if s.registered(low, high, fee) {
        let i = s.index_of(low, high, fee);
        assert(s.key_at(i, low, high, fee));
        assert(s.tick_spacing[s.pools[i].fee] > 0);
    }
}

/// A message to the factory, with what became of the deployment where it is `create_pool`.
pub enum FactoryCall {
    EnableFeeAmount { caller: AccountId, fee: u8, tick_spacing: i8 },
    SetOwner { caller: AccountId, new_owner: AccountId },
    CreatePool {
        token_a: AccountId,
        token_b: AccountId,
        fee: u8,
        deployed: Result<AccountId, FactoryError>,
    },
}

impl FactoryState {
    /// The state after one message.
    pub open spec fn step(self, call: FactoryCall) -> FactoryState {
        match call {
            FactoryCall::EnableFeeAmount { caller, fee, tick_spacing } => self.enable_fee_amount(
                caller,
                fee,
                tick_spacing,
            ).0,
            FactoryCall::SetOwner { caller, new_owner } => self.set_owner(caller, new_owner).0,
            FactoryCall::CreatePool { token_a, token_b, fee, deployed } => self.create_pool(
                token_a,
                token_b,
                fee,
                deployed,
            ).0,
        }
    }

    /// The state after a sequence of messages, the first of them first.
    pub open spec fn run(self, calls: Seq<FactoryCall>) -> FactoryState
        decreases calls.len(),
    {
        if calls.len() == 0 {
            self
        } else {
            self.run(calls.drop_last()).step(calls.last())
        }
    }
}

/// Every message keeps a valid state valid, and leaves alone the fee tiers
/// that it does not enable.
pub proof fn lemma_step_valid(s: FactoryState, call: FactoryCall)
    requires
        s.valid(),
    ensures
        s.step(call).valid(),
        forall|fee: u8|
            !(call matches FactoryCall::EnableFeeAmount { fee: enabled, .. } && enabled == fee)
                ==> #[trigger] s.step(call).tick_spacing[fee] == s.tick_spacing[fee],
{
    match call {
        FactoryCall::EnableFeeAmount { caller, fee, tick_spacing } => {
            let t = s.enable_fee_amount(caller, fee, tick_spacing).0;
            assert forall|i: int| 0 <= i < t.pools.len() implies t.tick_spacing[(
            #[trigger] t.pools[i]).fee] > 0 by {
                assert(s.tick_spacing[s.pools[i].fee] > 0);
            }
        },
        FactoryCall::SetOwner { caller, new_owner } => {},
        FactoryCall::CreatePool { token_a, token_b, fee, deployed } => {
            lemma_create_pool_valid(s, token_a, token_b, fee, deployed);
        },
    }
}

/// Fee-tier gating over a history: after any messages to a new factory of which
/// none is `enable_fee_amount` for `fee`, the fee tier is not enabled, and
/// `create_pool` in it creates nothing.
pub proof fn lemma_never_enabled_fee_is_refused(
    owner: AccountId,
    pair_contract_code_hash: Seq<u8>,
    calls: Seq<FactoryCall>,
    fee: u8,
)
    requires
        forall|i: int|
            0 <= i < calls.len() ==> !(#[trigger] calls[i] matches FactoryCall::EnableFeeAmount {
                fee: enabled,
                ..
            } && enabled == fee),
    ensures
        FactoryState::created(owner, pair_contract_code_hash).run(calls).valid(),
        FactoryState::created(owner, pair_contract_code_hash).run(calls).fee_amount_tick_spacing(
            fee,
        ) == 0,
        forall|token_a: AccountId, token_b: AccountId, deployed: Result<AccountId, FactoryError>|
            (#[trigger] FactoryState::created(owner, pair_contract_code_hash).run(
                calls,
            ).create_pool(token_a, token_b, fee, deployed)).1 is Err,
    decreases calls.len(),
{
    let start = FactoryState::created(owner, pair_contract_code_hash);
    if calls.len() > 0 {
        lemma_never_enabled_fee_is_refused(owner, pair_contract_code_hash, calls.drop_last(), fee);
        lemma_step_valid(start.run(calls.drop_last()), calls.last());
    }
    let end = start.run(calls);
    assert forall|token_a: AccountId, token_b: AccountId, deployed: Result<AccountId, FactoryError>|
        (#[trigger] end.create_pool(token_a, token_b, fee, deployed)).1 is Err by {
        lemma_disabled_fee_is_refused(end, token_a, token_b, fee, deployed);
    }
}

} // verus!
