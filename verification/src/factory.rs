//! The factory: the registry of fee tiers and of the pools created under them.

use crate::account::{lemma_account_order_total, null_account, AccountId};
use crate::events::{FactoryEvent, FeeAmountEnabled, OwnerChanged, PoolCreated};
use crate::factory_state::{
    lemma_registered_at, lemma_with_pool_valid, sorted, FactoryError, FactoryState, PoolRecord,
};
use crate::pair_state::PairError;
use vstd::prelude::*;

verus! {

/// The BLAKE2b digest of 256 bits of the encoding of `(low, high, fee)`: the 32
/// bytes of `low`, the 32 bytes of `high`, then `fee`.
pub uninterp spec fn blake2x256_encoded(low: Seq<u8>, high: Seq<u8>, fee: u8) -> Seq<u8>;

/// Calls `ink_env::hash_encoded` with the hasher `Blake2x256` on the tuple of
/// the two accounts and the fee. The digest depends on the encoded bytes alone;
/// it is known here only by its name.
#[verifier::external_body]
fn hash_encoded_key(low: &AccountId, high: &AccountId, fee: u8) -> (out: [u8; 32])
    ensures
        out@ == blake2x256_encoded(low@, high@, fee),
{
    let key = (ink_env::AccountId::from(low.bytes), ink_env::AccountId::from(high.bytes), fee);
    let mut out = [0u8; 32];
    ink_env::hash_encoded::<ink_env::hash::Blake2x256, _>(&key, &mut out);
    out
}

impl From<PairError> for FactoryError {
    fn from(error: PairError) -> (r: FactoryError) {
        FactoryError::PairError(error)
    }
}

impl vstd::std_specs::convert::FromSpecImpl<PairError> for FactoryError {
    open spec fn obeys_from_spec() -> bool {
        true
    }

    open spec fn from_spec(error: PairError) -> FactoryError {
        FactoryError::PairError(error)
    }
}

/// What the factory needs from its surroundings to bring a pool into being.
pub trait Internal {
    /// Deploys a pool from the pool code under the given salt and returns its address.
    fn _instantiate_pool(&mut self, salt_bytes: &[u8]) -> (r: Result<AccountId, FactoryError>)
        requires
            salt_bytes@.len() == 32,
    ;

    /// Has the pool at `pool` initialized for the pair `token_0 < token_1`.
    fn _initialize_pool(&mut self, pool: AccountId, token_0: AccountId, token_1: AccountId) -> (r:
        Result<(), PairError>)
    ;
}

/// What a deployment came to: any failure to deploy is `PoolInstantiationFailed`,
/// and a refusal of the new pool to be initialized is handed on.
pub open spec fn deployment_outcome(
    instantiated: Result<AccountId, FactoryError>,
    initialized: Result<(), PairError>,
) -> Result<AccountId, FactoryError> {
    match instantiated {
        Err(_) => Err(FactoryError::PoolInstantiationFailed),
        Ok(pool) => match initialized {
            Err(e) => Err(FactoryError::PairError(e)),
            Ok(()) => Ok(pool),
        },
    }
}

/// The factory's stored data.
#[derive(Debug)]
pub struct Data {
    all_pools: Vec<PoolRecord>,
    owner: AccountId,
    fee_amount_tick_spacing: Vec<i8>,
}

/// The factory.
#[derive(Debug)]
pub struct FactoryContract {
    factory: Data,
    pair_contract_code_hash: [u8; 32],
    events: Vec<FactoryEvent>,
}

impl View for FactoryContract {
    type V = FactoryState;

    closed spec fn view(&self) -> FactoryState {
        FactoryState {
            owner: self.factory.owner,
            pair_contract_code_hash: self.pair_contract_code_hash@,
            tick_spacing: Map::new(
                |fee: u8| true,
                |fee: u8| self.factory.fee_amount_tick_spacing@[fee as int],
            ),
            pools: self.factory.all_pools@,
            events: self.events@,
        }
    }
}

/// Lets the message through for the owner, who alone sets fee tiers and hands the factory on.
pub fn only_fee_setter(instance: &FactoryContract, caller: AccountId) -> (r: Result<
    (),
    FactoryError,
>)
    ensures
        r == (if caller == instance@.owner {
            Ok::<(), FactoryError>(())
        } else {
            Err::<(), FactoryError>(FactoryError::Unauthorized)
        }),
{
    if instance.factory.owner != caller {
        return Err(FactoryError::Unauthorized);
    }
    Ok(())
}

impl FactoryContract {
    /// The table of fee tiers is complete and the state is valid.
    pub closed spec fn wf(&self) -> bool {
        &&& self.factory.fee_amount_tick_spacing@.len() == 256
        &&& self@.valid()
    }

    /// The state of a well-formed factory is valid.
    pub proof fn lemma_valid(&self)
        requires
            self.wf(),
        ensures
            self@.valid(),
    {
    }

    /// A factory owned by `fee_to_setter`, with the code of its pools, no fee
    /// tier and no pool.
    pub fn new(fee_to_setter: AccountId, pair_code_hash: [u8; 32]) -> (r: FactoryContract)
        ensures
            r.wf(),
            r@ == FactoryState::created(fee_to_setter, pair_code_hash@),
    {
        let mut table: Vec<i8> = Vec::new();
        let mut i: usize = 0;
        while i < 256
            invariant
                i <= 256,
                table@.len() == i,
                forall|j: int| 0 <= j < i ==> table@[j] == 0,
            decreases 256 - i,
        {
            table.push(0i8);
            i = i + 1;
        }
        let mut instance = FactoryContract {
            factory: Data {
                all_pools: Vec::new(),
                owner: fee_to_setter,
                fee_amount_tick_spacing: table,
            },
            pair_contract_code_hash: pair_code_hash,
            events: Vec::new(),
        };
        instance._emit_owner_changed(AccountId::zero(), fee_to_setter);
        proof {
            let want = FactoryState::created(fee_to_setter, pair_code_hash@);
            assert(instance@.tick_spacing =~= want.tick_spacing);
            assert(instance@.events =~= want.events);
            assert(instance@.pools =~= want.pools);
        }
        instance
    }

    fn _emit_owner_changed(&mut self, old_owner: AccountId, new_owner: AccountId)
        ensures
            final(self)@ == (FactoryState {
                events: old(self)@.events.push(
                    FactoryEvent::OwnerChanged(OwnerChanged { old_owner, new_owner }),
                ),
                ..old(self)@
            }),
            final(self).factory == old(self).factory,
    {
        self.events.push(FactoryEvent::OwnerChanged(OwnerChanged { old_owner, new_owner }));
    }

    fn _emit_create_pool_event(
        &mut self,
        token_0: AccountId,
        token_1: AccountId,
        fee: u8,
        tick_spacing: i8,
        pool: AccountId,
        pool_len: u64,
    )
        ensures
            final(self)@ == (FactoryState {
                events: old(self)@.events.push(
                    FactoryEvent::PoolCreated(
                        PoolCreated {
                            token_0,
                            token_1,
                            fee,
                            tickspacing: tick_spacing,
                            pool,
                            pool_len,
                        },
                    ),
                ),
                ..old(self)@
            }),
            final(self).factory == old(self).factory,
    {
        self.events.push(
            FactoryEvent::PoolCreated(
                PoolCreated { token_0, token_1, fee, tickspacing: tick_spacing, pool, pool_len },
            ),
        );
    }

    /// The owner.
    pub fn owner(&self) -> (r: AccountId)
        ensures
            r == self@.owner,
    {
        self.factory.owner
    }

    /// The hash of the code that pools are deployed from.
    pub fn pair_contract_code_hash(&self) -> (r: [u8; 32])
        ensures
            r@ == self@.pair_contract_code_hash,
    {
        self.pair_contract_code_hash
    }

    /// The records emitted so far, oldest first.
    pub fn events(&self) -> (r: &Vec<FactoryEvent>)
        ensures
            r@ == self@.events,
    {
        &self.events
    }

    /// The address of the pool with the creation index `pid`.
    pub fn all_pairs(&self, pid: u64) -> (r: Option<AccountId>)
        ensures
            r == (if pid < self@.pools.len() {
                Some(self@.pools[pid as int].pool)
            } else {
                None
            }),
    {
        let n: usize = self.factory.all_pools.len();
        let mut i: usize = 0;
        if pid >= n as u64 {
            return None;
        }
        i = pid as usize;
        Some(self.factory.all_pools[i].pool)
    }

    /// The number of pools created.
    pub fn all_pairs_length(&self) -> (r: u64)
        ensures
            r == self@.pools.len(),
    {
        self.factory.all_pools.len() as u64
    }

    /// The tick spacing of the fee tier, zero where it is not enabled.
    pub fn fee_amount_tick_spacing(&self, fee: u8) -> (r: i8)
        requires
            self.wf(),
        ensures
            r == self@.fee_amount_tick_spacing(fee),
    {
        self.factory.fee_amount_tick_spacing[fee as usize]
    }

    /// The owner enables the fee tier `fee` with the tick spacing `tick_spacing`,
    /// which must be positive. A tier is enabled once and stays as it is.
    pub fn enable_fee_amount(&mut self, caller: AccountId, fee: u8, tick_spacing: i8) -> (r:
        Result<(), FactoryError>)
        requires
            old(self).wf(),
        ensures
            final(self).wf(),
            (final(self)@, r) == old(self)@.enable_fee_amount(caller, fee, tick_spacing),
    {
        match only_fee_setter(self, caller) {
            Err(e) => {
                return Err(e);
            },
            Ok(()) => {},
        }
        if tick_spacing <= 0 {
            return Err(FactoryError::InvalidTickSpacing);
        }
        if self.factory.fee_amount_tick_spacing[fee as usize] != 0 {
            return Err(FactoryError::FeeAlreadyEnabled);
        }
        self.factory.fee_amount_tick_spacing.set(fee as usize, tick_spacing);
        self.events.push(
            FactoryEvent::FeeAmountEnabled(FeeAmountEnabled { fee, tickspacing: tick_spacing }),
        );
        proof {
            let want = old(self)@.enable_fee_amount(caller, fee, tick_spacing).0;
            assert(self@.tick_spacing =~= want.tick_spacing);
            assert(self@ == want);
            assert forall|i: int| 0 <= i < self@.pools.len() implies self@.tick_spacing[(
            #[trigger] self@.pools[i]).fee] > 0 by {
                assert(old(self)@.tick_spacing[old(self)@.pools[i].fee] > 0);
            }
        }
        Ok(())
    }

    /// The owner hands the factory to `new_owner`.
    pub fn set_owner(&mut self, caller: AccountId, new_owner: AccountId) -> (r: Result<
        (),
        FactoryError,
    >)
        requires
            old(self).wf(),
        ensures
            final(self).wf(),
            (final(self)@, r) == old(self)@.set_owner(caller, new_owner),
    {
        match only_fee_setter(self, caller) {
            Err(e) => {
                return Err(e);
            },
            Ok(()) => {},
        }
        let old_owner: AccountId = self.factory.owner;
        self.factory.owner = new_owner;
        self._emit_owner_changed(old_owner, new_owner);
        proof {
            let want = old(self)@.set_owner(caller, new_owner).0;
            assert(self@.tick_spacing =~= want.tick_spacing);
        }
        Ok(())
    }

    /// The position of the pool registered under the canonical key, if there is one.
    fn find_pool(&self, low: &AccountId, high: &AccountId, fee: u8) -> (r: Option<usize>)
        requires
            self.wf(),
        ensures
            match r {
                Some(i) => self@.key_at(i as int, *low, *high, fee) && self@.registered(
                    *low,
                    *high,
                    fee,
                ) && self@.index_of(*low, *high, fee) == i,
                None => !self@.registered(*low, *high, fee),
            },
    {
        let mut i: usize = 0;
        while i < self.factory.all_pools.len()
            invariant
                self.wf(),
                i <= self@.pools.len(),
                self@.pools == self.factory.all_pools@,
                forall|j: int| 0 <= j < i ==> !self@.key_at(j, *low, *high, fee),
            decreases self@.pools.len() - i,
        {
            let record: &PoolRecord = &self.factory.all_pools[i];
            if record.token_0 == *low && record.token_1 == *high && record.fee == fee {
                proof {
                    lemma_registered_at(self@, i as int, *low, *high, fee);
                }
                return Some(i);
            }
            i = i + 1;
        }
        None
    }

    /// Whether some registered pool lives at `pool`.
    fn address_in_use(&self, pool: &AccountId) -> (r: bool)
        ensures
            r == self@.address_used(*pool),
    {
        let mut i: usize = 0;
        while i < self.factory.all_pools.len()
            invariant
                i <= self@.pools.len(),
                self@.pools == self.factory.all_pools@,
                forall|j: int| 0 <= j < i ==> (#[trigger] self@.pools[j]).pool != *pool,
            decreases self@.pools.len() - i,
        {
            if self.factory.all_pools[i].pool == *pool {
                return true;
            }
            i = i + 1;
        }
        false
    }

    /// The pool of the pair in the fee tier, whichever token is named first.
    pub fn get_pool(&self, token_a: AccountId, token_b: AccountId, fee: u8) -> (r: Option<
        AccountId,
    >)
        requires
            self.wf(),
        ensures
            r == self@.get_pool(token_a, token_b, fee),
    {
        let (low, high): (AccountId, AccountId) = if token_a.less_than(&token_b) {
            (token_a, token_b)
        } else {
            (token_b, token_a)
        };
        match self.find_pool(&low, &high, fee) {
            Some(i) => Some(self.factory.all_pools[i].pool),
            None => None,
        }
    }

    /// The checks that come before a pool is deployed: the canonical pair and
    /// the tick spacing of the fee tier, or the reason to refuse.
    pub fn check_pool(&self, token_a: AccountId, token_b: AccountId, fee: u8) -> (r: Result<
        (AccountId, AccountId, i8),
        FactoryError,
    >)
        requires
            self.wf(),
        ensures
            r == self@.check_pool(token_a, token_b, fee),
    {
        if token_a == token_b {
            return Err(FactoryError::IdenticalAddresses);
        }
        let token_pair: (AccountId, AccountId) = if token_a.less_than(&token_b) {
            (token_a, token_b)
        } else {
            (token_b, token_a)
        };
        if token_pair.0.is_zero() {
            return Err(FactoryError::ZeroAddress);
        }
        if self.find_pool(&token_pair.0, &token_pair.1, fee).is_some() {
            return Err(FactoryError::PairExists);
        }
        let tick_spacing: i8 = self.factory.fee_amount_tick_spacing[fee as usize];
        if tick_spacing == 0 {
            return Err(FactoryError::TickSpacingIsZero);
        }
        Ok((token_pair.0, token_pair.1, tick_spacing))
    }

    /// The salt under which the pool of the pair in the fee tier is deployed:
    /// the digest of its canonical key. It is the same whichever token is named first.
    pub fn pool_salt(token_a: AccountId, token_b: AccountId, fee: u8) -> (r: [u8; 32])
        ensures
            r@ == blake2x256_encoded(
                sorted(token_a, token_b).0@,
                sorted(token_a, token_b).1@,
                fee,
            ),
    {
        if token_a.less_than(&token_b) {
            hash_encoded_key(&token_a, &token_b, fee)
        } else {
            hash_encoded_key(&token_b, &token_a, fee)
        }
    }

    /// Creates the pool of the pair in the fee tier, given what became of its
    /// deployment: runs the checks, hands on the deployment's failure, and
    /// registers the pool under its canonical key. Nothing changes on failure.
    pub fn register_pool(
        &mut self,
        token_a: AccountId,
        token_b: AccountId,
        fee: u8,
        deployed: Result<AccountId, FactoryError>,
    ) -> (r: Result<AccountId, FactoryError>)
        requires
            old(self).wf(),
        ensures
            final(self).wf(),
            (final(self)@, r) == old(self)@.create_pool(token_a, token_b, fee, deployed),
    {
        let (low, high, tick_spacing): (AccountId, AccountId, i8) = match self.check_pool(
            token_a,
            token_b,
            fee,
        ) {
            Err(e) => {
                return Err(e);
            },
            Ok(key) => key,
        };
        let pool: AccountId = match deployed {
            Err(e) => {
                return Err(e);
            },
            Ok(pool) => pool,
        };
        let index: usize = self.factory.all_pools.len();
        if pool.is_zero() || self.address_in_use(&pool) || index as u64 >= u64::MAX {
            return Err(FactoryError::PoolInstantiationFailed);
        }
        self.factory.all_pools.push(
            PoolRecord { pool, token_0: low, token_1: high, fee, index: index as u64 },
        );
        let pool_len: u64 = self.factory.all_pools.len() as u64;
        self._emit_create_pool_event(low, high, fee, tick_spacing, pool, pool_len);
        proof {
            lemma_account_order_total(token_a, token_b);
            lemma_with_pool_valid(old(self)@, low, high, fee, tick_spacing, pool);
            let want = old(self)@.with_pool(low, high, fee, tick_spacing, pool);
            assert(self@.tick_spacing =~= want.tick_spacing);
            assert(self@ == want);
        }
        Ok(pool)
    }

    /// Creates the pool of the pair in the fee tier. After the checks, `env`
    /// deploys a pool under the salt of the canonical key and has it initialized
    /// for the pair; the pool is then registered. Nothing changes on failure.
    /// What `env` answers is not known here: the result is that of `register_pool`
    /// for some outcome of the deployment.
    pub fn create_pool<E: Internal>(
        &mut self,
        env: &mut E,
        token_a: AccountId,
        token_b: AccountId,
        fee: u8,
    ) -> (r: Result<AccountId, FactoryError>)
        requires
            old(self).wf(),
        ensures
            final(self).wf(),
            match old(self)@.check_pool(token_a, token_b, fee) {
                Err(e) => r == Err::<AccountId, FactoryError>(e) && final(self)@ == old(self)@,
                Ok(_) => exists|
                    instantiated: Result<AccountId, FactoryError>,
                    initialized: Result<(), PairError>,
                |
                    (final(self)@, r) == old(self)@.create_pool(
                        token_a,
                        token_b,
                        fee,
                        #[trigger] deployment_outcome(instantiated, initialized),
                    ),
            },
    {
        let (low, high): (AccountId, AccountId) = match self.check_pool(token_a, token_b, fee) {
            Err(e) => {
                return Err(e);
            },
            Ok(key) => (key.0, key.1),
        };
        let salt: [u8; 32] = hash_encoded_key(&low, &high, fee);
        let deployed: Result<AccountId, FactoryError> = match env._instantiate_pool(
            salt.as_slice(),
        ) {
            Err(_) => Err(FactoryError::PoolInstantiationFailed),
            Ok(pool) => match env._initialize_pool(pool, low, high) {
                Err(e) => Err(FactoryError::from(e)),
                Ok(()) => Ok(pool),
            },
        };
        proof {
            match deployed {
                Ok(pool) => {
                    assert(deployed == deployment_outcome(
                        Ok::<AccountId, FactoryError>(pool),
                        Ok::<(), PairError>(()),
                    ));
                },
                Err(FactoryError::PairError(e)) => {
                    assert(deployed == deployment_outcome(
                        Ok::<AccountId, FactoryError>(null_account()),
                        Err::<(), PairError>(e),
                    ));
                },
                Err(_) => {
                    assert(deployed == deployment_outcome(
                        Err::<AccountId, FactoryError>(FactoryError::PoolInstantiationFailed),
                        Ok::<(), PairError>(()),
                    ));
                },
            }
        }
        self.register_pool(token_a, token_b, fee, deployed)
    }
}

} // verus!
