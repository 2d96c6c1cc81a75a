pub mod store;
pub mod strategy;

use vstd::prelude::*;

use crate::store::LocalStore;
use crate::strategy::LimitStrategy;

verus! {

/// An error that the reference implementations never produce: every function
/// returning `Result<_, NoError>` also promises `r is Ok` in its `ensures`.
#[derive(Debug)]
pub struct NoError;

/// What went wrong during a limit check, tagged by which collaborator failed.
#[derive(Debug)]
pub enum Error<Str, Sto> {
    /// The limiting strategy failed while evaluating the request.
    Strategy(Str),
    /// The state store failed while reading or writing per-key state.
    Store(Sto),
}

/// Orchestrates one store and one strategy: each `limit` call reads the
/// key's state (initializing it if absent), lets the strategy evaluate and
/// update it, writes it back, and returns the decision. The read-check-write
/// sequence is not atomic per key: two overlapping calls for one key may
/// both read the same prior state, and the later write wins.
pub struct Limiter<Store, Strategy> {
    store: Store,
    strategy: Strategy,
}

/// A tag for a builder slot that has not been supplied yet.
pub struct Unset;

/// Two-phase assembly of a `Limiter`: `store` and `strategy` each fill one
/// slot by moving to a new builder type, and `build` exists only once both
/// slots hold types that fit together, so an incomplete limiter cannot be
/// constructed at all.
pub struct LimiterBuilder<Store, Strategy> {
    store: Store,
    strategy: Strategy,
}

impl Limiter<Unset, Unset> {
    /// A builder with neither dependency supplied.
    pub fn builder() -> (b: LimiterBuilder<Unset, Unset>)
        ensures
            b.spec_store() == Unset,
            b.spec_strategy() == Unset,
    {
        LimiterBuilder::new()
    }
}

impl<Store, Strategy> Limiter<Store, Strategy> {
    /// The store this limiter owns.
    pub closed spec fn spec_store(&self) -> Store {
        self.store
    }

    /// The strategy this limiter owns.
    pub closed spec fn spec_strategy(&self) -> Strategy {
        self.strategy
    }
}

impl<Store, Strategy> Limiter<Store, Strategy> where
    Strategy: LimitStrategy,
    Store: LocalStore<Strategy::State>,
 {
    /// The state a `limit` call evaluates for `key`: what the store holds,
    /// or the strategy's initial state as of `init_now` for a key never
    /// stored.
    pub open spec fn spec_prior_state(&self, key: Seq<char>, init_now: u64) -> Strategy::State {
        if self.spec_store().contents().contains_key(key) {
            self.spec_store().contents()[key]
        } else {
            self.spec_strategy().spec_initial_state(init_now)
        }
    }

    /// Checks one request under `key`. On success there are single instants
    /// reported by the strategy's clock (`init_now` when the key's state was
    /// initialized, `now` when it was checked) such that the decision is the
    /// strategy's pure decision on the prior state, and the store now holds
    /// exactly the strategy's updated state under `key`, every other key
    /// untouched. On any failure the store's contents are unchanged, and the
    /// error says which collaborator failed; with components that promise
    /// success, such as the reference store and strategy, the call always
    /// succeeds.
    pub fn limit(&mut self, key: &str) -> (r: Result<bool, Error<Strategy::Error, Store::Error>>)
        ensures
            final(self).spec_strategy() == old(self).spec_strategy(),
            old(self).spec_store().spec_infallible() && old(self).spec_strategy().spec_infallible()
                ==> r is Ok,
            match r {
                Ok(allowed) => exists|init_now: u64, now: u64|
                    #![trigger old(self).spec_strategy().spec_next_state(now, old(self).spec_prior_state(key@, init_now))]
                    {
                        let pre = old(self).spec_prior_state(key@, init_now);
                        &&& allowed == old(self).spec_strategy().spec_decision(now, pre)
                        &&& final(self).spec_store().contents() == old(
                            self,
                        ).spec_store().contents().insert(
                            key@,
                            old(self).spec_strategy().spec_next_state(now, pre),
                        )
                    },
                Err(_) => final(self).spec_store().contents() == old(
                    self,
                ).spec_store().contents(),
            },
    {
        let ghost pre_contents = self.store.contents();
        let ghost mut init_now: u64 = 0;

        let got = self.store.get(key);
        let mut state = match got {
            Ok(Some(s)) => s,
            Ok(None) => self.strategy.initialize_state(),
            Err(e) => {
                return Err(Error::Store(e));
            },
        };
        proof {
            if !pre_contents.contains_key(key@) {
                init_now = choose|n: u64| state == self.strategy.spec_initial_state(n);
            }
            assert(state == self.spec_prior_state(key@, init_now));
        }
        let ghost pre = state;

        let checked = self.strategy.check_limit(&mut state);
        let result = match checked {
            Ok(lr) => lr,
            Err(e) => {
                return Err(Error::Strategy(e));
            },
        };
        let ghost now = choose|n: u64|
            {
                &&& #[trigger] self.strategy.spec_decision(n, pre) == result.spec_allowed()
                &&& state == self.strategy.spec_next_state(n, pre)
                &&& result.spec_metadata() == self.strategy.spec_result_metadata(n, pre)
            };

        match self.store.set(key, state) {
            Ok(_) => {},
            Err(e) => {
                return Err(Error::Store(e));
            },
        }

        let allowed = result.is_allowed();
        proof {
            let p = old(self).spec_prior_state(key@, init_now);
            assert(p == pre);
            assert(allowed == old(self).spec_strategy().spec_decision(now, p));
            assert(self.spec_store().contents() == pre_contents.insert(
                key@,
                old(self).spec_strategy().spec_next_state(now, p),
            ));
        }
        Ok(allowed)
    }
}

impl LimiterBuilder<Unset, Unset> {
    /// A builder with neither dependency supplied.
    pub fn new() -> (b: Self)
        ensures
            b.spec_store() == Unset,
            b.spec_strategy() == Unset,
    {
        LimiterBuilder { store: Unset, strategy: Unset }
    }
}

impl Default for LimiterBuilder<Unset, Unset> {
    /// A builder with neither dependency supplied, as `new` builds it.
    fn default() -> (b: Self)
        ensures
            b.spec_store() == Unset,
            b.spec_strategy() == Unset,
    {
        Self::new()
    }
}

impl<Store, Strategy> LimiterBuilder<Store, Strategy> {
    /// The store supplied so far, or `Unset`.
    pub closed spec fn spec_store(&self) -> Store {
        self.store
    }

    /// The strategy supplied so far, or `Unset`.
    pub closed spec fn spec_strategy(&self) -> Strategy {
        self.strategy
    }

    /// Fills the store slot, keeping whatever strategy was supplied.
    pub fn store<S>(self, store: S) -> (b: LimiterBuilder<S, Strategy>)
        ensures
            b.spec_store() == store,
            b.spec_strategy() == self.spec_strategy(),
    {
        LimiterBuilder { store, strategy: self.strategy }
    }

    /// Fills the strategy slot, keeping whatever store was supplied.
    pub fn strategy<S>(self, strategy: S) -> (b: LimiterBuilder<Store, S>)
        ensures
            b.spec_strategy() == strategy,
            b.spec_store() == self.spec_store(),
    {
        LimiterBuilder { store: self.store, strategy }
    }
}

impl<Store, Strategy> LimiterBuilder<Store, Strategy> where
    Strategy: LimitStrategy,
    Store: LocalStore<Strategy::State>,
 {
    /// Assembles the limiter. Only callable once both slots are filled with
    /// a store and a strategy that agree on the state type: the builder's
    /// types, not a runtime check, enforce completeness.
    pub fn build(self) -> (l: Limiter<Store, Strategy>)
        ensures
            l.spec_store() == self.spec_store(),
            l.spec_strategy() == self.spec_strategy(),
    {
        Limiter { store: self.store, strategy: self.strategy }
    }
}

} // verus!
