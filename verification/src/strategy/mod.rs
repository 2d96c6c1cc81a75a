pub mod clock;
pub mod fixed_window;

use vstd::prelude::*;

verus! {

/// The outcome of one limit check: the allow/deny decision, and optional
/// strategy-defined metadata that never influences the decision itself.
pub struct LimitResult<M> {
    allowed: bool,
    metadata: Option<M>,
}

impl<M> LimitResult<M> {
    /// The decision this result carries.
    pub closed spec fn spec_allowed(&self) -> bool {
        self.allowed
    }

    /// The metadata this result carries, if any.
    pub closed spec fn spec_metadata(&self) -> Option<M> {
        self.metadata
    }

    /// A result that admits the request, with no metadata.
    pub fn allowed() -> (r: Self)
        ensures
            r.spec_allowed(),
            r.spec_metadata() is None,
    {
        Self { allowed: true, metadata: None }
    }

    /// A result that denies the request, with no metadata.
    pub fn disallowed() -> (r: Self)
        ensures
            !r.spec_allowed(),
            r.spec_metadata() is None,
    {
        Self { allowed: false, metadata: None }
    }

    /// The same decision, now carrying `metadata`.
    pub fn with_metadata(self, metadata: M) -> (r: Self)
        ensures
            r.spec_allowed() == self.spec_allowed(),
            r.spec_metadata() == Some(metadata),
    {
        Self { allowed: self.allowed, metadata: Some(metadata) }
    }

    /// Whether the request was admitted.
    pub fn is_allowed(&self) -> (r: bool)
        ensures
            r == self.spec_allowed(),
    {
        self.allowed
    }

    /// The metadata, if the strategy attached any.
    pub fn metadata(&self) -> (r: Option<&M>)
        ensures
            match r {
                Some(m) => self.spec_metadata() == Some(*m),
                None => self.spec_metadata() is None,
            },
    {
        self.metadata.as_ref()
    }
}

/// A pluggable limiting algorithm. A strategy is a pure function of its own
/// configuration, the time a check happens at, and the per-key state: the
/// three spec functions below give that function, and the two executable
/// methods are tied to them. The time of a call is whatever the strategy's
/// clock returned, which no caller can predict, so the contracts quantify
/// over it.
pub trait LimitStrategy: Sized {
    /// The per-key state the strategy persists between checks.
    type State;

    /// A strategy-internal failure. The reference strategy never fails.
    type Error;

    /// Auxiliary information returned with each decision.
    type Metadata;

    /// The state a never-seen key starts from when initialized at time `now`.
    spec fn spec_initial_state(&self, now: u64) -> Self::State;

    /// Whether a request checked at time `now` against state `pre` is allowed.
    spec fn spec_decision(&self, now: u64, pre: Self::State) -> bool;

    /// The state after a request is checked at time `now` against state `pre`,
    /// whether the request was allowed or not.
    spec fn spec_next_state(&self, now: u64, pre: Self::State) -> Self::State;

    /// The metadata attached to a check at time `now` against state `pre`.
    spec fn spec_result_metadata(&self, now: u64, pre: Self::State) -> Option<Self::Metadata>;

    /// Whether this strategy promises success: where this holds, every check
    /// returns `Ok`. It holds of the reference fixed-window strategy; a
    /// policy that can fail leaves it false.
    spec fn spec_infallible(&self) -> bool;

    /// Evaluates one request against `state`, recording the attempt in
    /// `state`. On success, state, decision and metadata are exactly the
    /// strategy's pure functions of some single instant `now`, the time the
    /// strategy's clock reported during the call.
    fn check_limit(&self, state: &mut Self::State) -> (r: Result<
        LimitResult<Self::Metadata>,
        Self::Error,
    >)
        ensures
            self.spec_infallible() ==> r is Ok,
            match r {
                Ok(lr) => exists|now: u64|
                    {
                        &&& #[trigger] self.spec_decision(now, *old(state)) == lr.spec_allowed()
                        &&& *final(state) == self.spec_next_state(now, *old(state))
                        &&& lr.spec_metadata() == self.spec_result_metadata(now, *old(state))
                    },
                Err(_) => true,
            },
    ;

    /// Produces the state for a key that has never been seen, as of the
    /// instant the strategy's clock reported during the call.
    fn initialize_state(&self) -> (s: Self::State)
        ensures
            exists|now: u64| s == #[trigger] self.spec_initial_state(now),
    ;
}

} // verus!
