use vstd::prelude::*;

use crate::strategy::clock::{Clock, SystemTimeClock};
use crate::strategy::{LimitResult, LimitStrategy};
use crate::NoError;

verus! {

/// The ticks elapsed from `window_start` to `now`. A clock that moved
/// backward (`now < window_start`) reads as a maximal elapse, which forces a
/// window rollover instead of granting unbounded allowance.
pub open spec fn spec_elapsed(window_start: u64, now: u64) -> u64 {
    if now >= window_start {
        (now - window_start) as u64
    } else {
        u64::MAX
    }
}

/// The ticks from `now` until the window that started at `window_start`
/// ends, saturating to `u64::MAX` both when the window end overflows and
/// when `now` already lies past the window end.
pub open spec fn spec_till_next_window(window_duration: u64, window_start: u64, now: u64) -> u64 {
    if window_start + window_duration > u64::MAX {
        u64::MAX
    } else if now <= window_start + window_duration {
        (window_start + window_duration - now) as u64
    } else {
        u64::MAX
    }
}

/// Per-key state of the fixed-window policy: how many requests the current
/// window has seen, and the tick at which that window started.
#[derive(Debug, Clone, Copy)]
pub struct FixedWindowCounterState {
    pub count: u32,
    pub window_start: u64,
}

/// Metadata attached to every fixed-window decision.
#[derive(Debug, Clone, Copy)]
pub struct FixedWindowMetadata {
    /// Ticks remaining until the current window ends and the counter resets.
    pub till_next_window: u64,
}

/// The reference strategy: at most `limit` requests per key within each
/// window of `window_duration` ticks, read on the injected clock `C`.
pub struct FixedWindow<C> {
    window_duration: u64,
    limit: u32,
    clock: C,
}

impl FixedWindow<SystemTimeClock> {
    /// A fixed-window policy of `limit` requests per window of
    /// `window_duration` ticks, bound to the system wall clock.
    pub fn new(window_duration: u64, limit: u32) -> (r: FixedWindow<SystemTimeClock>)
        requires
            window_duration >= 1,
        ensures
            r.spec_window_duration() == window_duration,
            r.spec_limit() == limit,
    {
        FixedWindow { window_duration, limit, clock: SystemTimeClock }
    }
}

impl<C> FixedWindow<C> {
    /// The configured window length in ticks.
    pub closed spec fn spec_window_duration(&self) -> u64 {
        self.window_duration
    }

    /// The configured maximum of admitted requests per window.
    pub closed spec fn spec_limit(&self) -> u32 {
        self.limit
    }

    /// The same policy read on `clock` instead; for tests, which substitute
    /// a controllable clock.
    pub fn with_clock<C2>(self, clock: C2) -> (r: FixedWindow<C2>)
        ensures
            r.spec_window_duration() == self.spec_window_duration(),
            r.spec_limit() == self.spec_limit(),
    {
        FixedWindow { window_duration: self.window_duration, limit: self.limit, clock }
    }
}

impl<C: Clock> FixedWindow<C> {
    /// The state a never-seen key starts from, as of time `now`: an empty
    /// window beginning at `now`.
    pub fn initialize_state_at(&self, now: u64) -> (s: FixedWindowCounterState)
        ensures
            s == self.spec_initial_state(now),
    {
        FixedWindowCounterState { count: 0, window_start: now }
    }

    /// One fixed-window check, evaluated at time `now`: within the current
    /// window a request is admitted while the counter is below the limit;
    /// once the window has elapsed (or the clock moved backward), a new
    /// window starts at `now` with this request counted as its first, and
    /// the request is always admitted. The metadata carries the ticks until
    /// the (updated) window ends.
    pub fn check_limit_at(&self, now: u64, state: &mut FixedWindowCounterState) -> (r:
        LimitResult<FixedWindowMetadata>)
        ensures
            *final(state) == self.spec_next_state(now, *old(state)),
            r.spec_allowed() == self.spec_decision(now, *old(state)),
            r.spec_metadata() == self.spec_result_metadata(now, *old(state)),
    {
        let elapsed: u64 = if now >= state.window_start {
            now - state.window_start
        } else {
            u64::MAX
        };

        let decision = if elapsed < self.window_duration {
            if state.count < self.limit {
                state.count = state.count + 1;
                LimitResult::allowed()
            } else {
                LimitResult::disallowed()
            }
        } else {
            state.count = 1;
            state.window_start = now;
            LimitResult::allowed()
        };

        let till_next_window: u64 = if self.window_duration <= u64::MAX - state.window_start {
            let window_end = state.window_start + self.window_duration;
            if now <= window_end {
                window_end - now
            } else {
                u64::MAX
            }
        } else {
            u64::MAX
        };

        decision.with_metadata(FixedWindowMetadata { till_next_window })
    }
}

impl<C: Clock> LimitStrategy for FixedWindow<C> {
    type State = FixedWindowCounterState;

    type Error = NoError;

    type Metadata = FixedWindowMetadata;

    open spec fn spec_initial_state(&self, now: u64) -> FixedWindowCounterState {
        FixedWindowCounterState { count: 0, window_start: now }
    }

    open spec fn spec_decision(&self, now: u64, pre: FixedWindowCounterState) -> bool {
        if spec_elapsed(pre.window_start, now) < self.spec_window_duration() {
            pre.count < self.spec_limit()
        } else {
            true
        }
    }

    open spec fn spec_next_state(&self, now: u64, pre: FixedWindowCounterState)
        -> FixedWindowCounterState {
        if spec_elapsed(pre.window_start, now) < self.spec_window_duration() {
            if pre.count < self.spec_limit() {
                FixedWindowCounterState { count: (pre.count + 1) as u32, ..pre }
            } else {
                pre
            }
        } else {
            FixedWindowCounterState { count: 1, window_start: now }
        }
    }

    open spec fn spec_result_metadata(&self, now: u64, pre: FixedWindowCounterState) -> Option<
        FixedWindowMetadata,
    > {
        Some(
            FixedWindowMetadata {
                till_next_window: spec_till_next_window(
                    self.spec_window_duration(),
                    self.spec_next_state(now, pre).window_start,
                    now,
                ),
            },
        )
    }

    open spec fn spec_infallible(&self) -> bool {
        true
    }

    fn check_limit(&self, state: &mut FixedWindowCounterState) -> (r: Result<
        LimitResult<FixedWindowMetadata>,
        NoError,
    >) {
        let now = self.clock.now();
        let result = self.check_limit_at(now, state);
        proof {
            assert(self.spec_decision(now, *old(state)) == result.spec_allowed());
        }
        Ok(result)
    }

    fn initialize_state(&self) -> (s: FixedWindowCounterState) {
        let now = self.clock.now();
        let s = self.initialize_state_at(now);
        proof {
            assert(s == self.spec_initial_state(now));
        }
        s
    }
}

/// The decisions of a run of checks at the instants `times`, in order,
/// starting from state `st`.
pub open spec fn spec_decisions<C: Clock>(
    fw: &FixedWindow<C>,
    times: Seq<u64>,
    st: FixedWindowCounterState,
) -> Seq<bool>
    decreases times.len(),
{
    if times.len() == 0 {
        Seq::empty()
    } else {
        seq![fw.spec_decision(times[0], st)] + spec_decisions(
            fw,
            times.subrange(1, times.len() as int),
            fw.spec_next_state(times[0], st),
        )
    }
}

/// LAW, generalized over the counter: for checks that all fall inside the
/// window `st` records, the i-th check of the run is admitted exactly while
/// the counter stays below the limit, that is, iff `st.count + i < limit`,
/// in whatever order the instants come.
pub proof fn lemma_decisions_in_window<C: Clock>(
    fw: &FixedWindow<C>,
    times: Seq<u64>,
    st: FixedWindowCounterState,
)
    requires
        forall|i: int|
            #![trigger times[i]]
            0 <= i < times.len() ==> st.window_start <= times[i] && times[i] - st.window_start
                < fw.spec_window_duration(),
    ensures
        spec_decisions(fw, times, st).len() == times.len(),
        forall|i: int|
            #![trigger spec_decisions(fw, times, st)[i]]
            0 <= i < times.len() ==> (spec_decisions(fw, times, st)[i] <==> st.count + i
                < fw.spec_limit()),
    decreases times.len(),
{
    if times.len() > 0 {
        let t0 = times[0];
        let st1 = fw.spec_next_state(t0, st);
        let rest = times.subrange(1, times.len() as int);
        assert(st.window_start <= times[0] && times[0] - st.window_start
            < fw.spec_window_duration());
        assert(st1.window_start == st.window_start);
        assert forall|i: int|
            #![trigger rest[i]]
            0 <= i < rest.len() implies st1.window_start <= rest[i] && rest[i] - st1.window_start
            < fw.spec_window_duration() by {
            assert(rest[i] == times[i + 1]);
        }
        lemma_decisions_in_window(fw, rest, st1);
        let ds = spec_decisions(fw, times, st);
        let ds1 = spec_decisions(fw, rest, st1);
        assert(ds == seq![fw.spec_decision(t0, st)] + ds1);
        assert forall|i: int| 0 <= i < times.len() implies (#[trigger] ds[i] <==> st.count + i
            < fw.spec_limit()) by {
            if i == 0 {
                assert(ds[0] == fw.spec_decision(t0, st));
            } else {
                assert(ds[i] == ds1[i - 1]);
                assert(ds1[i - 1] <==> st1.count + (i - 1) < fw.spec_limit());
            }
        }
    }
}

/// LAW: within one window, exactly the first `limit` checks are admitted.
/// From a state whose counter is fresh, a run of checks that all fall inside
/// the recorded window sees its first `limit` requests allowed and every
/// later one denied.
pub proof fn lemma_window_admits_exactly_limit<C: Clock>(
    fw: &FixedWindow<C>,
    times: Seq<u64>,
    st: FixedWindowCounterState,
)
    requires
        st.count == 0,
        forall|i: int|
            #![trigger times[i]]
            0 <= i < times.len() ==> st.window_start <= times[i] && times[i] - st.window_start
                < fw.spec_window_duration(),
    ensures
        spec_decisions(fw, times, st).len() == times.len(),
        forall|i: int|
            #![trigger spec_decisions(fw, times, st)[i]]
            0 <= i < times.len() ==> (spec_decisions(fw, times, st)[i] <==> i < fw.spec_limit()),
{
    lemma_decisions_in_window(fw, times, st);
}

/// LAW: a key seen for the first time is always admitted, provided the
/// policy grants at least one request per window: whatever instants the
/// clock reported when the state was initialized and when it was checked,
/// the decision on an initial state is "allowed".
pub proof fn lemma_first_check_allowed<C: Clock>(fw: &FixedWindow<C>, init_now: u64, now: u64)
    requires
        fw.spec_limit() >= 1,
    ensures
        fw.spec_decision(now, fw.spec_initial_state(init_now)),
{
}

/// LAW: once the clock stands a full window past the recorded start, or has
/// moved backward past it, the next check is admitted whatever denial streak
/// came before, and the state becomes a fresh window starting at `now` whose
/// counter is exactly 1.
pub proof fn lemma_new_window_always_allows<C: Clock>(
    fw: &FixedWindow<C>,
    st: FixedWindowCounterState,
    now: u64,
)
    requires
        st.window_start + fw.spec_window_duration() <= now || now < st.window_start,
    ensures
        fw.spec_decision(now, st),
        fw.spec_next_state(now, st) == (FixedWindowCounterState { count: 1, window_start: now }),
{
}

/// LAW: `till_next_window` is a count of ticks, hence never negative, and
/// over calls that stay inside one window it never increases, strictly
/// decreasing whenever the clock moved forward between the calls. (Where the
/// window end `window_start + window_duration` overflows, both calls
/// saturate to `u64::MAX` instead, so that case is left out here.)
pub proof fn lemma_till_next_window_decreases<C: Clock>(
    fw: &FixedWindow<C>,
    st: FixedWindowCounterState,
    now1: u64,
    now2: u64,
)
    requires
        st.window_start <= now1 <= now2,
        now2 - st.window_start < fw.spec_window_duration(),
        st.window_start + fw.spec_window_duration() <= u64::MAX,
    ensures
        ({
            let m1 = fw.spec_result_metadata(now1, st);
            let m2 = fw.spec_result_metadata(now2, fw.spec_next_state(now1, st));
            &&& m1 is Some
            &&& m2 is Some
            &&& m2->Some_0.till_next_window <= m1->Some_0.till_next_window
            &&& now1 < now2 ==> m2->Some_0.till_next_window < m1->Some_0.till_next_window
        }),
{
    assert(fw.spec_next_state(now1, st).window_start == st.window_start);
}

} // verus!
