//! Regime-change detection: when to suspend z-score output, and when to resume it.
//!
//! A regime-aware normaliser compares a fast and a slow variance estimate on every
//! observation. This module holds the decisions that follow from those comparisons: a
//! regime change is declared only after the fast/slow ratio has breached its threshold on
//! [`ENTRY_CONFIRMATION_TICKS`] consecutive observations; during a regime change z-scores
//! are suppressed; it ends only once at least `cooldown_period` observations have passed
//! since entry and the exit ratio has fallen back below its hysteresis bound.

use vstd::prelude::*;

verus! {

/// Number of consecutive breaching observations that declare a regime change.
pub const ENTRY_CONFIRMATION_TICKS: usize = 3;

/// Upper bound on the warm-up of the fast variance estimate.
pub const FAST_WARM_UP_CAP: usize = 10;

/// The warm-up used by the fast estimate for a base warm-up of `warm_up` observations:
/// the smaller of `warm_up` and [`FAST_WARM_UP_CAP`].
pub fn fast_warm_up(warm_up: usize) -> (w: usize)
    ensures
        w == (if warm_up < FAST_WARM_UP_CAP { warm_up } else { FAST_WARM_UP_CAP }),
{
    if warm_up < FAST_WARM_UP_CAP {
        warm_up
    } else {
        FAST_WARM_UP_CAP
    }
}

/// What one observation did to the regime state.
#[derive(Debug, Clone, Copy, PartialEq, Eq, Structural)]
pub enum RegimeStep {
    /// Not in a regime change: the z-score is released.
    Normal,
    /// A regime change was declared on this observation: the z-score is suppressed and the slow
    /// estimate restarts with the fast configuration.
    Entered,
    /// Still in a regime change: the z-score is suppressed.
    Held,
    /// The regime change ended on this observation: the z-score is released and the slow
    /// estimate is re-seeded with the base configuration.
    Exited,
}

impl RegimeStep {
    /// The z-score computed for this observation is handed out.
    pub open spec fn releases(self) -> bool {
        self is Normal || self is Exited
    }

    /// The z-score computed for this observation is handed out.
    pub fn releases_output(self) -> (b: bool)
        ensures
            b == self.releases(),
    {
        match self {
            RegimeStep::Normal | RegimeStep::Exited => true,
            _ => false,
        }
    }
}

/// The state of a regime detector.
#[derive(Debug, Clone, Copy, PartialEq, Eq, Structural)]
pub struct RegimeState {
    /// A regime change is in progress.
    pub in_regime_change: bool,
    /// Consecutive breaching observations seen outside a regime change.
    pub entry_streak: usize,
    /// Observations since the current regime change began, counted up to `cooldown_period`.
    pub cooldown: usize,
    /// Minimum number of observations a regime change lasts.
    pub cooldown_period: usize,
}

/// The state of a fresh detector with the given cooldown period.
pub open spec fn fresh_state(cooldown_period: usize) -> RegimeState {
    RegimeState { in_regime_change: false, entry_streak: 0, cooldown: 0, cooldown_period }
}

/// Bounds every reachable state satisfies.
pub open spec fn state_ok(s: RegimeState) -> bool {
    &&& s.cooldown_period > 0
    &&& s.entry_streak < ENTRY_CONFIRMATION_TICKS
    &&& s.cooldown <= s.cooldown_period
    &&& s.in_regime_change ==> s.entry_streak == 0
}

/// One observation. `breached`: the fast/slow variance ratio is above the entry threshold
/// (and the fast estimate is warm). `exit_ratio_low`: the ratio of the fast variance to the
/// current slow variance is below the exit bound. Outside a regime change only `breached`
/// matters; inside one only `exit_ratio_low` does.
pub open spec fn regime_transition(s: RegimeState, breached: bool, exit_ratio_low: bool) -> (
    RegimeState,
    RegimeStep,
) {
    if !s.in_regime_change {
        let streak = if breached {
            s.entry_streak + 1
        } else {
            0
        };
        if streak >= ENTRY_CONFIRMATION_TICKS {
            (
                RegimeState { in_regime_change: true, entry_streak: 0, cooldown: 0, ..s },
                RegimeStep::Entered,
            )
        } else {
            (RegimeState { entry_streak: streak as usize, ..s }, RegimeStep::Normal)
        }
    } else {
        let cooldown = if s.cooldown + 1 >= s.cooldown_period {
            s.cooldown_period
        } else {
            (s.cooldown + 1) as usize
        };
        if cooldown >= s.cooldown_period && exit_ratio_low {
            (RegimeState { in_regime_change: false, cooldown, ..s }, RegimeStep::Exited)
        } else {
            (RegimeState { cooldown, ..s }, RegimeStep::Held)
        }
    }
}

/// Decides regime entry and exit for a regime-aware normaliser.
#[derive(Debug, Clone, Copy)]
pub struct RegimeDetector {
    state: RegimeState,
}

impl View for RegimeDetector {
    type V = RegimeState;

    closed spec fn view(&self) -> RegimeState {
        self.state
    }
}

impl RegimeDetector {
    #[verifier::type_invariant]
    spec fn reachable(&self) -> bool {
        state_ok(self.state)
    }

    /// A detector not in a regime change. `None` when `cooldown_period` is zero.
    pub fn new(cooldown_period: usize) -> (d: Option<Self>)
        ensures
            d is None <==> cooldown_period == 0,
            d matches Some(d) ==> d@ == fresh_state(cooldown_period),
    {
        if cooldown_period == 0 {
            None
        } else {
            Some(RegimeDetector { state: fresh_state_exec(cooldown_period) })
        }
    }

    /// Feed one observation's comparisons; see [`regime_transition`].
    pub fn step(&mut self, breached: bool, exit_ratio_low: bool) -> (step: RegimeStep)
        ensures
            (final(self)@, step) == regime_transition(old(self)@, breached, exit_ratio_low),
    {
        proof {
            use_type_invariant(&*self);
        }
        let s = self.state;
        if !s.in_regime_change {
            let streak = if breached {
                s.entry_streak + 1
            } else {
                0
            };
            if streak >= ENTRY_CONFIRMATION_TICKS {
                self.state = RegimeState { in_regime_change: true, entry_streak: 0, cooldown: 0, ..s };
                RegimeStep::Entered
            } else {
                self.state = RegimeState { entry_streak: streak, ..s };
                RegimeStep::Normal
            }
        } else {
            let cooldown = if s.cooldown >= s.cooldown_period - 1 {
                s.cooldown_period
            } else {
                s.cooldown + 1
            };
            if cooldown >= s.cooldown_period && exit_ratio_low {
                self.state = RegimeState { in_regime_change: false, cooldown, ..s };
                RegimeStep::Exited
            } else {
                self.state = RegimeState { cooldown, ..s };
                RegimeStep::Held
            }
        }
    }

    /// Leave any regime change and forget the entry streak, keeping the cooldown period.
    pub fn reset(&mut self)
        ensures
            final(self)@ == fresh_state(old(self)@.cooldown_period),
    {
        proof {
            use_type_invariant(&*self);
        }
        self.state = fresh_state_exec(self.state.cooldown_period);
    }

    /// A regime change is in progress (z-scores are suppressed).
    pub fn is_in_regime_change(&self) -> (b: bool)
        ensures
            b == self@.in_regime_change,
    {
        self.state.in_regime_change
    }

    /// The minimum number of observations a regime change lasts.
    pub fn cooldown_period(&self) -> (p: usize)
        ensures
            p == self@.cooldown_period,
            p > 0,
    {
        proof {
            use_type_invariant(self);
        }
        self.state.cooldown_period
    }
}

fn fresh_state_exec(cooldown_period: usize) -> (s: RegimeState)
    requires
        cooldown_period > 0,
    ensures
        s == fresh_state(cooldown_period),
        state_ok(s),
{
    RegimeState { in_regime_change: false, entry_streak: 0, cooldown: 0, cooldown_period }
}

/// The state after feeding `inputs` (pairs of `breached`, `exit_ratio_low`) in order.
pub open spec fn run_state(s: RegimeState, inputs: Seq<(bool, bool)>) -> RegimeState
    decreases inputs.len(),
{
    if inputs.len() == 0 {
        s
    } else {
        let prev = run_state(s, inputs.drop_last());
        regime_transition(prev, inputs.last().0, inputs.last().1).0
    }
}

/// How many of the last inputs reported a breach, counting back to the first that did not.
pub open spec fn trailing_breaches(inputs: Seq<(bool, bool)>) -> nat
    decreases inputs.len(),
{
    if inputs.len() == 0 {
        0
    } else if inputs.last().0 {
        trailing_breaches(inputs.drop_last()) + 1
    } else {
        0
    }
}

/// Z-scores are released exactly when the detector is not in a regime change after the
/// observation: never while a regime change is in progress, including the observation that
/// declares one.
pub proof fn lemma_released_iff_not_in_regime(s: RegimeState, breached: bool, exit_ratio_low: bool)
    requires
        state_ok(s),
    ensures
        ({
            let (next, step) = regime_transition(s, breached, exit_ratio_low);
            step.releases() <==> !next.in_regime_change
        }),
{
}

/// Every reachable state stays within its bounds.
pub proof fn lemma_transition_keeps_bounds(s: RegimeState, breached: bool, exit_ratio_low: bool)
    requires
        state_ok(s),
    ensures
        state_ok(regime_transition(s, breached, exit_ratio_low).0),
{
}

/// A regime change ends only once the cooldown period has elapsed since it began: an exit
/// happens only from a regime change whose count of observations has reached the period.
pub proof fn lemma_exit_needs_cooldown(s: RegimeState, breached: bool, exit_ratio_low: bool)
    requires
        state_ok(s),
        regime_transition(s, breached, exit_ratio_low).1 is Exited,
    ensures
        s.in_regime_change,
        s.cooldown + 1 >= s.cooldown_period,
        exit_ratio_low,
{
}

/// A regime change lasts at least its cooldown period: from the observation that declares it,
/// each of the next observations, up to one fewer than `cooldown_period`, leaves the detector in
/// the regime change with the cooldown count equal to the observations seen since entry,
/// whatever the exit ratio.
pub proof fn lemma_regime_lasts_cooldown(s: RegimeState, inputs: Seq<(bool, bool)>)
    requires
        state_ok(s),
        s.in_regime_change,
        s.cooldown == 0,
        inputs.len() < s.cooldown_period,
    ensures
        run_state(s, inputs).in_regime_change,
        run_state(s, inputs).cooldown == inputs.len(),
        run_state(s, inputs).cooldown_period == s.cooldown_period,
    decreases inputs.len(),
{
    if inputs.len() > 0 {
        lemma_regime_lasts_cooldown(s, inputs.drop_last());
    }
}

/// Outside a regime change, the entry streak never exceeds the run of breaches that ends the
/// input so far.
proof fn lemma_streak_bounded_by_breaches(s: RegimeState, inputs: Seq<(bool, bool)>)
    requires
        state_ok(s),
        s.entry_streak == 0,
    ensures
        state_ok(run_state(s, inputs)),
        run_state(s, inputs).entry_streak <= trailing_breaches(inputs),
        run_state(s, inputs).cooldown_period == s.cooldown_period,
    decreases inputs.len(),
{
    if inputs.len() > 0 {
        lemma_streak_bounded_by_breaches(s, inputs.drop_last());
    }
}

/// A regime change is declared only after [`ENTRY_CONFIRMATION_TICKS`] consecutive breaching
/// observations: starting from a detector with no entry streak, if the last of `inputs`
/// declares a regime change, then each of the last three inputs reported a breach.
pub proof fn lemma_entry_needs_consecutive_breaches(s: RegimeState, inputs: Seq<(bool, bool)>)
    requires
        state_ok(s),
        s.entry_streak == 0,
        inputs.len() > 0,
        regime_transition(
            run_state(s, inputs.drop_last()),
            inputs.last().0,
            inputs.last().1,
        ).1 is Entered,
    ensures
        inputs.len() >= ENTRY_CONFIRMATION_TICKS,
        forall|i: int|
            inputs.len() - ENTRY_CONFIRMATION_TICKS <= i < inputs.len() ==> (#[trigger] inputs[i]).0,
{
    let prefix = inputs.drop_last();
    lemma_streak_bounded_by_breaches(s, prefix);
    let p1 = prefix.drop_last();
    assert(trailing_breaches(prefix) >= 2);
    assert(prefix.len() > 0);
    assert(prefix.last().0);
    assert(trailing_breaches(p1) >= 1);
    assert(p1.len() > 0);
    assert(p1.last().0);
    assert forall|i: int|
        inputs.len() - ENTRY_CONFIRMATION_TICKS <= i < inputs.len() implies (#[trigger] inputs[i]).0 by {
        if i == inputs.len() - 1 {
        } else if i == inputs.len() - 2 {
            assert(inputs[i] == prefix.last());
        } else {
            assert(inputs[i] == p1.last());
        }
    }
}

/// Every regime change, not only the first, starts its cooldown afresh: from any reachable
/// state, the observation that declares a regime change leaves the detector in a regime change
/// with a cooldown count of zero and the same cooldown period, whatever earlier regime changes
/// left behind.
pub proof fn lemma_entry_restarts_cooldown(s: RegimeState, breached: bool, exit_ratio_low: bool)
    requires
        state_ok(s),
        regime_transition(s, breached, exit_ratio_low).1 is Entered,
    ensures
        regime_transition(s, breached, exit_ratio_low).0.in_regime_change,
        regime_transition(s, breached, exit_ratio_low).0.cooldown == 0,
        regime_transition(s, breached, exit_ratio_low).0.cooldown_period == s.cooldown_period,
{
}

/// Every regime change suppresses z-scores for at least its cooldown period: after the
/// observation that declares it, from any reachable state, the next observations up to one
/// fewer than `cooldown_period` all leave the detector in the regime change, whatever their
/// exit ratios, so none of them releases a z-score.
pub proof fn lemma_every_regime_lasts_cooldown(
    s: RegimeState,
    breached: bool,
    exit_ratio_low: bool,
    inputs: Seq<(bool, bool)>,
)
    requires
        state_ok(s),
        regime_transition(s, breached, exit_ratio_low).1 is Entered,
        inputs.len() < s.cooldown_period,
    ensures
        run_state(regime_transition(s, breached, exit_ratio_low).0, inputs).in_regime_change,
{
    let next = regime_transition(s, breached, exit_ratio_low).0;
    lemma_transition_keeps_bounds(s, breached, exit_ratio_low);
    lemma_entry_restarts_cooldown(s, breached, exit_ratio_low);
    lemma_regime_lasts_cooldown(next, inputs);
}

} // verus!
