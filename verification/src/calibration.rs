//! The search that calibrates how many shapes a benchmark draws so that one
//! frame takes about the target time.
use vstd::prelude::*;

verus! {

/// Probe counts at or above this are not grown further.
pub const MAX_UPWARD_PROBE: usize = 10_000_000;

/// Bisection steps allowed once the target time is bracketed.
pub const BINARY_STEPS: u8 = 7;

/// The largest power of ten that is at most `n` (1 for `n < 10`).
pub open spec fn pow10_floor(n: nat) -> nat
    decreases n,
{
    if n < 10 {
        1
    } else {
        10 * pow10_floor(n / 10)
    }
}

/// The next count probed while growing: one more below ten, then the count
/// plus the power of ten of its leading digit (10, 20, ..., 90, 100, 200, ...).
pub open spec fn spec_next_probe_count(count: nat) -> nat {
    count + pow10_floor(count)
}

/// The integer midpoint of `low..=high`, rounded down.
pub open spec fn spec_midpoint(low: int, high: int) -> int {
    low + (high - low) / 2
}

/// The integer midpoint of `low..=high`, rounded down.
pub fn midpoint(low: usize, high: usize) -> (m: usize)
    requires
        low <= high,
    ensures
        m == spec_midpoint(low as int, high as int),
        low <= m <= high,
        low < high ==> m < high,
{
    low + (high - low) / 2
}

proof fn lemma_pow10_floor_bounds(n: nat)
    requires
        n >= 1,
    ensures
        1 <= pow10_floor(n) <= n,
        n < 10 * pow10_floor(n),
    decreases n,
{
    if n >= 10 {
        lemma_pow10_floor_bounds(n / 10);
    }
}

/// The next, larger count to probe while the frame time is still below target.
pub fn next_probe_count(count: usize) -> (next: usize)
    requires
        count + pow10_floor(count as nat) <= usize::MAX,
    ensures
        next == spec_next_probe_count(count as nat),
{
    if count < 10 {
        return count + 1;
    }
    let mut step: usize = 1;
    let mut rest: usize = count;
    while rest >= 10
        invariant
            rest >= 1,
            step >= 1,
            step * rest <= count,
            step * pow10_floor(rest as nat) == pow10_floor(count as nat),
        decreases rest,
    {
        assert(step * 10 <= step * rest) by (nonlinear_arith)
            requires
                rest >= 10,
                step >= 1,
        ;
        assert(step * 10 * (rest / 10) <= step * rest) by (nonlinear_arith)
            requires
                rest >= 10,
                step >= 1,
        ;
        assert(step * pow10_floor(rest as nat) == (step * 10) * pow10_floor((rest / 10) as nat))
            by (nonlinear_arith)
            requires
                rest >= 10,
                pow10_floor(rest as nat) == 10 * pow10_floor((rest / 10) as nat),
        ;
        step = step * 10;
        rest = rest / 10;
    }
    assert(pow10_floor(rest as nat) == 1);
    assert(step == pow10_floor(count as nat)) by (nonlinear_arith)
        requires
            pow10_floor(rest as nat) == 1,
            step * pow10_floor(rest as nat) == pow10_floor(count as nat),
    ;
    count + step
}

/// Each growing probe draws more than the last, and at most twice as much.
pub proof fn lemma_next_probe_count_grows(count: nat)
    requires
        count >= 1,
    ensures
        count < spec_next_probe_count(count) <= 2 * count,
{
    lemma_pow10_floor_bounds(count);
}

/// Where the calibration search stands for one benchmark group: the count
/// to probe next, the largest count measured below target, the smallest
/// measured above it, and the bisection steps left.
#[derive(Clone, Copy, Debug, PartialEq, Eq)]
pub struct SearchState {
    pub probe_count: usize,
    pub lower: Option<usize>,
    pub upper: Option<usize>,
    pub binary_steps_left: u8,
}

/// The bracket is consistent: the probe lies strictly between the bounds, an
/// upper bound is only known together with a lower one, and growing probes
/// stay below twice the growth limit.
pub open spec fn search_wf(s: SearchState) -> bool {
    &&& s.probe_count >= 1
    &&& (s.lower matches Some(lo) ==> lo < s.probe_count)
    &&& (s.upper matches Some(hi) ==> s.probe_count < hi && s.lower is Some)
    &&& (s.upper is None ==> s.probe_count <= 2 * MAX_UPWARD_PROBE)
}

/// The state a calibration starts from.
pub open spec fn initial_search() -> SearchState {
    SearchState { probe_count: 1, lower: None, upper: None, binary_steps_left: BINARY_STEPS }
}

/// One step of the search after measuring `s.probe_count`: `Err` ends the
/// search with the count to keep, `Ok` names the next probe. `best_count` is
/// the count measured closest to the target so far, this measurement included.
pub open spec fn spec_advance_search(
    s: SearchState,
    below_target: bool,
    within_tolerance: bool,
    best_count: usize,
) -> Result<SearchState, usize> {
    let measured = s.probe_count;
    if within_tolerance {
        Err(measured)
    } else {
        match s.upper {
            None => if below_target {
                if measured >= MAX_UPWARD_PROBE {
                    Err(best_count)
                } else {
                    Ok(
                        SearchState {
                            probe_count: spec_next_probe_count(measured as nat) as usize,
                            lower: Some(measured),
                            upper: None,
                            binary_steps_left: s.binary_steps_left,
                        },
                    )
                }
            } else {
                match s.lower {
                    Some(lo) => {
                        let next = spec_midpoint(lo as int, measured as int);
                        if next == lo || next == measured {
                            Err(best_count)
                        } else {
                            Ok(
                                SearchState {
                                    probe_count: next as usize,
                                    lower: Some(lo),
                                    upper: Some(measured),
                                    binary_steps_left: s.binary_steps_left,
                                },
                            )
                        }
                    },
                    None => Err(best_count),
                }
            },
            Some(hi) => {
                let (lower, upper) = if below_target {
                    (Some(measured), hi)
                } else {
                    (s.lower, measured)
                };
                match lower {
                    None => Err(best_count),
                    Some(lo) => if upper <= lo + 1 || s.binary_steps_left == 0 {
                        Err(best_count)
                    } else {
                        let next = spec_midpoint(lo as int, upper as int);
                        if next == lo || next == upper {
                            Err(best_count)
                        } else {
                            Ok(
                                SearchState {
                                    probe_count: next as usize,
                                    lower: Some(lo),
                                    upper: Some(upper),
                                    binary_steps_left: (s.binary_steps_left - 1) as u8,
                                },
                            )
                        }
                    },
                }
            },
        }
    }
}

/// A measure that every continuing step lowers: growing probes come first
/// and approach twice the growth limit; bisection then spends its steps.
pub open spec fn search_measure(s: SearchState) -> (int, int) {
    if s.upper is None {
        (1, 2 * MAX_UPWARD_PROBE - s.probe_count)
    } else {
        (0, s.binary_steps_left as int)
    }
}

pub open spec fn measure_lt(a: (int, int), b: (int, int)) -> bool {
    a.0 < b.0 || (a.0 == b.0 && a.1 < b.1)
}

/// Decides the next calibration step from the measurement of `state.probe_count`.
pub fn advance_search(
    state: SearchState,
    below_target: bool,
    within_tolerance: bool,
    best_count: usize,
) -> (r: Result<SearchState, usize>)
    requires
        search_wf(state),
    ensures
        r == spec_advance_search(state, below_target, within_tolerance, best_count),
{
    let measured = state.probe_count;
    if within_tolerance {
        return Err(measured);
    }
    match state.upper {
        None => {
            if below_target {
                if measured >= MAX_UPWARD_PROBE {
                    return Err(best_count);
                }
                proof {
                    lemma_next_probe_count_grows(measured as nat);
                }
                Ok(
                    SearchState {
                        probe_count: next_probe_count(measured),
                        lower: Some(measured),
                        upper: None,
                        binary_steps_left: state.binary_steps_left,
                    },
                )
            } else {
                match state.lower {
                    Some(lo) => {
                        let next = midpoint(lo, measured);
                        if next == lo || next == measured {
                            Err(best_count)
                        } else {
                            Ok(
                                SearchState {
                                    probe_count: next,
                                    lower: Some(lo),
                                    upper: Some(measured),
                                    binary_steps_left: state.binary_steps_left,
                                },
                            )
                        }
                    },
                    None => Err(best_count),
                }
            }
        },
        Some(hi) => {
            let (lower, upper) = if below_target {
                (Some(measured), hi)
            } else {
                (state.lower, measured)
            };
            match lower {
                None => Err(best_count),
                Some(lo) => {
                    if upper <= lo + 1 || state.binary_steps_left == 0 {
                        Err(best_count)
                    } else {
                        let next = midpoint(lo, upper);
                        if next == lo || next == upper {
                            Err(best_count)
                        } else {
                            Ok(
                                SearchState {
                                    probe_count: next,
                                    lower: Some(lo),
                                    upper: Some(upper),
                                    binary_steps_left: state.binary_steps_left - 1,
                                },
                            )
                        }
                    }
                },
            }
        },
    }
}

/// Every continuing step keeps the bracket consistent and lowers the search
/// measure, so the calibration of one group ends after finitely many probes.
pub proof fn lemma_search_step_progress(
    s: SearchState,
    below_target: bool,
    within_tolerance: bool,
    best_count: usize,
)
    requires
        search_wf(s),
    ensures
        spec_advance_search(s, below_target, within_tolerance, best_count) matches Ok(next) ==> {
            &&& search_wf(next)
            &&& measure_lt(search_measure(next), search_measure(s))
            &&& search_measure(next).1 >= 0
        },
{
    if s.upper is None && below_target && !within_tolerance && s.probe_count < MAX_UPWARD_PROBE {
        lemma_next_probe_count_grows(s.probe_count as nat);
    }
}

/// The starting state is consistent.
pub proof fn lemma_initial_search_wf()
    ensures
        search_wf(initial_search()),
{
}

/// A measurement within tolerance ends the search with the measured count.
pub proof fn lemma_within_tolerance_accepts(s: SearchState, below_target: bool, best_count: usize)
    ensures
        spec_advance_search(s, below_target, true, best_count) == Err::<SearchState, usize>(
            s.probe_count,
        ),
{
}

/// How one step moves the bracket around the target. A probe measured below
/// the target becomes the lower bound, and one measured at or above it the
/// upper bound; the next probe lies strictly inside the new bracket, so it
/// is never the count just measured. Once bracketed, each step also narrows
/// the bracket and spends one bisection step; while still growing, a probe
/// below the target is followed by a larger one.
pub proof fn lemma_search_bracket(
    s: SearchState,
    below_target: bool,
    best_count: usize,
)
    requires
        search_wf(s),
    ensures
        spec_advance_search(s, below_target, false, best_count) matches Ok(next) ==> {
            &&& below_target ==> next.lower == Some(s.probe_count)
            &&& !below_target ==> next.upper == Some(s.probe_count) && next.lower == s.lower
            &&& below_target && s.upper is Some ==> next.upper == s.upper
            &&& below_target && s.upper is None ==> next.upper is None && next.probe_count
                > s.probe_count
            &&& next.probe_count != s.probe_count
            &&& next.lower matches Some(lo) && lo < next.probe_count
            &&& next.upper matches Some(hi) ==> next.probe_count < hi
            &&& s.upper matches Some(hi) ==> {
                &&& next.upper->0 - next.lower->0 < hi - s.lower->0
                &&& next.binary_steps_left + 1 == s.binary_steps_left
            }
        },
{
    if s.upper is None && below_target && s.probe_count < MAX_UPWARD_PROBE {
        lemma_next_probe_count_grows(s.probe_count as nat);
    }
}

} // verus!
