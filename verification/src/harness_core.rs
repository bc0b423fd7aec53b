//! The decisions of the benchmark harness and of the calibration harness:
//! which benchmark or probe runs next, which frames are warmup and which are
//! measured, and when a run ends. The page loop renders the frames and adds
//! up the measured frame times.
use vstd::prelude::*;

use crate::calibration::{
    SearchState, advance_search, search_measure, search_wf, spec_advance_search, BINARY_STEPS,
};
use crate::text::{decimal, u64_to_decimal};

verus! {

/// Where the benchmark harness stands.
#[derive(Clone, Copy, Debug, PartialEq, Eq)]
pub enum HarnessPhase {
    Idle,
    /// The benchmark `def_index` is about to be set up.
    PendingBench(usize),
    /// Frames of benchmark `def_index` are being rendered.
    Running { def_index: usize, warmup_remaining: usize, samples: usize },
    Complete,
}

/// What the page does on this animation frame.
#[derive(Clone, Copy, Debug, PartialEq, Eq)]
pub enum HarnessStep {
    Nothing,
    /// Set up benchmark `def_index` on a fresh scene, render one frame, and
    /// start timing from now.
    Prepare { def_index: usize },
    /// Render one frame of benchmark `def_index`. Add the time since the last
    /// frame to the total when `counted`. When `finished`, report the average
    /// over the measured samples; when also `all_done`, the run is over.
    Frame { def_index: usize, counted: bool, finished: bool, all_done: bool },
}

/// The benchmark harness: runs the selected benchmarks in order, each with a
/// fixed number of warmup frames followed by a fixed number of measured frames.
#[derive(Debug)]
pub struct BenchHarnessCore {
    pub phase: HarnessPhase,
    pub warmup_samples: usize,
    pub measured_samples: usize,
    pub run_order: Vec<usize>,
    pub run_pos: usize,
}

/// The harness points into its run order while benchmarks are pending or running.
pub open spec fn harness_wf(h: BenchHarnessCore) -> bool {
    &&& (h.phase matches HarnessPhase::PendingBench(i) ==> h.run_pos < h.run_order.len() && i
        == h.run_order@[h.run_pos as int])
    &&& (h.phase matches HarnessPhase::Running { def_index, .. } ==> {
        &&& h.run_pos < h.run_order.len()
        &&& def_index == h.run_order@[h.run_pos as int]
    })
    &&& (h.phase matches HarnessPhase::Running { samples, .. } ==> samples < usize::MAX)
}

/// One animation frame of the harness: from the phase and the position in
/// the run order, the next phase, the next position and the frame's work.
/// A pending benchmark is prepared; a running one renders a frame, which is
/// counted once the warmup frames are used up, and the benchmark finishes
/// when `measured` frames have been counted.
pub open spec fn harness_step(
    phase: HarnessPhase,
    run_pos: usize,
    run_order: Seq<usize>,
    warmup: usize,
    measured: usize,
) -> (HarnessPhase, usize, HarnessStep) {
    match phase {
        HarnessPhase::PendingBench(i) => (
            HarnessPhase::Running { def_index: i, warmup_remaining: warmup, samples: 0 },
            run_pos,
            HarnessStep::Prepare { def_index: i },
        ),
        HarnessPhase::Running { def_index, warmup_remaining, samples } => {
            let counted = warmup_remaining == 0;
            let samples2 = if counted { samples + 1 } else { samples as int };
            let warmup2 = if counted { 0 } else { warmup_remaining - 1 };
            let finished = samples2 >= measured;
            let all_done = finished && run_pos + 1 >= run_order.len();
            let step = HarnessStep::Frame { def_index, counted, finished, all_done };
            if !finished {
                (
                    HarnessPhase::Running {
                        def_index,
                        warmup_remaining: warmup2 as usize,
                        samples: samples2 as usize,
                    },
                    run_pos,
                    step,
                )
            } else if all_done {
                (HarnessPhase::Complete, (run_pos + 1) as usize, step)
            } else {
                (HarnessPhase::PendingBench(run_order[run_pos + 1]), (run_pos + 1) as usize, step)
            }
        },
        _ => (phase, run_pos, HarnessStep::Nothing),
    }
}

/// The phase, the position and the work of `n` consecutive frames.
pub open spec fn harness_run(
    phase: HarnessPhase,
    run_pos: usize,
    run_order: Seq<usize>,
    warmup: usize,
    measured: usize,
    n: nat,
) -> (HarnessPhase, usize, Seq<HarnessStep>)
    decreases n,
{
    if n == 0 {
        (phase, run_pos, seq![])
    } else {
        let (p, r, steps) = harness_run(phase, run_pos, run_order, warmup, measured, (n - 1) as nat);
        let (p2, r2, step) = harness_step(p, r, run_order, warmup, measured);
        (p2, r2, steps.push(step))
    }
}

/// The work of frame `k` of benchmark `run_order[pos]`: it is prepared, then
/// rendered `warmup` times uncounted and `measured` times counted.
pub open spec fn benchmark_frame(
    run_order: Seq<usize>,
    pos: int,
    warmup: int,
    measured: int,
    k: int,
) -> HarnessStep {
    let i = run_order[pos];
    if k == 0 {
        HarnessStep::Prepare { def_index: i }
    } else if k <= warmup {
        HarnessStep::Frame { def_index: i, counted: false, finished: false, all_done: false }
    } else {
        let last = k == warmup + measured;
        HarnessStep::Frame {
            def_index: i,
            counted: true,
            finished: last,
            all_done: last && pos + 1 >= run_order.len(),
        }
    }
}

proof fn lemma_benchmark_prefix(
    run_order: Seq<usize>,
    pos: usize,
    warmup: usize,
    measured: usize,
    n: nat,
)
    requires
        pos < run_order.len(),
        measured >= 1,
        1 <= n <= warmup + measured,
    ensures
        ({
            let (p, r, steps) = harness_run(
                HarnessPhase::PendingBench(run_order[pos as int]),
                pos,
                run_order,
                warmup,
                measured,
                n,
            );
            &&& r == pos
            &&& p == (if n - 1 <= warmup {
                HarnessPhase::Running {
                    def_index: run_order[pos as int],
                    warmup_remaining: (warmup - (n - 1)) as usize,
                    samples: 0,
                }
            } else {
                HarnessPhase::Running {
                    def_index: run_order[pos as int],
                    warmup_remaining: 0,
                    samples: (n - 1 - warmup) as usize,
                }
            })
            &&& steps.len() == n
            &&& forall|k: int|
                0 <= k < n ==> #[trigger] steps[k] == benchmark_frame(
                    run_order,
                    pos as int,
                    warmup as int,
                    measured as int,
                    k,
                )
        }),
    decreases n,
{
    let i = run_order[pos as int];
    let start = HarnessPhase::PendingBench(i);
    let (p0, r0, steps0) = harness_run(start, pos, run_order, warmup, measured, (n - 1) as nat);
    let (p, r, steps) = harness_run(start, pos, run_order, warmup, measured, n);
    let (p1, r1, step) = harness_step(p0, r0, run_order, warmup, measured);
    assert(p == p1 && r == r1 && steps == steps0.push(step));
    if n == 1 {
        assert(p0 == start && r0 == pos && steps0 == Seq::<HarnessStep>::empty());
        assert(steps[0] == step);
    } else {
        lemma_benchmark_prefix(run_order, pos, warmup, measured, (n - 1) as nat);
        assert forall|k: int| 0 <= k < n implies #[trigger] steps[k] == benchmark_frame(
            run_order,
            pos as int,
            warmup as int,
            measured as int,
            k,
        ) by {
            if k < n - 1 {
                assert(steps[k] == steps0[k]);
            } else {
                assert(steps[k] == step);
            }
        }
    }
}

/// Fixed-size frame averaging: starting from a pending benchmark, the next
/// `1 + warmup + measured` frames prepare it, render `warmup` uncounted
/// frames and then `measured` counted frames, the last of which finishes it;
/// the harness then moves to the next benchmark of the run order, or
/// completes after the last one.
pub proof fn lemma_benchmark_frames(run_order: Seq<usize>, pos: usize, warmup: usize, measured: usize)
    requires
        pos < run_order.len() <= usize::MAX,
        measured >= 1,
        warmup + measured + 1 <= usize::MAX,
    ensures
        ({
            let n = (1 + warmup + measured) as nat;
            let (p, r, steps) = harness_run(
                HarnessPhase::PendingBench(run_order[pos as int]),
                pos,
                run_order,
                warmup,
                measured,
                n,
            );
            &&& steps.len() == n
            &&& forall|k: int|
                0 <= k < n ==> #[trigger] steps[k] == benchmark_frame(
                    run_order,
                    pos as int,
                    warmup as int,
                    measured as int,
                    k,
                )
            &&& r == pos + 1
            &&& p == (if pos + 1 < run_order.len() {
                HarnessPhase::PendingBench(run_order[pos + 1])
            } else {
                HarnessPhase::Complete
            })
        }),
{
    let n = (1 + warmup + measured) as nat;
    lemma_benchmark_prefix(run_order, pos, warmup, measured, (n - 1) as nat);
    let (p, r, steps) = harness_run(
        HarnessPhase::PendingBench(run_order[pos as int]),
        pos,
        run_order,
        warmup,
        measured,
        (n - 1) as nat,
    );
    let (p2, r2, steps2) = harness_run(
        HarnessPhase::PendingBench(run_order[pos as int]),
        pos,
        run_order,
        warmup,
        measured,
        n,
    );
    let i = run_order[pos as int];
    assert(p == HarnessPhase::Running {
        def_index: i,
        warmup_remaining: 0,
        samples: (measured - 1) as usize,
    });
    assert(r == pos);
    let (p3, r3, step) = harness_step(p, r, run_order, warmup, measured);
    assert(step == benchmark_frame(run_order, pos as int, warmup as int, measured as int, n - 1));
    assert(p2 == p3 && r2 == r3 && steps2 == steps.push(step));
    assert(steps2[n - 1] == step);
    assert forall|k: int| 0 <= k < n implies #[trigger] steps2[k] == benchmark_frame(
        run_order,
        pos as int,
        warmup as int,
        measured as int,
        k,
    ) by {
        if k < n - 1 {
            assert(steps2[k] == steps[k]);
        }
    }
}

impl BenchHarnessCore {
    /// A harness with no run: 3 warmup frames and 15 measured frames per benchmark.
    pub fn new() -> (h: BenchHarnessCore)
        ensures
            h.phase == HarnessPhase::Idle,
            h.warmup_samples == 3,
            h.measured_samples == 15,
            h.run_order@.len() == 0,
            h.run_pos == 0,
            harness_wf(h),
    {
        BenchHarnessCore {
            phase: HarnessPhase::Idle,
            warmup_samples: 3,
            measured_samples: 15,
            run_order: Vec::new(),
            run_pos: 0,
        }
    }

    /// Starts running the benchmarks `selected`, in that order.
    pub fn start(&mut self, selected: Vec<usize>)
        ensures
            final(self).run_order@ == selected@,
            final(self).run_pos == 0,
            final(self).warmup_samples == old(self).warmup_samples,
            final(self).measured_samples == old(self).measured_samples,
            final(self).phase == (if selected@.len() == 0 {
                HarnessPhase::Complete
            } else {
                HarnessPhase::PendingBench(selected@[0])
            }),
            harness_wf(*final(self)),
    {
        self.run_order = selected;
        self.run_pos = 0;
        if self.run_order.len() == 0 {
            self.phase = HarnessPhase::Complete;
        } else {
            self.phase = HarnessPhase::PendingBench(self.run_order[0]);
        }
    }

    /// Whether a run is under way.
    pub fn is_running(&self) -> (r: bool)
        ensures
            r == !(self.phase is Idle || self.phase is Complete),
    {
        match self.phase {
            HarnessPhase::Idle | HarnessPhase::Complete => false,
            _ => true,
        }
    }

    /// The benchmark being set up or measured.
    pub fn current_bench_idx(&self) -> (r: Option<usize>)
        ensures
            r == (match self.phase {
                HarnessPhase::PendingBench(i) => Some(i),
                HarnessPhase::Running { def_index, .. } => Some(def_index),
                _ => None,
            }),
    {
        match self.phase {
            HarnessPhase::PendingBench(i) => Some(i),
            HarnessPhase::Running { def_index, .. } => Some(def_index),
            _ => None,
        }
    }

    /// Decides this animation frame's work and moves on.
    pub fn tick(&mut self) -> (step: HarnessStep)
        requires
            harness_wf(*old(self)),
        ensures
            harness_wf(*final(self)),
            final(self).run_order == old(self).run_order,
            final(self).warmup_samples == old(self).warmup_samples,
            final(self).measured_samples == old(self).measured_samples,
            (final(self).phase, final(self).run_pos, step) == harness_step(
                old(self).phase,
                old(self).run_pos,
                old(self).run_order@,
                old(self).warmup_samples,
                old(self).measured_samples,
            ),
    {
        match self.phase {
            HarnessPhase::Idle | HarnessPhase::Complete => HarnessStep::Nothing,
            HarnessPhase::PendingBench(i) => {
                self.phase = HarnessPhase::Running {
                    def_index: i,
                    warmup_remaining: self.warmup_samples,
                    samples: 0,
                };
                HarnessStep::Prepare { def_index: i }
            },
            HarnessPhase::Running { def_index, warmup_remaining, samples } => {
                let counted = warmup_remaining == 0;
                let (warmup_remaining, samples) = if counted {
                    (0, samples + 1)
                } else {
                    (warmup_remaining - 1, samples)
                };
                if samples < self.measured_samples {
                    self.phase = HarnessPhase::Running { def_index, warmup_remaining, samples };
                    HarnessStep::Frame { def_index, counted, finished: false, all_done: false }
                } else {
                    self.run_pos = self.run_pos + 1;
                    if self.run_pos < self.run_order.len() {
                        self.phase = HarnessPhase::PendingBench(self.run_order[self.run_pos]);
                        HarnessStep::Frame { def_index, counted, finished: true, all_done: false }
                    } else {
                        self.phase = HarnessPhase::Complete;
                        HarnessStep::Frame { def_index, counted, finished: true, all_done: true }
                    }
                }
            },
        }
    }
}

/// Frames rendered before a calibration probe is timed.
pub const PROBE_WARMUP_FRAMES: usize = 3;

/// Frames timed per calibration probe.
pub const PROBE_MEASURED_FRAMES: usize = 5;

/// Where the calibration harness stands.
#[derive(Clone, Copy, Debug, PartialEq, Eq)]
pub enum CalibrationPhase {
    Idle,
    /// The probe `search.probe_count` of target `target_idx` is about to be set up.
    PendingProbe { target_idx: usize, search: SearchState },
    /// Frames of the probe are being rendered.
    Running { target_idx: usize, search: SearchState, warmup_remaining: usize, samples: usize },
    /// The probe's frames are timed; the page reports how the average compares
    /// with the target frame time.
    Measured { target_idx: usize, search: SearchState },
    Complete,
}

/// What the page does on this animation frame.
#[derive(Clone, Copy, Debug, PartialEq, Eq)]
pub enum CalibrationStep {
    Nothing,
    /// Set up target `target_idx` with `probe_count` shapes, render one frame,
    /// and start timing from now.
    Prepare { target_idx: usize, probe_count: usize },
    /// Render one frame; add its time to the total when `counted`. When
    /// `probe_done`, average the total over the measured frames and report
    /// with `finish_probe`.
    Frame { target_idx: usize, probe_count: usize, counted: bool, probe_done: bool },
}

/// What a finished probe leads to.
#[derive(Clone, Copy, Debug, PartialEq, Eq)]
pub enum ProbeOutcome {
    /// Probe another count for the same target.
    NextProbe { probe_count: usize },
    /// Target `target_idx` is calibrated to `count`; when `all_done`, every
    /// target is.
    TargetDone { target_idx: usize, count: usize, all_done: bool },
}

/// The calibration harness: for each target in turn, searches for the shape
/// count whose frame time is closest to the target.
#[derive(Debug)]
pub struct CalibrationCore {
    pub phase: CalibrationPhase,
    pub target_count: usize,
    /// The probed count of the current target whose frame time came closest
    /// to the target so far.
    pub best: Option<usize>,
}

/// The closest count after measuring `measured`: the earlier best when the
/// page reports that it stays closer (or as close with fewer shapes),
/// otherwise the count just measured.
pub open spec fn chosen_best(best: Option<usize>, measured: usize, keep_previous: bool) -> usize {
    match best {
        Some(b) => if keep_previous { b } else { measured },
        None => measured,
    }
}

pub open spec fn calibration_wf(c: CalibrationCore) -> bool {
    &&& (c.best matches Some(b) ==> b >= 1)
    &&& (match c.phase {
        CalibrationPhase::PendingProbe { target_idx, search } => target_idx < c.target_count
            && search_wf(search),
        CalibrationPhase::Running { target_idx, search, samples, .. } => target_idx
            < c.target_count && search_wf(search) && samples < PROBE_MEASURED_FRAMES,
        CalibrationPhase::Measured { target_idx, search } => target_idx < c.target_count
            && search_wf(search),
        _ => true,
    })
}

/// The search a target starts with.
pub fn initial_search() -> (s: SearchState)
    ensures
        s == crate::calibration::initial_search(),
        search_wf(s),
{
    SearchState { probe_count: 1, lower: None, upper: None, binary_steps_left: BINARY_STEPS }
}

proof fn lemma_harness_run_split(
    phase: HarnessPhase,
    run_pos: usize,
    run_order: Seq<usize>,
    warmup: usize,
    measured: usize,
    a: nat,
    b: nat,
)
    ensures
        ({
            let (p1, r1, s1) = harness_run(phase, run_pos, run_order, warmup, measured, a);
            let (p2, r2, s2) = harness_run(p1, r1, run_order, warmup, measured, b);
            harness_run(phase, run_pos, run_order, warmup, measured, a + b) == (p2, r2, s1 + s2)
        }),
    decreases b,
{
    let (p1, r1, s1) = harness_run(phase, run_pos, run_order, warmup, measured, a);
    if b == 0 {
        assert(s1 + Seq::<HarnessStep>::empty() =~= s1);
    } else {
        lemma_harness_run_split(phase, run_pos, run_order, warmup, measured, a, (b - 1) as nat);
        let (q, rq, sq) = harness_run(p1, r1, run_order, warmup, measured, (b - 1) as nat);
        let (q2, rq2, step) = harness_step(q, rq, run_order, warmup, measured);
        assert(harness_run(phase, run_pos, run_order, warmup, measured, a + b) == (
            q2,
            rq2,
            (s1 + sq).push(step),
        ));
        assert((s1 + sq).push(step) =~= s1 + sq.push(step));
    }
}

proof fn lemma_harness_benchmarks_done(
    run_order: Seq<usize>,
    warmup: usize,
    measured: usize,
    k: nat,
)
    requires
        0 < run_order.len() <= usize::MAX,
        measured >= 1,
        warmup + measured + 1 <= usize::MAX,
        k <= run_order.len(),
    ensures
        ({
            let per = 1 + warmup + measured;
            let (p, r, steps) = harness_run(
                HarnessPhase::PendingBench(run_order[0]),
                0,
                run_order,
                warmup,
                measured,
                (k * per) as nat,
            );
            &&& r == k
            &&& p == (if k < run_order.len() {
                HarnessPhase::PendingBench(run_order[k as int])
            } else {
                HarnessPhase::Complete
            })
            &&& steps.len() == k * per
            &&& forall|i: int, j: int|
                0 <= i < k && 0 <= j < per ==> steps[i * per + j] == benchmark_frame(
                    run_order,
                    i,
                    warmup as int,
                    measured as int,
                    j,
                )
        }),
    decreases k,
{
    let per = 1 + warmup + measured;
    let start = HarnessPhase::PendingBench(run_order[0]);
    if k == 0 {
        assert(0 * per == 0) by (nonlinear_arith);
    } else {
        let k0 = (k - 1) as nat;
        lemma_harness_benchmarks_done(run_order, warmup, measured, k0);
        assert(k * per == k0 * per + per) by (nonlinear_arith)
            requires
                k == k0 + 1,
        ;
        assert(k0 * per >= 0) by (nonlinear_arith)
            requires
                k0 >= 0,
                per >= 1,
        ;
        lemma_harness_run_split(start, 0, run_order, warmup, measured, (k0 * per) as nat, per as nat);
        let (p1, r1, s1) = harness_run(start, 0, run_order, warmup, measured, (k0 * per) as nat);
        lemma_benchmark_frames(run_order, k0 as usize, warmup, measured);
        let (p2, r2, s2) = harness_run(p1, r1, run_order, warmup, measured, per as nat);
        let steps = s1 + s2;
        assert forall|i: int, j: int| 0 <= i < k && 0 <= j < per implies steps[i * per + j]
            == benchmark_frame(run_order, i, warmup as int, measured as int, j) by {
            if i < k0 {
                assert(i * per + j < k0 * per) by (nonlinear_arith)
                    requires
                        0 <= i < k0,
                        0 <= j < per,
                ;
                assert(i * per + j >= 0) by (nonlinear_arith)
                    requires
                        0 <= i,
                        0 <= j,
                        per >= 0,
                ;
                assert(steps[i * per + j] == s1[i * per + j]);
            } else {
                assert(i == k0);
                assert(steps[i * per + j] == s2[j]);
            }
        }
    }
}

/// A whole harness run: started on a non-empty run order, the harness
/// takes `1 + warmup + measured` frames per benchmark, runs the benchmarks
/// in order with each one's frames as `benchmark_frame` lays out, reports
/// `all_done` on the last frame of the last benchmark only, and is then complete.
pub proof fn lemma_harness_run(run_order: Seq<usize>, warmup: usize, measured: usize)
    requires
        0 < run_order.len() <= usize::MAX,
        measured >= 1,
        warmup + measured + 1 <= usize::MAX,
    ensures
        ({
            let per = 1 + warmup + measured;
            let (p, r, steps) = harness_run(
                HarnessPhase::PendingBench(run_order[0]),
                0,
                run_order,
                warmup,
                measured,
                (run_order.len() * per) as nat,
            );
            &&& p == HarnessPhase::Complete
            &&& r == run_order.len()
            &&& steps.len() == run_order.len() * per
            &&& forall|i: int, j: int|
                0 <= i < run_order.len() && 0 <= j < per ==> steps[i * per + j] == benchmark_frame(
                    run_order,
                    i,
                    warmup as int,
                    measured as int,
                    j,
                )
        }),
{
    lemma_harness_benchmarks_done(run_order, warmup, measured, run_order.len());
}

/// One animation frame of the calibration harness: a pending probe is set
/// up; a running probe renders a frame, counted once its warmup frames are
/// used up, and is measured after `PROBE_MEASURED_FRAMES` counted frames.
pub open spec fn calibration_step(phase: CalibrationPhase) -> (CalibrationPhase, CalibrationStep) {
    match phase {
        CalibrationPhase::PendingProbe { target_idx, search } => (
            CalibrationPhase::Running {
                target_idx,
                search,
                warmup_remaining: PROBE_WARMUP_FRAMES,
                samples: 0,
            },
            CalibrationStep::Prepare { target_idx, probe_count: search.probe_count },
        ),
        CalibrationPhase::Running { target_idx, search, warmup_remaining, samples } => {
            let counted = warmup_remaining == 0;
            let samples2 = if counted { samples + 1 } else { samples as int };
            let warmup2 = if counted { 0 } else { warmup_remaining - 1 };
            let probe_done = samples2 >= PROBE_MEASURED_FRAMES;
            let step = CalibrationStep::Frame {
                target_idx,
                probe_count: search.probe_count,
                counted,
                probe_done,
            };
            if probe_done {
                (CalibrationPhase::Measured { target_idx, search }, step)
            } else {
                (
                    CalibrationPhase::Running {
                        target_idx,
                        search,
                        warmup_remaining: warmup2 as usize,
                        samples: samples2 as usize,
                    },
                    step,
                )
            }
        },
        _ => (phase, CalibrationStep::Nothing),
    }
}

/// The phase and the work of `n` consecutive frames.
pub open spec fn calibration_run(phase: CalibrationPhase, n: nat) -> (
    CalibrationPhase,
    Seq<CalibrationStep>,
)
    decreases n,
{
    if n == 0 {
        (phase, seq![])
    } else {
        let (p, steps) = calibration_run(phase, (n - 1) as nat);
        let (p2, step) = calibration_step(p);
        (p2, steps.push(step))
    }
}

/// The work of frame `k` of a probe of `probe_count` shapes for target
/// `target_idx`: set up, then rendered uncounted during warmup, then counted.
pub open spec fn probe_frame(target_idx: usize, probe_count: usize, k: int) -> CalibrationStep {
    if k == 0 {
        CalibrationStep::Prepare { target_idx, probe_count }
    } else {
        CalibrationStep::Frame {
            target_idx,
            probe_count,
            counted: k > PROBE_WARMUP_FRAMES,
            probe_done: k == PROBE_WARMUP_FRAMES + PROBE_MEASURED_FRAMES,
        }
    }
}

/// Every probe is timed the same way: it is set up, rendered
/// `PROBE_WARMUP_FRAMES` times uncounted and `PROBE_MEASURED_FRAMES` times
/// counted, and then waits for its measurement to be reported.
pub proof fn lemma_probe_frames(target_idx: usize, search: SearchState)
    ensures
        ({
            let n = (1 + PROBE_WARMUP_FRAMES + PROBE_MEASURED_FRAMES) as nat;
            let (p, steps) = calibration_run(
                CalibrationPhase::PendingProbe { target_idx, search },
                n,
            );
            &&& p == (CalibrationPhase::Measured { target_idx, search })
            &&& steps.len() == n
            &&& forall|k: int|
                0 <= k < n ==> #[trigger] steps[k] == probe_frame(
                    target_idx,
                    search.probe_count,
                    k,
                )
        }),
{
    let start = CalibrationPhase::PendingProbe { target_idx, search };
    reveal_with_fuel(calibration_run, 10);
    let (p, steps) = calibration_run(start, 9);
    assert forall|k: int| 0 <= k < 9 implies #[trigger] steps[k] == probe_frame(
        target_idx,
        search.probe_count,
        k,
    ) by {
        assert(calibration_run(start, 9).1 =~= seq![
            probe_frame(target_idx, search.probe_count, 0),
            probe_frame(target_idx, search.probe_count, 1),
            probe_frame(target_idx, search.probe_count, 2),
            probe_frame(target_idx, search.probe_count, 3),
            probe_frame(target_idx, search.probe_count, 4),
            probe_frame(target_idx, search.probe_count, 5),
            probe_frame(target_idx, search.probe_count, 6),
            probe_frame(target_idx, search.probe_count, 7),
            probe_frame(target_idx, search.probe_count, 8),
        ]);
    }
}

impl CalibrationCore {
    pub fn new() -> (c: CalibrationCore)
        ensures
            c.phase == CalibrationPhase::Idle,
            c.target_count == 0,
            c.best is None,
            calibration_wf(c),
    {
        CalibrationCore { phase: CalibrationPhase::Idle, target_count: 0, best: None }
    }

    /// Starts calibrating `target_count` targets.
    pub fn start(&mut self, target_count: usize)
        ensures
            final(self).target_count == target_count,
            final(self).best is None,
            final(self).phase == (if target_count == 0 {
                CalibrationPhase::Complete
            } else {
                CalibrationPhase::PendingProbe {
                    target_idx: 0,
                    search: crate::calibration::initial_search(),
                }
            }),
            calibration_wf(*final(self)),
    {
        self.target_count = target_count;
        self.best = None;
        if target_count == 0 {
            self.phase = CalibrationPhase::Complete;
        } else {
            self.phase = CalibrationPhase::PendingProbe { target_idx: 0, search: initial_search() };
        }
    }

    /// Whether a calibration is under way.
    pub fn is_running(&self) -> (r: bool)
        ensures
            r == !(self.phase is Idle || self.phase is Complete),
    {
        match self.phase {
            CalibrationPhase::Idle | CalibrationPhase::Complete => false,
            _ => true,
        }
    }

    /// Decides this animation frame's work and moves on.
    pub fn tick(&mut self) -> (step: CalibrationStep)
        requires
            calibration_wf(*old(self)),
        ensures
            calibration_wf(*final(self)),
            final(self).target_count == old(self).target_count,
            final(self).best == old(self).best,
            (final(self).phase, step) == calibration_step(old(self).phase),
    {
        match self.phase {
            CalibrationPhase::PendingProbe { target_idx, search } => {
                self.phase = CalibrationPhase::Running {
                    target_idx,
                    search,
                    warmup_remaining: PROBE_WARMUP_FRAMES,
                    samples: 0,
                };
                CalibrationStep::Prepare { target_idx, probe_count: search.probe_count }
            },
            CalibrationPhase::Running { target_idx, search, warmup_remaining, samples } => {
                let counted = warmup_remaining == 0;
                let (warmup_remaining, samples) = if counted {
                    (0, samples + 1)
                } else {
                    (warmup_remaining - 1, samples)
                };
                if samples < PROBE_MEASURED_FRAMES {
                    self.phase = CalibrationPhase::Running {
                        target_idx,
                        search,
                        warmup_remaining,
                        samples,
                    };
                    CalibrationStep::Frame {
                        target_idx,
                        probe_count: search.probe_count,
                        counted,
                        probe_done: false,
                    }
                } else {
                    self.phase = CalibrationPhase::Measured { target_idx, search };
                    CalibrationStep::Frame {
                        target_idx,
                        probe_count: search.probe_count,
                        counted,
                        probe_done: true,
                    }
                }
            },
            _ => CalibrationStep::Nothing,
        }
    }

    /// Takes the comparison of the probe's average frame time with the
    /// target (`below_target`, `within_tolerance`) and whether the earlier
    /// closest count stays closest (`keep_previous_best`: its frame time is
    /// nearer the target, or as near with fewer shapes), keeps the closest
    /// count, and moves the search on. A finished target reports a count that
    /// was probed: the one just measured or the earlier closest one.
    pub fn finish_probe(
        &mut self,
        below_target: bool,
        within_tolerance: bool,
        keep_previous_best: bool,
    ) -> (outcome: ProbeOutcome)
        requires
            calibration_wf(*old(self)),
            old(self).phase is Measured,
        ensures
            calibration_wf(*final(self)),
            final(self).target_count == old(self).target_count,
            (*final(self), outcome) == spec_finish_probe(
                *old(self),
                below_target,
                within_tolerance,
                keep_previous_best,
            ),
            outcome matches ProbeOutcome::TargetDone { count, .. } ==> count >= 1,
            ({
                let target_idx = old(self).phase->Measured_target_idx;
                let search = old(self).phase->Measured_search;
                let best = chosen_best(old(self).best, search.probe_count, keep_previous_best);
                match spec_advance_search(search, below_target, within_tolerance, best) {
                    Ok(next) => {
                        &&& outcome == (ProbeOutcome::NextProbe { probe_count: next.probe_count })
                        &&& final(self).best == Some(best)
                        &&& final(self).phase == (CalibrationPhase::PendingProbe {
                            target_idx,
                            search: next,
                        })
                    },
                    Err(count) => {
                        let all_done = target_idx + 1 >= old(self).target_count;
                        &&& count == (if within_tolerance { search.probe_count } else { best })
                        &&& outcome == (ProbeOutcome::TargetDone { target_idx, count, all_done })
                        &&& final(self).best is None
                        &&& final(self).phase == (if all_done {
                            CalibrationPhase::Complete
                        } else {
                            CalibrationPhase::PendingProbe {
                                target_idx: (target_idx + 1) as usize,
                                search: crate::calibration::initial_search(),
                            }
                        })
                    },
                }
            }),
    {
        let (target_idx, search) = match self.phase {
            CalibrationPhase::Measured { target_idx, search } => (target_idx, search),
            _ => vstd::pervasive::unreached(),
        };
        let measured = search.probe_count;
        let best = match self.best {
            Some(b) => if keep_previous_best {
                b
            } else {
                measured
            },
            None => measured,
        };
        proof {
            crate::calibration::lemma_search_step_progress(
                search,
                below_target,
                within_tolerance,
                best,
            );
        }
        match advance_search(search, below_target, within_tolerance, best) {
            Ok(next) => {
                self.best = Some(best);
                self.phase = CalibrationPhase::PendingProbe { target_idx, search: next };
                ProbeOutcome::NextProbe { probe_count: next.probe_count }
            },
            Err(count) => {
                self.best = None;
                if target_idx + 1 < self.target_count {
                    self.phase = CalibrationPhase::PendingProbe {
                        target_idx: target_idx + 1,
                        search: initial_search(),
                    };
                    ProbeOutcome::TargetDone { target_idx, count, all_done: false }
                } else {
                    self.phase = CalibrationPhase::Complete;
                    ProbeOutcome::TargetDone { target_idx, count, all_done: true }
                }
            },
        }
    }
}

/// The calibration after a probe of `c` (in phase `Measured`) is reported,
/// and what the report leads to.
pub open spec fn spec_finish_probe(
    c: CalibrationCore,
    below_target: bool,
    within_tolerance: bool,
    keep_previous_best: bool,
) -> (CalibrationCore, ProbeOutcome) {
    let target_idx = c.phase->Measured_target_idx;
    let search = c.phase->Measured_search;
    let best = chosen_best(c.best, search.probe_count, keep_previous_best);
    match spec_advance_search(search, below_target, within_tolerance, best) {
        Ok(next) => (
            CalibrationCore {
                phase: CalibrationPhase::PendingProbe { target_idx, search: next },
                target_count: c.target_count,
                best: Some(best),
            },
            ProbeOutcome::NextProbe { probe_count: next.probe_count },
        ),
        Err(count) => {
            let all_done = target_idx + 1 >= c.target_count;
            (
                CalibrationCore {
                    phase: if all_done {
                        CalibrationPhase::Complete
                    } else {
                        CalibrationPhase::PendingProbe {
                            target_idx: (target_idx + 1) as usize,
                            search: crate::calibration::initial_search(),
                        }
                    },
                    target_count: c.target_count,
                    best: None,
                },
                ProbeOutcome::TargetDone { target_idx, count, all_done },
            )
        },
    }
}

/// What is left of a calibration: targets still to do, then the current
/// target's search measure. Every reported probe lowers it.
pub open spec fn calibration_measure(c: CalibrationCore) -> (int, int, int) {
    match c.phase {
        CalibrationPhase::PendingProbe { target_idx, search }
        | CalibrationPhase::Running { target_idx, search, .. }
        | CalibrationPhase::Measured { target_idx, search } => (
            c.target_count - target_idx,
            search_measure(search).0,
            search_measure(search).1,
        ),
        _ => (0, 0, 0),
    }
}

pub open spec fn measure3_lt(a: (int, int, int), b: (int, int, int)) -> bool {
    a.0 < b.0 || (a.0 == b.0 && (a.1 < b.1 || (a.1 == b.1 && a.2 < b.2)))
}

/// A calibration run ends, and reports its end once: each reported probe
/// either completes the run, reporting `all_done` exactly then, or leads to
/// another probe with a smaller, still non-negative measure; a finished
/// target reports a probed count of at least 1; and a completed calibration
/// does nothing more on any frame.
pub proof fn lemma_calibration_run_ends(
    c: CalibrationCore,
    below_target: bool,
    within_tolerance: bool,
    keep_previous_best: bool,
)
    requires
        calibration_wf(c),
        c.phase is Measured,
    ensures
        ({
            let (c2, outcome) = spec_finish_probe(c, below_target, within_tolerance, keep_previous_best);
            &&& calibration_measure(c).0 >= 1
            &&& calibration_measure(c).2 >= 0
            &&& (outcome matches ProbeOutcome::TargetDone { all_done, .. } && all_done) <==> c2.phase is Complete
            &&& !(c2.phase is Complete) ==> {
                &&& c2.phase is PendingProbe
                &&& measure3_lt(calibration_measure(c2), calibration_measure(c))
                &&& calibration_measure(c2).0 >= 1
                &&& calibration_measure(c2).2 >= 0
            }
            &&& outcome matches ProbeOutcome::TargetDone { count, .. } ==> count >= 1
        }),
        calibration_step(CalibrationPhase::Complete) == (
            CalibrationPhase::Complete,
            CalibrationStep::Nothing,
        ),
{
    let search = c.phase->Measured_search;
    let best = chosen_best(c.best, search.probe_count, keep_previous_best);
    crate::calibration::lemma_search_step_progress(search, below_target, within_tolerance, best);
}

/// The status line shown while calibrating.
pub open spec fn calibration_status(
    target_idx: nat,
    target_total: nat,
    label: Seq<char>,
    probe_count: nat,
) -> Seq<char> {
    "Calibrating "@ + decimal(target_idx + 1) + "/"@ + decimal(target_total) + ": "@ + label
        + " ("@ + decimal(probe_count) + ")"@
}

impl CalibrationCore {
    /// The status line for the probe under way, given the targets' labels.
    pub fn current_status(&self, target_labels: &Vec<&str>) -> (r: Option<String>)
        ensures
            match self.phase {
                CalibrationPhase::PendingProbe { target_idx, search }
                | CalibrationPhase::Running { target_idx, search, .. }
                | CalibrationPhase::Measured { target_idx, search } => if target_idx
                    < target_labels@.len() {
                    r matches Some(s) && s@ == calibration_status(
                        target_idx as nat,
                        target_labels@.len(),
                        target_labels@[target_idx as int]@,
                        search.probe_count as nat,
                    )
                } else {
                    r is None
                },
                _ => r is None,
            },
    {
        let (target_idx, probe_count) = match self.phase {
            CalibrationPhase::PendingProbe { target_idx, search }
            | CalibrationPhase::Running { target_idx, search, .. }
            | CalibrationPhase::Measured { target_idx, search } => (target_idx, search.probe_count),
            _ => return None,
        };
        if target_idx >= target_labels.len() {
            return None;
        }
        let label = target_labels[target_idx];
        let mut status = String::from_str("Calibrating ");
        status.append(u64_to_decimal((target_idx + 1) as u64).as_str());
        status.append("/");
        status.append(u64_to_decimal(target_labels.len() as u64).as_str());
        status.append(": ");
        status.append(label);
        status.append(" (");
        status.append(u64_to_decimal(probe_count as u64).as_str());
        status.append(")");
        Some(status)
    }
}

} // verus!
