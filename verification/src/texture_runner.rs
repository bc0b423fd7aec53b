//! The decisions of the external-texture benchmark runner: which phase comes
//! next, what the renderer has to do, and which events the page shows. The
//! page loop performs the rendering and keeps the frame timings; it reports
//! each outcome back here.
use vstd::prelude::*;

use crate::render_mode::RenderMode;
use crate::text::{decimal, u64_to_decimal};
use crate::texture_config::BenchConfig;

verus! {

/// Where a run stands.
#[derive(Clone, Copy, Debug, PartialEq, Eq)]
pub enum RunnerPhase {
    Idle,
    /// Uploading the texture pool, one texture per frame.
    Preparing { next_texture: usize },
    /// Waiting for the renderer to lay out the current image count.
    Configuring,
    Warming { mode: RenderMode, remaining: usize },
    Measuring { mode: RenderMode },
    Complete,
}

/// Work that the renderer has to do next.
#[derive(Clone, Copy, Debug, PartialEq, Eq)]
pub enum RunnerAction {
    Nothing,
    /// Lay out `image_count` rectangles of `draw_size` pixels, then report
    /// back with `scene_configured`.
    ConfigureScene { image_count: usize, draw_size: u16 },
    /// Start collecting frame intervals for `mode` from scratch.
    BeginMeasurement { mode: RenderMode },
    /// The run is over: release the textures.
    DeleteTextures,
}

/// What the page shows.
#[derive(Debug)]
pub enum CoreEvent {
    Status(String),
    Progress { completed: usize, total: usize },
    /// A measurement pair finished; the page attaches the timings.
    TrialComplete { texture_size: u16, texture_count: usize, image_count: usize, measurement: usize },
    Complete,
    Failed(String),
}

/// An event with its text as characters.
pub enum EventView {
    Status(Seq<char>),
    Progress { completed: usize, total: usize },
    TrialComplete { texture_size: u16, texture_count: usize, image_count: usize, measurement: usize },
    Complete,
    Failed(Seq<char>),
}

impl View for CoreEvent {
    type V = EventView;

    open spec fn view(&self) -> EventView {
        match self {
            CoreEvent::Status(s) => EventView::Status(s@),
            CoreEvent::Progress { completed, total } => EventView::Progress {
                completed: *completed,
                total: *total,
            },
            CoreEvent::TrialComplete { texture_size, texture_count, image_count, measurement } =>
                EventView::TrialComplete {
                texture_size: *texture_size,
                texture_count: *texture_count,
                image_count: *image_count,
                measurement: *measurement,
            },
            CoreEvent::Complete => EventView::Complete,
            CoreEvent::Failed(s) => EventView::Failed(s@),
        }
    }
}

/// The views of a list of events.
pub open spec fn events_view(events: Seq<CoreEvent>) -> Seq<EventView> {
    events.map_values(|e: CoreEvent| e@)
}

pub open spec fn starting_message(texture_count: usize, size: u16) -> Seq<char> {
    "Preparing "@ + decimal(texture_count as nat) + " paired textures at "@ + decimal(size as nat)
        + "×"@ + decimal(size as nat)
}

pub open spec fn preparing_message(size: u16, prepared: usize, required: usize) -> Seq<char> {
    "Preparing paired "@ + decimal(size as nat) + "×"@ + decimal(size as nat) + " textures · "@
        + decimal(prepared as nat) + "/"@ + decimal(required as nat)
}

pub open spec fn warming_message(mode: RenderMode, count: usize, frames: usize) -> Seq<char> {
    "Warming "@ + mode.label_spec() + " · "@ + decimal(count as nat) + " images · "@ + decimal(
        frames as nat,
    ) + " frames"@
}

pub open spec fn measuring_message(
    mode: RenderMode,
    count: usize,
    pair: nat,
    trials: usize,
) -> Seq<char> {
    "Measuring "@ + mode.label_spec() + " · "@ + decimal(count as nat) + " images · pair "@
        + decimal(pair) + "/"@ + decimal(trials as nat)
}

/// The decision state of a run; the page keeps the timings beside it.
pub struct RunnerCore {
    pub config: Option<BenchConfig>,
    pub phase: RunnerPhase,
    pub count_index: usize,
    pub trial_index: usize,
    pub completed_trials: usize,
    pub has_image_metrics: bool,
    pub has_external_metrics: bool,
    /// Every event reported since the run started.
    pub reported: Ghost<Seq<EventView>>,
}

/// The `(completed, total)` of each progress event in `evs`, in order.
pub open spec fn progress_of(evs: Seq<EventView>) -> Seq<(int, int)>
    decreases evs.len(),
{
    if evs.len() == 0 {
        seq![]
    } else {
        let earlier = progress_of(evs.drop_last());
        match evs.last() {
            EventView::Progress { completed, total } => earlier.push((completed as int, total as int)),
            _ => earlier,
        }
    }
}

/// How many of `evs` end a run: `Complete` or `Failed`.
pub open spec fn endings_of(evs: Seq<EventView>) -> nat
    decreases evs.len(),
{
    if evs.len() == 0 {
        0
    } else {
        endings_of(evs.drop_last()) + match evs.last() {
            EventView::Complete | EventView::Failed(_) => 1nat,
            _ => 0nat,
        }
    }
}

/// How many of `evs` are `Complete`.
pub open spec fn completions_of(evs: Seq<EventView>) -> nat
    decreases evs.len(),
{
    if evs.len() == 0 {
        0
    } else {
        completions_of(evs.drop_last()) + if evs.last() is Complete {
            1nat
        } else {
            0nat
        }
    }
}

/// The events reported so far in a run with `c` agree with its state: the
/// progress events count 1, 2, ... up to the completed pairs, each with the
/// run's total; a run reports at most one ending, exactly when it is over,
/// and that ending is its last event; it completes only after all its pairs.
pub open spec fn log_wf(r: RunnerCore, c: BenchConfig) -> bool {
    let log = r.reported@;
    &&& progress_of(log) =~= Seq::new(
        r.completed_trials as nat,
        |k: int| (k + 1, total_trials(c)),
    )
    &&& endings_of(log) == (if r.phase is Complete { 1nat } else { 0nat })
    &&& endings_of(log) == 1 ==> (log.last() is Complete || log.last() is Failed)
    &&& completions_of(log) <= endings_of(log)
    &&& completions_of(log) == 1 ==> r.completed_trials == c.image_counts@.len() * pairs_per_count(c)
}

/// The log after a finished pair: its trial and progress events, then the
/// next pair's status, nothing, or the completion of the run.
proof fn lemma_pair_log(
    log0: Seq<EventView>,
    trial: EventView,
    completed: usize,
    total: usize,
    tail: Seq<EventView>,
    c: BenchConfig,
)
    requires
        completed >= 1,
        total == total_trials(c),
        progress_of(log0) =~= Seq::new((completed - 1) as nat, |k: int| (k + 1, total_trials(c))),
        endings_of(log0) == 0,
        completions_of(log0) == 0,
        trial is TrialComplete,
        tail.len() <= 1,
        tail.len() == 1 ==> (tail[0] is Status || tail[0] is Complete),
    ensures
        ({
            let log = log0 + (seq![trial, EventView::Progress { completed, total }] + tail);
            &&& progress_of(log) =~= Seq::new(completed as nat, |k: int| (k + 1, total_trials(c)))
            &&& endings_of(log) == (if tail.len() == 1 && tail[0] is Complete { 1nat } else { 0nat })
            &&& completions_of(log) == endings_of(log)
            &&& endings_of(log) == 1 ==> log.last() is Complete
        }),
{
    let head = seq![trial, EventView::Progress { completed, total }];
    lemma_log_append(head, tail);
    lemma_log_append(log0, head + tail);
    reveal_with_fuel(progress_of, 3);
    reveal_with_fuel(endings_of, 3);
    reveal_with_fuel(completions_of, 3);
    assert(head.drop_last() =~= seq![trial]);
    assert(seq![trial].drop_last() =~= Seq::<EventView>::empty());
    assert(progress_of(head) =~= seq![(completed as int, total as int)]);
    if tail.len() == 1 {
        assert(tail.drop_last() =~= Seq::<EventView>::empty());
    }
    let log = log0 + (head + tail);
    if tail.len() == 1 {
        assert(log.last() == tail[0]);
    }
}

/// What a run reports, over the whole run: in every state that the runner
/// reaches after `start`, the progress events so far carry completed counts
/// 1, 2, ... in order, each with the run's total of pairs; the run has
/// reported an ending (`Complete` or `Failed`) exactly when it is over, at
/// most one, as its last event; and it reports `Complete` only once every
/// pair of every image count has been measured. No report method accepts a
/// run that is over, so nothing follows its ending until the next `start`.
pub proof fn lemma_run_reports(r: RunnerCore)
    requires
        runner_wf(r),
        r.config is Some,
    ensures
        ({
            let c = r.config->0;
            let log = r.reported@;
            &&& progress_of(log).len() == r.completed_trials
            &&& forall|k: int|
                0 <= k < progress_of(log).len() ==> #[trigger] progress_of(log)[k] == (
                    k + 1,
                    total_trials(c),
                )
            &&& endings_of(log) <= 1
            &&& (endings_of(log) == 1 <==> r.phase is Complete)
            &&& endings_of(log) == 1 ==> (log.last() is Complete || log.last() is Failed)
            &&& completions_of(log) == 1 ==> r.completed_trials == c.image_counts@.len()
                * pairs_per_count(c)
            &&& r.phase is Complete ==> !is_running(r.phase)
        }),
{
}

/// Appending events adds their progress events and endings.
pub proof fn lemma_log_append(a: Seq<EventView>, b: Seq<EventView>)
    ensures
        progress_of(a + b) == progress_of(a) + progress_of(b),
        endings_of(a + b) == endings_of(a) + endings_of(b),
        completions_of(a + b) == completions_of(a) + completions_of(b),
    decreases b.len(),
{
    if b.len() == 0 {
        assert(a + b =~= a);
        assert(progress_of(a) + progress_of(b) =~= progress_of(a));
    } else {
        lemma_log_append(a, b.drop_last());
        assert((a + b).drop_last() =~= a + b.drop_last());
        assert((a + b).last() == b.last());
        assert(progress_of(a + b) =~= progress_of(a) + progress_of(b));
    }
}

/// Number of measurement pairs that the page reports for a run with `c`.
pub open spec fn total_trials(c: BenchConfig) -> int {
    c.image_counts@.len() * c.trials
}

/// Measurement pairs actually run per image count: a configuration without
/// measurements still measures one pair before moving on.
pub open spec fn pairs_per_count(c: BenchConfig) -> int {
    if c.trials == 0 { 1 } else { c.trials as int }
}

/// A phase in which a run is under way.
pub open spec fn is_running(p: RunnerPhase) -> bool {
    !(p is Idle) && !(p is Complete)
}

/// The image count being measured.
pub open spec fn current_count(r: RunnerCore) -> usize {
    r.config->0.image_counts@[r.count_index as int]
}

/// The run's counters agree with its configuration: the image count being
/// measured exists, the pair index is in range, and the completed pairs are
/// exactly those before the current one.
pub open spec fn runner_wf(r: RunnerCore) -> bool {
    &&& is_running(r.phase) ==> r.config is Some
    &&& r.config matches Some(c) ==> {
        &&& c.image_counts@.len() > 0
        &&& c.image_counts@.len() * pairs_per_count(c) <= usize::MAX
        &&& is_running(r.phase) ==> {
            &&& r.count_index < c.image_counts@.len()
            &&& r.trial_index < pairs_per_count(c)
            &&& r.completed_trials == r.count_index * pairs_per_count(c) + r.trial_index
        }
        &&& r.phase matches RunnerPhase::Preparing { next_texture } ==> {
            &&& r.count_index == 0
            &&& r.trial_index == 0
            &&& (next_texture < c.texture_count || next_texture == 0)
        }
        &&& (r.phase is Configuring || r.phase is Warming) ==> r.trial_index == 0
        &&& r.phase is Complete ==> r.completed_trials <= c.image_counts@.len() * pairs_per_count(c)
        &&& log_wf(r, c)
    }
}

impl RunnerCore {
    /// A runner with no run.
    pub fn new() -> (r: RunnerCore)
        ensures
            r.config is None,
            r.phase == RunnerPhase::Idle,
            r.count_index == 0,
            r.trial_index == 0,
            r.completed_trials == 0,
            !r.has_image_metrics,
            !r.has_external_metrics,
            runner_wf(r),
    {
        RunnerCore {
            config: None,
            phase: RunnerPhase::Idle,
            count_index: 0,
            trial_index: 0,
            completed_trials: 0,
            has_image_metrics: false,
            has_external_metrics: false,
            reported: Ghost(Seq::empty()),
        }
    }

    /// Starts a run with `config`; the page begins a fresh texture set of
    /// the configured size.
    pub fn start(&mut self, config: BenchConfig) -> (events: Vec<CoreEvent>)
        requires
            config.image_counts@.len() > 0,
            config.image_counts@.len() * pairs_per_count(config) <= usize::MAX,
        ensures
            final(self).phase == (RunnerPhase::Preparing { next_texture: 0 }),
            final(self).config == Some(config),
            final(self).count_index == 0,
            final(self).trial_index == 0,
            final(self).completed_trials == 0,
            !final(self).has_image_metrics,
            !final(self).has_external_metrics,
            events_view(events@) == seq![
                EventView::Status(starting_message(config.texture_count, config.texture_size)),
            ],
            final(self).reported@ == events_view(events@),
            runner_wf(*final(self)),
    {
        let size = config.texture_size;
        let texture_count = config.texture_count;
        self.config = Some(config);
        self.count_index = 0;
        self.trial_index = 0;
        self.completed_trials = 0;
        self.has_image_metrics = false;
        self.has_external_metrics = false;
        self.phase = RunnerPhase::Preparing { next_texture: 0 };
        let mut message = String::from_str("Preparing ");
        message.append(u64_to_decimal(texture_count as u64).as_str());
        message.append(" paired textures at ");
        message.append(u64_to_decimal(size as u64).as_str());
        message.append("×");
        message.append(u64_to_decimal(size as u64).as_str());
        let events = vec![CoreEvent::Status(message)];
        assert(events_view(events@) =~= seq![
            EventView::Status(starting_message(texture_count, size)),
        ]);
        self.reported = Ghost(events_view(events@));
        proof {
            reveal_with_fuel(progress_of, 2);
            reveal_with_fuel(endings_of, 2);
            reveal_with_fuel(completions_of, 2);
        }
        events
    }

    /// Abandons the run.
    pub fn stop(&mut self)
        ensures
            final(self).phase == RunnerPhase::Idle,
            final(self).config is None,
            final(self).count_index == old(self).count_index,
            final(self).trial_index == old(self).trial_index,
            final(self).completed_trials == old(self).completed_trials,
            final(self).reported == old(self).reported,
            runner_wf(*final(self)),
    {
        self.phase = RunnerPhase::Idle;
        self.config = None;
    }
}

impl RunnerCore {
    fn config_ref(&self) -> (c: &BenchConfig)
        requires
            self.config is Some,
        ensures
            *c == self.config->0,
    {
        match &self.config {
            Some(c) => c,
            None => vstd::pervasive::unreached(),
        }
    }

    fn current_count(&self) -> (n: usize)
        requires
            self.config is Some,
            self.count_index < self.config->0.image_counts@.len(),
        ensures
            n == current_count(*self),
    {
        self.config_ref().image_counts[self.count_index]
    }

    fn fail(&mut self, error: String) -> (events: Vec<CoreEvent>)
        ensures
            final(self).phase == RunnerPhase::Complete,
            final(self).config == old(self).config,
            final(self).reported == old(self).reported,
            final(self).count_index == old(self).count_index,
            final(self).trial_index == old(self).trial_index,
            final(self).completed_trials == old(self).completed_trials,
            final(self).has_image_metrics == old(self).has_image_metrics,
            final(self).has_external_metrics == old(self).has_external_metrics,
            events_view(events@) == seq![EventView::Failed(error@)],
    {
        self.phase = RunnerPhase::Complete;
        let events = vec![CoreEvent::Failed(error)];
        assert(events_view(events@) =~= seq![EventView::Failed(error@)]);
        events
    }

    fn start_warmup(&mut self, mode: RenderMode) -> (events: Vec<CoreEvent>)
        requires
            old(self).config is Some,
            old(self).count_index < old(self).config->0.image_counts@.len(),
        ensures
            final(self).phase == (RunnerPhase::Warming {
                mode,
                remaining: old(self).config->0.warmup_frames,
            }),
            final(self).config == old(self).config,
            final(self).reported == old(self).reported,
            final(self).count_index == old(self).count_index,
            final(self).trial_index == old(self).trial_index,
            final(self).completed_trials == old(self).completed_trials,
            final(self).has_image_metrics == old(self).has_image_metrics,
            final(self).has_external_metrics == old(self).has_external_metrics,
            events_view(events@) == seq![
                EventView::Status(
                    warming_message(
                        mode,
                        current_count(*old(self)),
                        old(self).config->0.warmup_frames,
                    ),
                ),
            ],
    {
        let warmup_frames = self.config_ref().warmup_frames;
        let count = self.current_count();
        self.phase = RunnerPhase::Warming { mode, remaining: warmup_frames };
        let mut message = String::from_str("Warming ");
        message.append(mode.label());
        message.append(" · ");
        message.append(u64_to_decimal(count as u64).as_str());
        message.append(" images · ");
        message.append(u64_to_decimal(warmup_frames as u64).as_str());
        message.append(" frames");
        let events = vec![CoreEvent::Status(message)];
        assert(events_view(events@) =~= seq![
            EventView::Status(warming_message(mode, count, warmup_frames)),
        ]);
        events
    }

    fn start_measurement(&mut self, mode: RenderMode) -> (r: (Vec<CoreEvent>, RunnerAction))
        requires
            old(self).config is Some,
            old(self).count_index < old(self).config->0.image_counts@.len(),
            old(self).trial_index < pairs_per_count(old(self).config->0),
        ensures
            final(self).phase == (RunnerPhase::Measuring { mode }),
            final(self).config == old(self).config,
            final(self).reported == old(self).reported,
            final(self).count_index == old(self).count_index,
            final(self).trial_index == old(self).trial_index,
            final(self).completed_trials == old(self).completed_trials,
            final(self).has_image_metrics == old(self).has_image_metrics,
            final(self).has_external_metrics == old(self).has_external_metrics,
            r.1 == (RunnerAction::BeginMeasurement { mode }),
            events_view(r.0@) == seq![
                EventView::Status(
                    measuring_message(
                        mode,
                        current_count(*old(self)),
                        (old(self).trial_index + 1) as nat,
                        old(self).config->0.trials,
                    ),
                ),
            ],
    {
        let trials = self.config_ref().trials;
        let count = self.current_count();
        self.phase = RunnerPhase::Measuring { mode };
        let mut message = String::from_str("Measuring ");
        message.append(mode.label());
        message.append(" · ");
        message.append(u64_to_decimal(count as u64).as_str());
        message.append(" images · pair ");
        message.append(u64_to_decimal((self.trial_index + 1) as u64).as_str());
        message.append("/");
        message.append(u64_to_decimal(trials as u64).as_str());
        let events = vec![CoreEvent::Status(message)];
        assert(events_view(events@) =~= seq![
            EventView::Status(
                measuring_message(mode, count, (self.trial_index + 1) as nat, trials),
            ),
        ]);
        (events, RunnerAction::BeginMeasurement { mode })
    }

    fn start_measurement_pair(&mut self) -> (r: (Vec<CoreEvent>, RunnerAction))
        requires
            old(self).config is Some,
            old(self).count_index < old(self).config->0.image_counts@.len(),
            old(self).trial_index < pairs_per_count(old(self).config->0),
        ensures
            final(self).phase == (RunnerPhase::Measuring {
                mode: first_mode_of_pair(old(self).trial_index),
            }),
            final(self).config == old(self).config,
            final(self).reported == old(self).reported,
            final(self).count_index == old(self).count_index,
            final(self).trial_index == old(self).trial_index,
            final(self).completed_trials == old(self).completed_trials,
            !final(self).has_image_metrics,
            !final(self).has_external_metrics,
            r.1 == (RunnerAction::BeginMeasurement { mode: first_mode_of_pair(old(self).trial_index) }),
            events_view(r.0@) == seq![
                EventView::Status(
                    measuring_message(
                        first_mode_of_pair(old(self).trial_index),
                        current_count(*old(self)),
                        (old(self).trial_index + 1) as nat,
                        old(self).config->0.trials,
                    ),
                ),
            ],
    {
        self.has_image_metrics = false;
        self.has_external_metrics = false;
        let first = if self.trial_index % 2 == 0 {
            RenderMode::ImagePaint
        } else {
            RenderMode::ExternalTexture
        };
        self.start_measurement(first)
    }
}

proof fn lemma_progress_bound(count: int, trial: int, per: int, len: int)
    requires
        0 <= count < len,
        0 <= trial < per,
    ensures
        count * per + trial < len * per,
        count * per + trial + 1 <= len * per,
        trial + 1 == per ==> count * per + trial + 1 == (count + 1) * per,
{
    assert(count * per + trial < len * per) by (nonlinear_arith)
        requires
            0 <= count < len,
            0 <= trial < per,
    ;
    assert(trial + 1 == per ==> count * per + trial + 1 == (count + 1) * per) by (nonlinear_arith);
}

impl RunnerCore {
    /// The renderer reported on uploading the next texture of the pool.
    pub fn texture_prepared(&mut self, result: Result<(), String>) -> (r: (
        Vec<CoreEvent>,
        RunnerAction,
    ))
        requires
            runner_wf(*old(self)),
            old(self).phase is Preparing,
        ensures
            runner_wf(*final(self)),
            final(self).reported@ == old(self).reported@ + events_view(r.0@),
            final(self).config == old(self).config,
            final(self).count_index == old(self).count_index,
            final(self).trial_index == old(self).trial_index,
            final(self).completed_trials == old(self).completed_trials,
            ({
                let c = old(self).config->0;
                let next = old(self).phase->next_texture;
                match result {
                    Err(e) => {
                        &&& final(self).phase == RunnerPhase::Complete
                        &&& events_view(r.0@) == seq![EventView::Failed(e@)]
                        &&& r.1 == RunnerAction::Nothing
                    },
                    Ok(()) => {
                        &&& events_view(r.0@) == seq![
                            EventView::Status(
                                preparing_message(
                                    c.texture_size,
                                    (next + 1) as usize,
                                    c.texture_count,
                                ),
                            ),
                        ]
                        &&& if next + 1 < c.texture_count {
                            &&& final(self).phase == (RunnerPhase::Preparing {
                                next_texture: (next + 1) as usize,
                            })
                            &&& r.1 == RunnerAction::Nothing
                        } else {
                            &&& final(self).phase == RunnerPhase::Configuring
                            &&& r.1 == (RunnerAction::ConfigureScene {
                                image_count: c.image_counts@[0],
                                draw_size: c.draw_size,
                            })
                        }
                    },
                }
            }),
    {
        let ghost log0 = self.reported@;
        let r = {
            let next = match self.phase {
                RunnerPhase::Preparing { next_texture } => next_texture,
                _ => vstd::pervasive::unreached(),
            };
            match result {
                Err(error) => {
                    let events = self.fail(error);
                    (events, RunnerAction::Nothing)
                },
                Ok(()) => {
                    let c = self.config_ref();
                    let size = c.texture_size;
                    let required = c.texture_count;
                    let draw_size = c.draw_size;
                    let prepared = next + 1;
                    let mut message = String::from_str("Preparing paired ");
                    message.append(u64_to_decimal(size as u64).as_str());
                    message.append("×");
                    message.append(u64_to_decimal(size as u64).as_str());
                    message.append(" textures · ");
                    message.append(u64_to_decimal(prepared as u64).as_str());
                    message.append("/");
                    message.append(u64_to_decimal(required as u64).as_str());
                    let events = vec![CoreEvent::Status(message)];
                    assert(events_view(events@) =~= seq![
                        EventView::Status(preparing_message(size, prepared, required)),
                    ]);
                    if prepared < required {
                        self.phase = RunnerPhase::Preparing { next_texture: prepared };
                        (events, RunnerAction::Nothing)
                    } else {
                        let count = self.current_count();
                        self.phase = RunnerPhase::Configuring;
                        (events, RunnerAction::ConfigureScene { image_count: count, draw_size })
                    }
                },
            }
        };
        self.reported = Ghost(log0 + events_view(r.0@));
        proof {
            lemma_log_append(log0, events_view(r.0@));
            reveal_with_fuel(progress_of, 4);
            reveal_with_fuel(endings_of, 4);
            reveal_with_fuel(completions_of, 4);
        }
        r
    }

    /// The renderer reported on laying out the current image count.
    pub fn scene_configured(&mut self, result: Result<(), String>) -> (events: Vec<CoreEvent>)
        requires
            runner_wf(*old(self)),
            old(self).phase is Configuring,
        ensures
            runner_wf(*final(self)),
            final(self).reported@ == old(self).reported@ + events_view(events@),
            final(self).config == old(self).config,
            final(self).count_index == old(self).count_index,
            final(self).trial_index == old(self).trial_index,
            final(self).completed_trials == old(self).completed_trials,
            match result {
                Err(e) => {
                    &&& final(self).phase == RunnerPhase::Complete
                    &&& events_view(events@) == seq![EventView::Failed(e@)]
                },
                Ok(()) => {
                    &&& final(self).phase == (RunnerPhase::Warming {
                        mode: RenderMode::ImagePaint,
                        remaining: old(self).config->0.warmup_frames,
                    })
                    &&& events_view(events@) == seq![
                        EventView::Status(
                            warming_message(
                                RenderMode::ImagePaint,
                                current_count(*old(self)),
                                old(self).config->0.warmup_frames,
                            ),
                        ),
                    ]
                },
            },
    {
        let ghost log0 = self.reported@;
        let events = {
            match result {
                Err(error) => {
                    proof {
                        let c = self.config->0;
                        lemma_progress_bound(
                            self.count_index as int,
                            self.trial_index as int,
                            pairs_per_count(c),
                            c.image_counts@.len() as int,
                        );
                    }
                    self.fail(error)
                },
                Ok(()) => self.start_warmup(RenderMode::ImagePaint),
            }
        };
        self.reported = Ghost(log0 + events_view(events@));
        proof {
            lemma_log_append(log0, events_view(events@));
            reveal_with_fuel(progress_of, 4);
            reveal_with_fuel(endings_of, 4);
            reveal_with_fuel(completions_of, 4);
        }
        events
    }

    /// The renderer reported on a warmup frame.
    pub fn warmup_rendered(&mut self, result: Result<(), String>) -> (r: (
        Vec<CoreEvent>,
        RunnerAction,
    ))
        requires
            runner_wf(*old(self)),
            old(self).phase is Warming,
        ensures
            runner_wf(*final(self)),
            final(self).reported@ == old(self).reported@ + events_view(r.0@),
            final(self).config == old(self).config,
            final(self).count_index == old(self).count_index,
            final(self).trial_index == old(self).trial_index,
            final(self).completed_trials == old(self).completed_trials,
            result is Ok ==> final(self).phase == warmup_step(
                old(self).phase,
                old(self).config->0.warmup_frames,
                old(self).trial_index,
            ),
            ({
                let mode = old(self).phase->Warming_mode;
                let remaining = old(self).phase->Warming_remaining;
                let c = old(self).config->0;
                match result {
                    Err(e) => {
                        &&& final(self).phase == RunnerPhase::Complete
                        &&& events_view(r.0@) == seq![EventView::Failed(e@)]
                        &&& r.1 == RunnerAction::Nothing
                    },
                    Ok(()) => if remaining > 1 {
                        &&& final(self).phase == (RunnerPhase::Warming {
                            mode,
                            remaining: (remaining - 1) as usize,
                        })
                        &&& r.0@.len() == 0
                        &&& r.1 == RunnerAction::Nothing
                    } else if mode == RenderMode::ImagePaint {
                        &&& final(self).phase == (RunnerPhase::Warming {
                            mode: RenderMode::ExternalTexture,
                            remaining: c.warmup_frames,
                        })
                        &&& events_view(r.0@) == seq![
                            EventView::Status(
                                warming_message(
                                    RenderMode::ExternalTexture,
                                    current_count(*old(self)),
                                    c.warmup_frames,
                                ),
                            ),
                        ]
                        &&& r.1 == RunnerAction::Nothing
                    } else {
                        &&& final(self).phase == (RunnerPhase::Measuring {
                            mode: first_mode_of_pair(old(self).trial_index),
                        })
                        &&& !final(self).has_image_metrics
                        &&& !final(self).has_external_metrics
                        &&& events_view(r.0@) == seq![
                            EventView::Status(
                                measuring_message(
                                    first_mode_of_pair(old(self).trial_index),
                                    current_count(*old(self)),
                                    (old(self).trial_index + 1) as nat,
                                    c.trials,
                                ),
                            ),
                        ]
                        &&& r.1 == (RunnerAction::BeginMeasurement {
                            mode: first_mode_of_pair(old(self).trial_index),
                        })
                    },
                }
            }),
    {
        let ghost log0 = self.reported@;
        let r = {
            let (mode, remaining) = match self.phase {
                RunnerPhase::Warming { mode, remaining } => (mode, remaining),
                _ => vstd::pervasive::unreached(),
            };
            match result {
                Err(error) => {
                    proof {
                        let c = self.config->0;
                        lemma_progress_bound(
                            self.count_index as int,
                            self.trial_index as int,
                            pairs_per_count(c),
                            c.image_counts@.len() as int,
                        );
                    }
                    let events = self.fail(error);
                    (events, RunnerAction::Nothing)
                },
                Ok(()) => {
                    let remaining = if remaining > 0 {
                        remaining - 1
                    } else {
                        0
                    };
                    if remaining > 0 {
                        self.phase = RunnerPhase::Warming { mode, remaining };
                        (Vec::new(), RunnerAction::Nothing)
                    } else if mode == RenderMode::ImagePaint {
                        let events = self.start_warmup(RenderMode::ExternalTexture);
                        (events, RunnerAction::Nothing)
                    } else {
                        self.start_measurement_pair()
                    }
                },
            }
        };
        self.reported = Ghost(log0 + events_view(r.0@));
        proof {
            lemma_log_append(log0, events_view(r.0@));
            reveal_with_fuel(progress_of, 4);
            reveal_with_fuel(endings_of, 4);
            reveal_with_fuel(completions_of, 4);
        }
        r
    }

    /// The renderer reported on a measured frame; the page keeps its timing.
    pub fn measured_frame_rendered(&mut self, result: Result<(), String>) -> (events: Vec<CoreEvent>)
        requires
            runner_wf(*old(self)),
            old(self).phase is Measuring,
        ensures
            runner_wf(*final(self)),
            final(self).reported@ == old(self).reported@ + events_view(events@),
            final(self).config == old(self).config,
            final(self).count_index == old(self).count_index,
            final(self).trial_index == old(self).trial_index,
            final(self).completed_trials == old(self).completed_trials,
            final(self).has_image_metrics == old(self).has_image_metrics,
            final(self).has_external_metrics == old(self).has_external_metrics,
            match result {
                Err(e) => {
                    &&& final(self).phase == RunnerPhase::Complete
                    &&& events_view(events@) == seq![EventView::Failed(e@)]
                },
                Ok(()) => {
                    &&& final(self).phase == old(self).phase
                    &&& events@.len() == 0
                },
            },
    {
        let ghost log0 = self.reported@;
        let events = {
            match result {
                Err(error) => {
                    proof {
                        let c = self.config->0;
                        lemma_progress_bound(
                            self.count_index as int,
                            self.trial_index as int,
                            pairs_per_count(c),
                            c.image_counts@.len() as int,
                        );
                    }
                    self.fail(error)
                },
                Ok(()) => Vec::new(),
            }
        };
        self.reported = Ghost(log0 + events_view(events@));
        proof {
            lemma_log_append(log0, events_view(events@));
            reveal_with_fuel(progress_of, 4);
            reveal_with_fuel(endings_of, 4);
            reveal_with_fuel(completions_of, 4);
        }
        events
    }
}

impl RunnerCore {
    /// Moves past a finished measurement pair: the next pair of the same
    /// image count, the next image count, or the end of the run.
    fn advance_after_trial(&mut self) -> (r: (Vec<CoreEvent>, RunnerAction))
        requires
            old(self).config is Some,
            old(self).count_index < old(self).config->0.image_counts@.len(),
            old(self).trial_index < pairs_per_count(old(self).config->0),
        ensures
            final(self).config == old(self).config,
            final(self).reported == old(self).reported,
            final(self).completed_trials == old(self).completed_trials,
            ({
                let c = old(self).config->0;
                if old(self).trial_index + 1 < c.trials {
                    &&& final(self).trial_index == old(self).trial_index + 1
                    &&& final(self).count_index == old(self).count_index
                    &&& final(self).phase == (RunnerPhase::Measuring {
                        mode: first_mode_of_pair((old(self).trial_index + 1) as usize),
                    })
                    &&& !final(self).has_image_metrics
                    &&& !final(self).has_external_metrics
                    &&& events_view(r.0@) == seq![
                        EventView::Status(
                            measuring_message(
                                first_mode_of_pair((old(self).trial_index + 1) as usize),
                                current_count(*old(self)),
                                (old(self).trial_index + 2) as nat,
                                c.trials,
                            ),
                        ),
                    ]
                    &&& r.1 == (RunnerAction::BeginMeasurement {
                        mode: first_mode_of_pair((old(self).trial_index + 1) as usize),
                    })
                } else if old(self).count_index + 1 < c.image_counts@.len() {
                    &&& final(self).trial_index == 0
                    &&& final(self).count_index == old(self).count_index + 1
                    &&& final(self).phase == RunnerPhase::Configuring
                    &&& r.0@.len() == 0
                    &&& r.1 == (RunnerAction::ConfigureScene {
                        image_count: c.image_counts@[old(self).count_index + 1],
                        draw_size: c.draw_size,
                    })
                } else {
                    &&& final(self).trial_index == 0
                    &&& final(self).count_index == old(self).count_index + 1
                    &&& final(self).phase == RunnerPhase::Complete
                    &&& events_view(r.0@) == seq![EventView::Complete]
                    &&& r.1 == RunnerAction::DeleteTextures
                }
            }),
    {
        let trials = self.config_ref().trials;
        let len = self.config_ref().image_counts.len();
        self.trial_index = self.trial_index + 1;
        if self.trial_index < trials {
            return self.start_measurement_pair();
        }
        self.trial_index = 0;
        self.count_index = self.count_index + 1;
        if self.count_index < len {
            let count = self.current_count();
            let draw_size = self.config_ref().draw_size;
            self.phase = RunnerPhase::Configuring;
            return (Vec::new(), RunnerAction::ConfigureScene { image_count: count, draw_size });
        }
        self.phase = RunnerPhase::Complete;
        let events = vec![CoreEvent::Complete];
        assert(events_view(events@) =~= seq![EventView::Complete]);
        (events, RunnerAction::DeleteTextures)
    }

    /// The page has collected the measured frames of the current strategy
    /// and summarized them. When both strategies of the pair are in, the pair
    /// is reported and the run moves on; otherwise the other strategy is
    /// measured next.
    pub fn measurement_finished(&mut self) -> (r: (Vec<CoreEvent>, RunnerAction))
        requires
            runner_wf(*old(self)),
            old(self).phase is Measuring,
        ensures
            runner_wf(*final(self)),
            final(self).reported@ == old(self).reported@ + events_view(r.0@),
            final(self).config == old(self).config,
            ({
                let c = old(self).config->0;
                let mode = old(self).phase->Measuring_mode;
                let has_image = old(self).has_image_metrics || mode == RenderMode::ImagePaint;
                let has_external = old(self).has_external_metrics || mode
                    == RenderMode::ExternalTexture;
                if has_image && has_external {
                    &&& final(self).completed_trials == old(self).completed_trials + 1
                    &&& r.0@.len() >= 2
                    &&& r.0@[0]@ == (EventView::TrialComplete {
                        texture_size: c.texture_size,
                        texture_count: c.texture_count,
                        image_count: current_count(*old(self)),
                        measurement: (old(self).trial_index + 1) as usize,
                    })
                    &&& r.0@[1]@ == (EventView::Progress {
                        completed: final(self).completed_trials,
                        total: total_trials(c) as usize,
                    })
                    &&& if old(self).trial_index + 1 < c.trials {
                        &&& final(self).trial_index == old(self).trial_index + 1
                        &&& final(self).count_index == old(self).count_index
                        &&& final(self).phase == (RunnerPhase::Measuring {
                            mode: first_mode_of_pair((old(self).trial_index + 1) as usize),
                        })
                        &&& !final(self).has_image_metrics
                        &&& !final(self).has_external_metrics
                        &&& events_view(r.0@.skip(2)) == seq![
                            EventView::Status(
                                measuring_message(
                                    first_mode_of_pair((old(self).trial_index + 1) as usize),
                                    current_count(*old(self)),
                                    (old(self).trial_index + 2) as nat,
                                    c.trials,
                                ),
                            ),
                        ]
                        &&& r.1 == (RunnerAction::BeginMeasurement {
                            mode: first_mode_of_pair((old(self).trial_index + 1) as usize),
                        })
                    } else if old(self).count_index + 1 < c.image_counts@.len() {
                        &&& final(self).trial_index == 0
                        &&& final(self).count_index == old(self).count_index + 1
                        &&& final(self).phase == RunnerPhase::Configuring
                        &&& r.0@.len() == 2
                        &&& r.1 == (RunnerAction::ConfigureScene {
                            image_count: c.image_counts@[old(self).count_index + 1],
                            draw_size: c.draw_size,
                        })
                    } else {
                        &&& final(self).trial_index == 0
                        &&& final(self).count_index == old(self).count_index + 1
                        &&& final(self).phase == RunnerPhase::Complete
                        &&& final(self).completed_trials == c.image_counts@.len()
                            * pairs_per_count(c)
                        &&& events_view(r.0@.skip(2)) == seq![EventView::Complete]
                        &&& r.1 == RunnerAction::DeleteTextures
                    }
                } else {
                    &&& final(self).completed_trials == old(self).completed_trials
                    &&& final(self).trial_index == old(self).trial_index
                    &&& final(self).count_index == old(self).count_index
                    &&& final(self).has_image_metrics == has_image
                    &&& final(self).has_external_metrics == has_external
                    &&& final(self).phase == (RunnerPhase::Measuring { mode: mode.other_spec() })
                    &&& events_view(r.0@) == seq![
                        EventView::Status(
                            measuring_message(
                                mode.other_spec(),
                                current_count(*old(self)),
                                (old(self).trial_index + 1) as nat,
                                c.trials,
                            ),
                        ),
                    ]
                    &&& r.1 == (RunnerAction::BeginMeasurement { mode: mode.other_spec() })
                }
            }),
    {
        let ghost log0 = self.reported@;
        let r = {
            let mode = match self.phase {
                RunnerPhase::Measuring { mode } => mode,
                _ => vstd::pervasive::unreached(),
            };
            match mode {
                RenderMode::ImagePaint => self.has_image_metrics = true,
                RenderMode::ExternalTexture => self.has_external_metrics = true,
            }
            if self.has_image_metrics && self.has_external_metrics {
                let ghost before = *self;
                let ghost cfg = self.config->0;
                let c = self.config_ref();
                let texture_size = c.texture_size;
                let texture_count = c.texture_count;
                proof {
                    lemma_progress_bound(
                        self.count_index as int,
                        self.trial_index as int,
                        pairs_per_count(cfg),
                        cfg.image_counts@.len() as int,
                    );
                    assert(cfg.image_counts@.len() * cfg.trials <= cfg.image_counts@.len()
                        * pairs_per_count(cfg)) by (nonlinear_arith)
                        requires
                            cfg.trials <= pairs_per_count(cfg),
                    ;
                }
                let total = c.image_counts.len() * c.trials;
                let count = self.current_count();
                self.completed_trials = self.completed_trials + 1;
                let mut events = vec![
                    CoreEvent::TrialComplete {
                        texture_size,
                        texture_count,
                        image_count: count,
                        measurement: self.trial_index + 1,
                    },
                    CoreEvent::Progress { completed: self.completed_trials, total },
                ];
                let ghost head = events@;
                let (mut rest, action) = self.advance_after_trial();
                let ghost tail = rest@;
                events.append(&mut rest);
                proof {
                    assert(events@ == head + tail);
                    assert(events@.skip(2) =~= tail);
                    assert(events@[0] == head[0]);
                    assert(events@[1] == head[1]);
                    let per = pairs_per_count(cfg);
                    if before.trial_index + 1 < cfg.trials {
                        assert(self.completed_trials == self.count_index * per + self.trial_index);
                    } else if before.count_index + 1 < cfg.image_counts@.len() {
                        assert(before.trial_index + 1 == per);
                        assert(self.completed_trials == self.count_index * per + self.trial_index);
                    } else {
                        assert(before.trial_index + 1 == per);
                        assert(before.count_index + 1 == cfg.image_counts@.len());
                        assert(self.completed_trials == (before.count_index + 1) * per);
                    }
                    assert(events_view(events@) =~= seq![events@[0]@, events@[1]@] + events_view(
                        tail,
                    ));
                    lemma_pair_log(
                        log0,
                        events@[0]@,
                        self.completed_trials,
                        total,
                        events_view(tail),
                        cfg,
                    );
                }
                self.reported = Ghost(log0 + events_view(events@));
                (events, action)
            } else {
                let r = self.start_measurement(mode.other());
                self.reported = Ghost(log0 + events_view(r.0@));
                proof {
                    lemma_log_append(log0, events_view(r.0@));
                    reveal_with_fuel(progress_of, 2);
                    reveal_with_fuel(endings_of, 2);
                    reveal_with_fuel(completions_of, 2);
                }
                r
            }
        };
        r
    }
}

/// The phase after a warmup frame rendered without error: the same strategy
/// with one frame fewer to go, then the other strategy's warmup, then the
/// first measurement of pair `trial_index`.
pub open spec fn warmup_step(phase: RunnerPhase, warmup_frames: usize, trial_index: usize) -> RunnerPhase {
    match phase {
        RunnerPhase::Warming { mode, remaining } => if remaining > 1 {
            RunnerPhase::Warming { mode, remaining: (remaining - 1) as usize }
        } else if mode == RenderMode::ImagePaint {
            RunnerPhase::Warming { mode: RenderMode::ExternalTexture, remaining: warmup_frames }
        } else {
            RunnerPhase::Measuring { mode: first_mode_of_pair(trial_index) }
        },
        _ => phase,
    }
}

/// The phase after `n` warmup frames rendered without error, and the
/// strategy that each of those frames rendered.
pub open spec fn warmup_run(phase: RunnerPhase, warmup_frames: usize, trial_index: usize, n: nat) -> (
    RunnerPhase,
    Seq<RenderMode>,
)
    decreases n,
{
    if n == 0 {
        (phase, seq![])
    } else {
        let (p, modes) = warmup_run(phase, warmup_frames, trial_index, (n - 1) as nat);
        (warmup_step(p, warmup_frames, trial_index), modes.push(p->Warming_mode))
    }
}

proof fn lemma_warmup_prefix(w: usize, trial_index: usize, n: nat)
    requires
        w >= 1,
        n <= 2 * w,
    ensures
        ({
            let (p, modes) = warmup_run(
                RunnerPhase::Warming { mode: RenderMode::ImagePaint, remaining: w },
                w,
                trial_index,
                n,
            );
            &&& modes.len() == n
            &&& forall|k: int|
                0 <= k < n ==> #[trigger] modes[k] == (if k < w {
                    RenderMode::ImagePaint
                } else {
                    RenderMode::ExternalTexture
                })
            &&& p == (if n < w {
                RunnerPhase::Warming { mode: RenderMode::ImagePaint, remaining: (w - n) as usize }
            } else if n < 2 * w {
                RunnerPhase::Warming {
                    mode: RenderMode::ExternalTexture,
                    remaining: (2 * w - n) as usize,
                }
            } else {
                RunnerPhase::Measuring { mode: first_mode_of_pair(trial_index) }
            })
        }),
    decreases n,
{
    if n > 0 {
        lemma_warmup_prefix(w, trial_index, (n - 1) as nat);
        let start = RunnerPhase::Warming { mode: RenderMode::ImagePaint, remaining: w };
        let (p0, modes0) = warmup_run(start, w, trial_index, (n - 1) as nat);
        let (p, modes) = warmup_run(start, w, trial_index, n);
        assert(modes == modes0.push(p0->Warming_mode));
        assert forall|k: int| 0 <= k < n implies #[trigger] modes[k] == (if k < w {
            RenderMode::ImagePaint
        } else {
            RenderMode::ExternalTexture
        }) by {
            if k < n - 1 {
                assert(modes[k] == modes0[k]);
            }
        }
    }
}

/// Warmup of one image count: once its scene is laid out, the count renders
/// `warmup_frames` frames with image paint, then `warmup_frames` frames with
/// external textures, and then starts measuring its pair `trial_index` with
/// that pair's first strategy.
pub proof fn lemma_warmup_frames(warmup_frames: usize, trial_index: usize)
    requires
        warmup_frames >= 1,
    ensures
        ({
            let n = (2 * warmup_frames) as nat;
            let (p, modes) = warmup_run(
                RunnerPhase::Warming { mode: RenderMode::ImagePaint, remaining: warmup_frames },
                warmup_frames,
                trial_index,
                n,
            );
            &&& modes.len() == n
            &&& forall|k: int|
                0 <= k < n ==> #[trigger] modes[k] == (if k < warmup_frames {
                    RenderMode::ImagePaint
                } else {
                    RenderMode::ExternalTexture
                })
            &&& p == (RunnerPhase::Measuring { mode: first_mode_of_pair(trial_index) })
        }),
{
    lemma_warmup_prefix(warmup_frames, trial_index, (2 * warmup_frames) as nat);
}

/// Pairs alternate which strategy goes first: the pair reported as
/// measurement `n` (`trial_index + 1`) measures image paint first when `n`
/// is odd and external textures first when `n` is even, and its second half
/// measures the other strategy.
pub proof fn lemma_pair_order(trial_index: usize)
    ensures
        first_mode_of_pair(trial_index) == (if (trial_index + 1) % 2 == 1 {
            RenderMode::ImagePaint
        } else {
            RenderMode::ExternalTexture
        }),
        first_mode_of_pair(trial_index).other_spec() == (if (trial_index + 1) % 2 == 1 {
            RenderMode::ExternalTexture
        } else {
            RenderMode::ImagePaint
        }),
{
}

/// The strategy measured first in pair `trial_index`: pairs alternate which
/// strategy goes first, to cancel ordering bias.
pub open spec fn first_mode_of_pair(trial_index: usize) -> RenderMode {
    if trial_index % 2 == 0 {
        RenderMode::ImagePaint
    } else {
        RenderMode::ExternalTexture
    }
}

} // verus!
