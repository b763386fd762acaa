//! One profile's poll loop as a state machine. The caller performs the
//! outside work — reading and writing the state file, fetching the feed,
//! running the downloads, sleeping — and feeds each outcome back as an
//! event; every decision in between is taken here, verified: how the saved
//! state is interpreted, when a cycle is abandoned, what is downloaded,
//! and that a write is issued only for a strictly newer watermark. On top
//! of the step function, a trace-level proof shows that across any run the
//! watermark the state file stands for never decreases, and that a cycle
//! whose fetch fails leaves it untouched.

use vstd::prelude::*;

use crate::detect::{detect, spec_detect_urls, spec_new_watermark};
use crate::feed::{feed_items, parse_feed, spec_resolve, FeedItem, ItemModel};
use crate::filter::FilterRule;
use crate::timestamp::{format_rfc3339, rfc3339_render, spec_le, spec_lt, Timestamp};
use crate::watermark::{saved_watermark, spec_saved_watermark};

verus! {

/// Where a profile's loop stands within a cycle.
pub enum PollState {
    /// Waiting for the next cycle to start.
    Idle,
    /// The feed document is being fetched.
    Fetching,
    /// The feed was parsed; detection runs on the next step.
    Detecting { items: Vec<FeedItem> },
    /// The selected URLs are being downloaded.
    Downloading { new_watermark: Timestamp },
    /// A strictly newer watermark is being written.
    Persisting { new_watermark: Timestamp },
    /// The cycle is over; waiting out the poll interval.
    Sleeping,
    /// The loop is over.
    Terminated,
}

/// The machine for one profile: its state, the watermark loaded at the
/// start of the current cycle, and the settings the decisions depend on.
pub struct Poller {
    pub state: PollState,
    pub loaded: Timestamp,
    pub quit: bool,
    pub sleep_secs: u64,
    pub filter: FilterRule,
}

/// What the outside world reports back to the machine.
pub enum PollEvent {
    /// A cycle starts; `saved` is what the state file read gave, `None`
    /// where it was absent or unreadable.
    Tick { saved: Option<String> },
    /// The feed fetch finished; `None` stands for any transport or HTTP
    /// failure.
    FeedFetched { body: Option<Vec<u8>> },
    /// Nothing happened outside; the machine takes its internal step.
    Advance,
    /// Every download of the cycle has a terminal outcome.
    DownloadsDone,
    /// The state file write finished, well or not.
    Persisted { ok: bool },
    /// The poll interval is over.
    Woke,
}

/// What the machine asks the outside world to do next.
pub enum PollAction {
    /// Fetch the feed document.
    FetchFeed,
    /// Report back with `Advance`; detection is internal.
    Detect,
    /// Download these URLs, bounded by the profile's concurrency.
    Download { urls: Vec<String> },
    /// Write `contents` to the profile's state file; it renders `value`.
    Persist { value: Timestamp, contents: String },
    /// Wait this many seconds, then report `Woke`.
    Sleep { secs: u64 },
    /// The loop is over.
    Stop,
    /// Nothing to do.
    Nothing,
}

/// The machine state's mathematical shape.
#[verifier::ext_equal]
pub ghost enum PollStateModel {
    Idle,
    Fetching,
    Detecting { items: Seq<ItemModel> },
    Downloading { new_watermark: Timestamp },
    Persisting { new_watermark: Timestamp },
    Sleeping,
    Terminated,
}

/// The machine's mathematical shape.
#[verifier::ext_equal]
pub ghost struct PollModel {
    pub state: PollStateModel,
    pub loaded: Timestamp,
    pub quit: bool,
    pub sleep_secs: u64,
    pub filter: FilterRule,
}

/// An event's mathematical shape.
#[verifier::ext_equal]
pub ghost enum PollEventModel {
    Tick { saved: Option<Seq<char>> },
    FeedFetched { body: Option<Seq<u8>> },
    Advance,
    DownloadsDone,
    Persisted { ok: bool },
    Woke,
}

/// An action's mathematical shape.
#[verifier::ext_equal]
pub ghost enum PollActionModel {
    FetchFeed,
    Detect,
    Download { urls: Seq<Seq<char>> },
    Persist { value: Timestamp, contents: Seq<char> },
    Sleep { secs: u64 },
    Stop,
    Nothing,
}

impl View for PollState {
    type V = PollStateModel;

    open spec fn view(&self) -> PollStateModel {
        match self {
            PollState::Idle => PollStateModel::Idle,
            PollState::Fetching => PollStateModel::Fetching,
            PollState::Detecting { items } => PollStateModel::Detecting {
                items: items.deep_view(),
            },
            PollState::Downloading { new_watermark } => PollStateModel::Downloading {
                new_watermark: *new_watermark,
            },
            PollState::Persisting { new_watermark } => PollStateModel::Persisting {
                new_watermark: *new_watermark,
            },
            PollState::Sleeping => PollStateModel::Sleeping,
            PollState::Terminated => PollStateModel::Terminated,
        }
    }
}

impl View for Poller {
    type V = PollModel;

    open spec fn view(&self) -> PollModel {
        PollModel {
            state: self.state@,
            loaded: self.loaded,
            quit: self.quit,
            sleep_secs: self.sleep_secs,
            filter: self.filter,
        }
    }
}

impl View for PollEvent {
    type V = PollEventModel;

    open spec fn view(&self) -> PollEventModel {
        match self {
            PollEvent::Tick { saved } => PollEventModel::Tick { saved: saved.deep_view() },
            PollEvent::FeedFetched { body } => PollEventModel::FeedFetched {
                body: body.deep_view(),
            },
            PollEvent::Advance => PollEventModel::Advance,
            PollEvent::DownloadsDone => PollEventModel::DownloadsDone,
            PollEvent::Persisted { ok } => PollEventModel::Persisted { ok: *ok },
            PollEvent::Woke => PollEventModel::Woke,
        }
    }
}

impl View for PollAction {
    type V = PollActionModel;

    open spec fn view(&self) -> PollActionModel {
        match self {
            PollAction::FetchFeed => PollActionModel::FetchFeed,
            PollAction::Detect => PollActionModel::Detect,
            PollAction::Download { urls } => PollActionModel::Download {
                urls: urls.deep_view(),
            },
            PollAction::Persist { value, contents } => PollActionModel::Persist {
                value: *value,
                contents: contents@,
            },
            PollAction::Sleep { secs } => PollActionModel::Sleep { secs: *secs },
            PollAction::Stop => PollActionModel::Stop,
            PollAction::Nothing => PollActionModel::Nothing,
        }
    }
}

/// How a cycle ends, well or abandoned: stop for a run-once profile, sleep
/// out the interval otherwise.
pub open spec fn spec_cycle_end(m: PollModel) -> (PollModel, PollActionModel) {
    if m.quit {
        (PollModel { state: PollStateModel::Terminated, ..m }, PollActionModel::Stop)
    } else {
        (
            PollModel { state: PollStateModel::Sleeping, ..m },
            PollActionModel::Sleep { secs: m.sleep_secs },
        )
    }
}

/// The machine's transition function: what the new state is and what the
/// outside world is asked to do, for every state and event. An event that
/// does not belong to the state changes nothing.
pub open spec fn spec_step(m: PollModel, ev: PollEventModel) -> (PollModel, PollActionModel) {
    match (m.state, ev) {
        (PollStateModel::Idle, PollEventModel::Tick { saved }) => (
            PollModel {
                state: PollStateModel::Fetching,
                loaded: spec_saved_watermark(saved),
                ..m
            },
            PollActionModel::FetchFeed,
        ),
        (PollStateModel::Fetching, PollEventModel::FeedFetched { body }) => match body {
            Some(bytes) => match feed_items(bytes) {
                Some(raws) => (
                    PollModel {
                        state: PollStateModel::Detecting { items: spec_resolve(raws) },
                        ..m
                    },
                    PollActionModel::Detect,
                ),
                None => spec_cycle_end(m),
            },
            None => spec_cycle_end(m),
        },
        (PollStateModel::Detecting { items }, PollEventModel::Advance) => (
            PollModel {
                state: PollStateModel::Downloading {
                    new_watermark: spec_new_watermark(items, m.loaded),
                },
                ..m
            },
            PollActionModel::Download { urls: spec_detect_urls(items, m.loaded, m.filter) },
        ),
        (
            PollStateModel::Downloading { new_watermark },
            PollEventModel::DownloadsDone,
        ) => if spec_lt(m.loaded, new_watermark) {
            match rfc3339_render(new_watermark) {
                Some(contents) => (
                    PollModel { state: PollStateModel::Persisting { new_watermark }, ..m },
                    PollActionModel::Persist { value: new_watermark, contents },
                ),
                None => spec_cycle_end(m),
            }
        } else {
            spec_cycle_end(m)
        },
        (PollStateModel::Persisting { new_watermark: _ }, PollEventModel::Persisted { ok: _ }) => spec_cycle_end(
            m,
        ),
        (PollStateModel::Sleeping, PollEventModel::Woke) => (
            PollModel { state: PollStateModel::Idle, ..m },
            PollActionModel::Nothing,
        ),
        _ => (m, PollActionModel::Nothing),
    }
}

impl Poller {
    /// A fresh machine for one profile, before its first cycle.
    pub fn new(quit: bool, sleep_secs: u64, filter: FilterRule) -> (r: Poller)
        ensures
            r@.state is Idle,
            r@.quit == quit,
            r@.sleep_secs == sleep_secs,
            r@.filter == filter,
    {
        Poller {
            state: PollState::Idle,
            loaded: Timestamp::sentinel(),
            quit,
            sleep_secs,
            filter,
        }
    }

    /// Take one step: consume the event, move to the next state and say
    /// what to do outside. Detection runs inside the `Advance` step.
    pub fn step(self, event: PollEvent) -> (r: (Poller, PollAction))
        ensures
            (r.0@, r.1@) == spec_step(self@, event@),
    {
        let ghost m0 = self@;
        let ghost ev0 = event@;
        let Poller { state, loaded, quit, sleep_secs, filter } = self;
        let r = match (state, event) {
            (PollState::Idle, PollEvent::Tick { saved }) => {
                let contents = match &saved {
                    Some(s) => Some(s.as_str()),
                    None => None,
                };
                let fresh = saved_watermark(contents);
                (
                    Poller { state: PollState::Fetching, loaded: fresh, quit, sleep_secs, filter },
                    PollAction::FetchFeed,
                )
            },
            (PollState::Fetching, PollEvent::FeedFetched { body }) => match body {
                Some(bytes) => match ({
                    proof {
                        assert(bytes.deep_view() =~= bytes@);
                    }
                    parse_feed(&bytes)
                }) {
                    Ok(items) => (
                        Poller {
                            state: PollState::Detecting { items },
                            loaded,
                            quit,
                            sleep_secs,
                            filter,
                        },
                        PollAction::Detect,
                    ),
                    Err(_) => Self::finish_cycle(loaded, quit, sleep_secs, filter),
                },
                None => Self::finish_cycle(loaded, quit, sleep_secs, filter),
            },
            (PollState::Detecting { items }, PollEvent::Advance) => {
                let found = detect(&items, &loaded, &filter);
                (
                    Poller {
                        state: PollState::Downloading { new_watermark: found.new_watermark },
                        loaded,
                        quit,
                        sleep_secs,
                        filter,
                    },
                    PollAction::Download { urls: found.urls },
                )
            },
            (PollState::Downloading { new_watermark }, PollEvent::DownloadsDone) => {
                if loaded.lt(&new_watermark) {
                    match format_rfc3339(&new_watermark) {
                        Some(contents) => (
                            Poller {
                                state: PollState::Persisting { new_watermark },
                                loaded,
                                quit,
                                sleep_secs,
                                filter,
                            },
                            PollAction::Persist { value: new_watermark, contents },
                        ),
                        None => Self::finish_cycle(loaded, quit, sleep_secs, filter),
                    }
                } else {
                    Self::finish_cycle(loaded, quit, sleep_secs, filter)
                }
            },
            (PollState::Persisting { new_watermark: _ }, PollEvent::Persisted { ok: _ }) => {
                Self::finish_cycle(loaded, quit, sleep_secs, filter)
            },
            (PollState::Sleeping, PollEvent::Woke) => (
                Poller { state: PollState::Idle, loaded, quit, sleep_secs, filter },
                PollAction::Nothing,
            ),
            (other, _) => (
                Poller { state: other, loaded, quit, sleep_secs, filter },
                PollAction::Nothing,
            ),
        };
        proof {
            assert(r.0@ =~= spec_step(m0, ev0).0);
            assert(r.1@ =~= spec_step(m0, ev0).1);
        }
        r
    }

    /// End the cycle: stop a run-once profile, otherwise sleep.
    fn finish_cycle(loaded: Timestamp, quit: bool, sleep_secs: u64, filter: FilterRule) -> (r: (
        Poller,
        PollAction,
    ))
        ensures
            r.0@.loaded == loaded,
            r.0@.quit == quit,
            r.0@.sleep_secs == sleep_secs,
            r.0@.filter == filter,
            quit ==> r.0@.state is Terminated && r.1@ is Stop,
            !quit ==> r.0@.state is Sleeping && r.1@ == (PollActionModel::Sleep {
                secs: sleep_secs,
            }),
    {
        if quit {
            (
                Poller { state: PollState::Terminated, loaded, quit, sleep_secs, filter },
                PollAction::Stop,
            )
        } else {
            (
                Poller { state: PollState::Sleeping, loaded, quit, sleep_secs, filter },
                PollAction::Sleep { secs: sleep_secs },
            )
        }
    }
}

/// The machine together with its environment: the watermark the profile's
/// state file currently stands for, and a write issued but not yet
/// acknowledged.
#[verifier::ext_equal]
pub ghost struct PollRun {
    pub machine: PollModel,
    pub persisted: Timestamp,
    pub pending: Option<Timestamp>,
}

impl PollRun {
    /// What always holds of a run: a write is pending exactly while the
    /// machine persists, a pending write is strictly newer than the stored
    /// value, and mid-cycle the machine works on the stored value.
    pub open spec fn inv(self) -> bool {
        &&& (self.pending is Some <==> self.machine.state is Persisting)
        &&& (self.pending matches Some(t) ==> spec_lt(self.persisted, t))
        &&& ((self.machine.state is Fetching || self.machine.state is Detecting
            || self.machine.state is Downloading) ==> self.machine.loaded == self.persisted)
    }

    /// A faithful event: a cycle start hands the machine exactly what the
    /// state file stands for.
    pub open spec fn event_valid(self, ev: PollEventModel) -> bool {
        ev matches PollEventModel::Tick { saved } ==> spec_saved_watermark(saved)
            == self.persisted
    }
}

/// One step of machine and environment together: the machine steps, a
/// successful acknowledgement applies the pending write to the store, and
/// a newly issued write becomes pending.
pub open spec fn spec_run_step(run: PollRun, ev: PollEventModel) -> PollRun {
    let (machine, action) = spec_step(run.machine, ev);
    let persisted = if (ev matches PollEventModel::Persisted { ok: true }) && run.pending is Some {
        run.pending.unwrap()
    } else {
        run.persisted
    };
    let pending = match action {
        PollActionModel::Persist { value, contents: _ } => Some(value),
        _ => if ev is Persisted {
            None
        } else {
            run.pending
        },
    };
    PollRun { machine, persisted, pending }
}

/// One faithful step keeps the run's invariant, and the stored watermark
/// never moves backwards.
pub proof fn lemma_run_step_monotone(run: PollRun, ev: PollEventModel)
    requires
        run.inv(),
        run.event_valid(ev),
    ensures
        spec_run_step(run, ev).inv(),
        spec_le(run.persisted, spec_run_step(run, ev).persisted),
{
}

/// A whole run: the environment folded over a sequence of events.
pub open spec fn spec_run(run: PollRun, events: Seq<PollEventModel>) -> PollRun
    decreases events.len(),
{
    if events.len() == 0 {
        run
    } else {
        spec_run(spec_run_step(run, events[0]), events.drop_first())
    }
}

/// A faithful trace: every cycle start reports what the state file stands
/// for at that point.
pub open spec fn spec_trace_valid(run: PollRun, events: Seq<PollEventModel>) -> bool
    decreases events.len(),
{
    if events.len() == 0 {
        true
    } else {
        run.event_valid(events[0]) && spec_trace_valid(
            spec_run_step(run, events[0]),
            events.drop_first(),
        )
    }
}

/// Watermark monotonicity over any run: across any faithful sequence of
/// events — cycles that succeed, fetches that fail, writes that fail —
/// the watermark the state file stands for never decreases.
pub proof fn lemma_watermark_monotone(run: PollRun, events: Seq<PollEventModel>)
    requires
        run.inv(),
        spec_trace_valid(run, events),
    ensures
        spec_run(run, events).inv(),
        spec_le(run.persisted, spec_run(run, events).persisted),
    decreases events.len(),
{
    if events.len() > 0 {
        lemma_run_step_monotone(run, events[0]);
        lemma_watermark_monotone(spec_run_step(run, events[0]), events.drop_first());
    }
}

/// A failed fetch abandons the cycle and touches nothing: the machine goes
/// straight to sleeping (or stops), no download and no write is asked for,
/// and the stored watermark after the cycle equals the one before it.
pub proof fn lemma_failed_fetch_keeps_watermark(run: PollRun, body: Option<Seq<u8>>)
    requires
        run.inv(),
        run.machine.state is Fetching,
        body matches Some(bytes) ==> feed_items(bytes) is None,
    ensures
        spec_run_step(run, PollEventModel::FeedFetched { body }).persisted == run.persisted,
        spec_run_step(run, PollEventModel::FeedFetched { body }).machine.state is Sleeping
            || spec_run_step(run, PollEventModel::FeedFetched { body }).machine.state
            is Terminated,
        !(spec_step(run.machine, PollEventModel::FeedFetched { body }).1 is Persist),
        !(spec_step(run.machine, PollEventModel::FeedFetched { body }).1 is Download),
{
}

} // verus!
