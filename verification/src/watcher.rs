//! The watcher: the handle of the background task that watches the roots
//! and keeps the index up to date.
//!
//! A watcher is created, then started, then stopped, and a stopped watcher
//! stays stopped. Starting it launches two pieces of work side by side, the
//! watch loop and a full initial index, and it is running only once both
//! have been seen to succeed. Where starting fails the watcher is as it was
//! made, and a watch loop that did start is halted: no loop lives on behind a
//! failure.

use vstd::prelude::*;
use crate::failure::{Failure, FailureView};
use crate::logger::{flush, Diagnostics, SinkAction};
use crate::runtime::Domain;
use crate::storage::{place, placed, StatePath, StatePathView};
use crate::text::{optional_text, texts};

verus! {

/// Where the index is kept: `nvim/onoma/indexes` below the state directory,
/// or `./onoma/indexes` where there is none.
pub open spec fn database_placed(state: Option<Seq<char>>) -> StatePathView {
    placed(state, "nvim/onoma/indexes"@, "./onoma/indexes"@)
}

/// Decides where the index is kept, from the state directory that was found,
/// if any.
pub fn database_path(state: Option<String>) -> (path: StatePath)
    ensures
        path@ == database_placed(optional_text(state)),
{
    place(state, "nvim/onoma/indexes", "./onoma/indexes")
}

/// Where a watcher is in its life.
#[derive(Clone, Copy, PartialEq, Eq, Structural, Debug)]
pub enum Phase {
    /// Made, and not started yet.
    Created,
    /// Being started: the two pieces of work have been launched.
    Starting,
    /// Watching, with the initial index complete.
    Running,
    /// Stopped, for good.
    Stopped,
}

/// What has been seen of one piece of the work of starting.
#[derive(PartialEq, Eq, Debug)]
pub enum Signal {
    /// Nothing yet.
    Unobserved,
    /// It succeeded.
    Succeeded,
    /// It failed, with this description.
    Failed(String),
}

/// A signal with its text as a sequence of characters.
pub enum SignalView {
    Unobserved,
    Succeeded,
    Failed(Seq<char>),
}

impl View for Signal {
    type V = SignalView;

    open spec fn view(&self) -> SignalView {
        match self {
            Signal::Unobserved => SignalView::Unobserved,
            Signal::Succeeded => SignalView::Succeeded,
            Signal::Failed(detail) => SignalView::Failed(detail@),
        }
    }
}

/// The signal that an outcome is seen as.
pub open spec fn signal_of(outcome: Result<(), String>) -> SignalView {
    match outcome {
        Ok(_) => SignalView::Succeeded,
        Err(detail) => SignalView::Failed(detail@),
    }
}

/// One cooperative step of starting a watcher.
#[derive(PartialEq, Eq, Debug)]
pub enum StartStep {
    /// Launch the watch loop and the initial full index, side by side, and
    /// report the outcome of each.
    Launch,
    /// The work is under way: resume later.
    NotYet,
    /// The watcher is running.
    Started,
    /// Starting has failed, and the watcher is not started. Where
    /// `halt_watch_loop` is set the watch loop did start: it has to be
    /// halted before the failure is reported.
    Failed { failure: Failure, halt_watch_loop: bool },
}

/// A step of starting with its texts as sequences of characters.
pub enum StartStepView {
    Launch,
    NotYet,
    Started,
    Failed { failure: FailureView, halt_watch_loop: bool },
}

impl View for StartStep {
    type V = StartStepView;

    open spec fn view(&self) -> StartStepView {
        match self {
            StartStep::Launch => StartStepView::Launch,
            StartStep::NotYet => StartStepView::NotYet,
            StartStep::Started => StartStepView::Started,
            StartStep::Failed { failure, halt_watch_loop } => StartStepView::Failed {
                failure: failure@,
                halt_watch_loop: *halt_watch_loop,
            },
        }
    }
}

/// The state of a watcher.
pub struct WatcherView {
    /// The roots that are watched.
    pub directories: Seq<Seq<char>>,
    pub phase: Phase,
    /// What has been seen of the watch loop since it was last launched.
    pub watch_loop: SignalView,
    /// What has been seen of the initial full index since it was last
    /// launched.
    pub initial_index: SignalView,
}

/// What the two signals amount to once both have been seen: success where
/// both succeeded, else a failure that says which of the two failed, or that
/// both did.
pub open spec fn joined(watch_loop: SignalView, initial_index: SignalView) -> Result<
    (),
    FailureView,
>
    recommends
        !(watch_loop is Unobserved),
        !(initial_index is Unobserved),
{
    match (watch_loop, initial_index) {
        (SignalView::Failed(watch), SignalView::Failed(index)) => Err(
            FailureView::WatchStartupAndInitialIndex { watch, index },
        ),
        (SignalView::Failed(detail), _) => Err(FailureView::WatchStartup { detail }),
        (_, SignalView::Failed(detail)) => Err(FailureView::InitialIndex { detail }),
        _ => Ok(()),
    }
}

impl WatcherView {
    /// A watcher as it is made.
    pub open spec fn created(directories: Seq<Seq<char>>) -> WatcherView {
        WatcherView {
            directories,
            phase: Phase::Created,
            watch_loop: SignalView::Unobserved,
            initial_index: SignalView::Unobserved,
        }
    }

    /// What a running watcher rests on, and what any other has given up: a
    /// watcher is running only with both signals seen to succeed, and of a
    /// watcher that is not started, or is stopped, no signal is left.
    pub open spec fn wf(self) -> bool {
        &&& self.phase == Phase::Running ==> self.watch_loop is Succeeded
            && self.initial_index is Succeeded
        &&& self.phase == Phase::Created || self.phase == Phase::Stopped
            ==> self.watch_loop is Unobserved && self.initial_index is Unobserved
    }

    /// Whether a watch loop may be alive in the engine: one has been
    /// launched and not yet seen to fail, or one has been seen to start.
    pub open spec fn loop_may_live(self) -> bool {
        self.phase == Phase::Starting || self.watch_loop is Succeeded
    }

    /// Whether both signals have been seen.
    pub open spec fn both_seen(self) -> bool {
        !(self.watch_loop is Unobserved) && !(self.initial_index is Unobserved)
    }

    /// What a step of `start` answers.
    pub open spec fn start_answer(self) -> StartStepView {
        match self.phase {
            Phase::Created => StartStepView::Launch,
            Phase::Starting => if !self.both_seen() {
                StartStepView::NotYet
            } else {
                match joined(self.watch_loop, self.initial_index) {
                    Ok(_) => StartStepView::Started,
                    Err(failure) => StartStepView::Failed {
                        failure,
                        halt_watch_loop: self.watch_loop is Succeeded,
                    },
                }
            },
            Phase::Running => StartStepView::Started,
            Phase::Stopped => StartStepView::Failed {
                failure: FailureView::WatcherStopped,
                halt_watch_loop: false,
            },
        }
    }

    /// The watcher after a step of `start`. Where the step joins the two
    /// signals and either has failed, the watcher is as it was made.
    pub open spec fn start_stepped(self) -> WatcherView {
        match self.phase {
            Phase::Created => WatcherView {
                phase: Phase::Starting,
                watch_loop: SignalView::Unobserved,
                initial_index: SignalView::Unobserved,
                ..self
            },
            Phase::Starting => if !self.both_seen() {
                self
            } else if joined(self.watch_loop, self.initial_index) is Ok {
                WatcherView { phase: Phase::Running, ..self }
            } else {
                WatcherView::created(self.directories)
            },
            Phase::Running => self,
            Phase::Stopped => self,
        }
    }

    /// The watcher after the outcome of the watch loop has been reported.
    /// It counts while the watcher is being started and nothing has been
    /// seen of the watch loop; otherwise it changes nothing.
    pub open spec fn watch_loop_seen(self, signal: SignalView) -> WatcherView {
        if self.phase == Phase::Starting && self.watch_loop is Unobserved {
            WatcherView { watch_loop: signal, ..self }
        } else {
            self
        }
    }

    /// Whether a report of the watch loop tells of a loop that the watcher
    /// does not keep: the loop has started, and the watcher does not hold
    /// it as started after the report.
    pub open spec fn watch_loop_unkept(self, signal: SignalView) -> bool {
        signal is Succeeded && !(self.watch_loop_seen(signal).watch_loop is Succeeded)
    }

    /// The watcher after the outcome of the initial full index has been
    /// reported. It counts while the watcher is being started and nothing
    /// has been seen of the index; otherwise it changes nothing.
    pub open spec fn initial_index_seen(self, signal: SignalView) -> WatcherView {
        if self.phase == Phase::Starting && self.initial_index is Unobserved {
            WatcherView { initial_index: signal, ..self }
        } else {
            self
        }
    }

    /// The watcher after it has been stopped.
    pub open spec fn stopped(self) -> WatcherView {
        WatcherView {
            phase: Phase::Stopped,
            watch_loop: SignalView::Unobserved,
            initial_index: SignalView::Unobserved,
            ..self
        }
    }

    /// What is to be done to stop the watcher, in this order: where a watch
    /// loop may be alive, wait until it has terminated; then, and in any
    /// case, flush the sink.
    pub open spec fn stop_plan(self, sink: Diagnostics) -> Seq<StopAction> {
        if self.loop_may_live() {
            seq![StopAction::HaltWatchLoop, StopAction::Sink(sink.flush_action())]
        } else {
            seq![StopAction::Sink(sink.flush_action())]
        }
    }
}

/// One thing that is to be done outside this crate to stop a watcher.
#[derive(Clone, Copy, PartialEq, Eq, Structural, Debug)]
pub enum StopAction {
    /// Wait, blocking, until the watch loop has terminated.
    HaltWatchLoop,
    /// Do this to the diagnostics sink.
    Sink(SinkAction),
}

/// The handle of a watcher.
#[derive(PartialEq, Eq, Debug)]
pub struct Watcher {
    directories: Vec<String>,
    phase: Phase,
    watch_loop: Signal,
    initial_index: Signal,
}

impl View for Watcher {
    type V = WatcherView;

    closed spec fn view(&self) -> WatcherView {
        WatcherView {
            directories: texts(self.directories@),
            phase: self.phase,
            watch_loop: self.watch_loop@,
            initial_index: self.initial_index@,
        }
    }
}

/// What `get_watcher` gives: a watcher as it is made where the indexer was
/// constructed, else the failure of its construction.
pub open spec fn watcher_got(directories: Seq<Seq<char>>, indexer: Result<(), String>) -> Result<
    WatcherView,
    FailureView,
> {
    match indexer {
        Ok(_) => Ok(WatcherView::created(directories)),
        Err(detail) => Err(FailureView::IndexerConstruction { detail: detail@ }),
    }
}

/// A watcher or a failure, each by its view.
pub open spec fn watcher_result_view(result: Result<Watcher, Failure>) -> Result<
    WatcherView,
    FailureView,
> {
    match result {
        Ok(watcher) => Ok(watcher@),
        Err(failure) => Err(failure@),
    }
}

/// Makes the watcher for a list of root directories, given the outcome of
/// the construction of its indexer.
pub fn get_watcher(directories: Vec<String>, indexer: Result<(), String>) -> (result: Result<
    Watcher,
    Failure,
>)
    ensures
        watcher_result_view(result) == watcher_got(texts(directories@), indexer),
{
    match indexer {
        Ok(_) => Ok(
            Watcher {
                directories,
                phase: Phase::Created,
                watch_loop: Signal::Unobserved,
                initial_index: Signal::Unobserved,
            },
        ),
        Err(detail) => Err(Failure::IndexerConstruction { detail }),
    }
}

impl Signal {
    /// The signal that an outcome is seen as.
    pub fn of(outcome: Result<(), String>) -> (signal: Signal)
        ensures
            signal@ == signal_of(outcome),
    {
        match outcome {
            Ok(_) => Signal::Succeeded,
            Err(detail) => Signal::Failed(detail),
        }
    }

    /// A copy of the signal.
    fn copied(&self) -> (signal: Signal)
        ensures
            signal@ == self@,
    {
        match self {
            Signal::Unobserved => Signal::Unobserved,
            Signal::Succeeded => Signal::Succeeded,
            Signal::Failed(detail) => Signal::Failed(detail.clone()),
        }
    }
}

/// Joins the two signals once both have been seen.
fn join(watch_loop: Signal, initial_index: Signal) -> (result: Result<(), Failure>)
    requires
        !(watch_loop is Unobserved),
        !(initial_index is Unobserved),
    ensures
        result is Ok == joined(watch_loop@, initial_index@) is Ok,
        result matches Err(failure) ==> joined(watch_loop@, initial_index@) == Err::<
            (),
            FailureView,
        >(failure@),
{
    match watch_loop {
        Signal::Failed(watch) => match initial_index {
            Signal::Failed(index) => Err(Failure::WatchStartupAndInitialIndex { watch, index }),
            _ => Err(Failure::WatchStartup { detail: watch }),
        },
        _ => match initial_index {
            Signal::Failed(index) => Err(Failure::InitialIndex { detail: index }),
            _ => Ok(()),
        },
    }
}

impl Watcher {
    /// The engine that the work of a watcher runs on.
    pub fn domain(&self) -> (domain: Domain)
        ensures
            domain == Domain::Watch,
    {
        Domain::Watch
    }

    /// The root directories that are watched.
    pub fn directories(&self) -> (directories: &Vec<String>)
        ensures
            texts(directories@) == self@.directories,
    {
        &self.directories
    }

    /// Where the watcher is in its life.
    pub fn phase(&self) -> (phase: Phase)
        ensures
            phase == self@.phase,
    {
        self.phase
    }

    /// One cooperative step of the host's `start`.
    ///
    /// The first step on a watcher that is not started asks for the watch
    /// loop and the initial full index to be launched. Every step after
    /// that answers `NotYet` until the outcome of both has been reported.
    /// The step after that joins the two. Where both succeeded the watcher
    /// is running and the step answers `Started`. Else the step answers the
    /// failure, the watcher is as it was made, and the step asks for the
    /// watch loop to be halted where it did start, so that nothing of the
    /// failed start is left. A running watcher answers `Started` at once; a
    /// stopped one fails.
    pub fn start(&mut self) -> (step: StartStep)
        ensures
            final(self)@ == old(self)@.start_stepped(),
            step@ == old(self)@.start_answer(),
    {
        match self.phase {
            Phase::Created => {
                self.phase = Phase::Starting;
                self.watch_loop = Signal::Unobserved;
                self.initial_index = Signal::Unobserved;
                StartStep::Launch
            },
            Phase::Starting => {
                let watch_loop = self.watch_loop.copied();
                let initial_index = self.initial_index.copied();
                if matches!(watch_loop, Signal::Unobserved) || matches!(
                    initial_index,
                    Signal::Unobserved
                ) {
                    return StartStep::NotYet;
                }
                let halt_watch_loop = matches!(watch_loop, Signal::Succeeded);
                match join(watch_loop, initial_index) {
                    Ok(_) => {
                        self.phase = Phase::Running;
                        StartStep::Started
                    },
                    Err(failure) => {
                        self.phase = Phase::Created;
                        self.watch_loop = Signal::Unobserved;
                        self.initial_index = Signal::Unobserved;
                        StartStep::Failed { failure, halt_watch_loop }
                    },
                }
            },
            Phase::Running => StartStep::Started,
            Phase::Stopped => StartStep::Failed {
                failure: Failure::WatcherStopped,
                halt_watch_loop: false,
            },
        }
    }

    /// Reports the outcome of the launch of the watch loop, and says
    /// whether the loop has to be halted: it has where it did start and
    /// the watcher does not keep it, because the watcher is not being
    /// started or has seen its watch loop fail.
    pub fn watch_loop_started(&mut self, outcome: Result<(), String>) -> (halt_watch_loop: bool)
        ensures
            final(self)@ == old(self)@.watch_loop_seen(signal_of(outcome)),
            halt_watch_loop == old(self)@.watch_loop_unkept(signal_of(outcome)),
    {
        let started = outcome.is_ok();
        if matches!(self.phase, Phase::Starting) && matches!(self.watch_loop, Signal::Unobserved) {
            self.watch_loop = Signal::of(outcome);
        }
        started && !matches!(self.watch_loop, Signal::Succeeded)
    }

    /// Reports the outcome of the initial full index.
    pub fn initial_index_completed(&mut self, outcome: Result<(), String>)
        ensures
            final(self)@ == old(self)@.initial_index_seen(signal_of(outcome)),
    {
        if matches!(self.phase, Phase::Starting) && matches!(
            self.initial_index,
            Signal::Unobserved
        ) {
            self.initial_index = Signal::of(outcome);
        }
    }

    /// Stops the watcher, for good, and flushes the diagnostics sink.
    ///
    /// This is the one operation of the bridge that blocks the calling
    /// thread, and it is meant for the teardown of the host only. The plan
    /// lists what is to be done, in the order in which it is to be done:
    /// first to wait for the watch loop, where one may be alive, and then
    /// to flush the sink. To stop a watcher that was never started, or one
    /// that is stopped, is no failure and waits for nothing; the sink is
    /// flushed in either case.
    pub fn stop_blocking(&mut self, sink: &mut Diagnostics) -> (plan: Vec<StopAction>)
        ensures
            final(self)@ == old(self)@.stopped(),
            plan@ == old(self)@.stop_plan(*old(sink)),
            *final(sink) == old(sink).flushed(),
    {
        let halt_watch_loop = matches!(self.phase, Phase::Starting) || matches!(
            self.watch_loop,
            Signal::Succeeded
        );
        self.phase = Phase::Stopped;
        self.watch_loop = Signal::Unobserved;
        self.initial_index = Signal::Unobserved;
        let mut plan: Vec<StopAction> = Vec::new();
        if halt_watch_loop {
            plan.push(StopAction::HaltWatchLoop);
        }
        plan.push(StopAction::Sink(flush(sink)));
        assert(plan@ =~= old(self)@.stop_plan(*old(sink)));
        plan
    }
}

/// What can be done to a watcher.
pub enum WatcherEvent {
    /// A step of `start`.
    Start,
    /// The outcome of the watch loop is reported.
    WatchLoop(SignalView),
    /// The outcome of the initial full index is reported.
    InitialIndex(SignalView),
    /// The watcher is stopped.
    Stop,
}

impl WatcherView {
    /// The watcher after one event.
    pub open spec fn on(self, event: WatcherEvent) -> WatcherView {
        match event {
            WatcherEvent::Start => self.start_stepped(),
            WatcherEvent::WatchLoop(signal) => self.watch_loop_seen(signal),
            WatcherEvent::InitialIndex(signal) => self.initial_index_seen(signal),
            WatcherEvent::Stop => self.stopped(),
        }
    }

    /// The watcher after each of `events`, in order.
    pub open spec fn after(self, events: Seq<WatcherEvent>) -> WatcherView
        decreases events.len(),
    {
        if events.len() == 0 {
            self
        } else {
            self.after(events.drop_last()).on(events.last())
        }
    }
}

/// A watcher is well-formed as it is made, and whatever is done to a
/// well-formed watcher leaves it well-formed.
pub proof fn watcher_stays_well_formed(watcher: WatcherView, signal: SignalView)
    requires
        watcher.wf(),
    ensures
        WatcherView::created(watcher.directories).wf(),
        watcher.start_stepped().wf(),
        watcher.watch_loop_seen(signal).wf(),
        watcher.initial_index_seen(signal).wf(),
        watcher.stopped().wf(),
{
}

/// Starting reports success only where the watch loop has been seen to
/// start and the initial full index has been seen to complete, and the
/// watcher is then running. Until both outcomes have been seen it reports
/// nothing. Where either has failed it reports a failure that says which
/// of the two failed, or that both did; the watcher is then as it was made,
/// and the watch loop is to be halted exactly where it did start. Behind a
/// reported failure no watch loop is left alive.
pub proof fn start_joins_both_outcomes(watcher: WatcherView)
    requires
        watcher.wf(),
    ensures
        watcher.start_answer() is Started ==> {
            &&& watcher.watch_loop is Succeeded
            &&& watcher.initial_index is Succeeded
            &&& watcher.start_stepped().phase == Phase::Running
        },
        watcher.phase == Phase::Starting && !watcher.both_seen() ==> watcher.start_answer()
            == StartStepView::NotYet,
        watcher.phase == Phase::Starting && watcher.both_seen() ==> {
            &&& watcher.start_answer() is Started || watcher.start_answer() is Failed
            &&& (watcher.start_answer() matches StartStepView::Failed {
                failure,
                halt_watch_loop,
            } ==> {
                &&& watcher.start_stepped() == WatcherView::created(watcher.directories)
                &&& halt_watch_loop == watcher.watch_loop is Succeeded
                &&& failure is WatchStartup <==> watcher.watch_loop is Failed
                    && watcher.initial_index is Succeeded
                &&& failure is InitialIndex <==> watcher.watch_loop is Succeeded
                    && watcher.initial_index is Failed
                &&& failure is WatchStartupAndInitialIndex <==> watcher.watch_loop is Failed
                    && watcher.initial_index is Failed
            })
            &&& (watcher.watch_loop is Failed || watcher.initial_index is Failed)
                ==> watcher.start_answer() is Failed
        },
        watcher.start_answer() is Failed ==> !watcher.start_stepped().loop_may_live(),
        watcher.start_answer() is Failed ==> watcher.start_stepped().phase != Phase::Running,
{
}

/// A watch loop that has been reported as started is either kept by the
/// watcher, which then knows that a loop may be alive, or it is to be
/// halted.
pub proof fn started_loop_is_kept_or_halted(watcher: WatcherView, signal: SignalView)
    requires
        signal is Succeeded,
    ensures
        watcher.watch_loop_unkept(signal) || watcher.watch_loop_seen(signal).loop_may_live(),
{
}

/// Whatever has been done to a watcher since it was made, it is
/// well-formed; where a step of `start` then answers that the watcher is
/// running, the watch loop has been seen to start and the initial full index
/// has been seen to complete; where it answers a failure, no watch loop is
/// left alive; and once the watcher has been stopped, it is stopped for good.
pub proof fn watcher_reports_success_on_both_signals_only(
    directories: Seq<Seq<char>>,
    events: Seq<WatcherEvent>,
)
    ensures
        WatcherView::created(directories).after(events).wf(),
        WatcherView::created(directories).after(events).start_answer() is Started ==> {
            &&& WatcherView::created(directories).after(events).watch_loop is Succeeded
            &&& WatcherView::created(directories).after(events).initial_index is Succeeded
        },
        WatcherView::created(directories).after(events).start_answer() is Failed
            ==> !WatcherView::created(directories).after(events).start_stepped().loop_may_live(),
        events.contains(WatcherEvent::Stop) ==> WatcherView::created(directories).after(
            events,
        ).phase == Phase::Stopped,
    decreases events.len(),
{
    if events.len() > 0 {
        let front = events.drop_last();
        watcher_reports_success_on_both_signals_only(directories, front);
        if events.contains(WatcherEvent::Stop) && events.last() != WatcherEvent::Stop {
            let i = choose|i: int| 0 <= i < events.len() && events[i] == WatcherEvent::Stop;
            assert(front[i] == WatcherEvent::Stop);
        }
    }
}

} // verus!
