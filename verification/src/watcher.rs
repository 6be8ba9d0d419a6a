//! The watcher's state machine. The thread that supervises a pipeline
//! performs one action at a time (a pause, a poll of a channel, a call on the
//! pipeline) and reports what came of it as an event; the machine decides what
//! happens next.

use vstd::prelude::*;
use crate::stall::{
    fresh, observed, stalls, unchanged, StallDetector, StallModel, MAX_LOST_TIMESTAMPS,
};

verus! {

/// Milliseconds of every pause of the watcher.
pub const POLL_INTERVAL_MS: u64 = 100;

/// Milliseconds of one wait for the pipeline to confirm the running state.
pub const STATE_WAIT_MS: u64 = 100;

/// How many such waits are made before the attempt counts as failed.
pub const STATE_WAIT_RETRIES: u64 = 5;

/// Milliseconds that one pop from the bus may wait for a message.
pub const BUS_WAIT_MS: u64 = 100;

/// The four phases of a watcher's life.
#[derive(Clone, Copy, Debug, PartialEq, Eq)]
pub enum Phase {
    WaitingForStart,
    Starting,
    Monitoring,
    Terminal,
}

/// Where exactly the watcher stands: each stage waits for the event of one action.
#[derive(Clone, Copy, Debug, PartialEq, Eq)]
pub enum Stage {
    /// Resolving the pipeline and its bus.
    Acquire,
    /// Pausing before the next poll of the start signal.
    Idle,
    /// Polling the start signal.
    AwaitStart,
    /// Pausing before the pipeline is driven again.
    Backoff,
    /// Reading the pipeline's state.
    CheckState,
    /// Requesting the running state and waiting for it.
    Drive,
    /// Querying the stream position.
    Position,
    /// Popping one message from the bus.
    Drain,
    /// Polling the killswitch.
    KillCheck,
    /// The loop has ended.
    Done,
}

/// What resolving the pipeline gave.
#[derive(Clone, Copy, Debug, PartialEq, Eq)]
pub enum Acquire {
    Ready,
    PipelineGone,
    BusUnavailable,
}

/// What one poll of the start signal gave.
#[derive(Clone, Copy, Debug, PartialEq, Eq)]
pub enum StartPoll {
    /// At least one signal was sent since the last poll.
    Received,
    /// No signal is waiting, and the sender is still there.
    Empty,
    /// The sender is gone and has left no signal.
    Closed,
}

/// What driving the pipeline to the running state gave.
#[derive(Clone, Copy, Debug, PartialEq, Eq)]
pub enum Drive {
    /// The pipeline confirmed the running state.
    Reached,
    /// The request itself was refused.
    SetFailed,
    /// The request was taken, but the state was not confirmed in time.
    NotReached,
}

/// A message of the pipeline's bus, as far as the watcher tells them apart.
#[derive(Clone, Copy, Debug, PartialEq, Eq)]
pub enum BusEvent {
    EndOfStream,
    Error,
    StateChanged,
    Other,
}

/// What one poll of the killswitch gave.
#[derive(Clone, Copy, Debug, PartialEq, Eq)]
pub enum KillPoll {
    /// At least one value was sent since the last poll.
    Received,
    /// No value is waiting, and senders are left.
    Empty,
    /// No value is waiting, and no sender is left.
    Closed,
}

/// What came of the action that the watcher was told to perform.
#[derive(Clone, Copy, Debug, PartialEq, Eq)]
pub enum Event {
    Acquired(Acquire),
    Paused,
    Start(StartPoll),
    /// Whether the pipeline is in the running state.
    State(bool),
    Driven(Drive),
    /// The stream position in nanoseconds, if it is defined.
    Position(Option<u64>),
    /// The message popped from the bus, if one came within the wait.
    Bus(Option<BusEvent>),
    Kill(KillPoll),
}

/// What the thread has to do next.
#[derive(Clone, Copy, Debug, PartialEq, Eq)]
pub enum Action {
    /// Resolve the pipeline and its bus; answer with `Event::Acquired`.
    Acquire,
    /// Sleep for `POLL_INTERVAL_MS`; answer with `Event::Paused`.
    Pause,
    /// Poll the start signal without blocking; answer with `Event::Start`.
    PollStart,
    /// Read the pipeline's state; answer with `Event::State`.
    ReadState,
    /// Request the running state and wait for it, `STATE_WAIT_RETRIES` times
    /// `STATE_WAIT_MS`; answer with `Event::Driven`.
    RequestPlaying,
    /// Query the stream position; answer with `Event::Position`.
    QueryPosition,
    /// Pop one message from the bus, waiting at most `BUS_WAIT_MS`; answer
    /// with `Event::Bus`.
    PopBus,
    /// Poll the killswitch without blocking; answer with `Event::Kill`.
    PollKill,
    /// Leave the loop and announce the outcome.
    Stop,
}

/// How a loop ended without error.
#[derive(Clone, Copy, Debug, PartialEq, Eq)]
pub enum Ending {
    EndOfStream,
    Killed,
}

/// The conditions that end the loop with an error.
#[derive(Clone, Copy, Debug, PartialEq, Eq)]
pub enum WatcherError {
    /// The pipeline no longer exists.
    PipelineGone,
    /// The pipeline has no bus.
    BusUnavailable,
    /// The start channel was closed before any signal came.
    StartSignalClosed,
    /// The pipeline refused the request for the running state.
    SetState,
    /// The killswitch was closed.
    KillswitchClosed,
}

/// The mathematical state of a watcher.
pub struct WatcherModel {
    pub stage: Stage,
    pub detector: StallModel,
    /// Whether a pipeline that makes no progress is left alone.
    pub allow_block: bool,
    /// How the loop ended, once it has.
    pub outcome: Option<Result<Ending, WatcherError>>,
}

/// The phase that a stage belongs to.
pub open spec fn phase_of(stage: Stage) -> Phase {
    match stage {
        Stage::Acquire | Stage::Idle | Stage::AwaitStart => Phase::WaitingForStart,
        Stage::Backoff | Stage::CheckState | Stage::Drive => Phase::Starting,
        Stage::Position | Stage::Drain | Stage::KillCheck => Phase::Monitoring,
        Stage::Done => Phase::Terminal,
    }
}

/// The action whose event a stage waits for.
pub open spec fn action_of(stage: Stage) -> Action {
    match stage {
        Stage::Acquire => Action::Acquire,
        Stage::Idle | Stage::Backoff => Action::Pause,
        Stage::AwaitStart => Action::PollStart,
        Stage::CheckState => Action::ReadState,
        Stage::Drive => Action::RequestPlaying,
        Stage::Position => Action::QueryPosition,
        Stage::Drain => Action::PopBus,
        Stage::KillCheck => Action::PollKill,
        Stage::Done => Action::Stop,
    }
}

/// The first stage of a round of monitoring: the position is queried only
/// where stalls are looked for.
pub open spec fn monitoring_entry(allow_block: bool) -> Stage {
    if allow_block {
        Stage::Drain
    } else {
        Stage::Position
    }
}

/// The state of a watcher that has done nothing yet.
pub open spec fn initial(allow_block: bool) -> WatcherModel {
    WatcherModel {
        stage: Stage::Acquire,
        detector: fresh(MAX_LOST_TIMESTAMPS as nat),
        allow_block,
        outcome: None,
    }
}

/// The same state at another stage.
pub open spec fn at(m: WatcherModel, stage: Stage) -> WatcherModel {
    WatcherModel { stage, ..m }
}

/// The same state with the loop ended in `outcome`.
pub open spec fn ended(m: WatcherModel, outcome: Result<Ending, WatcherError>) -> WatcherModel {
    WatcherModel { stage: Stage::Done, outcome: Some(outcome), ..m }
}

/// The state after an event. An event that is not the answer to the pending
/// action changes nothing, and nothing changes a watcher that has ended.
///
/// A stall or an error message sends the watcher back to drive the pipeline
/// without emptying the bus: what is still waiting there is read in the next
/// round of monitoring.
pub open spec fn next(m: WatcherModel, event: Event) -> WatcherModel {
    match (m.stage, event) {
        (Stage::Acquire, Event::Acquired(Acquire::Ready)) => at(m, Stage::Idle),
        (Stage::Acquire, Event::Acquired(Acquire::PipelineGone)) => ended(
            m,
            Err(WatcherError::PipelineGone),
        ),
        (Stage::Acquire, Event::Acquired(Acquire::BusUnavailable)) => ended(
            m,
            Err(WatcherError::BusUnavailable),
        ),
        (Stage::Idle, Event::Paused) => at(m, Stage::AwaitStart),
        (Stage::AwaitStart, Event::Start(StartPoll::Received)) => at(m, Stage::CheckState),
        (Stage::AwaitStart, Event::Start(StartPoll::Empty)) => at(m, Stage::Idle),
        (Stage::AwaitStart, Event::Start(StartPoll::Closed)) => ended(
            m,
            Err(WatcherError::StartSignalClosed),
        ),
        (Stage::Backoff, Event::Paused) => at(m, Stage::CheckState),
        (Stage::CheckState, Event::State(playing)) => if playing {
            at(m, monitoring_entry(m.allow_block))
        } else {
            at(m, Stage::Drive)
        },
        (Stage::Drive, Event::Driven(Drive::Reached)) => at(m, monitoring_entry(m.allow_block)),
        (Stage::Drive, Event::Driven(Drive::NotReached)) => at(m, Stage::Backoff),
        (Stage::Drive, Event::Driven(Drive::SetFailed)) => ended(m, Err(WatcherError::SetState)),
        (Stage::Position, Event::Position(position)) => WatcherModel {
            stage: if stalls(m.detector, position) {
                Stage::Backoff
            } else {
                Stage::Drain
            },
            detector: observed(m.detector, position),
            ..m
        },
        (Stage::Drain, Event::Bus(None)) => at(m, Stage::KillCheck),
        (Stage::Drain, Event::Bus(Some(BusEvent::EndOfStream))) => ended(
            m,
            Ok(Ending::EndOfStream),
        ),
        (Stage::Drain, Event::Bus(Some(BusEvent::Error))) => at(m, Stage::Backoff),
        (Stage::Drain, Event::Bus(Some(_))) => m,
        (Stage::KillCheck, Event::Kill(KillPoll::Received)) => ended(m, Ok(Ending::Killed)),
        (Stage::KillCheck, Event::Kill(KillPoll::Empty)) => at(m, monitoring_entry(m.allow_block)),
        (Stage::KillCheck, Event::Kill(KillPoll::Closed)) => ended(
            m,
            Err(WatcherError::KillswitchClosed),
        ),
        _ => m,
    }
}

/// The state after a sequence of events, oldest first.
pub open spec fn next_all(m: WatcherModel, events: Seq<Event>) -> WatcherModel
    decreases events.len(),
{
    if events.len() == 0 {
        m
    } else {
        next(next_all(m, events.drop_last()), events.last())
    }
}

/// How often the sequence of events takes the watcher from `from` to `to`.
pub open spec fn crossings(m: WatcherModel, events: Seq<Event>, from: Phase, to: Phase) -> nat
    decreases events.len(),
{
    if events.len() == 0 {
        0
    } else {
        let before = next_all(m, events.drop_last());
        let after = next(before, events.last());
        let earlier = crossings(m, events.drop_last(), from, to);
        if phase_of(before.stage) == from && phase_of(after.stage) == to {
            earlier + 1
        } else {
            earlier
        }
    }
}

/// The state machine that a watcher thread runs.
#[derive(Clone, Copy, Debug)]
pub struct Watcher {
    stage: Stage,
    detector: StallDetector,
    allow_block: bool,
    outcome: Option<Result<Ending, WatcherError>>,
}

impl View for Watcher {
    type V = WatcherModel;

    closed spec fn view(&self) -> WatcherModel {
        WatcherModel {
            stage: self.stage,
            detector: self.detector@,
            allow_block: self.allow_block,
            outcome: self.outcome,
        }
    }
}

impl Watcher {
    /// The counter is within its limit, and the outcome is known exactly
    /// when the loop has ended.
    pub closed spec fn wf(&self) -> bool {
        &&& self.detector.wf()
        &&& self.stage is Done <==> self.outcome is Some
    }

    /// A watcher that has done nothing yet. With `allow_block` a pipeline
    /// that makes no progress is left alone; without it, stalls are looked for.
    pub fn new(allow_block: bool) -> (watcher: Self)
        ensures
            watcher.wf(),
            watcher@ == initial(allow_block),
    {
        Watcher {
            stage: Stage::Acquire,
            detector: StallDetector::new(MAX_LOST_TIMESTAMPS),
            allow_block,
            outcome: None,
        }
    }

    /// The stage the watcher stands at.
    pub fn stage(&self) -> (stage: Stage)
        ensures
            stage == self@.stage,
    {
        self.stage
    }

    /// The phase the watcher is in.
    pub fn phase(&self) -> (phase: Phase)
        ensures
            phase == phase_of(self@.stage),
    {
        match self.stage {
            Stage::Acquire | Stage::Idle | Stage::AwaitStart => Phase::WaitingForStart,
            Stage::Backoff | Stage::CheckState | Stage::Drive => Phase::Starting,
            Stage::Position | Stage::Drain | Stage::KillCheck => Phase::Monitoring,
            Stage::Done => Phase::Terminal,
        }
    }

    /// The action that the thread has to perform now.
    pub fn action(&self) -> (action: Action)
        ensures
            action == action_of(self@.stage),
    {
        match self.stage {
            Stage::Acquire => Action::Acquire,
            Stage::Idle | Stage::Backoff => Action::Pause,
            Stage::AwaitStart => Action::PollStart,
            Stage::CheckState => Action::ReadState,
            Stage::Drive => Action::RequestPlaying,
            Stage::Position => Action::QueryPosition,
            Stage::Drain => Action::PopBus,
            Stage::KillCheck => Action::PollKill,
            Stage::Done => Action::Stop,
        }
    }

    /// How the loop ended, once it has.
    pub fn outcome(&self) -> (outcome: Option<Result<Ending, WatcherError>>)
        ensures
            outcome == self@.outcome,
            self.wf() ==> (outcome is Some <==> self@.stage is Done),
    {
        self.outcome
    }

    /// Consecutive unchanged positions counted so far.
    pub fn lost_timestamps(&self) -> (lost: usize)
        ensures
            lost as nat == self@.detector.lost,
    {
        self.detector.lost_timestamps()
    }

    fn enter_monitoring(&mut self)
        ensures
            *final(self) == (Watcher { stage: monitoring_entry(old(self).allow_block), ..*old(self) }),
    {
        if self.allow_block {
            self.stage = Stage::Drain;
        } else {
            self.stage = Stage::Position;
        }
    }

    fn end(&mut self, outcome: Result<Ending, WatcherError>)
        ensures
            *final(self) == (Watcher { stage: Stage::Done, outcome: Some(outcome), ..*old(self) }),
    {
        self.stage = Stage::Done;
        self.outcome = Some(outcome);
    }

    /// Takes the event of the pending action and returns the next action.
    pub fn step(&mut self, event: Event) -> (action: Action)
        requires
            old(self).wf(),
        ensures
            final(self).wf(),
            final(self)@ == next(old(self)@, event),
            action == action_of(final(self)@.stage),
    {
        match (self.stage, event) {
            (Stage::Acquire, Event::Acquired(Acquire::Ready)) => {
                self.stage = Stage::Idle;
            },
            (Stage::Acquire, Event::Acquired(Acquire::PipelineGone)) => {
                self.end(Err(WatcherError::PipelineGone));
            },
            (Stage::Acquire, Event::Acquired(Acquire::BusUnavailable)) => {
                self.end(Err(WatcherError::BusUnavailable));
            },
            (Stage::Idle, Event::Paused) => {
                self.stage = Stage::AwaitStart;
            },
            (Stage::AwaitStart, Event::Start(StartPoll::Received)) => {
                self.stage = Stage::CheckState;
            },
            (Stage::AwaitStart, Event::Start(StartPoll::Empty)) => {
                self.stage = Stage::Idle;
            },
            (Stage::AwaitStart, Event::Start(StartPoll::Closed)) => {
                self.end(Err(WatcherError::StartSignalClosed));
            },
            (Stage::Backoff, Event::Paused) => {
                self.stage = Stage::CheckState;
            },
            (Stage::CheckState, Event::State(playing)) => {
                if playing {
                    self.enter_monitoring();
                } else {
                    self.stage = Stage::Drive;
                }
            },
            (Stage::Drive, Event::Driven(Drive::Reached)) => {
                self.enter_monitoring();
            },
            (Stage::Drive, Event::Driven(Drive::NotReached)) => {
                self.stage = Stage::Backoff;
            },
            (Stage::Drive, Event::Driven(Drive::SetFailed)) => {
                self.end(Err(WatcherError::SetState));
            },
            (Stage::Position, Event::Position(position)) => {
                let stalled = self.detector.observe(position);
                if stalled {
                    self.stage = Stage::Backoff;
                } else {
                    self.stage = Stage::Drain;
                }
            },
            (Stage::Drain, Event::Bus(None)) => {
                self.stage = Stage::KillCheck;
            },
            (Stage::Drain, Event::Bus(Some(BusEvent::EndOfStream))) => {
                self.end(Ok(Ending::EndOfStream));
            },
            (Stage::Drain, Event::Bus(Some(BusEvent::Error))) => {
                self.stage = Stage::Backoff;
            },
            (Stage::KillCheck, Event::Kill(KillPoll::Received)) => {
                self.end(Ok(Ending::Killed));
            },
            (Stage::KillCheck, Event::Kill(KillPoll::Empty)) => {
                self.enter_monitoring();
            },
            (Stage::KillCheck, Event::Kill(KillPoll::Closed)) => {
                self.end(Err(WatcherError::KillswitchClosed));
            },
            _ => {},
        }
        self.action()
    }
}

/// An end-of-stream message found while the bus is drained ends the loop
/// without error, whatever else the watcher's state holds.
pub proof fn lemma_end_of_stream_ends(m: WatcherModel)
    requires
        m.stage is Drain,
    ensures
        next(m, Event::Bus(Some(BusEvent::EndOfStream))).stage is Done,
        next(m, Event::Bus(Some(BusEvent::EndOfStream))).outcome == Some(
            Ok::<Ending, WatcherError>(Ending::EndOfStream),
        ),
{
}

/// Any value found on the killswitch ends the loop without error.
pub proof fn lemma_kill_ends(m: WatcherModel)
    requires
        m.stage is KillCheck,
    ensures
        next(m, Event::Kill(KillPoll::Received)).stage is Done,
        next(m, Event::Kill(KillPoll::Received)).outcome == Some(
            Ok::<Ending, WatcherError>(Ending::Killed),
        ),
{
}

/// Every round of monitoring polls the killswitch: as soon as the bus is
/// found empty, the next action is that poll, with no pause before it.
pub proof fn lemma_killswitch_polled_every_round(m: WatcherModel)
    requires
        m.stage is Drain,
    ensures
        next(m, Event::Bus(None)).stage is KillCheck,
        action_of(next(m, Event::Bus(None)).stage) == Action::PollKill,
        next_all(m, seq![Event::Bus(None), Event::Kill(KillPoll::Received)]).stage is Done,
{
    let events = seq![Event::Bus(None), Event::Kill(KillPoll::Received)];
    assert(events.drop_last() =~= seq![Event::Bus(None)]);
    assert(events.drop_last().drop_last() =~= Seq::<Event>::empty());
    assert(next_all(m, events.drop_last().drop_last()) == m);
    assert(next_all(m, events.drop_last()) == next(m, Event::Bus(None)));
}

/// A stall found when the position is read sends the watcher back to
/// drive the pipeline again, with the counter at zero; any other reading
/// lets the round of monitoring go on. A reading that is undefined or shows
/// a change sets the counter to zero, whatever it was.
pub proof fn lemma_stall_drives_again(m: WatcherModel, position: Option<u64>)
    requires
        m.stage is Position,
    ensures
        stalls(m.detector, position) ==> next(m, Event::Position(position)).stage is Backoff
            && next(m, Event::Position(position)).detector.lost == 0,
        !stalls(m.detector, position) ==> next(m, Event::Position(position)).stage is Drain,
        next(m, Event::Position(position)).detector == observed(m.detector, position),
        !unchanged(m.detector.previous, position) ==> next(
            m,
            Event::Position(position),
        ).detector.lost == 0,
{
}

/// Where a pipeline without progress is left alone, the position is never
/// asked for and nothing is ever counted.
pub proof fn lemma_allowed_block_never_counts(events: Seq<Event>)
    ensures
        !(next_all(initial(true), events).stage is Position),
        next_all(initial(true), events).allow_block,
        next_all(initial(true), events).detector == fresh(MAX_LOST_TIMESTAMPS as nat),
    decreases events.len(),
{
    if events.len() > 0 {
        lemma_allowed_block_never_counts(events.drop_last());
    }
}

/// An error on the bus, a stall, or a running state that was not confirmed
/// in time never end the loop: the watcher goes back to drive the pipeline.
pub proof fn lemma_transient_failures_recover(m: WatcherModel)
    ensures
        m.stage is Drain ==> next(m, Event::Bus(Some(BusEvent::Error))).stage is Backoff,
        m.stage is Drive ==> next(m, Event::Driven(Drive::NotReached)).stage is Backoff,
        m.stage is Backoff ==> next(m, Event::Paused).stage is CheckState,
{
}

/// A watcher that has ended stays as it is.
pub proof fn lemma_terminal_is_final(m: WatcherModel, events: Seq<Event>)
    requires
        m.stage is Done,
    ensures
        next_all(m, events) == m,
    decreases events.len(),
{
    if events.len() > 0 {
        lemma_terminal_is_final(m, events.drop_last());
    }
}

/// A watcher that has left the wait for the start signal never comes back
/// to it, and takes no notice of a further start signal.
pub proof fn lemma_started_stays_started(m: WatcherModel, events: Seq<Event>)
    requires
        phase_of(m.stage) != Phase::WaitingForStart,
    ensures
        phase_of(next_all(m, events).stage) != Phase::WaitingForStart,
        action_of(next_all(m, events).stage) != Action::PollStart,
        forall|poll: StartPoll| #[trigger]
            next(next_all(m, events), Event::Start(poll)) == next_all(m, events),
    decreases events.len(),
{
    if events.len() > 0 {
        lemma_started_stays_started(m, events.drop_last());
    }
}

/// Whatever happens to a new watcher, it leaves the wait for the start
/// signal for the starting phase at most once, and only on a start signal
/// that was received.
pub proof fn lemma_start_taken_once(allow_block: bool, events: Seq<Event>)
    ensures
        crossings(initial(allow_block), events, Phase::WaitingForStart, Phase::Starting) <= 1,
        crossings(initial(allow_block), events, Phase::WaitingForStart, Phase::Starting) == 1
            ==> phase_of(next_all(initial(allow_block), events).stage) != Phase::WaitingForStart,
        crossings(initial(allow_block), events, Phase::WaitingForStart, Phase::Monitoring) == 0,
    decreases events.len(),
{
    if events.len() > 0 {
        let earlier = events.drop_last();
        lemma_start_taken_once(allow_block, earlier);
        let before = next_all(initial(allow_block), earlier);
        if phase_of(before.stage) == Phase::WaitingForStart {
            lemma_waiting_has_not_started(allow_block, earlier);
        } else {
            assert(phase_of(next(before, events.last()).stage) != Phase::WaitingForStart);
        }
    }
}

/// While a new watcher still waits for the start signal, it has never left
/// that wait.
pub proof fn lemma_waiting_has_not_started(allow_block: bool, events: Seq<Event>)
    requires
        phase_of(next_all(initial(allow_block), events).stage) == Phase::WaitingForStart,
    ensures
        crossings(initial(allow_block), events, Phase::WaitingForStart, Phase::Starting) == 0,
    decreases events.len(),
{
    if events.len() > 0 {
        let earlier = events.drop_last();
        let before = next_all(initial(allow_block), earlier);
        if phase_of(before.stage) != Phase::WaitingForStart {
            assert(phase_of(next(before, events.last()).stage) != Phase::WaitingForStart);
        } else {
            lemma_waiting_has_not_started(allow_block, earlier);
        }
    }
}

} // verus!
