//! The measurement session: decisions of the capture worker, the playback
//! worker and the controller, each a step from a phase and an event to the
//! next phase and an action. The threads, streams and clocks that perform
//! the actions and report the events live with the caller.
//!
//! All three coordinate through one shared flag, the run state: true while
//! a measurement is in progress.

use vstd::prelude::*;

verus! {

/// How long an active worker waits before it reads the run state again.
pub const POLL_INTERVAL_MS: u64 = 100;

/// Where a worker stands.
#[derive(Debug, Clone, Copy, PartialEq, Eq, Structural)]
pub enum WorkerPhase {
    /// Not started.
    Idle,
    /// Opening its device and stream.
    Opening,
    /// Streaming, and reading the run state between waits.
    Active,
    /// Done; nothing more happens.
    Stopped,
}

/// What the capture worker learns.
#[derive(Debug, Clone, Copy, PartialEq, Eq, Structural)]
pub enum CaptureEvent {
    /// The worker began, and read the run state.
    Started { running: bool },
    /// The input stream is open, and the run state was read.
    Opened { running: bool },
    /// Opening or starting the input stream failed.
    Failed,
    /// A wait ended, and the run state was read.
    Polled { running: bool },
    /// A wait ended during which the input device reported an error; the
    /// run state was read.
    DeviceError { running: bool },
}

/// What the capture worker does when its device reports an error while
/// streaming: a choice made when the worker is set up.
#[derive(Debug, Clone, Copy, PartialEq, Eq, Structural)]
pub enum DeviceErrorPolicy {
    /// Go on capturing with whatever the device still delivers.
    Continue,
    /// Fail the session.
    Abort,
}

/// What the capture worker does next.
#[derive(Debug, Clone, Copy, PartialEq, Eq, Structural)]
pub enum CaptureAction {
    /// Return without doing anything.
    Exit,
    /// Open the input device with a stream that appends every delivered
    /// chunk to the captured buffer.
    OpenStream,
    /// Keep the stream playing and wait this long.
    Capture { wait_ms: u64 },
    /// Pause the stream, take a snapshot of the buffer, analyse it and
    /// deliver the resonance.
    PauseAndAnalyze,
    /// Tell the controller that the session failed.
    ReportFailure,
    /// The event does not apply in this phase.
    Ignore,
}

/// The capture worker's decision table.
pub open spec fn capture_transition(
    policy: DeviceErrorPolicy,
    phase: WorkerPhase,
    event: CaptureEvent,
) -> (WorkerPhase, CaptureAction) {
    match (phase, event) {
        (WorkerPhase::Idle, CaptureEvent::Started { running }) => if running {
            (WorkerPhase::Opening, CaptureAction::OpenStream)
        } else {
            (WorkerPhase::Stopped, CaptureAction::Exit)
        },
        (WorkerPhase::Opening, CaptureEvent::Opened { running })
        | (WorkerPhase::Active, CaptureEvent::Polled { running }) => capture_reading(running),
        (WorkerPhase::Active, CaptureEvent::DeviceError { running }) => match policy {
            DeviceErrorPolicy::Continue => capture_reading(running),
            DeviceErrorPolicy::Abort => (WorkerPhase::Stopped, CaptureAction::ReportFailure),
        },
        (WorkerPhase::Opening, CaptureEvent::Failed)
        | (WorkerPhase::Active, CaptureEvent::Failed) => (
            WorkerPhase::Stopped,
            CaptureAction::ReportFailure,
        ),
        _ => (phase, CaptureAction::Ignore),
    }
}

/// What an open capture worker does on reading the run state.
pub open spec fn capture_reading(running: bool) -> (WorkerPhase, CaptureAction) {
    if running {
        (WorkerPhase::Active, CaptureAction::Capture { wait_ms: POLL_INTERVAL_MS })
    } else {
        (WorkerPhase::Stopped, CaptureAction::PauseAndAnalyze)
    }
}

/// The decisions of the thread that records the response.
#[derive(Debug, Clone, Copy, PartialEq, Eq, Structural)]
pub struct CaptureWorker {
    pub phase: WorkerPhase,
    pub on_device_error: DeviceErrorPolicy,
}

impl CaptureWorker {
    /// A worker that has not started, handling device errors as
    /// `on_device_error` says.
    pub fn new(on_device_error: DeviceErrorPolicy) -> (r: Self)
        ensures
            r.phase == WorkerPhase::Idle,
            r.on_device_error == on_device_error,
    {
        CaptureWorker { phase: WorkerPhase::Idle, on_device_error }
    }

    /// Takes in `event` and says what to do next.
    pub fn step(&mut self, event: CaptureEvent) -> (r: CaptureAction)
        ensures
            final(self).on_device_error == old(self).on_device_error,
            (final(self).phase, r) == capture_transition(
                old(self).on_device_error,
                old(self).phase,
                event,
            ),
    {
        let (phase, action) = match (self.phase, event) {
            (WorkerPhase::Idle, CaptureEvent::Started { running }) => if running {
                (WorkerPhase::Opening, CaptureAction::OpenStream)
            } else {
                (WorkerPhase::Stopped, CaptureAction::Exit)
            },
            (WorkerPhase::Opening, CaptureEvent::Opened { running })
            | (WorkerPhase::Active, CaptureEvent::Polled { running }) => on_reading(running),
            (WorkerPhase::Active, CaptureEvent::DeviceError { running }) => match self.on_device_error {
                DeviceErrorPolicy::Continue => on_reading(running),
                DeviceErrorPolicy::Abort => (WorkerPhase::Stopped, CaptureAction::ReportFailure),
            },
            (WorkerPhase::Opening, CaptureEvent::Failed)
            | (WorkerPhase::Active, CaptureEvent::Failed) => (
                WorkerPhase::Stopped,
                CaptureAction::ReportFailure,
            ),
            _ => (self.phase, CaptureAction::Ignore),
        };
        self.phase = phase;
        action
    }
}

fn on_reading(running: bool) -> (r: (WorkerPhase, CaptureAction))
    ensures
        r == capture_reading(running),
{
    if running {
        (WorkerPhase::Active, CaptureAction::Capture { wait_ms: POLL_INTERVAL_MS })
    } else {
        (WorkerPhase::Stopped, CaptureAction::PauseAndAnalyze)
    }
}

/// What the playback worker learns.
#[derive(Debug, Clone, Copy, PartialEq, Eq, Structural)]
pub enum PlaybackEvent {
    /// The worker began.
    Started,
    /// The output is open with the signal queued; the run state was read,
    /// and whether the signal has played out.
    Opened { running: bool, drained: bool },
    /// Opening the output device or its sink failed.
    Failed,
    /// A wait ended; the run state was read, and whether the signal has
    /// played out.
    Polled { running: bool, drained: bool },
}

/// What the playback worker does next.
#[derive(Debug, Clone, Copy, PartialEq, Eq, Structural)]
pub enum PlaybackAction {
    /// Open the output device and queue the signal on it.
    OpenSink,
    /// Let the signal play and wait this long.
    Play { wait_ms: u64 },
    /// Stop the output: the run state went false.
    StopSink,
    /// Stop the output and set the run state false: the signal has played
    /// out, which ends the session.
    StopSinkAndEnd,
    /// Tell the controller that the session failed.
    ReportFailure,
    /// The event does not apply in this phase.
    Ignore,
}

/// The playback worker's decision table.
pub open spec fn playback_transition(phase: WorkerPhase, event: PlaybackEvent) -> (
    WorkerPhase,
    PlaybackAction,
) {
    match (phase, event) {
        (WorkerPhase::Idle, PlaybackEvent::Started) => (WorkerPhase::Opening, PlaybackAction::OpenSink),
        (WorkerPhase::Opening, PlaybackEvent::Opened { running, drained })
        | (WorkerPhase::Active, PlaybackEvent::Polled { running, drained }) => if !running {
            (WorkerPhase::Stopped, PlaybackAction::StopSink)
        } else if drained {
            (WorkerPhase::Stopped, PlaybackAction::StopSinkAndEnd)
        } else {
            (WorkerPhase::Active, PlaybackAction::Play { wait_ms: POLL_INTERVAL_MS })
        },
        (WorkerPhase::Opening, PlaybackEvent::Failed)
        | (WorkerPhase::Active, PlaybackEvent::Failed) => (
            WorkerPhase::Stopped,
            PlaybackAction::ReportFailure,
        ),
        _ => (phase, PlaybackAction::Ignore),
    }
}

/// The decisions of the thread that plays the excitation signal.
#[derive(Debug, Clone, Copy, PartialEq, Eq, Structural)]
pub struct PlaybackWorker {
    pub phase: WorkerPhase,
}

impl PlaybackWorker {
    /// A worker that has not started.
    pub fn new() -> (r: Self)
        ensures
            r.phase == WorkerPhase::Idle,
    {
        PlaybackWorker { phase: WorkerPhase::Idle }
    }

    /// Takes in `event` and says what to do next.
    pub fn step(&mut self, event: PlaybackEvent) -> (r: PlaybackAction)
        ensures
            (final(self).phase, r) == playback_transition(old(self).phase, event),
    {
        let (phase, action) = match (self.phase, event) {
            (WorkerPhase::Idle, PlaybackEvent::Started) => (
                WorkerPhase::Opening,
                PlaybackAction::OpenSink,
            ),
            (WorkerPhase::Opening, PlaybackEvent::Opened { running, drained })
            | (WorkerPhase::Active, PlaybackEvent::Polled { running, drained }) => if !running {
                (WorkerPhase::Stopped, PlaybackAction::StopSink)
            } else if drained {
                (WorkerPhase::Stopped, PlaybackAction::StopSinkAndEnd)
            } else {
                (WorkerPhase::Active, PlaybackAction::Play { wait_ms: POLL_INTERVAL_MS })
            },
            (WorkerPhase::Opening, PlaybackEvent::Failed)
            | (WorkerPhase::Active, PlaybackEvent::Failed) => (
                WorkerPhase::Stopped,
                PlaybackAction::ReportFailure,
            ),
            _ => (self.phase, PlaybackAction::Ignore),
        };
        self.phase = phase;
        action
    }
}

/// Where the capture worker stands after a run of readings of the run
/// state taken from `phase`, one per wait, and how long it waited in all.
pub open spec fn capture_polls(
    policy: DeviceErrorPolicy,
    phase: WorkerPhase,
    readings: Seq<bool>,
) -> (WorkerPhase, int)
    decreases readings.len(),
{
    if readings.len() == 0 {
        (phase, 0)
    } else {
        let (next, action) = capture_transition(
            policy,
            phase,
            CaptureEvent::Polled { running: readings[0] },
        );
        let (last, waited) = capture_polls(policy, next, readings.drop_first());
        let wait = match action {
            CaptureAction::Capture { wait_ms } => wait_ms as int,
            _ => 0,
        };
        (last, waited + wait)
    }
}

/// Where the playback worker stands after a run of readings of the run
/// state taken from `phase`, the signal still playing, and how long it
/// waited in all.
pub open spec fn playback_polls(phase: WorkerPhase, readings: Seq<bool>) -> (WorkerPhase, int)
    decreases readings.len(),
{
    if readings.len() == 0 {
        (phase, 0)
    } else {
        let (next, action) = playback_transition(
            phase,
            PlaybackEvent::Polled { running: readings[0], drained: false },
        );
        let (last, waited) = playback_polls(next, readings.drop_first());
        let wait = match action {
            PlaybackAction::Play { wait_ms } => wait_ms as int,
            _ => 0,
        };
        (last, waited + wait)
    }
}

/// The readings up to `k` find the run state true, reading `k` false.
pub open spec fn first_false_at(readings: Seq<bool>, k: int) -> bool {
    &&& 0 <= k < readings.len()
    &&& !readings[k]
    &&& forall|j: int| 0 <= j < k ==> #[trigger] readings[j]
}

proof fn lemma_polls_stop_at(policy: DeviceErrorPolicy, readings: Seq<bool>, k: int)
    requires
        first_false_at(readings, k),
        readings.len() == k + 1,
    ensures
        capture_polls(policy, WorkerPhase::Active, readings) == (WorkerPhase::Stopped, k
            * POLL_INTERVAL_MS),
        playback_polls(WorkerPhase::Active, readings) == (WorkerPhase::Stopped, k
            * POLL_INTERVAL_MS),
    decreases k,
{
    let rest = readings.drop_first();
    if k == 0 {
        assert(rest.len() == 0);
        assert(capture_polls(policy, WorkerPhase::Stopped, rest) == (WorkerPhase::Stopped, 0int));
        assert(playback_polls(WorkerPhase::Stopped, rest) == (WorkerPhase::Stopped, 0int));
    } else {
        assert(readings[0]);
        assert forall|j: int| 0 <= j < k - 1 implies #[trigger] rest[j] by {
            assert(readings[j + 1]);
        }
        assert(!rest[k - 1]);
        lemma_polls_stop_at(policy, rest, k - 1);
        assert((k - 1) * POLL_INTERVAL_MS + POLL_INTERVAL_MS == k * POLL_INTERVAL_MS);
    }
}

/// Cancelling stops both workers within one polling interval. From the
/// active phase, over readings of the run state of which the first false
/// one is reading `k`, each worker stops at reading `k`, having waited
/// exactly one interval after each earlier reading: so a cancel that falls
/// between two readings takes effect at the next, at most
/// `POLL_INTERVAL_MS` later. On stopping, the capture worker pauses and
/// analyses, the playback worker stops its output; a stopped worker stays
/// stopped whatever comes.
pub proof fn lemma_cancel_stops_within_one_poll(
    policy: DeviceErrorPolicy,
    readings: Seq<bool>,
    k: int,
    capture_event: CaptureEvent,
    playback_event: PlaybackEvent,
)
    requires
        first_false_at(readings, k),
    ensures
        capture_polls(policy, WorkerPhase::Active, readings.take(k + 1)) == (
            WorkerPhase::Stopped,
            k * POLL_INTERVAL_MS,
        ),
        playback_polls(WorkerPhase::Active, readings.take(k + 1)) == (
            WorkerPhase::Stopped,
            k * POLL_INTERVAL_MS,
        ),
        capture_transition(policy, WorkerPhase::Active, CaptureEvent::Polled { running: false })
            == (
            WorkerPhase::Stopped,
            CaptureAction::PauseAndAnalyze,
        ),
        playback_transition(
            WorkerPhase::Active,
            PlaybackEvent::Polled { running: false, drained: false },
        ) == (WorkerPhase::Stopped, PlaybackAction::StopSink),
        capture_transition(policy, WorkerPhase::Stopped, capture_event).0 == WorkerPhase::Stopped,
        playback_transition(WorkerPhase::Stopped, playback_event).0 == WorkerPhase::Stopped,
{
    let prefix = readings.take(k + 1);
    assert forall|j: int| 0 <= j < k implies #[trigger] prefix[j] by {
        assert(readings[j]);
    }
    assert(!prefix[k]);
    lemma_polls_stop_at(policy, prefix, k);
}

/// The capture worker analyses and delivers a result at most once: only
/// on leaving an open phase for `Stopped`, which nothing leaves.
pub proof fn lemma_result_delivered_once(
    policy: DeviceErrorPolicy,
    phase: WorkerPhase,
    event: CaptureEvent,
)
    ensures
        capture_transition(policy, phase, event).1 == CaptureAction::PauseAndAnalyze ==> {
            &&& phase == WorkerPhase::Opening || phase == WorkerPhase::Active
            &&& capture_transition(policy, phase, event).0 == WorkerPhase::Stopped
        },
        capture_transition(policy, WorkerPhase::Stopped, event) == (
            WorkerPhase::Stopped,
            CaptureAction::Ignore,
        ),
{
}

/// Whether a measurement is under way, as the controller sees it.
#[derive(Debug, Clone, Copy, PartialEq, Eq, Structural)]
pub enum SessionPhase {
    Idle,
    Running,
}

/// What the controller learns.
#[derive(Debug, Clone, Copy, PartialEq, Eq, Structural)]
pub enum ControlEvent {
    /// A measurement was asked for; says whether a signal is loaded.
    StartRequested { has_signal: bool },
    /// Time passed: milliseconds since the measurement was launched.
    Tick { elapsed_ms: u64 },
    /// The user cancelled.
    StopRequested,
    /// A worker reported a failure, or the playback worker ended the run.
    WorkerDone,
}

/// What the controller does next.
#[derive(Debug, Clone, Copy, PartialEq, Eq, Structural)]
pub enum ControlAction {
    /// Set the run state true, restart the clock and start both workers.
    Launch,
    /// Tell the user that a signal must be chosen first.
    AskForSignal,
    /// Wait this long before the next tick.
    Wait { wait_ms: u64 },
    /// Set the run state false.
    End,
    /// Nothing to do.
    Nothing,
}

/// The controller's decision table. A running measurement ends once its
/// duration has elapsed, on a cancel, or when a worker is done; a
/// measurement is launched only from idle, so the workers are never
/// started twice for one run, and after an end a new one may start.
pub open spec fn control_transition(phase: SessionPhase, duration_ms: u64, event: ControlEvent) -> (
    SessionPhase,
    ControlAction,
) {
    match (phase, event) {
        (SessionPhase::Idle, ControlEvent::StartRequested { has_signal }) => if has_signal {
            (SessionPhase::Running, ControlAction::Launch)
        } else {
            (SessionPhase::Idle, ControlAction::AskForSignal)
        },
        (SessionPhase::Running, ControlEvent::Tick { elapsed_ms }) => if elapsed_ms >= duration_ms {
            (SessionPhase::Idle, ControlAction::End)
        } else if duration_ms - elapsed_ms < POLL_INTERVAL_MS {
            (SessionPhase::Running, ControlAction::Wait { wait_ms: (duration_ms - elapsed_ms) as u64 })
        } else {
            (SessionPhase::Running, ControlAction::Wait { wait_ms: POLL_INTERVAL_MS })
        },
        (SessionPhase::Running, ControlEvent::StopRequested)
        | (SessionPhase::Running, ControlEvent::WorkerDone) => (SessionPhase::Idle, ControlAction::End),
        _ => (phase, ControlAction::Nothing),
    }
}

/// The decisions of the thread that runs measurements of a fixed duration.
#[derive(Debug, Clone, Copy, PartialEq, Eq, Structural)]
pub struct SessionControl {
    pub phase: SessionPhase,
    pub duration_ms: u64,
}

impl SessionControl {
    /// An idle controller for measurements of `duration_ms` milliseconds.
    pub fn new(duration_ms: u64) -> (r: Self)
        ensures
            r.phase == SessionPhase::Idle,
            r.duration_ms == duration_ms,
    {
        SessionControl { phase: SessionPhase::Idle, duration_ms }
    }

    /// Takes in `event` and says what to do next.
    pub fn step(&mut self, event: ControlEvent) -> (r: ControlAction)
        ensures
            final(self).duration_ms == old(self).duration_ms,
            (final(self).phase, r) == control_transition(old(self).phase, old(self).duration_ms, event),
    {
        let (phase, action) = match (self.phase, event) {
            (SessionPhase::Idle, ControlEvent::StartRequested { has_signal }) => if has_signal {
                (SessionPhase::Running, ControlAction::Launch)
            } else {
                (SessionPhase::Idle, ControlAction::AskForSignal)
            },
            (SessionPhase::Running, ControlEvent::Tick { elapsed_ms }) => if elapsed_ms
                >= self.duration_ms {
                (SessionPhase::Idle, ControlAction::End)
            } else if self.duration_ms - elapsed_ms < POLL_INTERVAL_MS {
                (SessionPhase::Running, ControlAction::Wait { wait_ms: self.duration_ms - elapsed_ms })
            } else {
                (SessionPhase::Running, ControlAction::Wait { wait_ms: POLL_INTERVAL_MS })
            },
            (SessionPhase::Running, ControlEvent::StopRequested)
            | (SessionPhase::Running, ControlEvent::WorkerDone) => (
                SessionPhase::Idle,
                ControlAction::End,
            ),
            _ => (self.phase, ControlAction::Nothing),
        };
        self.phase = phase;
        action
    }
}

} // verus!
