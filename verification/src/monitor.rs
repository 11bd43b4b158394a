//! The lifecycle monitor: it consumes the graph's event stream in order,
//! classifies each event, and decides when the graph must be halted and
//! when watching must cease.

use vstd::prelude::*;
use crate::errors::AttachmentError;
use crate::graph::RunState;
use crate::media::MediaKind;

verus! {

/// The monitor's own state machine. `Stopping` is occupied only while a
/// fatal error is being handled; between events the monitor is either
/// `Running` or terminally `Stopped`.
#[derive(Clone, Copy, Debug, PartialEq, Eq, Structural)]
pub enum MonitorState {
    Running,
    Stopping,
    Stopped,
}

/// An event produced by the graph's event source, consumed at most once.
#[derive(Clone, Debug)]
pub enum LifecycleEvent {
    /// Informational: some node changed execution state.
    StateChanged { prev: RunState, current: RunState, pending: Option<RunState> },
    /// Informational: a recoverable warning.
    Warning { message: String },
    /// Fatal: the graph must be halted and monitoring must cease.
    Error { source: String, message: String, detail: Option<String> },
    /// Graceful completion: monitoring ceases without forcing a state.
    EndOfStream,
}

/// An entry of the observability log: what the monitor and the discovery
/// handler surface to the outside.
#[derive(Clone, Debug)]
pub enum Observation {
    /// A state transition was reported, with old, new, and pending state.
    StateChange { prev: RunState, current: RunState, pending: Option<RunState> },
    /// A recoverable warning was reported.
    WarningNote { message: String },
    /// A fatal error with its originating node, message, and nested detail.
    FatalError { source: String, message: String, detail: Option<String> },
    /// A discovered stream carried no negotiated type label.
    IndeterminateStream,
    /// Attaching a sink for a discovered stream failed; that kind's
    /// registry slot stays empty.
    AttachFailure { kind: MediaKind, error: AttachmentError },
}

/// The monitor state after consuming one event: a fatal error or the end
/// of the stream is terminal; everything else is informational. A stopped
/// monitor consumes nothing further.
pub open spec fn monitor_next(m: MonitorState, ev: LifecycleEvent) -> MonitorState {
    if m is Stopped {
        MonitorState::Stopped
    } else {
        match ev {
            LifecycleEvent::Error { .. } => MonitorState::Stopped,
            LifecycleEvent::EndOfStream => MonitorState::Stopped,
            _ => m,
        }
    }
}

/// Whether consuming `ev` in state `m` forces the graph's execution state
/// to its halted value: exactly a fatal error reaching a not-yet-stopped
/// monitor.
pub open spec fn event_forces_halt(m: MonitorState, ev: LifecycleEvent) -> bool {
    !(m is Stopped) && ev is Error
}

/// Whether the monitor keeps watching after consuming `ev` in state `m`.
pub open spec fn event_continues(m: MonitorState, ev: LifecycleEvent) -> bool {
    !(m is Stopped) && !(ev is Error) && !(ev is EndOfStream)
}

/// The executable monitor.
pub struct LifecycleMonitor {
    state: MonitorState,
}

impl View for LifecycleMonitor {
    type V = MonitorState;

    closed spec fn view(&self) -> MonitorState {
        self.state
    }
}

/// What the monitor asks its driver to do after one event.
#[derive(Clone, Copy, Debug, PartialEq, Eq, Structural)]
pub struct MonitorDirective {
    /// Force the graph's execution state to its halted value.
    pub force_halt: bool,
    /// Keep consuming events; once false, no further event is processed.
    pub keep_watching: bool,
}

impl LifecycleMonitor {
    /// A monitor in its initial `Running` state, entered when the graph is
    /// first set to its active execution state.
    pub fn new() -> (m: LifecycleMonitor)
        ensures
            m@ == MonitorState::Running,
    {
        LifecycleMonitor { state: MonitorState::Running }
    }

    /// The monitor's current state.
    pub fn current(&self) -> (s: MonitorState)
        ensures
            s == self@,
    {
        self.state
    }

    /// Consume one event: informational events leave the state alone, a
    /// fatal error passes through `Stopping` to `Stopped` and demands a
    /// halt, the end of the stream stops the monitor gracefully.
    pub fn observe(&mut self, ev: &LifecycleEvent) -> (d: MonitorDirective)
        ensures
            final(self)@ == monitor_next(old(self)@, *ev),
            d.force_halt == event_forces_halt(old(self)@, *ev),
            d.keep_watching == event_continues(old(self)@, *ev),
    {
        match self.state {
            MonitorState::Stopped => MonitorDirective { force_halt: false, keep_watching: false },
            _ => match ev {
                LifecycleEvent::Error { .. } => {
                    self.state = MonitorState::Stopping;
                    self.state = MonitorState::Stopped;
                    MonitorDirective { force_halt: true, keep_watching: false }
                },
                LifecycleEvent::EndOfStream => {
                    self.state = MonitorState::Stopped;
                    MonitorDirective { force_halt: false, keep_watching: false }
                },
                _ => MonitorDirective { force_halt: false, keep_watching: true },
            },
        }
    }
}

} // verus!
