//! The lifecycle core: one server task is spawned with ownership of the
//! listener, a one-shot stop event tells it to quit accepting and drain its
//! in-flight requests, and the caller joins it under a timeout.
//!
//! The runtime performs the spawning, the channel send, the accept loop and
//! the bounded await; this module is the model those pieces drive. Every
//! transition of the task — accepting a connection, observing the stop
//! event, finishing a request, failing in the transport — is an operation
//! here with an exact contract, and the lifecycle invariant is proved to be
//! preserved by each of them.

use vstd::prelude::*;
use vstd::string::StringExecFns;

verus! {

/// The bound, in seconds, the process entry point puts on shutdown before
/// it reports failure.
pub const ENTRY_SHUTDOWN_TIMEOUT_SECS: u64 = 10;

/// The bound, in seconds, the test harness puts on shutdown.
pub const HARNESS_SHUTDOWN_TIMEOUT_SECS: u64 = 5;

/// How long, in milliseconds, the test harness polls the health endpoint
/// before it reports the service not ready.
pub const READINESS_DEADLINE_MILLIS: u64 = 5000;

/// The pause, in milliseconds, between two readiness probes.
pub const READINESS_RETRY_MILLIS: u64 = 50;

/// The states of the server task.
#[derive(Debug, Clone, Copy, PartialEq, Eq, Structural)]
pub enum TaskPhase {
    /// Serving and taking new connections.
    Accepting,
    /// The stop event has been observed: no new connections, the accepted
    /// ones are served to completion.
    Draining,
    /// Terminal: the drain is over, or the transport failed.
    Stopped,
}

/// The process-level stop requests the entry point races; the first of
/// either triggers the one shutdown request.
#[derive(Debug, Clone, Copy, PartialEq, Eq, Structural)]
pub enum StopSignal {
    /// An OS termination request.
    Terminate,
    /// An interactive interrupt.
    Interrupt,
}

/// Why a shutdown request was not delivered.
#[derive(Debug, Clone, Copy, PartialEq, Eq, Structural)]
pub enum ShutdownSendError {
    /// The task already exited and dropped its receiver; there is nothing
    /// left to stop. Recoverable: the caller logs it and goes on.
    ChannelClosed,
}

/// A failure raised by the serve loop itself, below the application.
#[derive(Debug, Clone)]
pub struct TransportError {
    pub message: String,
}

/// What a bounded await of the server task's completion token produced.
#[derive(Debug)]
pub enum JoinEvent {
    /// The task finished within the bound, with its own outcome.
    Completed(Result<(), TransportError>),
    /// The bound elapsed first.
    TimedOut,
}

/// How a bounded await of the server task ended.
#[derive(Debug)]
pub enum AwaitError {
    /// The task did not finish within the bound. It is left to finish on
    /// its own — in-flight responses are never cut off by force.
    TimedOut,
    /// The task finished, but the serve loop had failed; the failure is
    /// propagated, not swallowed.
    Task(TransportError),
}

/// An accept-capable endpoint bound to a port. Whoever performed the bind
/// creates exactly one handle for it; the handle is deliberately neither
/// copyable nor clonable, and starting the server task consumes it, so the
/// endpoint is owned by one task and never shared.
#[derive(Debug, PartialEq, Eq, Structural)]
pub struct ListenerHandle {
    /// The port the endpoint is bound to.
    pub port: u16,
}

/// The lifecycle of one service instance, as its controller sees it: the
/// server task's phase, the in-flight requests, and what has happened to
/// the one-shot stop event. The controller owns the send half of the
/// signal channel and the task's completion token; the listener itself
/// moved into the task when it was spawned and is never shared.
#[derive(Debug, Clone, Copy, PartialEq, Eq, Structural)]
pub struct LifecycleController {
    /// The port of the listener the server task owns.
    pub port: u16,
    /// The server task's phase.
    pub phase: TaskPhase,
    /// Connections accepted and not yet answered.
    pub in_flight: u64,
    /// Whether the stop event has been sent.
    pub signal_sent: bool,
    /// Whether the server task has observed the stop event.
    pub signal_observed: bool,
    /// Whether the serve loop raised a transport error.
    pub transport_failed: bool,
}

impl LifecycleController {
    /// The lifecycle invariant: the stop event is observed only after it
    /// is sent and at most once per lifetime; draining means the event was
    /// observed with work still in flight; and a stopped task either
    /// drained completely or failed in the transport.
    pub open spec fn wf(self) -> bool {
        &&& self.signal_observed ==> self.signal_sent
        &&& self.phase is Accepting ==> !self.signal_observed && !self.transport_failed
        &&& self.phase is Draining ==> self.signal_observed && self.in_flight > 0
            && !self.transport_failed
        &&& self.phase is Stopped ==> self.transport_failed || (self.signal_observed
            && self.in_flight == 0)
    }

    /// New connections are taken only while accepting.
    pub open spec fn can_accept(self) -> bool {
        self.phase is Accepting
    }

    /// The task has exited: its completion token has resolved and the
    /// receive half of the signal channel is gone.
    pub open spec fn is_stopped(self) -> bool {
        self.phase is Stopped
    }

    /// A freshly spawned server task: accepting on the given port,
    /// nothing sent or observed.
    pub open spec fn spec_start(port: u16) -> LifecycleController {
        LifecycleController {
            port: port,
            phase: TaskPhase::Accepting,
            in_flight: 0,
            signal_sent: false,
            signal_observed: false,
            transport_failed: false,
        }
    }

    /// Taking a connection adds one in-flight request.
    pub open spec fn spec_accept(self) -> LifecycleController {
        LifecycleController { in_flight: (self.in_flight + 1) as u64, ..self }
    }

    /// Sending the stop event: while the task runs the send succeeds — a
    /// broadcast needs no rendezvous, and a repeated send is redundant but
    /// not an error. After the task has exited the channel is closed.
    pub open spec fn spec_request_shutdown(self) -> (LifecycleController, Result<
        (),
        ShutdownSendError,
    >) {
        if self.phase is Stopped {
            (self, Err(ShutdownSendError::ChannelClosed))
        } else {
            (LifecycleController { signal_sent: true, ..self }, Ok(()))
        }
    }

    /// Observing the stop event ends accepting at once: with work still in
    /// flight the task drains, otherwise it stops immediately.
    pub open spec fn spec_observe_shutdown(self) -> LifecycleController {
        LifecycleController {
            phase: if self.in_flight == 0 {
                TaskPhase::Stopped
            } else {
                TaskPhase::Draining
            },
            signal_observed: true,
            ..self
        }
    }

    /// One in-flight request finished; the last one to finish while
    /// draining ends the drain.
    pub open spec fn spec_complete_request(self) -> LifecycleController {
        LifecycleController {
            phase: if self.phase is Draining && self.in_flight == 1 {
                TaskPhase::Stopped
            } else {
                self.phase
            },
            in_flight: (self.in_flight - 1) as u64,
            ..self
        }
    }

    /// The serve loop raised a transport error: the task stops with it.
    pub open spec fn spec_fail_transport(self) -> LifecycleController {
        LifecycleController { phase: TaskPhase::Stopped, transport_failed: true, ..self }
    }

    /// Spawning the server task moves the listener into it — the caller
    /// keeps no access to the endpoint — and returns the controller: the
    /// completion token and the sender. It does not block.
    pub fn start(listener: ListenerHandle) -> (c: Self)
        ensures
            c == Self::spec_start(listener.port),
            c.wf(),
    {
        LifecycleController {
            port: listener.port,
            phase: TaskPhase::Accepting,
            in_flight: 0,
            signal_sent: false,
            signal_observed: false,
            transport_failed: false,
        }
    }

    /// The accept loop took a new connection.
    pub fn accept_connection(&mut self)
        requires
            old(self).wf(),
            old(self).can_accept(),
            old(self).in_flight < u64::MAX,
        ensures
            *final(self) == old(self).spec_accept(),
            final(self).wf(),
    {
        self.in_flight = self.in_flight + 1;
    }

    /// Requests shutdown by sending the one-shot stop event. While the
    /// task still runs this always succeeds; once the task has exited it
    /// reports the recoverable channel-closed error and changes nothing.
    pub fn request_shutdown(&mut self) -> (r: Result<(), ShutdownSendError>)
        requires
            old(self).wf(),
        ensures
            *final(self) == old(self).spec_request_shutdown().0,
            r == old(self).spec_request_shutdown().1,
            final(self).wf(),
            !old(self).is_stopped() ==> r is Ok,
            old(self).is_stopped() ==> r == Err::<(), ShutdownSendError>(
                ShutdownSendError::ChannelClosed,
            ),
    {
        match self.phase {
            TaskPhase::Stopped => Err(ShutdownSendError::ChannelClosed),
            _ => {
                self.signal_sent = true;
                Ok(())
            },
        }
    }

    /// The server task observes the stop event — at its next suspension
    /// point, interrupting a blocked accept — and never re-enters the
    /// accept loop.
    pub fn observe_shutdown(&mut self)
        requires
            old(self).wf(),
            old(self).signal_sent,
            old(self).can_accept(),
        ensures
            *final(self) == old(self).spec_observe_shutdown(),
            final(self).wf(),
            !final(self).can_accept(),
    {
        self.signal_observed = true;
        self.phase = if self.in_flight == 0 {
            TaskPhase::Stopped
        } else {
            TaskPhase::Draining
        };
    }

    /// One in-flight request was answered.
    pub fn complete_request(&mut self)
        requires
            old(self).wf(),
            old(self).in_flight > 0,
            !old(self).is_stopped(),
        ensures
            *final(self) == old(self).spec_complete_request(),
            final(self).wf(),
    {
        self.phase = if matches!(self.phase, TaskPhase::Draining) && self.in_flight == 1 {
            TaskPhase::Stopped
        } else {
            self.phase
        };
        self.in_flight = self.in_flight - 1;
    }

    /// The serve loop itself failed: the task stops and its completion
    /// token resolves with the propagated error.
    pub fn fail_transport(&mut self)
        requires
            old(self).wf(),
            !old(self).is_stopped(),
        ensures
            *final(self) == old(self).spec_fail_transport(),
            final(self).wf(),
    {
        self.phase = TaskPhase::Stopped;
        self.transport_failed = true;
    }
}

/// Resolves a bounded await of the completion token, as the entry point
/// and the test harness both do after requesting shutdown: a clean finish
/// is a success, a transport failure is propagated, and an await that
/// outlived its bound reports the timeout — the task is leaked to finish
/// on its own rather than force-killed.
pub fn resolve_join(ev: JoinEvent) -> (r: Result<(), AwaitError>)
    ensures
        match ev {
            JoinEvent::Completed(outcome) => match outcome {
                Ok(()) => r is Ok,
                Err(e) => r matches Err(AwaitError::Task(t)) && t == e,
            },
            JoinEvent::TimedOut => r matches Err(AwaitError::TimedOut),
        },
{
    match ev {
        JoinEvent::Completed(Ok(())) => Ok(()),
        JoinEvent::Completed(Err(e)) => Err(AwaitError::Task(e)),
        JoinEvent::TimedOut => Err(AwaitError::TimedOut),
    }
}

/// The status the process exits with: zero exactly on a clean, in-bound
/// shutdown; a timeout or a propagated task failure is surfaced as a
/// nonzero exit.
pub fn exit_code(outcome: &Result<(), AwaitError>) -> (code: i32)
    ensures
        code == (if outcome is Ok {
            0int
        } else {
            1int
        }),
{
    match outcome {
        Ok(()) => 0,
        Err(_) => 1,
    }
}

/// The line the entry point logs for the stop request that won the race
/// of the two sources; either way the next step is the one shutdown
/// request, and the losing source is simply abandoned.
pub fn stop_signal_description(sig: &StopSignal) -> (d: String)
    ensures
        d@ == match sig {
            StopSignal::Terminate => "Termination signal received, shutting down service."@,
            StopSignal::Interrupt => "Ctrl-C signal received, shutting down service."@,
        },
{
    match sig {
        StopSignal::Terminate => String::from_str(
            "Termination signal received, shutting down service.",
        ),
        StopSignal::Interrupt => String::from_str(
            "Ctrl-C signal received, shutting down service.",
        ),
    }
}

/// One step of the harness's readiness poll.
#[derive(Debug, Clone, Copy, PartialEq, Eq, Structural)]
pub enum ProbeStep {
    /// The deadline passed: the service is reported not ready.
    Expired,
    /// The health endpoint answered successfully: the service is ready.
    Ready,
    /// No successful answer yet: probe again after the retry pause.
    Retry,
}

/// What a poll step decides from the clock and the latest health answer.
/// The deadline is checked before the probe, so an answer that arrives
/// late never makes the harness ready.
pub open spec fn spec_readiness_step(now_ms: u64, deadline_ms: u64, health_ok: bool) -> ProbeStep {
    if now_ms >= deadline_ms {
        ProbeStep::Expired
    } else if health_ok {
        ProbeStep::Ready
    } else {
        ProbeStep::Retry
    }
}

/// One step of the readiness poll the harness runs between binding the
/// listener and handing out the service: it gives up at the deadline, is
/// ready on a successful health answer, and retries otherwise.
pub fn readiness_step(now_ms: u64, deadline_ms: u64, health_ok: bool) -> (step: ProbeStep)
    ensures
        step == spec_readiness_step(now_ms, deadline_ms, health_ok),
{
    if now_ms >= deadline_ms {
        ProbeStep::Expired
    } else if health_ok {
        ProbeStep::Ready
    } else {
        ProbeStep::Retry
    }
}

/// Draining for `k` steps: `k` in-flight requests finish one after the
/// other.
pub open spec fn spec_drain(c: LifecycleController, k: nat) -> LifecycleController
    decreases k,
{
    if k == 0 {
        c
    } else {
        spec_drain(c.spec_complete_request(), (k - 1) as nat)
    }
}

/// While the server task still runs, a shutdown request always succeeds,
/// and a repeated request succeeds as well: the send half stays usable,
/// the task's phase is untouched by the send, and only the first event
/// carries meaning.
pub proof fn lemma_shutdown_request_idempotent_while_running(c: LifecycleController)
    requires
        c.wf(),
        !c.is_stopped(),
    ensures
        c.spec_request_shutdown().1 is Ok,
        c.spec_request_shutdown().0.phase == c.phase,
        c.spec_request_shutdown().0.spec_request_shutdown().1 is Ok,
        c.spec_request_shutdown().0.spec_request_shutdown().0 == c.spec_request_shutdown().0,
{
}

/// Requesting shutdown after the task has exited neither panics nor
/// hangs: the state is unchanged and the caller gets the recoverable
/// channel-closed error — a second shutdown of an already stopped
/// service is a reported no-op.
pub proof fn lemma_shutdown_request_after_stop_is_recoverable(c: LifecycleController)
    requires
        c.wf(),
        c.is_stopped(),
    ensures
        c.spec_request_shutdown().0 == c,
        c.spec_request_shutdown().1 == Err::<(), ShutdownSendError>(
            ShutdownSendError::ChannelClosed,
        ),
{
}

/// Once the stop event has been observed — in particular after a
/// successful shutdown, when the task has stopped — the accept loop is
/// never re-entered: the state does not accept, and no lifecycle step
/// leads it back to accepting.
pub proof fn lemma_no_accept_after_shutdown(c: LifecycleController)
    requires
        c.wf(),
        c.signal_observed,
    ensures
        !c.can_accept(),
        !c.spec_request_shutdown().0.can_accept(),
        c.spec_request_shutdown().0.signal_observed,
        !c.is_stopped() ==> !c.spec_complete_request().can_accept()
            && c.spec_complete_request().signal_observed,
        !c.is_stopped() ==> !c.spec_fail_transport().can_accept()
            && c.spec_fail_transport().signal_observed,
{
}

/// Once the stop event is observed, the drain terminates: after exactly
/// the requests already in flight have finished, the task is stopped, so
/// a bounded await of the completion token resolves rather than waiting
/// on unbounded work. Only the already-accepted requests stand between
/// the stop event and the stop; the wall-clock bound on each of them is
/// the runtime's business.
pub proof fn lemma_drain_terminates(c: LifecycleController)
    requires
        c.wf(),
        c.signal_observed,
        !c.transport_failed,
    ensures
        spec_drain(c, c.in_flight as nat).is_stopped(),
        spec_drain(c, c.in_flight as nat).wf(),
    decreases c.in_flight,
{
    if c.in_flight == 0 {
        assert(!(c.phase is Accepting));
        assert(!(c.phase is Draining));
    } else {
        let c1 = c.spec_complete_request();
        lemma_drain_terminates(c1);
        assert(spec_drain(c, c.in_flight as nat) == spec_drain(c1, c1.in_flight as nat));
    }
}

/// A started service is ready for the harness at once: the fresh task
/// accepts connections, the health endpoint of a running service always
/// answers healthy, and so any readiness probe made before the deadline
/// reports ready. Readiness does not depend on the configured greeting
/// name, so this holds for every configuration the service starts with.
pub proof fn lemma_started_service_reports_ready(port: u16, now_ms: u64, deadline_ms: u64)
    requires
        now_ms < deadline_ms,
    ensures
        LifecycleController::spec_start(port).wf(),
        LifecycleController::spec_start(port).can_accept(),
        spec_readiness_step(now_ms, deadline_ms, true) == ProbeStep::Ready,
{
}

/// Requesting shutdown of a running service resolves: the send succeeds,
/// the task leaves the accept loop when it observes the event, and after
/// exactly the requests already in flight have finished it is stopped —
/// so the bounded await that follows the request waits on finite work,
/// never on the accept loop.
pub proof fn lemma_graceful_shutdown_resolves(c: LifecycleController)
    requires
        c.wf(),
        c.can_accept(),
    ensures
        ({
            let sent = c.spec_request_shutdown().0;
            let observed = sent.spec_observe_shutdown();
            &&& c.spec_request_shutdown().1 is Ok
            &&& !observed.can_accept()
            &&& spec_drain(observed, observed.in_flight as nat).is_stopped()
        }),
{
    let sent = c.spec_request_shutdown().0;
    let observed = sent.spec_observe_shutdown();
    assert(observed.wf());
    lemma_drain_terminates(observed);
}

} // verus!
