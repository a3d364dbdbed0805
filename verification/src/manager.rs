//! Lifecycle of the external collaborator process.
//!
//! The process itself is spawned, polled and killed outside the
//! library; every decision along the way — when to keep waiting, when
//! startup has failed, which shutdown steps to take — is made here,
//! from plain values, and is verified. The lifecycle walks
//! `NotStarted → Starting → Healthy → ShuttingDown → Stopped`, with a
//! terminal `Failed` reachable only from `Starting`.

use vstd::prelude::*;
use crate::error::UniqError;
use crate::text::{dec_string, spec_dec};

verus! {

/// How long to wait for the collaborator to report healthy, in seconds.
pub const STARTUP_TIMEOUT_SECS: u64 = 60;

/// How long between health check polls during startup, in milliseconds.
pub const HEALTH_POLL_INTERVAL_MS: u64 = 250;

/// Where the process stands in its life.
#[derive(Debug, Clone, Copy, PartialEq, Eq, Structural)]
pub enum LifecycleState {
    /// No process has been spawned.
    NotStarted,
    /// Spawned; polling the health endpoint.
    Starting,
    /// The health endpoint answered with success.
    Healthy,
    /// A shutdown sequence is under way.
    ShuttingDown,
    /// Shut down; no process remains.
    Stopped,
    /// Startup missed its deadline. Terminal, reachable only from
    /// `Starting`.
    Failed,
}

impl LifecycleState {
    /// A live process exists from spawn until shutdown finishes.
    pub open spec fn is_live(self) -> bool {
        self is Starting || self is Healthy || self is ShuttingDown
    }
}

/// What one poll of the health endpoint observed.
#[derive(Debug, Clone, Copy, PartialEq, Eq, Structural)]
pub enum HealthPoll {
    /// A response with a success status: the collaborator is ready.
    Success,
    /// A response with a non-success status: listening but not ready.
    NotReady,
    /// No connection: not listening yet.
    ConnectionRefused,
}

/// What the startup loop does after one poll.
#[derive(Debug, Clone, Copy, PartialEq, Eq, Structural)]
pub enum PollDecision {
    /// The collaborator is healthy; startup is done.
    Ready,
    /// Keep waiting and poll again after the poll interval.
    KeepWaiting,
    /// The deadline passed without success; startup failed.
    FailTimeout,
}

/// The decision the startup loop takes at time `now_ms`, given what the
/// poll observed: past the deadline it fails, whatever was observed; a
/// success response within the deadline means ready; anything else —
/// not ready or not listening — means keep waiting.
pub open spec fn spec_poll_decision(
    now_ms: u64,
    deadline_ms: u64,
    observed: HealthPoll,
) -> PollDecision {
    if now_ms > deadline_ms {
        PollDecision::FailTimeout
    } else if observed is Success {
        PollDecision::Ready
    } else {
        PollDecision::KeepWaiting
    }
}

/// Decide one step of the startup health poll.
pub fn poll_decision(now_ms: u64, deadline_ms: u64, observed: HealthPoll) -> (r: PollDecision)
    ensures
        r == spec_poll_decision(now_ms, deadline_ms, observed),
        r is FailTimeout <==> now_ms > deadline_ms,
        r is Ready <==> now_ms <= deadline_ms && observed is Success,
{
    if now_ms > deadline_ms {
        PollDecision::FailTimeout
    } else {
        match observed {
            HealthPoll::Success => PollDecision::Ready,
            HealthPoll::NotReady => PollDecision::KeepWaiting,
            HealthPoll::ConnectionRefused => PollDecision::KeepWaiting,
        }
    }
}

/// A step of the shutdown sequence, as performed on the process.
#[derive(Debug, Clone, Copy, PartialEq, Eq, Structural)]
pub enum ShutdownStep {
    /// POST the graceful shutdown request.
    GracefulRequest,
    /// Wait out the grace delay.
    GraceDelay,
    /// Check whether the process already exited.
    StatusCheck,
    /// Kill the process.
    ForceKill,
}

/// Where the shutdown sequence stands.
#[derive(Debug, Clone, Copy, PartialEq, Eq, Structural)]
pub enum ShutdownStage {
    /// Next: issue the graceful request.
    SendGraceful,
    /// Next: wait out the grace delay.
    AwaitGrace,
    /// Next: check the process status.
    CheckStatus,
    /// Next: kill the process if it is still alive.
    Decide,
    /// Nothing left to do.
    Done,
}

/// The next stage and the step to perform now. `graceful_ok` is the
/// outcome of the graceful request so far and `still_alive` the outcome
/// of the status check; the sequence walks all of request, delay and
/// status check whatever those outcomes are — a failed graceful request
/// skips nothing — and kills only a process the check found alive.
pub open spec fn spec_shutdown_step(
    stage: ShutdownStage,
    graceful_ok: bool,
    still_alive: bool,
) -> (ShutdownStage, Option<ShutdownStep>) {
    match stage {
        ShutdownStage::SendGraceful => (ShutdownStage::AwaitGrace, Some(
            ShutdownStep::GracefulRequest,
        )),
        ShutdownStage::AwaitGrace => (ShutdownStage::CheckStatus, Some(ShutdownStep::GraceDelay)),
        ShutdownStage::CheckStatus => (ShutdownStage::Decide, Some(ShutdownStep::StatusCheck)),
        ShutdownStage::Decide => (
            ShutdownStage::Done,
            if still_alive {
                Some(ShutdownStep::ForceKill)
            } else {
                None
            },
        ),
        ShutdownStage::Done => (ShutdownStage::Done, None),
    }
}

/// Advance the shutdown sequence by one stage.
pub fn shutdown_step(stage: ShutdownStage, graceful_ok: bool, still_alive: bool) -> (r: (
    ShutdownStage,
    Option<ShutdownStep>,
))
    ensures
        r == spec_shutdown_step(stage, graceful_ok, still_alive),
{
    match stage {
        ShutdownStage::SendGraceful => (ShutdownStage::AwaitGrace, Some(
            ShutdownStep::GracefulRequest,
        )),
        ShutdownStage::AwaitGrace => (ShutdownStage::CheckStatus, Some(ShutdownStep::GraceDelay)),
        ShutdownStage::CheckStatus => (ShutdownStage::Decide, Some(ShutdownStep::StatusCheck)),
        ShutdownStage::Decide => (
            ShutdownStage::Done,
            if still_alive {
                Some(ShutdownStep::ForceKill)
            } else {
                None
            },
        ),
        ShutdownStage::Done => (ShutdownStage::Done, None),
    }
}

/// The steps a whole shutdown performs, in order, given the outcomes.
pub open spec fn spec_shutdown_trace(graceful_ok: bool, still_alive: bool) -> Seq<ShutdownStep> {
    let s1 = spec_shutdown_step(ShutdownStage::SendGraceful, graceful_ok, still_alive);
    let s2 = spec_shutdown_step(s1.0, graceful_ok, still_alive);
    let s3 = spec_shutdown_step(s2.0, graceful_ok, still_alive);
    let s4 = spec_shutdown_step(s3.0, graceful_ok, still_alive);
    if still_alive {
        seq![s1.1.unwrap(), s2.1.unwrap(), s3.1.unwrap(), s4.1.unwrap()]
    } else {
        seq![s1.1.unwrap(), s2.1.unwrap(), s3.1.unwrap()]
    }
}

/// Shutdown always issues the graceful request, the grace delay, and
/// the status check, in that order, whatever the graceful request's
/// outcome; it force-kills exactly when the status check found the
/// process still alive.
pub proof fn lemma_shutdown_always_walks_all_steps(graceful_ok: bool, still_alive: bool)
    ensures
        spec_shutdown_trace(graceful_ok, still_alive)[0] == ShutdownStep::GracefulRequest,
        spec_shutdown_trace(graceful_ok, still_alive)[1] == ShutdownStep::GraceDelay,
        spec_shutdown_trace(graceful_ok, still_alive)[2] == ShutdownStep::StatusCheck,
        spec_shutdown_trace(graceful_ok, still_alive).len() == if still_alive {
            4int
        } else {
            3int
        },
        still_alive ==> spec_shutdown_trace(graceful_ok, still_alive)[3]
            == ShutdownStep::ForceKill,
{
}

/// The base address of a collaborator listening on `port`.
pub open spec fn spec_base_url(port: u16) -> Seq<char> {
    "http://127.0.0.1:"@ + spec_dec(port as int)
}

/// Owns the lifecycle of the collaborator process. The process handle
/// itself lives with the runtime; this records the state and port that
/// every decision is made from.
#[derive(Debug, PartialEq, Eq)]
pub struct SidecarManager {
    /// Where the process stands.
    pub state: LifecycleState,
    /// The port the process was bound to; 0 before any start.
    pub port: u16,
}

impl SidecarManager {
    /// Create a new manager. Does not start the collaborator yet.
    pub fn new() -> (r: Self)
        ensures
            r.state is NotStarted,
            r.port == 0,
    {
        SidecarManager { state: LifecycleState::NotStarted, port: 0 }
    }

    /// Get the port the collaborator is running on.
    pub fn port(&self) -> (r: u16)
        ensures
            r == self.port,
    {
        self.port
    }

    /// Get the base URL for the collaborator API.
    pub fn base_url(&self) -> (r: String)
        ensures
            r@ == spec_base_url(self.port),
    {
        let mut r = "http://127.0.0.1:".to_owned();
        let num = dec_string(self.port as u64);
        r.append(num.as_str());
        r
    }

    /// Whether a live collaborator process exists.
    pub fn is_running(&self) -> (r: bool)
        ensures
            r == self.state.is_live(),
    {
        match self.state {
            LifecycleState::Starting => true,
            LifecycleState::Healthy => true,
            LifecycleState::ShuttingDown => true,
            _ => false,
        }
    }

    /// Accept a freshly allocated port and move to `Starting`. Fails
    /// immediately — no silent no-op — when a live process already
    /// exists.
    pub fn begin_start(&mut self, port: u16) -> (r: Result<(), UniqError>)
        ensures
            old(self).state.is_live() ==> r is Err && *final(self) == *old(self),
            !old(self).state.is_live() ==> r is Ok && final(self).state is Starting
                && final(self).port == port,
            r is Err ==> (r->Err_0).deep_view() == crate::error::UniqErrorView::Sidecar(
                "Sidecar is already running"@,
            ),
    {
        if self.is_running() {
            Err(UniqError::Sidecar("Sidecar is already running".to_owned()))
        } else {
            self.state = LifecycleState::Starting;
            self.port = port;
            Ok(())
        }
    }

    /// Absorb one health poll while starting: on `Ready` the process is
    /// `Healthy`, on `FailTimeout` it is `Failed`, otherwise it keeps
    /// `Starting`.
    pub fn absorb_poll(&mut self, now_ms: u64, deadline_ms: u64, observed: HealthPoll) -> (r:
        PollDecision)
        requires
            old(self).state is Starting,
        ensures
            r == spec_poll_decision(now_ms, deadline_ms, observed),
            final(self).port == old(self).port,
            r is Ready ==> final(self).state is Healthy,
            r is FailTimeout ==> final(self).state is Failed,
            r is KeepWaiting ==> final(self).state is Starting,
    {
        let d = poll_decision(now_ms, deadline_ms, observed);
        match d {
            PollDecision::Ready => {
                self.state = LifecycleState::Healthy;
            },
            PollDecision::FailTimeout => {
                self.state = LifecycleState::Failed;
            },
            PollDecision::KeepWaiting => {},
        }
        d
    }

    /// Note that a shutdown sequence begins. The sequence itself is
    /// driven step by step through `shutdown_step`.
    pub fn begin_shutdown(&mut self)
        ensures
            old(self).state.is_live() ==> final(self).state is ShuttingDown,
            !old(self).state.is_live() ==> *final(self) == *old(self),
            final(self).port == old(self).port,
    {
        if self.is_running() {
            self.state = LifecycleState::ShuttingDown;
        }
    }

    /// Note that the shutdown sequence finished: no process remains.
    pub fn finish_shutdown(&mut self)
        requires
            old(self).state is ShuttingDown,
        ensures
            final(self).state is Stopped,
            final(self).port == old(self).port,
    {
        self.state = LifecycleState::Stopped;
    }
}

/// A run of the startup poll loop over a schedule of observations:
/// polling starts at time `now_ms` and repeats every `interval_ms`;
/// `sched[k]` says whether the poll `k` steps from now would observe
/// success. Returns whether the collaborator came up, and the time of
/// the decisive poll.
pub open spec fn spec_run_startup(
    sched: Seq<bool>,
    now_ms: int,
    interval_ms: int,
    deadline_ms: int,
) -> (bool, int)
    decreases sched.len(),
{
    if now_ms > deadline_ms {
        (false, now_ms)
    } else if sched.len() == 0 {
        (false, now_ms)
    } else if sched.first() {
        (true, now_ms)
    } else {
        spec_run_startup(sched.drop_first(), now_ms + interval_ms, interval_ms, deadline_ms)
    }
}

/// Each step of the startup run takes exactly the decision
/// `spec_poll_decision` takes at that poll's time: fail past the
/// deadline, ready on a success response, keep polling otherwise.
pub proof fn lemma_startup_step_is_poll_decision(
    sched: Seq<bool>,
    now_ms: u64,
    interval_ms: int,
    deadline_ms: u64,
    observed: HealthPoll,
)
    requires
        sched.len() > 0,
        sched.first() == (observed is Success),
    ensures
        spec_poll_decision(now_ms, deadline_ms, observed) is FailTimeout ==> spec_run_startup(
            sched,
            now_ms as int,
            interval_ms,
            deadline_ms as int,
        ) == (false, now_ms as int),
        spec_poll_decision(now_ms, deadline_ms, observed) is Ready ==> spec_run_startup(
            sched,
            now_ms as int,
            interval_ms,
            deadline_ms as int,
        ) == (true, now_ms as int),
        spec_poll_decision(now_ms, deadline_ms, observed) is KeepWaiting ==> spec_run_startup(
            sched,
            now_ms as int,
            interval_ms,
            deadline_ms as int,
        ) == spec_run_startup(
            sched.drop_first(),
            now_ms + interval_ms,
            interval_ms,
            deadline_ms as int,
        ),
{
}

/// Startup succeeds exactly when the collaborator first reports healthy
/// within the deadline: if the first success in the schedule is at step
/// `s` and its poll time is within the deadline, the loop reaches
/// `Ready` at that poll — time `s` intervals after the start.
pub proof fn lemma_startup_succeeds_at_first_healthy(
    sched: Seq<bool>,
    now_ms: int,
    interval_ms: int,
    deadline_ms: int,
    s: int,
)
    requires
        0 <= s < sched.len(),
        sched[s],
        forall|j: int| 0 <= j < s ==> !sched[j],
        interval_ms >= 0,
        now_ms + s * interval_ms <= deadline_ms,
    ensures
        spec_run_startup(sched, now_ms, interval_ms, deadline_ms) == (
            true,
            now_ms + s * interval_ms,
        ),
    decreases s,
{
    if s == 0 {
        assert(now_ms + 0 * interval_ms == now_ms) by (nonlinear_arith);
        assert(now_ms <= deadline_ms);
    } else {
        assert(!sched.first());
        assert(now_ms <= deadline_ms) by {
            assert(s * interval_ms >= 0) by (nonlinear_arith)
                requires
                    s >= 0,
                    interval_ms >= 0,
            ;
        }
        let rest = sched.drop_first();
        assert(rest[s - 1]);
        assert forall|j: int| 0 <= j < s - 1 implies !rest[j] by {
            assert(rest[j] == sched[j + 1]);
        }
        assert((now_ms + interval_ms) + (s - 1) * interval_ms == now_ms + s * interval_ms)
            by (nonlinear_arith);
        lemma_startup_succeeds_at_first_healthy(
            rest,
            now_ms + interval_ms,
            interval_ms,
            deadline_ms,
            s - 1,
        );
    }
}

/// Startup that never sees a healthy response fails at the deadline:
/// at the first poll past it — not earlier, and at most one poll
/// interval later.
pub proof fn lemma_startup_times_out_at_deadline(
    sched: Seq<bool>,
    now_ms: int,
    interval_ms: int,
    deadline_ms: int,
)
    requires
        forall|j: int| 0 <= j < sched.len() ==> !sched[j],
        interval_ms > 0,
        now_ms <= deadline_ms + interval_ms,
        now_ms + sched.len() * interval_ms > deadline_ms,
    ensures
        !spec_run_startup(sched, now_ms, interval_ms, deadline_ms).0,
        spec_run_startup(sched, now_ms, interval_ms, deadline_ms).1 > deadline_ms,
        spec_run_startup(sched, now_ms, interval_ms, deadline_ms).1 <= deadline_ms + interval_ms,
    decreases sched.len(),
{
    if now_ms > deadline_ms {
    } else {
        assert(sched.len() > 0) by {
            if sched.len() == 0 {
                assert(now_ms + 0 * interval_ms == now_ms) by (nonlinear_arith);
            }
        }
        assert(!sched.first());
        let rest = sched.drop_first();
        assert((now_ms + interval_ms) + rest.len() * interval_ms == now_ms + sched.len()
            * interval_ms) by (nonlinear_arith)
            requires
                rest.len() == sched.len() - 1,
        ;
        lemma_startup_times_out_at_deadline(rest, now_ms + interval_ms, interval_ms, deadline_ms);
    }
}

} // verus!
