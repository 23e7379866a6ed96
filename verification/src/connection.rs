//! Connection configuration and the decisions of a connection's read loop:
//! when it times out, and what each received frame leads to.
//!
//! Times are counted in nanoseconds since the connection was established.

use vstd::prelude::*;
use vstd::string::*;
use std::sync::Arc;
use std::time::Duration;
use tokio::sync::{OwnedSemaphorePermit, Semaphore};
use crate::handler::{CloseFrame, DisconnectReason, DisconnectReasonView, close_frame_reason_spec};

verus! {

/// Configuration for WebSocket connections
#[derive(Debug, Clone)]
pub struct ConnectionConfig {
    /// Maximum number of concurrent connections (None for unlimited)
    pub max_connections: Option<usize>,
    /// Maximum duration a connection can stay open (None for unlimited)
    pub max_connection_duration: Option<Duration>,
    /// Timeout for idle connections - disconnects after no messages (None for unlimited)
    pub idle_timeout: Option<Duration>,
}

impl Default for ConnectionConfig {
    /// No limits: unlimited connections, no maximum duration, no idle timeout.
    fn default() -> (config: Self)
        ensures
            config.max_connections is None,
            config.max_connection_duration is None,
            config.idle_timeout is None,
    {
        ConnectionConfig { max_connections: None, max_connection_duration: None, idle_timeout: None }
    }
}

/// tokio's counting semaphore, carried through unchanged.
#[verifier::external_type_specification]
#[verifier::external_body]
pub struct ExSemaphore(tokio::sync::Semaphore);

/// A permit of a tokio semaphore, held for as long as a connection lives.
#[verifier::external_type_specification]
#[verifier::external_body]
pub struct ExOwnedSemaphorePermit(tokio::sync::OwnedSemaphorePermit);

/// The number of permits a semaphore was made with.
pub uninterp spec fn semaphore_limit(semaphore: Semaphore) -> nat;

/// `tokio::sync::Semaphore::new`, shared through an `Arc`: a semaphore made
/// with `permits` permits (tokio: "Creates a new semaphore with the initial
/// number of permits").  tokio panics above `Semaphore::MAX_PERMITS`
/// (`usize::MAX >> 3`), which `requires` leaves out.
#[verifier::external_body]
fn new_shared_semaphore(permits: usize) -> (semaphore: Arc<Semaphore>)
    requires
        permits <= usize::MAX / 8,
    ensures
        semaphore_limit(*semaphore) == permits,
{
    Arc::new(Semaphore::new(permits))
}

/// `tokio::sync::Semaphore::try_acquire_owned` on a shared semaphore: a permit,
/// or `None` when none is free or the semaphore is closed.  Whether one is
/// free depends on the other connections, so nothing is claimed of the result.
#[verifier::external_body]
fn try_acquire_owned_permit(semaphore: &Arc<Semaphore>) -> (permit: Option<OwnedSemaphorePermit>) {
    Arc::clone(semaphore).try_acquire_owned().ok()
}

/// The semaphore that limits concurrent connections: one with
/// `max_connections` permits when a limit is configured, none otherwise.
pub fn connection_limiter(max_connections: Option<usize>) -> (limiter: Option<Arc<Semaphore>>)
    requires
        max_connections matches Some(n) ==> n <= usize::MAX / 8,
    ensures
        limiter is Some <==> max_connections is Some,
        limiter matches Some(s) ==> semaphore_limit(*s) == max_connections->0,
{
    match max_connections {
        Some(n) => Some(new_shared_semaphore(n)),
        None => None,
    }
}

/// The outcome of admitting a connection.
pub enum ConnectionPermit {
    /// No connection limit is configured.
    Unlimited,
    /// A slot was free; the connection holds it until the permit is dropped.
    Granted(OwnedSemaphorePermit),
    /// The limit is reached: the connection is rejected.
    Rejected,
}

/// The admission that a limiter's answer gives: a permit admits the
/// connection and keeps it, no permit rejects it.
pub fn permit_from_answer(answer: Option<OwnedSemaphorePermit>) -> (permit: ConnectionPermit)
    ensures
        answer matches Some(p) ==> permit == ConnectionPermit::Granted(p),
        answer is None ==> permit == ConnectionPermit::Rejected,
{
    match answer {
        Some(p) => ConnectionPermit::Granted(p),
        None => ConnectionPermit::Rejected,
    }
}

/// Admits a connection under the configured limit.  Without a limiter every
/// connection is admitted; with one, the semaphore's answer decides, mapped
/// by `permit_from_answer`: a permit admits, none rejects.
pub fn try_acquire_connection_permit(limiter: &Option<Arc<Semaphore>>) -> (permit: ConnectionPermit)
    ensures
        limiter is None <==> permit is Unlimited,
        limiter is Some ==> (permit is Granted || permit is Rejected),
{
    match limiter {
        None => ConnectionPermit::Unlimited,
        Some(semaphore) => permit_from_answer(try_acquire_owned_permit(semaphore)),
    }
}

/// Which limit of a connection ran out.
#[derive(Debug, Clone, Copy, PartialEq, Eq, Structural)]
pub enum TimeoutKind {
    /// The connection reached its maximum duration.
    MaxDuration,
    /// The connection saw no frame for its idle timeout.
    Idle,
}

/// The text of the timeout reason that a limit gives.
pub open spec fn timeout_text(kind: TimeoutKind) -> Seq<char> {
    match kind {
        TimeoutKind::MaxDuration => "Maximum connection duration exceeded"@,
        TimeoutKind::Idle => "Idle timeout"@,
    }
}

/// How long the read loop may wait for its next frame.
#[derive(Debug, Clone)]
pub enum WaitPlan {
    /// A limit is already reached: the connection ends with this reason.
    Expired(DisconnectReason),
    /// Wait at most `remaining` nanoseconds; if that runs out, `kind` ran out.
    Until { remaining: u128, kind: TimeoutKind },
    /// No limit applies: wait for the next frame without a deadline.
    Unbounded,
}

/// The mathematical value of a `WaitPlan`.
pub enum WaitPlanView {
    Expired(DisconnectReasonView),
    Until { remaining: int, kind: TimeoutKind },
    Unbounded,
}

impl View for WaitPlan {
    type V = WaitPlanView;

    open spec fn view(&self) -> WaitPlanView {
        match self {
            WaitPlan::Expired(r) => WaitPlanView::Expired(r@),
            WaitPlan::Until { remaining, kind } => WaitPlanView::Until { remaining: *remaining as int, kind: *kind },
            WaitPlan::Unbounded => WaitPlanView::Unbounded,
        }
    }
}

/// Time since the last activity; a clock reading before the last activity counts as none.
pub open spec fn idle_elapsed(last_activity: int, now: int) -> int {
    if now >= last_activity { now - last_activity } else { 0 }
}

/// What the read loop does at time `now`: first the maximum duration is
/// checked, then the idle timeout; of two deadlines the strictly shorter idle
/// one wins, on a tie the maximum duration is reported.
pub open spec fn plan_spec(max_duration: Option<u128>, idle_timeout: Option<u128>, last_activity: int, now: int) -> WaitPlanView {
    let since = idle_elapsed(last_activity, now);
    if max_duration is Some && now >= max_duration->0 {
        WaitPlanView::Expired(DisconnectReasonView::Timeout(timeout_text(TimeoutKind::MaxDuration)))
    } else if idle_timeout is Some && since >= idle_timeout->0 {
        WaitPlanView::Expired(DisconnectReasonView::Timeout(timeout_text(TimeoutKind::Idle)))
    } else {
        match (max_duration, idle_timeout) {
            (Some(m), Some(i)) =>
                if i - since < m - now {
                    WaitPlanView::Until { remaining: i - since, kind: TimeoutKind::Idle }
                } else {
                    WaitPlanView::Until { remaining: m - now, kind: TimeoutKind::MaxDuration }
                },
            (Some(m), None) => WaitPlanView::Until { remaining: m - now, kind: TimeoutKind::MaxDuration },
            (None, Some(i)) => WaitPlanView::Until { remaining: i - since, kind: TimeoutKind::Idle },
            (None, None) => WaitPlanView::Unbounded,
        }
    }
}

/// The timeout reason for a limit that ran out.
pub fn timeout_reason(kind: TimeoutKind) -> (reason: DisconnectReason)
    ensures
        reason@ == DisconnectReasonView::Timeout(timeout_text(kind)),
{
    match kind {
        TimeoutKind::MaxDuration => DisconnectReason::Timeout(String::from_str("Maximum connection duration exceeded")),
        TimeoutKind::Idle => DisconnectReason::Timeout(String::from_str("Idle timeout")),
    }
}

/// The timers of one connection: its limits and the time of its last activity.
#[derive(Debug, Clone)]
pub struct ConnectionTimer {
    /// Maximum duration of the connection, in nanoseconds.
    pub max_duration: Option<u128>,
    /// Idle timeout, in nanoseconds.
    pub idle_timeout: Option<u128>,
    /// When the last frame arrived, in nanoseconds since the connection began.
    pub last_activity: u128,
}

impl ConnectionTimer {
    /// Timers for a connection that has just been established.
    pub fn new(max_duration: Option<u128>, idle_timeout: Option<u128>) -> (timer: Self)
        ensures
            timer.max_duration == max_duration,
            timer.idle_timeout == idle_timeout,
            timer.last_activity == 0,
    {
        ConnectionTimer { max_duration, idle_timeout, last_activity: 0 }
    }

    /// What the read loop does at time `now`.
    pub open spec fn plan(&self, now: int) -> WaitPlanView {
        plan_spec(self.max_duration, self.idle_timeout, self.last_activity as int, now)
    }

    /// Decides, at time `now`, whether the connection has timed out and,
    /// if not, how long to wait for the next frame.
    pub fn next_wait(&self, now: u128) -> (plan: WaitPlan)
        ensures
            plan@ == self.plan(now as int),
    {
        let since: u128 = if now >= self.last_activity { now - self.last_activity } else { 0 };
        let mut next: Option<(u128, TimeoutKind)> = None;
        if let Some(max) = self.max_duration {
            if now >= max {
                return WaitPlan::Expired(timeout_reason(TimeoutKind::MaxDuration));
            }
            next = Some((max - now, TimeoutKind::MaxDuration));
        }
        if let Some(idle) = self.idle_timeout {
            if since >= idle {
                return WaitPlan::Expired(timeout_reason(TimeoutKind::Idle));
            }
            let idle_remaining: u128 = idle - since;
            match next {
                None => {
                    next = Some((idle_remaining, TimeoutKind::Idle));
                },
                Some((existing, _)) => {
                    if idle_remaining < existing {
                        next = Some((idle_remaining, TimeoutKind::Idle));
                    }
                },
            }
        }
        match next {
            Some((remaining, kind)) => WaitPlan::Until { remaining, kind },
            None => WaitPlan::Unbounded,
        }
    }
}

/// What the read loop observed: a frame, the end of the stream, an error,
/// a deadline that passed, or the handler refusing a message.
#[derive(Debug, Clone)]
pub enum SocketEvent {
    /// A text frame arrived (the caller keeps its payload).
    Text,
    /// A binary frame arrived.
    Binary,
    /// A ping frame arrived.
    Ping,
    /// A pong frame arrived.
    Pong,
    /// A close frame arrived, with its frame if it carried one.
    Close(Option<CloseFrame>),
    /// Reading failed with this error text.
    Error(String),
    /// The stream ended.
    Ended,
    /// The wait planned by `next_wait` ran out.
    DeadlinePassed(TimeoutKind),
    /// The handler returned an error, with this text, for a delivered text message.
    HandlerFailed(String),
}

/// What the read loop does next.
#[derive(Debug, Clone)]
pub enum SocketAction {
    /// Hand the text payload to the handler's `on_message`.
    Deliver,
    /// Nothing to do; keep reading.
    Continue,
    /// Call the handler's `on_disconnect` with this reason, then stop.
    Disconnect(DisconnectReason),
}

/// The mathematical value of a `SocketAction`.
pub enum SocketActionView {
    Deliver,
    Continue,
    Disconnect(DisconnectReasonView),
}

impl View for SocketAction {
    type V = SocketActionView;

    open spec fn view(&self) -> SocketActionView {
        match self {
            SocketAction::Deliver => SocketActionView::Deliver,
            SocketAction::Continue => SocketActionView::Continue,
            SocketAction::Disconnect(r) => SocketActionView::Disconnect(r@),
        }
    }
}

/// Frames that count as activity and restart the idle timer.
pub open spec fn is_activity(event: SocketEvent) -> bool {
    event is Text || event is Binary || event is Ping || event is Pong
}

/// The action an event leads to.
pub open spec fn action_spec(event: SocketEvent) -> SocketActionView {
    match event {
        SocketEvent::Text => SocketActionView::Deliver,
        SocketEvent::Binary => SocketActionView::Continue,
        SocketEvent::Ping => SocketActionView::Continue,
        SocketEvent::Pong => SocketActionView::Continue,
        SocketEvent::Close(frame) => SocketActionView::Disconnect(close_frame_reason_spec(frame)),
        SocketEvent::Error(e) => SocketActionView::Disconnect(DisconnectReasonView::Error(e@)),
        SocketEvent::Ended => SocketActionView::Disconnect(DisconnectReasonView::Unknown),
        SocketEvent::DeadlinePassed(kind) => SocketActionView::Disconnect(DisconnectReasonView::Timeout(timeout_text(kind))),
        SocketEvent::HandlerFailed(e) => SocketActionView::Disconnect(DisconnectReasonView::Error(e@)),
    }
}

/// The timers after an event at time `now`: activity restarts the idle timer.
pub open spec fn after_event(timer: ConnectionTimer, event: SocketEvent, now: int) -> ConnectionTimer {
    ConnectionTimer {
        last_activity: if is_activity(event) { now as u128 } else { timer.last_activity },
        ..timer
    }
}

/// Whether an action ends the read loop.
pub open spec fn is_terminal(action: SocketActionView) -> bool {
    action is Disconnect
}

impl ConnectionTimer {
    /// Takes in what the read loop observed at time `now`: activity restarts
    /// the idle timer, and the event decides the next action.
    pub fn on_event(&mut self, event: SocketEvent, now: u128) -> (action: SocketAction)
        ensures
            action@ == action_spec(event),
            *final(self) == after_event(*old(self), event, now as int),
    {
        match event {
            SocketEvent::Text => {
                self.last_activity = now;
                SocketAction::Deliver
            },
            SocketEvent::Binary | SocketEvent::Ping | SocketEvent::Pong => {
                self.last_activity = now;
                SocketAction::Continue
            },
            SocketEvent::Close(frame) => SocketAction::Disconnect(DisconnectReason::from_close_frame(frame)),
            SocketEvent::Error(e) => SocketAction::Disconnect(DisconnectReason::Error(e)),
            SocketEvent::Ended => SocketAction::Disconnect(DisconnectReason::Unknown),
            SocketEvent::DeadlinePassed(kind) => SocketAction::Disconnect(timeout_reason(kind)),
            SocketEvent::HandlerFailed(e) => SocketAction::Disconnect(DisconnectReason::Error(e)),
        }
    }
}

/// A planned wait never runs past either limit, is never empty, and ends
/// exactly when the limit it names runs out.
pub proof fn law_wait_within_limits(timer: ConnectionTimer, now: int)
    ensures
        timer.plan(now) matches WaitPlanView::Until { remaining, kind } ==> {
            &&& remaining > 0
            &&& (timer.max_duration matches Some(m) ==> remaining <= m - now)
            &&& (timer.idle_timeout matches Some(i) ==> remaining <= i - idle_elapsed(timer.last_activity as int, now))
            &&& (kind == TimeoutKind::MaxDuration ==> (timer.max_duration matches Some(m) && remaining == m - now))
            &&& (kind == TimeoutKind::Idle ==> (timer.idle_timeout matches Some(i)
                    && remaining == i - idle_elapsed(timer.last_activity as int, now)))
        },
{
}

/// A connection has timed out exactly when one of its limits is reached.
pub proof fn law_expired_iff_limit_reached(timer: ConnectionTimer, now: int)
    ensures
        timer.plan(now) is Expired <==> (
            (timer.max_duration matches Some(m) && now >= m)
            || (timer.idle_timeout matches Some(i) && idle_elapsed(timer.last_activity as int, now) >= i)),
{
}

/// A connection whose idle limit is reached while its maximum duration is
/// not (or has none) ends with the reason "Idle timeout", however late the
/// check comes.
pub proof fn law_idle_expiry_reason(timer: ConnectionTimer, now: int)
    requires
        (timer.idle_timeout matches Some(i)
            && (if now >= timer.last_activity { now - timer.last_activity } else { 0 }) >= i),
        (timer.max_duration matches Some(m) ==> now < m),
    ensures
        timer.plan(now) == WaitPlanView::Expired(DisconnectReasonView::Timeout("Idle timeout"@)),
{
}

/// Once the maximum duration is reached the connection ends with the reason
/// "Maximum connection duration exceeded", whatever the idle timer says.
pub proof fn law_max_duration_expiry_reason(timer: ConnectionTimer, now: int)
    requires
        (timer.max_duration matches Some(m) && now >= m),
    ensures
        timer.plan(now) == WaitPlanView::Expired(
            DisconnectReasonView::Timeout("Maximum connection duration exceeded"@),
        ),
{
}

/// While no limit is reached the loop waits exactly until the nearer of the
/// configured deadlines: the maximum duration runs out at `max - now`, the
/// idle timeout at `idle - (now - last_activity)`; the idle deadline is
/// named only when it is strictly nearer.  Without limits there is no
/// deadline.
pub proof fn law_wait_until_nearest_deadline(timer: ConnectionTimer, now: int)
    requires
        now >= timer.last_activity,
        (timer.max_duration matches Some(m) ==> now < m),
        (timer.idle_timeout matches Some(i) ==> now - timer.last_activity < i),
    ensures
        (timer.max_duration is None && timer.idle_timeout is None) ==> timer.plan(now)
            == WaitPlanView::Unbounded,
        (timer.max_duration is Some && timer.idle_timeout is None) ==> timer.plan(now) == (
        WaitPlanView::Until { remaining: timer.max_duration->0 - now, kind: TimeoutKind::MaxDuration }),
        (timer.max_duration is None && timer.idle_timeout is Some) ==> timer.plan(now) == (
        WaitPlanView::Until {
            remaining: timer.idle_timeout->0 - (now - timer.last_activity),
            kind: TimeoutKind::Idle,
        }),
        (timer.max_duration is Some && timer.idle_timeout is Some && timer.idle_timeout->0 - (now
            - timer.last_activity) < timer.max_duration->0 - now) ==> timer.plan(now) == (
        WaitPlanView::Until {
            remaining: timer.idle_timeout->0 - (now - timer.last_activity),
            kind: TimeoutKind::Idle,
        }),
        (timer.max_duration is Some && timer.idle_timeout is Some && timer.max_duration->0 - now
            <= timer.idle_timeout->0 - (now - timer.last_activity)) ==> timer.plan(now) == (
        WaitPlanView::Until { remaining: timer.max_duration->0 - now, kind: TimeoutKind::MaxDuration }),
{
}

/// What each observed event leads to: text is delivered, other frames keep
/// the loop reading, a close frame reports its code and reason (no frame:
/// unknown), a read error or a failed handler reports its text, the end of
/// the stream is unknown, and a passed deadline reports its timeout text.
/// Frames restart the idle timer at the time they arrive; nothing else
/// touches the timers.
pub proof fn law_socket_event_outcomes(timer: ConnectionTimer, event: SocketEvent, now: u128)
    ensures
        event is Text ==> action_spec(event) == SocketActionView::Deliver,
        (event is Binary || event is Ping || event is Pong) ==> action_spec(event)
            == SocketActionView::Continue,
        event matches SocketEvent::Close(Some(f)) ==> action_spec(event)
            == SocketActionView::Disconnect(DisconnectReasonView::Close(f.code, f.reason@)),
        event matches SocketEvent::Close(None) ==> action_spec(event)
            == SocketActionView::Disconnect(DisconnectReasonView::Unknown),
        event matches SocketEvent::Error(e) ==> action_spec(event) == SocketActionView::Disconnect(
            DisconnectReasonView::Error(e@),
        ),
        event is Ended ==> action_spec(event) == SocketActionView::Disconnect(
            DisconnectReasonView::Unknown,
        ),
        event == SocketEvent::DeadlinePassed(TimeoutKind::Idle) ==> action_spec(event)
            == SocketActionView::Disconnect(DisconnectReasonView::Timeout("Idle timeout"@)),
        event == SocketEvent::DeadlinePassed(TimeoutKind::MaxDuration) ==> action_spec(event)
            == SocketActionView::Disconnect(
            DisconnectReasonView::Timeout("Maximum connection duration exceeded"@),
        ),
        (event is Text || event is Binary || event is Ping || event is Pong) ==> after_event(
            timer,
            event,
            now as int,
        ).last_activity == now,
        !(event is Text || event is Binary || event is Ping || event is Pong) ==> after_event(
            timer,
            event,
            now as int,
        ).last_activity == timer.last_activity,
        after_event(timer, event, now as int).max_duration == timer.max_duration,
        after_event(timer, event, now as int).idle_timeout == timer.idle_timeout,
{
}

/// Without limits a connection never times out.
pub proof fn law_no_limits_no_deadline(timer: ConnectionTimer, now: int)
    requires
        (timer.max_duration is None),
        (timer.idle_timeout is None),
    ensures
        timer.plan(now) == WaitPlanView::Unbounded,
{
}

/// Waiting out a planned deadline reaches the timeout that the plan named:
/// the reason given for `DeadlinePassed(kind)` is the one the expiry check
/// gives at that moment.
pub proof fn law_deadline_agrees_with_expiry(timer: ConnectionTimer, now: int)
    requires
        now >= timer.last_activity,
    ensures
        timer.plan(now) matches WaitPlanView::Until { remaining, kind } ==>
            timer.plan(now + remaining) == WaitPlanView::Expired(DisconnectReasonView::Timeout(timeout_text(kind)))
            && action_spec(SocketEvent::DeadlinePassed(kind)) == SocketActionView::Disconnect(
                DisconnectReasonView::Timeout(timeout_text(kind))),
{
}

/// A frame restarts the idle timer: right after it, the idle limit is a full
/// idle timeout away, and while the maximum duration does not interfere the
/// loop waits exactly the rest of the idle timeout.
pub proof fn law_activity_restarts_idle(timer: ConnectionTimer, event: SocketEvent, now: u128, later: int)
    requires
        is_activity(event),
        now <= later,
        (timer.idle_timeout matches Some(i) && later - now < i),
        (timer.max_duration is None),
    ensures
        after_event(timer, event, now as int).plan(later) == (WaitPlanView::Until {
            remaining: timer.idle_timeout->0 - (later - now),
            kind: TimeoutKind::Idle,
        }),
{
}

/// Frames keep the loop reading; everything else ends it, and whatever ends
/// it reports a disconnect reason, so `on_disconnect` is called for normal
/// closure and for errors alike.  A handler that fails on a message ends the
/// connection with that error as the reason.
pub proof fn law_terminal_events(event: SocketEvent)
    ensures
        is_terminal(action_spec(event)) <==> !is_activity(event),
        event matches SocketEvent::HandlerFailed(e) ==> action_spec(event) == SocketActionView::Disconnect(
            DisconnectReasonView::Error(e@)),
{
}

} // verus!
