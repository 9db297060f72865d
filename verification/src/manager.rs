//! The connection manager: the retry/backoff state machine.
//!
//! One manager owns the retry state for one connection's lifetime. The
//! asynchronous driver that owns the socket performs each [`Action`] the
//! manager decides — opening the transport, awaiting the next frame, handing
//! an accepted payload to the delivery sink, sleeping out a backoff delay —
//! and feeds the outcome back as the next [`Event`]. Every decision is made
//! in [`ConnectionManager::step`], a pure transition pinned exactly by
//! [`spec_step`].
//!
//! Exit paths are kept distinct: an implicit stream end (no close frame, no
//! error) is a clean, terminal success; connect errors, read errors and an
//! explicit remote close are retryable failures under one shared attempt
//! counter and one backoff policy. Delivery failures are observed per
//! message and never touch transport health.

use vstd::prelude::*;

use crate::backoff::{capped_double, min_int, sat_inc, BackoffState};
use crate::endpoint::EndpointConfig;
use crate::error::{FailureKind, TerminationResult};
use crate::frame::{
    classify, spec_classify, AcceptedMessage, AcceptedMessageView, InboundFrame, InboundFrameView,
    RawFrame, RawFrameView, TerminationKind,
};

verus! {

/// The state of the retry loop.
#[derive(Clone, Copy, Debug, PartialEq, Eq, Structural)]
pub enum Phase {
    /// A transport session is being opened.
    Connecting,
    /// Frames are being read from an open session.
    Streaming,
    /// A retry is scheduled; the driver is sleeping out the delay.
    Backoff,
    /// Terminal: the stream ended cleanly; no further reconnection.
    DoneSuccess,
    /// Terminal: the retry budget is spent.
    DoneExhausted,
}

/// What the driver observed, handed to [`ConnectionManager::step`].
#[derive(Clone, Debug, PartialEq, Eq)]
pub enum Event {
    /// The transport session opened (valid while connecting).
    ConnectSucceeded,
    /// Opening the transport session failed (valid while connecting).
    ConnectFailed,
    /// One frame arrived (valid while streaming).
    FrameReceived(RawFrame),
    /// The stream ended with no close frame and no error (valid while
    /// streaming).
    StreamEnded,
    /// The transport reported an error while reading (valid while streaming).
    ReadFailed,
    /// The backoff delay has elapsed (valid during backoff).
    SleepFinished,
}

/// The mathematical value of an [`Event`].
pub enum EventView {
    ConnectSucceeded,
    ConnectFailed,
    FrameReceived(RawFrameView),
    StreamEnded,
    ReadFailed,
    SleepFinished,
}

impl View for Event {
    type V = EventView;

    open spec fn view(&self) -> EventView {
        match self {
            Event::ConnectSucceeded => EventView::ConnectSucceeded,
            Event::ConnectFailed => EventView::ConnectFailed,
            Event::FrameReceived(raw) => EventView::FrameReceived(raw@),
            Event::StreamEnded => EventView::StreamEnded,
            Event::ReadFailed => EventView::ReadFailed,
            Event::SleepFinished => EventView::SleepFinished,
        }
    }
}

/// What the driver must do next. Each variant is a distinguishable
/// observable event: connection attempt, message accepted, message dropped
/// for size, retry scheduled with its delay and attempt number, attempts
/// exhausted, clean terminal stop.
#[derive(Clone, Debug, PartialEq, Eq)]
pub enum Action {
    /// Open a transport session to the configured URL.
    Connect,
    /// Await the next frame.
    ReadFrame,
    /// Hand the accepted message to the delivery sink, then await the next
    /// frame. A sink failure is observed but never aborts the read loop.
    DeliverThenRead(AcceptedMessage),
    /// Drop an oversize payload (observable as a warning), then await the
    /// next frame.
    DropOversizeThenRead { size: usize },
    /// Ignore a control frame, then await the next frame.
    IgnoreThenRead,
    /// Sleep for `delay_ms` milliseconds before retry attempt `attempt`.
    Sleep { delay_ms: u64, attempt: u32 },
    /// Stop permanently: clean, non-error completion.
    StopClean,
    /// Stop permanently: the retry budget is spent after the given failure.
    StopExhausted(FailureKind),
}

/// The mathematical value of an [`Action`].
pub enum ActionView {
    Connect,
    ReadFrame,
    DeliverThenRead(AcceptedMessageView),
    DropOversizeThenRead { size: nat },
    IgnoreThenRead,
    Sleep { delay_ms: u64, attempt: u32 },
    StopClean,
    StopExhausted(FailureKind),
}

impl View for Action {
    type V = ActionView;

    open spec fn view(&self) -> ActionView {
        match self {
            Action::Connect => ActionView::Connect,
            Action::ReadFrame => ActionView::ReadFrame,
            Action::DeliverThenRead(m) => ActionView::DeliverThenRead(m@),
            Action::DropOversizeThenRead { size } => ActionView::DropOversizeThenRead {
                size: *size as nat,
            },
            Action::IgnoreThenRead => ActionView::IgnoreThenRead,
            Action::Sleep { delay_ms, attempt } => ActionView::Sleep {
                delay_ms: *delay_ms,
                attempt: *attempt,
            },
            Action::StopClean => ActionView::StopClean,
            Action::StopExhausted(k) => ActionView::StopExhausted(*k),
        }
    }
}

/// The retry/backoff state machine for one connection.
#[derive(Clone, Debug)]
pub struct ConnectionManager {
    /// The immutable per-connection configuration.
    pub config: EndpointConfig,
    /// Where the retry loop stands.
    pub phase: Phase,
    /// Current delay and attempt counter; owned exclusively by this manager.
    pub backoff: BackoffState,
    /// The most recent retryable failure, reported on exhaustion.
    pub last_failure: Option<FailureKind>,
}

/// The manager a fresh connection request starts from: connecting, no failed
/// attempts, the delay at the configured initial value.
pub open spec fn spec_fresh(config: EndpointConfig) -> ConnectionManager {
    ConnectionManager {
        config,
        phase: Phase::Connecting,
        backoff: BackoffState { current_delay_ms: config.initial_reconnect_delay_ms, attempts: 0 },
        last_failure: None,
    }
}

/// Whether an event can be observed in the manager's current phase. The
/// driver produces events only from the action it was told to perform, so
/// this holds by construction in any run.
pub open spec fn event_enabled(m: ConnectionManager, e: EventView) -> bool {
    match e {
        EventView::ConnectSucceeded => m.phase == Phase::Connecting,
        EventView::ConnectFailed => m.phase == Phase::Connecting,
        EventView::FrameReceived(_) => m.phase == Phase::Streaming,
        EventView::StreamEnded => m.phase == Phase::Streaming,
        EventView::ReadFailed => m.phase == Phase::Streaming,
        EventView::SleepFinished => m.phase == Phase::Backoff,
    }
}

/// Handling of one retryable failure, entered from a failed connect, a read
/// error, or an explicit remote close. If the attempt counter has already
/// reached a positive budget, the manager stops exhausted; otherwise the
/// counter increments, the driver sleeps out the current delay, and the
/// delay doubles, capped at the configured maximum.
pub open spec fn spec_fail(m: ConnectionManager, kind: FailureKind) -> (ConnectionManager,
    ActionView,
) {
    if m.config.max_reconnect_attempts > 0 && m.backoff.attempts
        >= m.config.max_reconnect_attempts {
        (
            ConnectionManager { phase: Phase::DoneExhausted, last_failure: Some(kind), ..m },
            ActionView::StopExhausted(kind),
        )
    } else {
        (
            ConnectionManager {
                phase: Phase::Backoff,
                backoff: BackoffState {
                    current_delay_ms: capped_double(
                        m.backoff.current_delay_ms as int,
                        m.config.max_reconnect_delay_ms as int,
                    ) as u64,
                    attempts: sat_inc(m.backoff.attempts),
                },
                last_failure: Some(kind),
                ..m
            },
            ActionView::Sleep {
                delay_ms: m.backoff.current_delay_ms,
                attempt: sat_inc(m.backoff.attempts),
            },
        )
    }
}

/// The transition relation of the state machine: for each enabled
/// phase/event pair, the successor state and the action the driver must
/// perform. Disabled pairs are unconstrained.
pub open spec fn spec_step(m: ConnectionManager, e: EventView) -> (ConnectionManager, ActionView) {
    if !event_enabled(m, e) {
        arbitrary()
    } else {
        match e {
            EventView::ConnectSucceeded => (
                ConnectionManager { phase: Phase::Streaming, ..m },
                ActionView::ReadFrame,
            ),
            EventView::ConnectFailed => spec_fail(m, FailureKind::ConnectFailed),
            EventView::FrameReceived(raw) => match spec_classify(raw) {
                InboundFrameView::Payload { bytes, kind } => if bytes.len()
                    <= m.config.max_message_size {
                    (m, ActionView::DeliverThenRead(AcceptedMessageView { bytes, kind }))
                } else {
                    (m, ActionView::DropOversizeThenRead { size: bytes.len() })
                },
                InboundFrameView::Control(_) => (m, ActionView::IgnoreThenRead),
                InboundFrameView::Termination(TerminationKind::Explicit) => spec_fail(
                    m,
                    FailureKind::RemoteClose,
                ),
                InboundFrameView::Termination(TerminationKind::Implicit) => (
                    ConnectionManager { phase: Phase::DoneSuccess, ..m },
                    ActionView::StopClean,
                ),
            },
            EventView::StreamEnded => (
                ConnectionManager { phase: Phase::DoneSuccess, ..m },
                ActionView::StopClean,
            ),
            EventView::ReadFailed => spec_fail(m, FailureKind::TransportError),
            EventView::SleepFinished => (
                ConnectionManager { phase: Phase::Connecting, ..m },
                ActionView::Connect,
            ),
        }
    }
}

/// What a terminal phase reports: the clean stop, or exhaustion with the
/// last underlying failure.
pub open spec fn spec_terminal(m: ConnectionManager) -> Option<TerminationResult> {
    match m.phase {
        Phase::DoneSuccess => Some(TerminationResult::CleanStop),
        Phase::DoneExhausted => match m.last_failure {
            Some(k) => Some(TerminationResult::Exhausted(k)),
            None => None,
        },
        _ => None,
    }
}

impl ConnectionManager {
    /// The manager invariant: the configuration is well-formed, the current
    /// delay never exceeds the configured maximum, a positive budget bounds
    /// the attempt counter, and exhaustion records its cause.
    pub open spec fn wf(self) -> bool {
        &&& self.config.wf()
        &&& self.backoff.current_delay_ms <= self.config.max_reconnect_delay_ms
        &&& (self.config.max_reconnect_attempts > 0 ==> self.backoff.attempts
            <= self.config.max_reconnect_attempts)
        &&& (self.phase == Phase::DoneExhausted ==> self.last_failure is Some)
    }

    /// Start a manager for one connection request. The first action is
    /// always to connect.
    pub fn new(config: EndpointConfig) -> (m: Self)
        requires
            config.wf(),
        ensures
            m == spec_fresh(config),
            m.wf(),
    {
        let initial = config.initial_reconnect_delay_ms;
        ConnectionManager {
            config,
            phase: Phase::Connecting,
            backoff: BackoffState::new(initial),
            last_failure: None,
        }
    }

    /// Retryable-failure handling shared by every failure source.
    fn handle_failure(&mut self, kind: FailureKind) -> (a: Action)
        requires
            old(self).wf(),
        ensures
            *final(self) == spec_fail(*old(self), kind).0,
            a@ == spec_fail(*old(self), kind).1,
            final(self).wf(),
    {
        if self.config.max_reconnect_attempts > 0 && self.backoff.attempts
            >= self.config.max_reconnect_attempts {
            self.phase = Phase::DoneExhausted;
            self.last_failure = Some(kind);
            Action::StopExhausted(kind)
        } else {
            let delay = self.backoff.record_failure(self.config.max_reconnect_delay_ms);
            self.phase = Phase::Backoff;
            self.last_failure = Some(kind);
            Action::Sleep { delay_ms: delay, attempt: self.backoff.attempts }
        }
    }

    /// Advance the state machine by one observed event and return the action
    /// the driver must perform next. The transition is exactly
    /// [`spec_step`]; within one session, accepted payloads flow to the sink
    /// in arrival order because each frame is decided, and its delivery
    /// issued, before the next read.
    pub fn step(&mut self, event: Event) -> (a: Action)
        requires
            old(self).wf(),
            event_enabled(*old(self), event@),
        ensures
            *final(self) == spec_step(*old(self), event@).0,
            a@ == spec_step(*old(self), event@).1,
            final(self).wf(),
    {
        match event {
            Event::ConnectSucceeded => {
                self.phase = Phase::Streaming;
                Action::ReadFrame
            },
            Event::ConnectFailed => self.handle_failure(FailureKind::ConnectFailed),
            Event::FrameReceived(raw) => {
                let f = classify(raw);
                match f {
                    InboundFrame::Payload { bytes, kind } => {
                        if bytes.len() <= self.config.max_message_size {
                            Action::DeliverThenRead(AcceptedMessage { bytes, kind })
                        } else {
                            Action::DropOversizeThenRead { size: bytes.len() }
                        }
                    },
                    InboundFrame::Control(_) => Action::IgnoreThenRead,
                    InboundFrame::Termination(TerminationKind::Explicit) => self.handle_failure(
                        FailureKind::RemoteClose,
                    ),
                    InboundFrame::Termination(TerminationKind::Implicit) => {
                        self.phase = Phase::DoneSuccess;
                        Action::StopClean
                    },
                }
            },
            Event::StreamEnded => {
                self.phase = Phase::DoneSuccess;
                Action::StopClean
            },
            Event::ReadFailed => self.handle_failure(FailureKind::TransportError),
            Event::SleepFinished => {
                self.phase = Phase::Connecting;
                Action::Connect
            },
        }
    }

    /// The terminal report, once a terminal phase is reached: the clean stop
    /// is a normal, non-error completion; exhaustion carries the last
    /// underlying failure.
    pub fn terminal_result(&self) -> (r: Option<TerminationResult>)
        requires
            self.wf(),
        ensures
            r == spec_terminal(*self),
    {
        match self.phase {
            Phase::DoneSuccess => Some(TerminationResult::CleanStop),
            Phase::DoneExhausted => match self.last_failure {
                Some(k) => Some(TerminationResult::Exhausted(k)),
                None => None,
            },
            _ => None,
        }
    }
}

/// For every payload frame received while streaming: if its byte length is
/// within the configured maximum, it is handed to the sink unchanged, byte
/// for byte; if it exceeds the maximum, it is dropped and no delivery
/// occurs. Either way the manager's state is untouched: the size guard never
/// affects transport health or the retry state. Control frames are ignored
/// the same way.
pub proof fn lemma_size_guard(m: ConnectionManager, raw: RawFrameView)
    requires
        m.wf(),
        m.phase == Phase::Streaming,
    ensures
        ({
            let (m2, a) = spec_step(m, EventView::FrameReceived(raw));
            match spec_classify(raw) {
                InboundFrameView::Payload { bytes, kind } => {
                    &&& m2 == m
                    &&& (bytes.len() <= m.config.max_message_size ==> a
                        == ActionView::DeliverThenRead(AcceptedMessageView { bytes, kind }))
                    &&& (bytes.len() > m.config.max_message_size ==> a
                        == (ActionView::DropOversizeThenRead { size: bytes.len() }))
                },
                InboundFrameView::Control(_) => m2 == m && a == ActionView::IgnoreThenRead,
                InboundFrameView::Termination(_) => true,
            }
        }),
{
}

/// An explicit remote close received while streaming is a retryable failure,
/// never a clean terminal stop: within the attempt budget it schedules a
/// retry after the current backoff delay; with the budget already spent it
/// stops exhausted, reporting the close as the cause.
pub proof fn lemma_explicit_close_is_retryable(m: ConnectionManager)
    requires
        m.wf(),
        m.phase == Phase::Streaming,
    ensures
        ({
            let (m2, a) = spec_step(m, EventView::FrameReceived(RawFrameView::Close));
            &&& (m2, a) == spec_fail(m, FailureKind::RemoteClose)
            &&& a != ActionView::StopClean
            &&& m2.phase != Phase::DoneSuccess
            &&& ((m.config.max_reconnect_attempts == 0 || m.backoff.attempts
                < m.config.max_reconnect_attempts) ==> m2.phase == Phase::Backoff && a
                == (ActionView::Sleep {
                delay_ms: m.backoff.current_delay_ms,
                attempt: sat_inc(m.backoff.attempts),
            }))
            &&& ((m.config.max_reconnect_attempts > 0 && m.backoff.attempts
                >= m.config.max_reconnect_attempts) ==> m2.phase == Phase::DoneExhausted && a
                == ActionView::StopExhausted(FailureKind::RemoteClose))
        }),
{
}

/// An implicit stream end — the stream ends with no close frame and no
/// error — always yields the clean terminal stop. The attempt counter is
/// irrelevant: `m` ranges over every well-formed streaming manager, with any
/// backoff state, and the retry state is left untouched.
pub proof fn lemma_implicit_end_is_clean_stop(m: ConnectionManager)
    requires
        m.wf(),
        m.phase == Phase::Streaming,
    ensures
        spec_step(m, EventView::StreamEnded).1 == ActionView::StopClean,
        spec_step(m, EventView::StreamEnded).0.phase == Phase::DoneSuccess,
        spec_step(m, EventView::StreamEnded).0.backoff == m.backoff,
        spec_terminal(spec_step(m, EventView::StreamEnded).0) == Some(TerminationResult::CleanStop),
{
}

/// The manager after `n` consecutive failed connection attempts, counted
/// from a fresh start: each failure is followed by its backoff sleep, after
/// which the manager connects again.
pub open spec fn after_failed_attempts(config: EndpointConfig, n: nat) -> ConnectionManager
    decreases n,
{
    if n == 0 {
        spec_fresh(config)
    } else {
        let prev = after_failed_attempts(config, (n - 1) as nat);
        let failed = spec_fail(prev, FailureKind::ConnectFailed).0;
        spec_step(failed, EventView::SleepFinished).0
    }
}

/// The action decided for the `(n+1)`-th consecutive failed connection
/// attempt.
pub open spec fn failure_action(config: EndpointConfig, n: nat) -> ActionView {
    spec_fail(after_failed_attempts(config, n), FailureKind::ConnectFailed).1
}

/// After `n` consecutive failed connection attempts within the budget, the
/// manager is connecting again, its attempt counter reads `n` (saturating at
/// the largest `u32`), and its stored delay is `min(initial * 2^n, max)`.
pub proof fn lemma_failure_streak(config: EndpointConfig, n: nat)
    requires
        config.wf(),
        config.max_reconnect_attempts > 0 ==> n <= config.max_reconnect_attempts,
    ensures
        ({
            let m = after_failed_attempts(config, n);
            &&& m.config == config
            &&& m.phase == Phase::Connecting
            &&& m.wf()
            &&& m.backoff.attempts as int == min_int(n as int, u32::MAX as int)
            &&& m.backoff.current_delay_ms as int == crate::backoff::delay_after_failures(
                config.initial_reconnect_delay_ms,
                config.max_reconnect_delay_ms,
                n,
            )
        }),
    decreases n,
{
    if n > 0 {
        lemma_failure_streak(config, (n - 1) as nat);
        crate::backoff::lemma_backoff_delay_bounds(
            config.initial_reconnect_delay_ms,
            config.max_reconnect_delay_ms,
            n,
        );
    }
}

/// With a positive retry budget `N = max_reconnect_attempts`, exactly `N`
/// retry attempts occur under consecutive connect failures: for each `k <
/// N`, the `(k+1)`-th failure schedules retry attempt `k+1` after a delay of
/// `min(initial * 2^k, max)` milliseconds; the failure after the `N`-th
/// retry reports exhaustion instead, with the connect failure as its cause.
pub proof fn lemma_retry_budget_spent_exactly(config: EndpointConfig, k: nat)
    requires
        config.wf(),
        config.max_reconnect_attempts > 0,
        k <= config.max_reconnect_attempts,
    ensures
        k < config.max_reconnect_attempts ==> failure_action(config, k) == (ActionView::Sleep {
            delay_ms: min_int(
                config.initial_reconnect_delay_ms as int * crate::backoff::pow2(k),
                config.max_reconnect_delay_ms as int,
            ) as u64,
            attempt: (k + 1) as u32,
        }),
        k == config.max_reconnect_attempts ==> failure_action(config, k)
            == ActionView::StopExhausted(FailureKind::ConnectFailed),
{
    lemma_failure_streak(config, k);
    crate::backoff::lemma_backoff_delay_closed_form(
        config.initial_reconnect_delay_ms,
        config.max_reconnect_delay_ms,
        k,
    );
}

/// The manager and the actions it decides across a whole sequence of
/// events, in order.
pub open spec fn run_trace(m: ConnectionManager, events: Seq<EventView>) -> (ConnectionManager,
    Seq<ActionView>,
)
    decreases events.len(),
{
    if events.len() == 0 {
        (m, seq![])
    } else {
        let (m1, a) = spec_step(m, events[0]);
        let (mf, rest) = run_trace(m1, events.drop_first());
        (mf, seq![a] + rest)
    }
}

/// Whether every event in the sequence is a received frame that classifies
/// as payload data or as a control event: one uninterrupted streaming
/// stretch.
pub open spec fn all_streaming_frames(events: Seq<EventView>) -> bool {
    forall|i: int|
        0 <= i < events.len() ==> (#[trigger] events[i] matches EventView::FrameReceived(raw)
            && !(spec_classify(raw) is Termination))
}

/// The payload byte sequences among the received frames that pass the size
/// guard, in arrival order.
pub open spec fn accepted_payloads(events: Seq<EventView>, max_size: nat) -> Seq<Seq<u8>>
    decreases events.len(),
{
    if events.len() == 0 {
        seq![]
    } else {
        let rest = accepted_payloads(events.drop_first(), max_size);
        match events[0] {
            EventView::FrameReceived(raw) => match spec_classify(raw) {
                InboundFrameView::Payload { bytes, .. } => if bytes.len() <= max_size {
                    seq![bytes] + rest
                } else {
                    rest
                },
                _ => rest,
            },
            _ => rest,
        }
    }
}

/// The payload byte sequences handed to the delivery sink, in the order the
/// actions were decided.
pub open spec fn deliveries_of(actions: Seq<ActionView>) -> Seq<Seq<u8>>
    decreases actions.len(),
{
    if actions.len() == 0 {
        seq![]
    } else {
        let rest = deliveries_of(actions.drop_first());
        match actions[0] {
            ActionView::DeliverThenRead(msg) => seq![msg.bytes] + rest,
            _ => rest,
        }
    }
}

/// Within one connection, accepted messages reach the delivery sink in the
/// exact order received from the transport, with no reordering and no loss:
/// over any uninterrupted streaming stretch, what the manager hands out for
/// delivery is precisely the sequence of within-limit payloads among the
/// received frames, byte for byte and in arrival order — and the manager's
/// state, the retry state included, is untouched throughout.
pub proof fn lemma_streaming_delivery_order(m: ConnectionManager, events: Seq<EventView>)
    requires
        m.wf(),
        m.phase == Phase::Streaming,
        all_streaming_frames(events),
    ensures
        run_trace(m, events).0 == m,
        deliveries_of(run_trace(m, events).1) == accepted_payloads(
            events,
            m.config.max_message_size as nat,
        ),
    decreases events.len(),
{
    if events.len() > 0 {
        let (m1, a) = spec_step(m, events[0]);
        assert(events[0] matches EventView::FrameReceived(raw) && !(spec_classify(
            raw,
        ) is Termination));
        assert(m1 == m);
        assert(all_streaming_frames(events.drop_first())) by {
            assert forall|i: int| 0 <= i < events.drop_first().len() implies (
                #[trigger] events.drop_first()[i] matches EventView::FrameReceived(raw) && !(
                spec_classify(raw) is Termination)) by {
                assert(events.drop_first()[i] == events[i + 1]);
            }
        }
        lemma_streaming_delivery_order(m, events.drop_first());
        let (mf, rest) = run_trace(m1, events.drop_first());
        let actions = seq![a] + rest;
        assert(actions.drop_first() =~= rest);
        assert(actions[0] == a);
    }
}

/// With `max_reconnect_attempts = 0`, retries never exhaust: every
/// consecutive connect failure, however many came before it, schedules
/// another retry — the `(n+1)`-th failure sleeps for
/// `min(initial * 2^n, max)` milliseconds — and never reports exhaustion.
pub proof fn lemma_unbounded_retries_never_exhaust(config: EndpointConfig, n: nat)
    requires
        config.wf(),
        config.max_reconnect_attempts == 0,
    ensures
        failure_action(config, n) matches ActionView::Sleep { delay_ms, .. } && delay_ms as int
            == min_int(
            config.initial_reconnect_delay_ms as int * crate::backoff::pow2(n),
            config.max_reconnect_delay_ms as int,
        ),
        !(failure_action(config, n) matches ActionView::StopExhausted(_)),
{
    lemma_failure_streak(config, n);
    crate::backoff::lemma_backoff_delay_closed_form(
        config.initial_reconnect_delay_ms,
        config.max_reconnect_delay_ms,
        n,
    );
}

} // verus!
