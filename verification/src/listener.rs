//! The probe listener: one state machine for both protocols.
//!
//! A listener is told what happened on its socket and on its clock, and
//! answers with the state it is in now and what to do next. It never touches
//! a socket itself. The two protocols differ in three places only: TCP
//! echoes ordinary payload and UDP does not; the TCP idle clock is armed
//! once, the UDP clock afresh with every datagram; and a failed TCP read can
//! be survived, a failed UDP receive cannot.

use vstd::prelude::*;
use crate::config::READ_BUFFER_SIZE;
use crate::sentinel::{has_sentinel_prefix, starts_with_sentinel};
use crate::status::{
    BindError, BindErrorView, ListenerState, ListenerStateView, Protocol, TerminationReason,
    TerminationReasonView,
};

verus! {

/// What the owner of the socket reports to the listener.
#[derive(Clone, Debug, PartialEq, Eq)]
pub enum ListenerEvent {
    /// The endpoint is bound and open for traffic.
    Bound,
    /// The endpoint could not be bound.
    BindFailed(BindError),
    /// One read of an accepted connection, or one datagram. An empty read
    /// is a peer that closed without sending.
    Received(Vec<u8>),
    /// A read or receive failed. `recoverable` is the transport's own
    /// judgement of whether the listener can go on.
    ReceiveFailed { detail: String, recoverable: bool },
    /// The wait ended with no traffic.
    WaitElapsed,
}

pub enum ListenerEventView {
    Bound,
    BindFailed(BindErrorView),
    Received(Seq<u8>),
    ReceiveFailed { detail: Seq<char>, recoverable: bool },
    WaitElapsed,
}

impl View for ListenerEvent {
    type V = ListenerEventView;

    open spec fn view(&self) -> ListenerEventView {
        match self {
            ListenerEvent::Bound => ListenerEventView::Bound,
            ListenerEvent::BindFailed(error) => ListenerEventView::BindFailed(error@),
            ListenerEvent::Received(data) => ListenerEventView::Received(data@),
            ListenerEvent::ReceiveFailed { detail, recoverable } => ListenerEventView::ReceiveFailed {
                detail: detail@,
                recoverable: *recoverable,
            },
            ListenerEvent::WaitElapsed => ListenerEventView::WaitElapsed,
        }
    }
}

/// What the listener asks of the owner of the socket.
#[derive(Clone, Debug, PartialEq, Eq)]
pub enum ListenerAction {
    /// Bind the endpoint and report how it went.
    Bind,
    /// Wait for traffic, for `remaining` ticks at most.
    Wait { remaining: u64 },
    /// Write `payload` back on the connection it came from, whether or not
    /// that succeeds, then wait as for `Wait`.
    Echo { payload: Vec<u8>, remaining: u64 },
    /// Close the socket: the listener is done.
    Stop,
}

pub enum ListenerActionView {
    Bind,
    Wait { remaining: nat },
    Echo { payload: Seq<u8>, remaining: nat },
    Stop,
}

impl View for ListenerAction {
    type V = ListenerActionView;

    open spec fn view(&self) -> ListenerActionView {
        match self {
            ListenerAction::Bind => ListenerActionView::Bind,
            ListenerAction::Wait { remaining } => ListenerActionView::Wait {
                remaining: *remaining as nat,
            },
            ListenerAction::Echo { payload, remaining } => ListenerActionView::Echo {
                payload: payload@,
                remaining: *remaining as nat,
            },
            ListenerAction::Stop => ListenerActionView::Stop,
        }
    }
}

impl ListenerActionView {
    /// A wait with nothing left on the clock: it is over before it begins.
    pub open spec fn is_overdue(self) -> bool {
        match self {
            ListenerActionView::Wait { remaining } => remaining == 0,
            ListenerActionView::Echo { payload, remaining } => remaining == 0,
            _ => false,
        }
    }
}

impl ListenerAction {
    /// Whether the action asks for a wait with nothing left on the clock.
    /// Such a wait is over at once: the socket is not looked at, and the
    /// next report is `WaitElapsed`.
    pub fn is_overdue(&self) -> (yes: bool)
        ensures
            yes == self@.is_overdue(),
    {
        match self {
            ListenerAction::Wait { remaining } => *remaining == 0,
            ListenerAction::Echo { payload, remaining } => *remaining == 0,
            _ => false,
        }
    }
}

/// A listener as the contracts see it.
pub struct ListenerView {
    pub protocol: Protocol,
    pub state: ListenerStateView,
    /// Ticks the idle clock runs for once armed.
    pub idle_timeout: nat,
    /// The instant at which the idle clock was last armed.
    pub armed_at: nat,
}

impl ListenerView {
    /// A listener that has yet to bind.
    pub open spec fn starting(protocol: Protocol, idle_timeout: nat) -> ListenerView {
        ListenerView { protocol, state: ListenerStateView::Starting, idle_timeout, armed_at: 0 }
    }

    /// Ticks gone by since the clock was armed. A clock that reads earlier
    /// than the arming instant counts as no time gone by.
    pub open spec fn elapsed(self, now: nat) -> nat {
        if now >= self.armed_at {
            (now - self.armed_at) as nat
        } else {
            0
        }
    }

    /// Whether the idle clock has run out at `now`.
    pub open spec fn expired(self, now: nat) -> bool {
        self.elapsed(now) >= self.idle_timeout
    }

    /// Ticks left on the idle clock at `now`.
    pub open spec fn remaining(self, now: nat) -> nat {
        if self.expired(now) {
            0
        } else {
            (self.idle_timeout - self.elapsed(now)) as nat
        }
    }

    pub open spec fn with_state(self, state: ListenerStateView) -> ListenerView {
        ListenerView { state, ..self }
    }

    pub open spec fn terminated(self, reason: TerminationReasonView) -> ListenerView {
        self.with_state(ListenerStateView::Terminated(reason))
    }

    /// The same listener with its clock armed at `now`.
    pub open spec fn armed(self, now: nat) -> ListenerView {
        ListenerView { armed_at: now, ..self }
    }
}

/// What a listener takes from one read: the first `READ_BUFFER_SIZE` bytes.
pub open spec fn taken(data: Seq<u8>) -> Seq<u8> {
    if data.len() <= READ_BUFFER_SIZE {
        data
    } else {
        data.subrange(0, READ_BUFFER_SIZE as int)
    }
}

/// A `Starting` listener is waiting to hear how binding went. Nothing else
/// moves it. A failed bind ends it at once with the bind error itself: the
/// error is not retried, not waited on, and not made into a timeout or a
/// transport error.
pub open spec fn step_starting(l: ListenerView, now: nat, event: ListenerEventView) -> (
    ListenerView,
    ListenerActionView,
) {
    match event {
        ListenerEventView::Bound => (
            l.with_state(ListenerStateView::Listening).armed(now),
            ListenerActionView::Wait { remaining: l.idle_timeout },
        ),
        ListenerEventView::BindFailed(error) => (
            l.terminated(TerminationReasonView::BindFailed(error)),
            ListenerActionView::Stop,
        ),
        _ => (l, ListenerActionView::Bind),
    }
}

/// A `Listening` TCP listener. Its clock was armed when it began to listen
/// and is not touched again: traffic that is not the sentinel leaves
/// `armed_at` as it was.
pub open spec fn step_tcp_listening(l: ListenerView, now: nat, event: ListenerEventView) -> (
    ListenerView,
    ListenerActionView,
) {
    let wait = ListenerActionView::Wait { remaining: l.remaining(now) };
    match event {
        ListenerEventView::Received(data) => if has_sentinel_prefix(taken(data)) {
            (l.terminated(TerminationReasonView::SentinelReceived), ListenerActionView::Stop)
        } else if data.len() == 0 {
            (l, wait)
        } else {
            (l, ListenerActionView::Echo { payload: taken(data), remaining: l.remaining(now) })
        },
        ListenerEventView::ReceiveFailed { detail, recoverable } => if recoverable {
            (l, wait)
        } else {
            (l.terminated(TerminationReasonView::TransportError(detail)), ListenerActionView::Stop)
        },
        ListenerEventView::WaitElapsed => if l.expired(now) {
            (l.terminated(TerminationReasonView::IdleTimeout), ListenerActionView::Stop)
        } else {
            (l, wait)
        },
        _ => (l, wait),
    }
}

/// A `Listening` UDP listener. Every datagram that is not the sentinel arms
/// the clock afresh; a wait that ends early does not.
pub open spec fn step_udp_listening(l: ListenerView, now: nat, event: ListenerEventView) -> (
    ListenerView,
    ListenerActionView,
) {
    let wait = ListenerActionView::Wait { remaining: l.remaining(now) };
    match event {
        ListenerEventView::Received(data) => if has_sentinel_prefix(taken(data)) {
            (l.terminated(TerminationReasonView::SentinelReceived), ListenerActionView::Stop)
        } else {
            (l.armed(now), ListenerActionView::Wait { remaining: l.idle_timeout })
        },
        ListenerEventView::ReceiveFailed { detail, recoverable } => (
            l.terminated(TerminationReasonView::TransportError(detail)),
            ListenerActionView::Stop,
        ),
        ListenerEventView::WaitElapsed => if l.expired(now) {
            (l.terminated(TerminationReasonView::IdleTimeout), ListenerActionView::Stop)
        } else {
            (l, wait)
        },
        _ => (l, wait),
    }
}

/// The listener's whole behaviour: the state it moves to on `event` at
/// instant `now`, and what it asks for next. A `Terminated` listener stays
/// as it is and asks for nothing but `Stop`.
pub open spec fn listener_step(l: ListenerView, now: nat, event: ListenerEventView) -> (
    ListenerView,
    ListenerActionView,
) {
    match l.state {
        ListenerStateView::Starting => step_starting(l, now, event),
        ListenerStateView::Listening => match l.protocol {
            Protocol::Tcp => step_tcp_listening(l, now, event),
            Protocol::Udp => step_udp_listening(l, now, event),
        },
        ListenerStateView::Terminated(_) => (l, ListenerActionView::Stop),
    }
}

/// Cuts a read down to what the listener takes from it.
pub fn take_read(data: Vec<u8>) -> (kept: Vec<u8>)
    ensures
        kept@ == taken(data@),
{
    let mut kept = data;
    if kept.len() > READ_BUFFER_SIZE {
        kept.truncate(READ_BUFFER_SIZE);
    }
    kept
}

/// One protocol's listener.
#[derive(Clone, Debug, PartialEq, Eq)]
pub struct ProbeListener {
    protocol: Protocol,
    state: ListenerState,
    idle_timeout: u64,
    armed_at: u64,
}

impl View for ProbeListener {
    type V = ListenerView;

    closed spec fn view(&self) -> ListenerView {
        ListenerView {
            protocol: self.protocol,
            state: self.state@,
            idle_timeout: self.idle_timeout as nat,
            armed_at: self.armed_at as nat,
        }
    }
}

impl ProbeListener {
    /// A listener that has yet to bind. Its first need is `Bind`.
    pub fn new(protocol: Protocol, idle_timeout: u64) -> (listener: ProbeListener)
        ensures
            listener@ == ListenerView::starting(protocol, idle_timeout as nat),
    {
        ProbeListener { protocol, state: ListenerState::Starting, idle_timeout, armed_at: 0 }
    }

    /// A new listener together with the first thing it needs: `Bind`.
    pub fn start(protocol: Protocol, idle_timeout: u64) -> (first: (ProbeListener, ListenerAction))
        ensures
            first.0@ == ListenerView::starting(protocol, idle_timeout as nat),
            first.1@ == ListenerActionView::Bind,
    {
        (ProbeListener::new(protocol, idle_timeout), ListenerAction::Bind)
    }

    pub fn protocol(&self) -> (protocol: Protocol)
        ensures
            protocol == self@.protocol,
    {
        self.protocol
    }

    pub fn state(&self) -> (state: &ListenerState)
        ensures
            state@ == self@.state,
    {
        &self.state
    }

    /// The listener's final word, once it has one.
    pub fn into_reason(self) -> (reason: Option<TerminationReason>)
        ensures
            match reason {
                Some(r) => self@.state == ListenerStateView::Terminated(r@),
                None => !(self@.state is Terminated),
            },
    {
        match self.state {
            ListenerState::Terminated(reason) => Some(reason),
            _ => None,
        }
    }

    /// Ticks left on the idle clock at `now`.
    pub fn remaining(&self, now: u64) -> (left: u64)
        ensures
            left == self@.remaining(now as nat),
    {
        let elapsed: u64 = if now >= self.armed_at {
            now - self.armed_at
        } else {
            0
        };
        if elapsed >= self.idle_timeout {
            0
        } else {
            self.idle_timeout - elapsed
        }
    }

    fn stop(self, reason: TerminationReason) -> (next: (ProbeListener, ListenerAction))
        ensures
            next.0@ == self@.terminated(reason@),
            next.1@ == ListenerActionView::Stop,
    {
        (
            ProbeListener {
                protocol: self.protocol,
                state: ListenerState::Terminated(reason),
                idle_timeout: self.idle_timeout,
                armed_at: self.armed_at,
            },
            ListenerAction::Stop,
        )
    }

    fn wait(self, now: u64) -> (next: (ProbeListener, ListenerAction))
        ensures
            next.0@ == self@,
            next.1@ == (ListenerActionView::Wait { remaining: self@.remaining(now as nat) }),
    {
        let remaining = self.remaining(now);
        (self, ListenerAction::Wait { remaining })
    }

    fn on_starting(self, now: u64, event: ListenerEvent) -> (next: (ProbeListener, ListenerAction))
        ensures
            (next.0@, next.1@) == step_starting(self@, now as nat, event@),
    {
        match event {
            ListenerEvent::Bound => {
                let remaining = self.idle_timeout;
                (
                    ProbeListener {
                        protocol: self.protocol,
                        state: ListenerState::Listening,
                        idle_timeout: self.idle_timeout,
                        armed_at: now,
                    },
                    ListenerAction::Wait { remaining },
                )
            },
            ListenerEvent::BindFailed(error) => self.stop(TerminationReason::BindFailed(error)),
            _ => (self, ListenerAction::Bind),
        }
    }

    fn on_tcp_listening(self, now: u64, event: ListenerEvent) -> (next: (
        ProbeListener,
        ListenerAction,
    ))
        ensures
            (next.0@, next.1@) == step_tcp_listening(self@, now as nat, event@),
    {
        match event {
            ListenerEvent::Received(data) => {
                let kept = take_read(data);
                if starts_with_sentinel(kept.as_slice()) {
                    self.stop(TerminationReason::SentinelReceived)
                } else if kept.len() == 0 {
                    self.wait(now)
                } else {
                    let remaining = self.remaining(now);
                    (self, ListenerAction::Echo { payload: kept, remaining })
                }
            },
            ListenerEvent::ReceiveFailed { detail, recoverable } => {
                if recoverable {
                    self.wait(now)
                } else {
                    self.stop(TerminationReason::TransportError(detail))
                }
            },
            ListenerEvent::WaitElapsed => {
                if self.remaining(now) == 0 {
                    self.stop(TerminationReason::IdleTimeout)
                } else {
                    self.wait(now)
                }
            },
            _ => self.wait(now),
        }
    }

    fn on_udp_listening(self, now: u64, event: ListenerEvent) -> (next: (
        ProbeListener,
        ListenerAction,
    ))
        ensures
            (next.0@, next.1@) == step_udp_listening(self@, now as nat, event@),
    {
        match event {
            ListenerEvent::Received(data) => {
                let kept = take_read(data);
                if starts_with_sentinel(kept.as_slice()) {
                    self.stop(TerminationReason::SentinelReceived)
                } else {
                    let remaining = self.idle_timeout;
                    (
                        ProbeListener {
                            protocol: self.protocol,
                            state: self.state,
                            idle_timeout: self.idle_timeout,
                            armed_at: now,
                        },
                        ListenerAction::Wait { remaining },
                    )
                }
            },
            ListenerEvent::ReceiveFailed { detail, recoverable } => self.stop(
                TerminationReason::TransportError(detail),
            ),
            ListenerEvent::WaitElapsed => {
                if self.remaining(now) == 0 {
                    self.stop(TerminationReason::IdleTimeout)
                } else {
                    self.wait(now)
                }
            },
            _ => self.wait(now),
        }
    }

    /// Takes one event, reported at instant `now`, and answers with the
    /// listener as it stands afterwards and what it needs next.
    pub fn step(self, now: u64, event: ListenerEvent) -> (next: (ProbeListener, ListenerAction))
        ensures
            (next.0@, next.1@) == listener_step(self@, now as nat, event@),
    {
        if self.state.is_starting() {
            self.on_starting(now, event)
        } else if self.state.is_listening() {
            match self.protocol {
                Protocol::Tcp => self.on_tcp_listening(now, event),
                Protocol::Udp => self.on_udp_listening(now, event),
            }
        } else {
            (self, ListenerAction::Stop)
        }
    }
}

} // verus!
