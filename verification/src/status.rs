//! The values by which the parts of a probe run describe themselves: the
//! protocol, a listener's lifecycle, and what a client attempt came to.

use vstd::prelude::*;

verus! {

/// The two transports that a run probes, side by side.
#[derive(Clone, Copy, Debug, PartialEq, Eq, Structural)]
pub enum Protocol {
    Tcp,
    Udp,
}

/// Failure to bind an endpoint, as reported by whoever owns the sockets: the
/// port is in use, permission is denied, or the address is not valid. It is
/// a kind of failure of its own, never counted as a transport error.
#[derive(Clone, Debug, PartialEq, Eq)]
pub struct BindError {
    pub reason: String,
}

pub struct BindErrorView {
    pub reason: Seq<char>,
}

impl View for BindError {
    type V = BindErrorView;

    open spec fn view(&self) -> BindErrorView {
        BindErrorView { reason: self.reason@ }
    }
}

/// Why a listener stopped.
#[derive(Clone, Debug, PartialEq, Eq)]
pub enum TerminationReason {
    /// A message that begins with the sentinel arrived.
    SentinelReceived,
    /// The idle clock ran out before a sentinel arrived.
    IdleTimeout,
    /// A read or receive failed for good while the listener was listening.
    TransportError(String),
    /// The endpoint could not be bound: the listener never listened. The
    /// error is the binder's own, handed on as it came.
    BindFailed(BindError),
}

pub enum TerminationReasonView {
    SentinelReceived,
    IdleTimeout,
    TransportError(Seq<char>),
    BindFailed(BindErrorView),
}

impl View for TerminationReason {
    type V = TerminationReasonView;

    open spec fn view(&self) -> TerminationReasonView {
        match self {
            TerminationReason::SentinelReceived => TerminationReasonView::SentinelReceived,
            TerminationReason::IdleTimeout => TerminationReasonView::IdleTimeout,
            TerminationReason::TransportError(detail) => TerminationReasonView::TransportError(
                detail@,
            ),
            TerminationReason::BindFailed(error) => TerminationReasonView::BindFailed(error@),
        }
    }
}

impl TerminationReason {
    /// Whether the listener stopped because the probe reached it.
    pub fn is_sentinel(&self) -> (yes: bool)
        ensures
            yes == (self@ is SentinelReceived),
    {
        match self {
            TerminationReason::SentinelReceived => true,
            _ => false,
        }
    }

    /// Whether the listener stopped because it could not bind.
    pub fn is_bind_failure(&self) -> (yes: bool)
        ensures
            yes == (self@ is BindFailed),
    {
        match self {
            TerminationReason::BindFailed(_) => true,
            _ => false,
        }
    }
}

/// Where a listener stands in its life. A listener only ever moves forward:
/// from `Starting` to `Listening` to `Terminated`. One that cannot bind
/// never listens: it is `Terminated` at once, with the bind error as the
/// reason.
#[derive(Clone, Debug, PartialEq, Eq)]
pub enum ListenerState {
    Starting,
    Listening,
    Terminated(TerminationReason),
}

pub enum ListenerStateView {
    Starting,
    Listening,
    Terminated(TerminationReasonView),
}

impl ListenerStateView {
    /// How far along its life a listener is: 0, 1 or 2.
    pub open spec fn rank(self) -> nat {
        match self {
            ListenerStateView::Starting => 0,
            ListenerStateView::Listening => 1,
            ListenerStateView::Terminated(_) => 2,
        }
    }
}

impl View for ListenerState {
    type V = ListenerStateView;

    open spec fn view(&self) -> ListenerStateView {
        match self {
            ListenerState::Starting => ListenerStateView::Starting,
            ListenerState::Listening => ListenerStateView::Listening,
            ListenerState::Terminated(reason) => ListenerStateView::Terminated(reason@),
        }
    }
}

/// What is known of a listener once `news` of it has come in: the news,
/// if it takes the listener further than `known`; otherwise `known`, so that
/// late or repeated news never takes a listener back.
pub open spec fn latest(known: ListenerStateView, news: ListenerStateView) -> ListenerStateView {
    if news.rank() > known.rank() {
        news
    } else {
        known
    }
}

impl ListenerState {
    /// How far along its life the listener is: 0, 1 or 2.
    pub fn rank(&self) -> (rank: u8)
        ensures
            rank == self@.rank(),
    {
        match self {
            ListenerState::Starting => 0,
            ListenerState::Listening => 1,
            ListenerState::Terminated(_) => 2,
        }
    }

    /// Takes in news of the listener, keeping whichever state is further
    /// along.
    pub fn advanced_to(self, news: ListenerState) -> (now: ListenerState)
        ensures
            now@ == latest(self@, news@),
    {
        if news.rank() > self.rank() {
            news
        } else {
            self
        }
    }

    pub fn is_starting(&self) -> (yes: bool)
        ensures
            yes == (self@ is Starting),
    {
        match self {
            ListenerState::Starting => true,
            _ => false,
        }
    }

    pub fn is_listening(&self) -> (yes: bool)
        ensures
            yes == (self@ is Listening),
    {
        match self {
            ListenerState::Listening => true,
            _ => false,
        }
    }

    pub fn is_terminated(&self) -> (yes: bool)
        ensures
            yes == (self@ is Terminated),
    {
        match self {
            ListenerState::Terminated(_) => true,
            _ => false,
        }
    }
}

/// What one protocol's client attempt came to.
#[derive(Clone, Debug, PartialEq, Eq)]
pub enum ProbeOutcome {
    /// TCP: the connection was made. UDP: the datagram left this host.
    Reachable,
    /// The attempt failed locally or was refused.
    ConnectFailed(String),
    /// The attempt did not finish within its time limit.
    TimedOut,
}

pub enum ProbeOutcomeView {
    Reachable,
    ConnectFailed(Seq<char>),
    TimedOut,
}

impl View for ProbeOutcome {
    type V = ProbeOutcomeView;

    open spec fn view(&self) -> ProbeOutcomeView {
        match self {
            ProbeOutcome::Reachable => ProbeOutcomeView::Reachable,
            ProbeOutcome::ConnectFailed(detail) => ProbeOutcomeView::ConnectFailed(detail@),
            ProbeOutcome::TimedOut => ProbeOutcomeView::TimedOut,
        }
    }
}

impl ProbeOutcome {
    pub fn is_reachable(&self) -> (yes: bool)
        ensures
            yes == (self@ is Reachable),
    {
        match self {
            ProbeOutcome::Reachable => true,
            _ => false,
        }
    }
}

} // verus!
