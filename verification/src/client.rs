//! The probe client: one attempt per protocol, each a small state machine.
//!
//! A TCP attempt connects within a time limit and then sends the sentinel;
//! whether the port is reachable is settled by the connection alone. A UDP
//! attempt binds a local socket and sends the sentinel; it is settled by
//! whether the datagram left this host, since nothing is awaited in reply.
//! Either way the attempt ends in exactly one `ProbeOutcome`, and never in
//! an error of its own.

use vstd::prelude::*;
use crate::sentinel::{sentinel, sentinel_message};
use crate::status::{ProbeOutcome, ProbeOutcomeView, Protocol};

verus! {

/// What the owner of the socket reports to the client.
#[derive(Clone, Debug, PartialEq, Eq)]
pub enum ClientEvent {
    /// TCP: the connection was made. UDP: the local socket is bound.
    Opened,
    /// TCP: the connection was refused or failed. UDP: no local socket
    /// could be bound.
    OpenFailed(String),
    /// The time limit ran out first.
    OpenTimedOut,
    /// The sentinel was written in full.
    Sent,
    /// The sentinel could not be written.
    SendFailed(String),
}

pub enum ClientEventView {
    Opened,
    OpenFailed(Seq<char>),
    OpenTimedOut,
    Sent,
    SendFailed(Seq<char>),
}

impl View for ClientEvent {
    type V = ClientEventView;

    open spec fn view(&self) -> ClientEventView {
        match self {
            ClientEvent::Opened => ClientEventView::Opened,
            ClientEvent::OpenFailed(detail) => ClientEventView::OpenFailed(detail@),
            ClientEvent::OpenTimedOut => ClientEventView::OpenTimedOut,
            ClientEvent::Sent => ClientEventView::Sent,
            ClientEvent::SendFailed(detail) => ClientEventView::SendFailed(detail@),
        }
    }
}

/// What the client asks of the owner of the socket.
#[derive(Clone, Debug, PartialEq, Eq)]
pub enum ClientAction {
    /// TCP: connect to the target, giving up after `timeout` ticks. UDP:
    /// bind a local socket on any free port.
    Open { timeout: u64 },
    /// Send `payload` to the target.
    Send { payload: Vec<u8> },
    /// Nothing more: the outcome stands.
    Done,
}

pub enum ClientActionView {
    Open { timeout: nat },
    Send { payload: Seq<u8> },
    Done,
}

impl View for ClientAction {
    type V = ClientActionView;

    open spec fn view(&self) -> ClientActionView {
        match self {
            ClientAction::Open { timeout } => ClientActionView::Open { timeout: *timeout as nat },
            ClientAction::Send { payload } => ClientActionView::Send { payload: payload@ },
            ClientAction::Done => ClientActionView::Done,
        }
    }
}

/// How far an attempt has come.
#[derive(Clone, Debug, PartialEq, Eq)]
pub enum ProbeStage {
    /// Connecting, or binding the local socket.
    Opening,
    /// Sending the sentinel.
    Sending,
    /// Over, with the outcome.
    Finished(ProbeOutcome),
}

pub enum ProbeStageView {
    Opening,
    Sending,
    Finished(ProbeOutcomeView),
}

impl View for ProbeStage {
    type V = ProbeStageView;

    open spec fn view(&self) -> ProbeStageView {
        match self {
            ProbeStage::Opening => ProbeStageView::Opening,
            ProbeStage::Sending => ProbeStageView::Sending,
            ProbeStage::Finished(outcome) => ProbeStageView::Finished(outcome@),
        }
    }
}

/// A client attempt as the contracts see it.
pub struct ClientView {
    pub protocol: Protocol,
    pub stage: ProbeStageView,
    /// Ticks allowed for connecting.
    pub timeout: nat,
}

impl ClientView {
    /// An attempt that has yet to open its socket.
    pub open spec fn opening(protocol: Protocol, timeout: nat) -> ClientView {
        ClientView { protocol, stage: ProbeStageView::Opening, timeout }
    }

    pub open spec fn finished(self, outcome: ProbeOutcomeView) -> ClientView {
        ClientView { stage: ProbeStageView::Finished(outcome), ..self }
    }

    pub open spec fn sending(self) -> ClientView {
        ClientView { stage: ProbeStageView::Sending, ..self }
    }
}

/// What a finished send means. For TCP the port was reached when the
/// connection was made, and a failed write takes nothing away from that.
/// For UDP the send is the whole probe.
pub open spec fn outcome_of_send(protocol: Protocol, failure: Option<Seq<char>>) -> ProbeOutcomeView {
    match (protocol, failure) {
        (Protocol::Udp, Some(detail)) => ProbeOutcomeView::ConnectFailed(detail),
        _ => ProbeOutcomeView::Reachable,
    }
}

/// The client's whole behaviour: the stage it moves to on `event`, and what
/// it asks for next. An event that does not belong to the stage changes
/// nothing, and the client repeats what it is waiting for.
pub open spec fn client_step(c: ClientView, event: ClientEventView) -> (ClientView, ClientActionView) {
    match c.stage {
        ProbeStageView::Opening => match event {
            ClientEventView::Opened => (c.sending(), ClientActionView::Send { payload: sentinel() }),
            ClientEventView::OpenFailed(detail) => (
                c.finished(ProbeOutcomeView::ConnectFailed(detail)),
                ClientActionView::Done,
            ),
            ClientEventView::OpenTimedOut => (
                c.finished(ProbeOutcomeView::TimedOut),
                ClientActionView::Done,
            ),
            _ => (c, ClientActionView::Open { timeout: c.timeout }),
        },
        ProbeStageView::Sending => match event {
            ClientEventView::Sent => (
                c.finished(outcome_of_send(c.protocol, None)),
                ClientActionView::Done,
            ),
            ClientEventView::SendFailed(detail) => (
                c.finished(outcome_of_send(c.protocol, Some(detail))),
                ClientActionView::Done,
            ),
            _ => (c, ClientActionView::Send { payload: sentinel() }),
        },
        ProbeStageView::Finished(_) => (c, ClientActionView::Done),
    }
}

/// One protocol's client attempt.
#[derive(Clone, Debug, PartialEq, Eq)]
pub struct ProbeClient {
    protocol: Protocol,
    stage: ProbeStage,
    timeout: u64,
}

impl View for ProbeClient {
    type V = ClientView;

    closed spec fn view(&self) -> ClientView {
        ClientView { protocol: self.protocol, stage: self.stage@, timeout: self.timeout as nat }
    }
}

impl ProbeClient {
    /// An attempt that has yet to open its socket. Its first need is
    /// `Open`, with `timeout` ticks to connect in.
    pub fn new(protocol: Protocol, timeout: u64) -> (client: ProbeClient)
        ensures
            client@ == ClientView::opening(protocol, timeout as nat),
    {
        ProbeClient { protocol, stage: ProbeStage::Opening, timeout }
    }

    /// A new attempt together with the first thing it needs: `Open`, with
    /// `timeout` ticks to connect in.
    pub fn start(protocol: Protocol, timeout: u64) -> (first: (ProbeClient, ClientAction))
        ensures
            first.0@ == ClientView::opening(protocol, timeout as nat),
            first.1@ == (ClientActionView::Open { timeout: timeout as nat }),
    {
        (ProbeClient::new(protocol, timeout), ClientAction::Open { timeout })
    }

    pub fn protocol(&self) -> (protocol: Protocol)
        ensures
            protocol == self@.protocol,
    {
        self.protocol
    }

    pub fn stage(&self) -> (stage: &ProbeStage)
        ensures
            stage@ == self@.stage,
    {
        &self.stage
    }

    /// The outcome, once the attempt is over.
    pub fn into_outcome(self) -> (outcome: Option<ProbeOutcome>)
        ensures
            match outcome {
                Some(o) => self@.stage == ProbeStageView::Finished(o@),
                None => !(self@.stage is Finished),
            },
    {
        match self.stage {
            ProbeStage::Finished(outcome) => Some(outcome),
            _ => None,
        }
    }

    fn finish(self, outcome: ProbeOutcome) -> (next: (ProbeClient, ClientAction))
        ensures
            next.0@ == self@.finished(outcome@),
            next.1@ == ClientActionView::Done,
    {
        (
            ProbeClient {
                protocol: self.protocol,
                stage: ProbeStage::Finished(outcome),
                timeout: self.timeout,
            },
            ClientAction::Done,
        )
    }

    /// What a finished send means for this attempt.
    fn settle_send(self, failure: Option<String>) -> (next: (ProbeClient, ClientAction))
        ensures
            next.0@ == self@.finished(
                outcome_of_send(
                    self@.protocol,
                    match failure {
                        Some(detail) => Some(detail@),
                        None => None,
                    },
                ),
            ),
            next.1@ == ClientActionView::Done,
    {
        match (self.protocol, failure) {
            (Protocol::Udp, Some(detail)) => self.finish(ProbeOutcome::ConnectFailed(detail)),
            _ => self.finish(ProbeOutcome::Reachable),
        }
    }

    /// Takes one event and answers with the attempt as it stands afterwards
    /// and what it needs next.
    pub fn step(self, event: ClientEvent) -> (next: (ProbeClient, ClientAction))
        ensures
            (next.0@, next.1@) == client_step(self@, event@),
    {
        match self.stage {
            ProbeStage::Opening => match event {
                ClientEvent::Opened => (
                    ProbeClient {
                        protocol: self.protocol,
                        stage: ProbeStage::Sending,
                        timeout: self.timeout,
                    },
                    ClientAction::Send { payload: sentinel_message() },
                ),
                ClientEvent::OpenFailed(detail) => self.finish(ProbeOutcome::ConnectFailed(detail)),
                ClientEvent::OpenTimedOut => self.finish(ProbeOutcome::TimedOut),
                _ => {
                    let timeout = self.timeout;
                    (self, ClientAction::Open { timeout })
                },
            },
            ProbeStage::Sending => match event {
                ClientEvent::Sent => self.settle_send(None),
                ClientEvent::SendFailed(detail) => self.settle_send(Some(detail)),
                _ => (self, ClientAction::Send { payload: sentinel_message() }),
            },
            ProbeStage::Finished(_) => (self, ClientAction::Done),
        }
    }
}

/// What the client found, one outcome per protocol.
#[derive(Clone, Debug, PartialEq, Eq)]
pub struct ProbeReport {
    pub tcp: ProbeOutcome,
    pub udp: ProbeOutcome,
}

pub struct ProbeReportView {
    pub tcp: ProbeOutcomeView,
    pub udp: ProbeOutcomeView,
}

impl View for ProbeReport {
    type V = ProbeReportView;

    open spec fn view(&self) -> ProbeReportView {
        ProbeReportView { tcp: self.tcp@, udp: self.udp@ }
    }
}

/// An attempt ends once and for all: whatever is reported to a finished
/// attempt, its outcome stands and it asks for nothing more.
pub proof fn law_outcome_is_final(c: ClientView, event: ClientEventView)
    requires
        c.stage is Finished,
    ensures
        client_step(c, event) == (c, ClientActionView::Done),
{
}

/// A TCP port is reachable exactly when the connection is made. Once
/// connected, the attempt sends the sentinel and ends `Reachable` whether
/// the write succeeds or fails; refused, it ends `ConnectFailed`; out of
/// time, `TimedOut`.
pub proof fn law_tcp_reachable_iff_connected(c: ClientView, sent: ClientEventView)
    requires
        c.protocol == Protocol::Tcp,
        c.stage is Opening,
        sent is Sent || sent is SendFailed,
    ensures
        client_step(c, ClientEventView::Opened) == (
            c.sending(),
            ClientActionView::Send { payload: sentinel() },
        ),
        client_step(c.sending(), sent) == (
            c.finished(ProbeOutcomeView::Reachable),
            ClientActionView::Done,
        ),
        forall|detail: Seq<char>| #[trigger]
            client_step(c, ClientEventView::OpenFailed(detail)) == (
                c.finished(ProbeOutcomeView::ConnectFailed(detail)),
                ClientActionView::Done,
            ),
        client_step(c, ClientEventView::OpenTimedOut) == (
            c.finished(ProbeOutcomeView::TimedOut),
            ClientActionView::Done,
        ),
{
}

/// A UDP probe reports on the send and on nothing else: `Reachable` when
/// the datagram left this host, `ConnectFailed` when it could not be sent
/// or no local socket could be had. Whether anyone receives it plays no
/// part.
pub proof fn law_udp_outcome_is_local_send(c: ClientView, detail: Seq<char>)
    requires
        c.protocol == Protocol::Udp,
        c.stage is Opening,
    ensures
        client_step(c, ClientEventView::Opened) == (
            c.sending(),
            ClientActionView::Send { payload: sentinel() },
        ),
        client_step(c.sending(), ClientEventView::Sent) == (
            c.finished(ProbeOutcomeView::Reachable),
            ClientActionView::Done,
        ),
        client_step(c.sending(), ClientEventView::SendFailed(detail)) == (
            c.finished(ProbeOutcomeView::ConnectFailed(detail)),
            ClientActionView::Done,
        ),
        client_step(c, ClientEventView::OpenFailed(detail)) == (
            c.finished(ProbeOutcomeView::ConnectFailed(detail)),
            ClientActionView::Done,
        ),
{
}

} // verus!
