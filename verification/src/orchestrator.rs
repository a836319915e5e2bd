//! The probe orchestrator: the order of a run.
//!
//! A run starts both listeners, waits until each has either begun to listen
//! or failed to bind, lets a settle delay pass, runs the client, waits for
//! both listeners to terminate, and reports what the four of them came to.
//! The orchestrator decides each of these steps from what it is told; the
//! caller starts the tasks, keeps the clock and passes the news on.

use vstd::prelude::*;
use crate::client::{ProbeReport, ProbeReportView};
use crate::status::{
    latest, ListenerState, ListenerStateView, ProbeOutcome, ProbeOutcomeView, Protocol,
    TerminationReason, TerminationReasonView,
};

verus! {

/// The stretch of a run that the orchestrator is in.
#[derive(Clone, Copy, Debug, PartialEq, Eq, Structural)]
pub enum RunPhase {
    /// Nothing has been started.
    Idle,
    /// The listeners have been started; at least one has yet to bind.
    Starting,
    /// Both listeners are past binding; the settle delay is running.
    Settling,
    /// The client is at work.
    Probing,
    /// The client is done; at least one listener is still up.
    Draining,
    /// Everything has ended.
    Finished,
}

impl RunPhase {
    /// How far along a run the phase is, from 0 for `Idle` to 5 for
    /// `Finished`.
    pub open spec fn rank(self) -> nat {
        match self {
            RunPhase::Idle => 0,
            RunPhase::Starting => 1,
            RunPhase::Settling => 2,
            RunPhase::Probing => 3,
            RunPhase::Draining => 4,
            RunPhase::Finished => 5,
        }
    }
}

/// What the caller reports to the orchestrator.
#[derive(Clone, Debug, PartialEq, Eq)]
pub enum RunEvent {
    /// The run is to begin.
    Start,
    /// The listener of this protocol has begun to listen.
    ListenerReady(Protocol),
    /// The listener of this protocol has terminated.
    ListenerTerminated(Protocol, TerminationReason),
    /// The settle delay has passed.
    SettleElapsed,
    /// The client has an outcome for each protocol.
    ProbeCompleted(ProbeReport),
}

pub enum RunEventView {
    Start,
    ListenerReady(Protocol),
    ListenerTerminated(Protocol, TerminationReasonView),
    SettleElapsed,
    ProbeCompleted(ProbeReportView),
}

impl View for RunEvent {
    type V = RunEventView;

    open spec fn view(&self) -> RunEventView {
        match self {
            RunEvent::Start => RunEventView::Start,
            RunEvent::ListenerReady(protocol) => RunEventView::ListenerReady(*protocol),
            RunEvent::ListenerTerminated(protocol, reason) => RunEventView::ListenerTerminated(
                *protocol,
                reason@,
            ),
            RunEvent::SettleElapsed => RunEventView::SettleElapsed,
            RunEvent::ProbeCompleted(report) => RunEventView::ProbeCompleted(report@),
        }
    }
}

/// What the orchestrator asks of the caller.
#[derive(Clone, Copy, Debug, PartialEq, Eq, Structural)]
pub enum RunAction {
    /// Start the TCP and the UDP listener, side by side.
    StartListeners,
    /// Nothing new: pass on the next piece of news.
    Wait,
    /// Let `delay` ticks pass, then report `SettleElapsed`.
    Settle { delay: u64 },
    /// Run the client against both protocols, side by side.
    RunClient,
    /// The run is over: take the result.
    Finish,
}

/// What a run came to.
#[derive(Clone, Debug, PartialEq, Eq)]
pub struct AggregateResult {
    pub tcp_listener_result: TerminationReason,
    pub udp_listener_result: TerminationReason,
    pub tcp_probe_outcome: ProbeOutcome,
    pub udp_probe_outcome: ProbeOutcome,
}

pub struct AggregateResultView {
    pub tcp_listener_result: TerminationReasonView,
    pub udp_listener_result: TerminationReasonView,
    pub tcp_probe_outcome: ProbeOutcomeView,
    pub udp_probe_outcome: ProbeOutcomeView,
}

impl AggregateResultView {
    /// A run succeeds when both listeners were stopped by the sentinel, and
    /// only then.
    pub open spec fn succeeded(self) -> bool {
        self.tcp_listener_result is SentinelReceived && self.udp_listener_result
            is SentinelReceived
    }
}

impl View for AggregateResult {
    type V = AggregateResultView;

    open spec fn view(&self) -> AggregateResultView {
        AggregateResultView {
            tcp_listener_result: self.tcp_listener_result@,
            udp_listener_result: self.udp_listener_result@,
            tcp_probe_outcome: self.tcp_probe_outcome@,
            udp_probe_outcome: self.udp_probe_outcome@,
        }
    }
}

impl AggregateResult {
    /// Whether the run as a whole succeeded. An idle timeout or a transport
    /// error on either listener fails the run, whatever the client found.
    pub fn succeeded(&self) -> (yes: bool)
        ensures
            yes == self@.succeeded(),
    {
        self.tcp_listener_result.is_sentinel() && self.udp_listener_result.is_sentinel()
    }
}

/// An orchestrator as the contracts see it.
pub struct OrchestratorView {
    pub phase: RunPhase,
    /// The TCP listener, as far as news of it has come in.
    pub tcp: ListenerStateView,
    /// The UDP listener, likewise.
    pub udp: ListenerStateView,
    /// The client's report, once it is in.
    pub report: Option<ProbeReportView>,
    pub settle_delay: u64,
}

impl OrchestratorView {
    /// The orchestrator before a run.
    pub open spec fn idle(settle_delay: u64) -> OrchestratorView {
        OrchestratorView {
            phase: RunPhase::Idle,
            tcp: ListenerStateView::Starting,
            udp: ListenerStateView::Starting,
            report: None,
            settle_delay,
        }
    }

    pub open spec fn in_phase(self, phase: RunPhase) -> OrchestratorView {
        OrchestratorView { phase, ..self }
    }

    /// The orchestrator once `news` of the listener of `protocol` is in.
    pub open spec fn heard(self, protocol: Protocol, news: ListenerStateView) -> OrchestratorView {
        match protocol {
            Protocol::Tcp => OrchestratorView { tcp: latest(self.tcp, news), ..self },
            Protocol::Udp => OrchestratorView { udp: latest(self.udp, news), ..self },
        }
    }

    /// Both listeners are past binding: each listens or has terminated.
    pub open spec fn listeners_started(self) -> bool {
        !(self.tcp is Starting) && !(self.udp is Starting)
    }

    pub open spec fn listeners_terminated(self) -> bool {
        self.tcp is Terminated && self.udp is Terminated
    }

    /// What holds of every orchestrator that a run can reach: the phase
    /// agrees with what is known of the listeners and of the client.
    pub open spec fn wf(self) -> bool {
        match self.phase {
            RunPhase::Idle => self.tcp is Starting && self.udp is Starting && self.report is None,
            RunPhase::Starting => !self.listeners_started() && self.report is None,
            RunPhase::Settling => self.listeners_started() && self.report is None,
            RunPhase::Probing => self.listeners_started() && self.report is None,
            RunPhase::Draining => self.listeners_started() && !self.listeners_terminated()
                && self.report is Some,
            RunPhase::Finished => self.listeners_terminated() && self.report is Some,
        }
    }

    /// The result of the run, once it is finished.
    pub open spec fn result(self) -> Option<AggregateResultView> {
        match (self.phase, self.tcp, self.udp, self.report) {
            (
                RunPhase::Finished,
                ListenerStateView::Terminated(tcp),
                ListenerStateView::Terminated(udp),
                Some(report),
            ) => Some(
                AggregateResultView {
                    tcp_listener_result: tcp,
                    udp_listener_result: udp,
                    tcp_probe_outcome: report.tcp,
                    udp_probe_outcome: report.udp,
                },
            ),
            _ => None,
        }
    }
}

/// Where the orchestrator goes once news has changed what it knows. The
/// settle delay begins when both listeners are past binding; the run ends
/// when the client is done and both listeners have terminated.
pub open spec fn move_on(o: OrchestratorView) -> (OrchestratorView, RunAction) {
    match o.phase {
        RunPhase::Starting => if o.listeners_started() {
            (o.in_phase(RunPhase::Settling), RunAction::Settle { delay: o.settle_delay })
        } else {
            (o, RunAction::Wait)
        },
        RunPhase::Draining => if o.listeners_terminated() {
            (o.in_phase(RunPhase::Finished), RunAction::Finish)
        } else {
            (o, RunAction::Wait)
        },
        _ => (o, RunAction::Wait),
    }
}

/// The orchestrator's whole behaviour: where it stands after `event`, and
/// what it asks for next.
pub open spec fn orchestrator_step(o: OrchestratorView, event: RunEventView) -> (
    OrchestratorView,
    RunAction,
) {
    match o.phase {
        RunPhase::Idle => match event {
            RunEventView::Start => (o.in_phase(RunPhase::Starting), RunAction::StartListeners),
            _ => (o, RunAction::Wait),
        },
        RunPhase::Finished => (o, RunAction::Finish),
        _ => match event {
            RunEventView::Start => (o, RunAction::Wait),
            RunEventView::ListenerReady(protocol) => move_on(
                o.heard(protocol, ListenerStateView::Listening),
            ),
            RunEventView::ListenerTerminated(protocol, reason) => move_on(
                o.heard(protocol, ListenerStateView::Terminated(reason)),
            ),
            RunEventView::SettleElapsed => if o.phase == RunPhase::Settling {
                (o.in_phase(RunPhase::Probing), RunAction::RunClient)
            } else {
                (o, RunAction::Wait)
            },
            RunEventView::ProbeCompleted(report) => if o.phase == RunPhase::Probing {
                move_on(
                    OrchestratorView { phase: RunPhase::Draining, report: Some(report), ..o },
                )
            } else {
                (o, RunAction::Wait)
            },
        },
    }
}

/// The orchestrator of one run.
#[derive(Clone, Debug, PartialEq, Eq)]
pub struct Orchestrator {
    phase: RunPhase,
    tcp: ListenerState,
    udp: ListenerState,
    report: Option<ProbeReport>,
    settle_delay: u64,
}

impl View for Orchestrator {
    type V = OrchestratorView;

    closed spec fn view(&self) -> OrchestratorView {
        OrchestratorView {
            phase: self.phase,
            tcp: self.tcp@,
            udp: self.udp@,
            report: match self.report {
                Some(report) => Some(report@),
                None => None,
            },
            settle_delay: self.settle_delay,
        }
    }
}

impl Orchestrator {
    /// An orchestrator before its run, with `settle_delay` ticks to pass
    /// between the listeners' start and the probe.
    pub fn new(settle_delay: u64) -> (orchestrator: Orchestrator)
        ensures
            orchestrator@ == OrchestratorView::idle(settle_delay),
            orchestrator@.wf(),
    {
        Orchestrator {
            phase: RunPhase::Idle,
            tcp: ListenerState::Starting,
            udp: ListenerState::Starting,
            report: None,
            settle_delay,
        }
    }

    pub fn phase(&self) -> (phase: RunPhase)
        ensures
            phase == self@.phase,
    {
        self.phase
    }

    /// What is known of the listener of `protocol`.
    pub fn listener(&self, protocol: Protocol) -> (state: &ListenerState)
        ensures
            state@ == match protocol {
                Protocol::Tcp => self@.tcp,
                Protocol::Udp => self@.udp,
            },
    {
        match protocol {
            Protocol::Tcp => &self.tcp,
            Protocol::Udp => &self.udp,
        }
    }

    /// The result of the run: `Some` once the run is finished, `None`
    /// before.
    pub fn into_result(self) -> (result: Option<AggregateResult>)
        ensures
            match result {
                Some(r) => self@.result() == Some(r@),
                None => self@.result() is None,
            },
            self@.wf() ==> (result is Some <==> self@.phase == RunPhase::Finished),
    {
        match (self.phase, self.tcp, self.udp, self.report) {
            (
                RunPhase::Finished,
                ListenerState::Terminated(tcp),
                ListenerState::Terminated(udp),
                Some(report),
            ) => Some(
                AggregateResult {
                    tcp_listener_result: tcp,
                    udp_listener_result: udp,
                    tcp_probe_outcome: report.tcp,
                    udp_probe_outcome: report.udp,
                },
            ),
            _ => None,
        }
    }

    fn in_phase(self, phase: RunPhase) -> (next: Orchestrator)
        ensures
            next@ == self@.in_phase(phase),
    {
        Orchestrator {
            phase,
            tcp: self.tcp,
            udp: self.udp,
            report: self.report,
            settle_delay: self.settle_delay,
        }
    }

    fn heard(self, protocol: Protocol, news: ListenerState) -> (next: Orchestrator)
        ensures
            next@ == self@.heard(protocol, news@),
    {
        match protocol {
            Protocol::Tcp => Orchestrator {
                phase: self.phase,
                tcp: self.tcp.advanced_to(news),
                udp: self.udp,
                report: self.report,
                settle_delay: self.settle_delay,
            },
            Protocol::Udp => Orchestrator {
                phase: self.phase,
                tcp: self.tcp,
                udp: self.udp.advanced_to(news),
                report: self.report,
                settle_delay: self.settle_delay,
            },
        }
    }

    fn move_on(self) -> (next: (Orchestrator, RunAction))
        ensures
            (next.0@, next.1) == move_on(self@),
    {
        match self.phase {
            RunPhase::Starting => {
                if !self.tcp.is_starting() && !self.udp.is_starting() {
                    let delay = self.settle_delay;
                    (self.in_phase(RunPhase::Settling), RunAction::Settle { delay })
                } else {
                    (self, RunAction::Wait)
                }
            },
            RunPhase::Draining => {
                if self.tcp.is_terminated() && self.udp.is_terminated() {
                    (self.in_phase(RunPhase::Finished), RunAction::Finish)
                } else {
                    (self, RunAction::Wait)
                }
            },
            _ => (self, RunAction::Wait),
        }
    }

    /// Takes one event and answers with the orchestrator as it stands
    /// afterwards and what it needs next.
    pub fn step(self, event: RunEvent) -> (next: (Orchestrator, RunAction))
        ensures
            (next.0@, next.1) == orchestrator_step(self@, event@),
            self@.wf() ==> next.0@.wf(),
    {
        match self.phase {
            RunPhase::Idle => match event {
                RunEvent::Start => (self.in_phase(RunPhase::Starting), RunAction::StartListeners),
                _ => (self, RunAction::Wait),
            },
            RunPhase::Finished => (self, RunAction::Finish),
            _ => match event {
                RunEvent::Start => (self, RunAction::Wait),
                RunEvent::ListenerReady(protocol) => self.heard(
                    protocol,
                    ListenerState::Listening,
                ).move_on(),
                RunEvent::ListenerTerminated(protocol, reason) => self.heard(
                    protocol,
                    ListenerState::Terminated(reason),
                ).move_on(),
                RunEvent::SettleElapsed => match self.phase {
                    RunPhase::Settling => (self.in_phase(RunPhase::Probing), RunAction::RunClient),
                    _ => (self, RunAction::Wait),
                },
                RunEvent::ProbeCompleted(report) => match self.phase {
                    RunPhase::Probing => {
                        let drained = Orchestrator {
                            phase: RunPhase::Draining,
                            tcp: self.tcp,
                            udp: self.udp,
                            report: Some(report),
                            settle_delay: self.settle_delay,
                        };
                        drained.move_on()
                    },
                    _ => (self, RunAction::Wait),
                },
            },
        }
    }
}

} // verus!
