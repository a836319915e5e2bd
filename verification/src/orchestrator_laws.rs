//! What holds of an orchestrator over any run of events.

use vstd::prelude::*;
use crate::client::ProbeReportView;
use crate::orchestrator::{
    orchestrator_step, AggregateResultView, OrchestratorView, RunAction, RunEventView, RunPhase,
};
use crate::status::{ListenerStateView, Protocol, TerminationReasonView};

verus! {

/// The orchestrator after the whole of `events`, starting from `o`.
pub open spec fn orchestrator_run(o: OrchestratorView, events: Seq<RunEventView>) -> OrchestratorView
    decreases events.len(),
{
    if events.len() == 0 {
        o
    } else {
        orchestrator_step(orchestrator_run(o, events.drop_last()), events.last()).0
    }
}

/// No listener is reported terminated anywhere in `events`.
pub open spec fn no_listener_terminates(events: Seq<RunEventView>) -> bool {
    forall|i: int| 0 <= i < events.len() ==> !(#[trigger] events[i] is ListenerTerminated)
}

/// Every step keeps the orchestrator well formed and takes it forward only:
/// the phase never goes back, neither does what is known of a listener, the
/// client's report stays once it is in, and the settle delay is fixed.
pub proof fn law_step_moves_forward(o: OrchestratorView, event: RunEventView)
    requires
        o.wf(),
    ensures
        orchestrator_step(o, event).0.wf(),
        orchestrator_step(o, event).0.phase.rank() >= o.phase.rank(),
        orchestrator_step(o, event).0.tcp.rank() >= o.tcp.rank(),
        orchestrator_step(o, event).0.udp.rank() >= o.udp.rank(),
        o.tcp is Terminated ==> orchestrator_step(o, event).0.tcp == o.tcp,
        o.udp is Terminated ==> orchestrator_step(o, event).0.udp == o.udp,
        o.report is Some ==> orchestrator_step(o, event).0.report == o.report,
        orchestrator_step(o, event).0.settle_delay == o.settle_delay,
{
}

/// The same over a whole run.
pub proof fn law_run_moves_forward(o: OrchestratorView, events: Seq<RunEventView>)
    requires
        o.wf(),
    ensures
        orchestrator_run(o, events).wf(),
        orchestrator_run(o, events).phase.rank() >= o.phase.rank(),
        orchestrator_run(o, events).tcp.rank() >= o.tcp.rank(),
        orchestrator_run(o, events).udp.rank() >= o.udp.rank(),
        o.tcp is Terminated ==> orchestrator_run(o, events).tcp == o.tcp,
        o.udp is Terminated ==> orchestrator_run(o, events).udp == o.udp,
        o.report is Some ==> orchestrator_run(o, events).report == o.report,
        orchestrator_run(o, events).settle_delay == o.settle_delay,
    decreases events.len(),
{
    if events.len() > 0 {
        law_run_moves_forward(o, events.drop_last());
        law_step_moves_forward(orchestrator_run(o, events.drop_last()), events.last());
    }
}

/// No probe while a listener is still starting. Whatever has been reported
/// since the run was idle, and in whatever order, the orchestrator asks for
/// the client only when the settle delay has passed and both listeners are
/// past binding. If no listener has terminated by then, both are listening.
pub proof fn law_probe_waits_for_listeners(
    settle_delay: u64,
    events: Seq<RunEventView>,
    event: RunEventView,
)
    ensures
        ({
            let o = orchestrator_run(OrchestratorView::idle(settle_delay), events);
            orchestrator_step(o, event).1 == RunAction::RunClient ==> {
                &&& event is SettleElapsed
                &&& o.phase == RunPhase::Settling
                &&& !(o.tcp is Starting)
                &&& !(o.udp is Starting)
                &&& no_listener_terminates(events) ==> o.tcp is Listening && o.udp is Listening
            }
        }),
{
    let idle = OrchestratorView::idle(settle_delay);
    law_run_moves_forward(idle, events);
    if no_listener_terminates(events) {
        lemma_none_terminated(idle, events);
    }
}

/// A listener is known to have terminated only if that was reported.
proof fn lemma_none_terminated(o: OrchestratorView, events: Seq<RunEventView>)
    requires
        !(o.tcp is Terminated),
        !(o.udp is Terminated),
        no_listener_terminates(events),
    ensures
        !(orchestrator_run(o, events).tcp is Terminated),
        !(orchestrator_run(o, events).udp is Terminated),
    decreases events.len(),
{
    if events.len() > 0 {
        let before = events.drop_last();
        assert forall|i: int| 0 <= i < before.len() implies !(#[trigger] before[i]
            is ListenerTerminated) by {
            assert(before[i] == events[i]);
        }
        lemma_none_terminated(o, before);
        assert(!(events[events.len() - 1] is ListenerTerminated));
    }
}

/// The listeners are started once and the client is run once. Only an idle
/// orchestrator asks for `StartListeners`, only a settling one for
/// `RunClient`, and a run never comes back to either phase.
pub proof fn law_each_task_starts_once(
    o: OrchestratorView,
    events: Seq<RunEventView>,
    event: RunEventView,
)
    requires
        o.wf(),
    ensures
        o.phase != RunPhase::Idle ==> orchestrator_step(orchestrator_run(o, events), event).1
            != RunAction::StartListeners,
        o.phase.rank() > RunPhase::Settling.rank() ==> orchestrator_step(
            orchestrator_run(o, events),
            event,
        ).1 != RunAction::RunClient,
{
    law_run_moves_forward(o, events);
}

/// A run has a result exactly when it is finished, and a finished run asks
/// for nothing but `Finish` and changes no more.
pub proof fn law_result_iff_finished(o: OrchestratorView, events: Seq<RunEventView>)
    requires
        o.wf(),
    ensures
        o.result() is Some <==> o.phase == RunPhase::Finished,
        o.phase == RunPhase::Finished ==> orchestrator_run(o, events) == o,
        o.phase == RunPhase::Finished ==> forall|event: RunEventView| #[trigger]
            orchestrator_step(o, event) == (o, RunAction::Finish),
    decreases events.len(),
{
    if events.len() > 0 {
        law_result_iff_finished(o, events.drop_last());
    }
}

/// The result tells the truth. In a finished run each listener's result is
/// the first termination reported for it, and the probe outcomes are those
/// of the one report the client made.
pub proof fn law_result_is_what_was_reported(o: OrchestratorView, event: RunEventView)
    requires
        o.wf(),
    ensures
        ({
            let next = orchestrator_step(o, event).0;
            match next.result() {
                Some(result) => {
                    &&& next.tcp == ListenerStateView::Terminated(result.tcp_listener_result)
                    &&& next.udp == ListenerStateView::Terminated(result.udp_listener_result)
                    &&& next.report == Some(
                        ProbeReportView { tcp: result.tcp_probe_outcome, udp: result.udp_probe_outcome },
                    )
                    &&& o.tcp is Terminated ==> next.tcp == o.tcp
                    &&& o.udp is Terminated ==> next.udp == o.udp
                    &&& o.report is Some ==> next.report == o.report
                    &&& event matches RunEventView::ListenerTerminated(protocol, reason) ==> (o.phase
                        != RunPhase::Finished && protocol == Protocol::Tcp && !(o.tcp
                        is Terminated) ==> result.tcp_listener_result == reason)
                    &&& event matches RunEventView::ListenerTerminated(protocol, reason) ==> (o.phase
                        != RunPhase::Finished && protocol == Protocol::Udp && !(o.udp
                        is Terminated) ==> result.udp_listener_result == reason)
                },
                None => next.phase != RunPhase::Finished,
            }
        }),
{
}

/// A bind failure is fatal to the run. Whatever the client found and however
/// the other listener ended, a run in which a listener could not bind has
/// not succeeded, and its result names the bind error.
pub proof fn law_bind_failure_fails_the_run(result: AggregateResultView)
    requires
        result.tcp_listener_result is BindFailed || result.udp_listener_result is BindFailed,
    ensures
        !result.succeeded(),
{
}

/// The run in its usual order. Started, told that both listeners listen,
/// that the settle delay has passed, what the client found, and how each
/// listener ended, the orchestrator asks in turn for the listeners, the
/// settle delay, the client and the end, and its result holds exactly what
/// it was told. The run succeeds when both listeners ended on the sentinel.
pub proof fn law_usual_run(
    settle_delay: u64,
    report: ProbeReportView,
    tcp_end: TerminationReasonView,
    udp_end: TerminationReasonView,
)
    ensures
        ({
            let s0 = OrchestratorView::idle(settle_delay);
            let (s1, a1) = orchestrator_step(s0, RunEventView::Start);
            let (s2, a2) = orchestrator_step(s1, RunEventView::ListenerReady(Protocol::Tcp));
            let (s3, a3) = orchestrator_step(s2, RunEventView::ListenerReady(Protocol::Udp));
            let (s4, a4) = orchestrator_step(s3, RunEventView::SettleElapsed);
            let (s5, a5) = orchestrator_step(s4, RunEventView::ProbeCompleted(report));
            let (s6, a6) = orchestrator_step(
                s5,
                RunEventView::ListenerTerminated(Protocol::Udp, udp_end),
            );
            let (s7, a7) = orchestrator_step(
                s6,
                RunEventView::ListenerTerminated(Protocol::Tcp, tcp_end),
            );
            &&& a1 == RunAction::StartListeners
            &&& a2 == RunAction::Wait
            &&& a3 == RunAction::Settle { delay: settle_delay }
            &&& a4 == RunAction::RunClient
            &&& a5 == RunAction::Wait
            &&& a6 == RunAction::Wait
            &&& a7 == RunAction::Finish
            &&& s7.result() == Some(
                AggregateResultView {
                    tcp_listener_result: tcp_end,
                    udp_listener_result: udp_end,
                    tcp_probe_outcome: report.tcp,
                    udp_probe_outcome: report.udp,
                },
            )
            &&& s7.result().unwrap().succeeded() <==> tcp_end is SentinelReceived && udp_end
                is SentinelReceived
        }),
{
}

} // verus!
