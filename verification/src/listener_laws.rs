//! What holds of a listener over any run of events.
//!
//! A run is a sequence of events, each with the instant at which it was
//! reported. The laws below are stated over `listener_run`, which feeds a
//! run to `listener_step` one event after the other.

use vstd::prelude::*;
use crate::config::READ_BUFFER_SIZE;
use crate::listener::{
    listener_step, taken, ListenerActionView, ListenerEventView, ListenerView,
};
use crate::sentinel::{has_sentinel_prefix, sentinel_prefix_survives_cut};
use crate::status::{BindErrorView, ListenerStateView, Protocol, TerminationReasonView};

verus! {

/// One entry of a run: the instant of the report, and the event.
pub struct Timed {
    pub now: nat,
    pub event: ListenerEventView,
}

/// The listener after the whole of `run`, starting from `l`.
pub open spec fn listener_run(l: ListenerView, run: Seq<Timed>) -> ListenerView
    decreases run.len(),
{
    if run.len() == 0 {
        l
    } else {
        listener_step(listener_run(l, run.drop_last()), run.last().now, run.last().event).0
    }
}

/// Traffic that a listening listener of `protocol` lives through without a
/// word: payload other than the sentinel and, for TCP, reads that failed
/// but can be survived.
pub open spec fn is_plain_traffic(protocol: Protocol, event: ListenerEventView) -> bool {
    match event {
        ListenerEventView::Received(data) => !has_sentinel_prefix(data),
        ListenerEventView::ReceiveFailed { detail, recoverable } => protocol == Protocol::Tcp
            && recoverable,
        _ => false,
    }
}

/// A run made of plain traffic only.
pub open spec fn only_plain_traffic(protocol: Protocol, run: Seq<Timed>) -> bool {
    forall|i: int| 0 <= i < run.len() ==> is_plain_traffic(protocol, #[trigger] run[i].event)
}

/// Whether `event` at `now` ends a listening listener, and how.
pub open spec fn ending(l: ListenerView, now: nat, event: ListenerEventView) -> Option<
    TerminationReasonView,
> {
    match event {
        ListenerEventView::Received(data) => if has_sentinel_prefix(data) {
            Some(TerminationReasonView::SentinelReceived)
        } else {
            None
        },
        ListenerEventView::ReceiveFailed { detail, recoverable } => if l.protocol == Protocol::Udp
            || !recoverable {
            Some(TerminationReasonView::TransportError(detail))
        } else {
            None
        },
        ListenerEventView::WaitElapsed => if l.expired(now) {
            Some(TerminationReasonView::IdleTimeout)
        } else {
            None
        },
        _ => None,
    }
}

/// Cutting a read to the buffer never hides nor makes up a sentinel.
pub proof fn law_taken_keeps_sentinel(data: Seq<u8>)
    ensures
        has_sentinel_prefix(taken(data)) == has_sentinel_prefix(data),
        taken(data).len() <= READ_BUFFER_SIZE,
        taken(data).is_prefix_of(data),
        data.len() <= READ_BUFFER_SIZE ==> taken(data) == data,
{
    if data.len() > READ_BUFFER_SIZE {
        sentinel_prefix_survives_cut(data, READ_BUFFER_SIZE as int);
    }
}

/// A listener only moves forward: no event takes it back to an earlier
/// state, and protocol and timeout are its own for life.
pub proof fn law_step_moves_forward(l: ListenerView, now: nat, event: ListenerEventView)
    ensures
        listener_step(l, now, event).0.state.rank() >= l.state.rank(),
        listener_step(l, now, event).0.protocol == l.protocol,
        listener_step(l, now, event).0.idle_timeout == l.idle_timeout,
{
}

/// The same over a whole run.
pub proof fn law_run_moves_forward(l: ListenerView, run: Seq<Timed>)
    ensures
        listener_run(l, run).state.rank() >= l.state.rank(),
        listener_run(l, run).protocol == l.protocol,
        listener_run(l, run).idle_timeout == l.idle_timeout,
    decreases run.len(),
{
    if run.len() > 0 {
        law_run_moves_forward(l, run.drop_last());
        law_step_moves_forward(listener_run(l, run.drop_last()), run.last().now, run.last().event);
    }
}

/// Termination is final: whatever is reported to a terminated listener, it
/// stays exactly as it was, reason included, and asks only for `Stop`.
pub proof fn law_terminated_is_final(l: ListenerView, run: Seq<Timed>)
    requires
        l.state is Terminated,
    ensures
        listener_run(l, run) == l,
        forall|now: nat, event: ListenerEventView| #[trigger]
            listener_step(l, now, event) == (l, ListenerActionView::Stop),
    decreases run.len(),
{
    if run.len() > 0 {
        law_terminated_is_final(l, run.drop_last());
    }
}

/// A failed bind is handed on as it is. A starting listener told that its
/// endpoint could not be bound stops at once, asks for nothing but `Stop`,
/// and gives as its reason the bind error it was told, whole: not an idle
/// timeout, and not a transport error.
pub proof fn law_bind_failure_is_handed_on(l: ListenerView, now: nat, error: BindErrorView)
    requires
        l.state is Starting,
    ensures
        listener_step(l, now, ListenerEventView::BindFailed(error)) == (
            l.terminated(TerminationReasonView::BindFailed(error)),
            ListenerActionView::Stop,
        ),
        !(listener_step(l, now, ListenerEventView::BindFailed(error)).0.state
            == ListenerStateView::Terminated(TerminationReasonView::IdleTimeout)),
        !(listener_step(l, now, ListenerEventView::BindFailed(error)).0.state matches ListenerStateView::Terminated(
            TerminationReasonView::TransportError(_),
        )),
{
}

/// Binding is the only thing a starting listener waits for. It leaves
/// `Starting` on word of the bind and on nothing else: bound, it listens
/// with its clock armed at that instant; not bound, it terminates with the
/// bind error. Until then it takes in no traffic and no clock, and asks to
/// bind.
pub proof fn law_starting_waits_for_the_bind(l: ListenerView, now: nat, event: ListenerEventView)
    requires
        l.state is Starting,
    ensures
        match event {
            ListenerEventView::Bound => listener_step(l, now, event) == (
                l.with_state(ListenerStateView::Listening).armed(now),
                ListenerActionView::Wait { remaining: l.idle_timeout },
            ),
            ListenerEventView::BindFailed(error) => listener_step(l, now, event) == (
                l.terminated(TerminationReasonView::BindFailed(error)),
                ListenerActionView::Stop,
            ),
            _ => listener_step(l, now, event) == (l, ListenerActionView::Bind),
        },
{
}

/// Only a listener that never listened ends on a bind failure: whatever is
/// reported to a listener that listens, or has listened, its reason for
/// stopping is never `BindFailed`.
pub proof fn law_listened_never_ends_on_bind_failure(l: ListenerView, run: Seq<Timed>)
    requires
        !(l.state is Starting),
        !(l.state matches ListenerStateView::Terminated(TerminationReasonView::BindFailed(_))),
    ensures
        !(listener_run(l, run).state is Starting),
        !(listener_run(l, run).state matches ListenerStateView::Terminated(
            TerminationReasonView::BindFailed(_),
        )),
    decreases run.len(),
{
    if run.len() > 0 {
        law_listened_never_ends_on_bind_failure(l, run.drop_last());
    }
}

/// A wait with nothing left on the clock ends the listener. Whenever a
/// listener asks for a wait of no ticks, the report that the wait is over,
/// made at that instant or any later one, stops it with `IdleTimeout`.
pub proof fn law_overdue_wait_ends_listener(
    l: ListenerView,
    now: nat,
    event: ListenerEventView,
    later: nat,
)
    requires
        listener_step(l, now, event).1.is_overdue(),
        later >= now,
    ensures
        listener_step(listener_step(l, now, event).0, later, ListenerEventView::WaitElapsed) == (
            listener_step(l, now, event).0.terminated(TerminationReasonView::IdleTimeout),
            ListenerActionView::Stop,
        ),
{
}

/// A listening listener stops on exactly three occasions: a sentinel, a
/// transport failure it cannot survive, and a wait that ends with the idle
/// clock run out. On each it stops with the matching reason and asks for
/// `Stop`; on anything else it goes on listening.
pub proof fn law_listening_ends_only_as_told(l: ListenerView, now: nat, event: ListenerEventView)
    requires
        l.state is Listening,
    ensures
        match ending(l, now, event) {
            Some(reason) => listener_step(l, now, event) == (
                l.terminated(reason),
                ListenerActionView::Stop,
            ),
            None => listener_step(l, now, event).0.state is Listening,
        },
{
    if let ListenerEventView::Received(data) = event {
        law_taken_keeps_sentinel(data);
    }
}

/// A run through which a listening listener lives: none of its events, met
/// in the state that the events before it have led to, is an ending one.
pub open spec fn uneventful(l: ListenerView, run: Seq<Timed>) -> bool
    decreases run.len(),
{
    run.len() == 0 || (uneventful(l, run.drop_last()) && ending(
        listener_run(l, run.drop_last()),
        run.last().now,
        run.last().event,
    ) is None)
}

/// A listener listens until something ends it. Through a run with no
/// sentinel, no fatal failure and no wait that outlasts the idle clock it
/// goes on listening; the first event that is one of these stops it, with
/// the reason that belongs to the event.
pub proof fn law_listening_until_ended(
    l: ListenerView,
    run: Seq<Timed>,
    now: nat,
    event: ListenerEventView,
)
    requires
        l.state is Listening,
        uneventful(l, run),
    ensures
        listener_run(l, run).state is Listening,
        match ending(listener_run(l, run), now, event) {
            Some(reason) => listener_run(l, run.push(Timed { now, event })).state
                == ListenerStateView::Terminated(reason),
            None => listener_run(l, run.push(Timed { now, event })).state is Listening,
        },
    decreases run.len(),
{
    if run.len() > 0 {
        let before = run.drop_last();
        law_listening_until_ended(l, before, run.last().now, run.last().event);
        assert(before.push(run.last()) =~= run);
    }
    assert(run.push(Timed { now, event }).drop_last() =~= run);
    law_listening_ends_only_as_told(listener_run(l, run), now, event);
}

/// Plain traffic, however much of it, leaves a listener listening.
pub proof fn law_plain_traffic_keeps_listening(l: ListenerView, run: Seq<Timed>)
    requires
        l.state is Listening,
        only_plain_traffic(l.protocol, run),
    ensures
        listener_run(l, run).state is Listening,
        listener_run(l, run).protocol == l.protocol,
        listener_run(l, run).idle_timeout == l.idle_timeout,
    decreases run.len(),
{
    if run.len() > 0 {
        let before = run.drop_last();
        assert forall|i: int| 0 <= i < before.len() implies is_plain_traffic(
            l.protocol,
            #[trigger] before[i].event,
        ) by {
            assert(before[i] == run[i]);
        }
        law_plain_traffic_keeps_listening(l, before);
        assert(is_plain_traffic(l.protocol, run[run.len() - 1].event));
        law_listening_ends_only_as_told(listener_run(l, before), run.last().now, run.last().event);
    }
}

/// The sentinel always works. Sent to a listening listener of either
/// protocol, at any instant, after any amount of plain traffic, with
/// anything behind the prefix, it ends the listener with `SentinelReceived`
/// and never with `IdleTimeout`, however long ago the clock ran out. Sent
/// again, it changes nothing.
pub proof fn law_sentinel_always_terminates(
    l: ListenerView,
    before: Seq<Timed>,
    now: nat,
    data: Seq<u8>,
    after: Seq<Timed>,
)
    requires
        l.state is Listening,
        only_plain_traffic(l.protocol, before),
        has_sentinel_prefix(data),
    ensures
        listener_run(l, before.push(Timed { now, event: ListenerEventView::Received(data) })).state
            == ListenerStateView::Terminated(TerminationReasonView::SentinelReceived),
        listener_run(
            l,
            before.push(Timed { now, event: ListenerEventView::Received(data) }) + after,
        ).state == ListenerStateView::Terminated(TerminationReasonView::SentinelReceived),
{
    let hit = Timed { now, event: ListenerEventView::Received(data) };
    let through = before.push(hit);
    assert(through.drop_last() =~= before);
    law_plain_traffic_keeps_listening(l, before);
    law_listening_ends_only_as_told(listener_run(l, before), now, hit.event);
    law_run_splits(l, through, after);
    law_terminated_is_final(listener_run(l, through), after);
}

/// A run can be cut anywhere: running the two parts in turn is running the
/// whole.
pub proof fn law_run_splits(l: ListenerView, first: Seq<Timed>, second: Seq<Timed>)
    ensures
        listener_run(l, first + second) == listener_run(listener_run(l, first), second),
    decreases second.len(),
{
    if second.len() == 0 {
        assert(first + second =~= first);
    } else {
        assert((first + second).drop_last() =~= first + second.drop_last());
        assert((first + second).last() == second.last());
        law_run_splits(l, first, second.drop_last());
    }
}

/// The TCP clock is absolute. Plain traffic does not move it: after any
/// amount, the clock still counts from the instant the listener began to
/// listen, and every wait it asks for ends at that same deadline.
pub proof fn law_tcp_clock_is_absolute(l: ListenerView, run: Seq<Timed>)
    requires
        l.protocol == Protocol::Tcp,
        l.state is Listening,
        only_plain_traffic(Protocol::Tcp, run),
    ensures
        listener_run(l, run) == l,
    decreases run.len(),
{
    if run.len() > 0 {
        let before = run.drop_last();
        assert forall|i: int| 0 <= i < before.len() implies is_plain_traffic(
            Protocol::Tcp,
            #[trigger] before[i].event,
        ) by {
            assert(before[i] == run[i]);
        }
        law_tcp_clock_is_absolute(l, before);
        assert(is_plain_traffic(Protocol::Tcp, run[run.len() - 1].event));
        if let ListenerEventView::Received(data) = run.last().event {
            law_taken_keeps_sentinel(data);
        }
    }
}

/// A TCP listener that gets no sentinel within its window ends with
/// `IdleTimeout`, whatever plain traffic came first: once `idle_timeout`
/// ticks have gone by since it began to listen, the next wait that ends
/// stops it.
pub proof fn law_tcp_idles_out_despite_traffic(l: ListenerView, traffic: Seq<Timed>, now: nat)
    requires
        l.protocol == Protocol::Tcp,
        l.state is Listening,
        only_plain_traffic(Protocol::Tcp, traffic),
        now >= l.armed_at + l.idle_timeout,
    ensures
        listener_run(l, traffic.push(Timed { now, event: ListenerEventView::WaitElapsed })).state
            == ListenerStateView::Terminated(TerminationReasonView::IdleTimeout),
{
    let tick = Timed { now, event: ListenerEventView::WaitElapsed };
    assert(traffic.push(tick).drop_last() =~= traffic);
    law_tcp_clock_is_absolute(l, traffic);
}

/// The waits a TCP listener asks for shrink with the clock and with nothing
/// else: after plain traffic at `now` it asks to wait until the deadline set
/// when it began to listen, not a tick longer.
pub proof fn law_tcp_waits_until_fixed_deadline(l: ListenerView, now: nat, event: ListenerEventView)
    requires
        l.protocol == Protocol::Tcp,
        l.state is Listening,
        is_plain_traffic(Protocol::Tcp, event),
        l.armed_at <= now,
    ensures
        match listener_step(l, now, event).1 {
            ListenerActionView::Wait { remaining } => now + remaining == if l.expired(now) {
                now
            } else {
                l.armed_at + l.idle_timeout
            },
            ListenerActionView::Echo { payload, remaining } => now + remaining == if l.expired(
                now,
            ) {
                now
            } else {
                l.armed_at + l.idle_timeout
            },
            _ => false,
        },
{
    if let ListenerEventView::Received(data) = event {
        law_taken_keeps_sentinel(data);
    }
}

/// A UDP listener arms its clock afresh with every datagram that is not the
/// sentinel: the clock then counts from the datagram's instant, and the
/// listener asks for a full `idle_timeout` of waiting.
pub proof fn law_udp_rearms_on_datagram(l: ListenerView, now: nat, data: Seq<u8>)
    requires
        l.protocol == Protocol::Udp,
        l.state is Listening,
        !has_sentinel_prefix(data),
    ensures
        listener_step(l, now, ListenerEventView::Received(data)) == (
            l.armed(now),
            ListenerActionView::Wait { remaining: l.idle_timeout },
        ),
{
    law_taken_keeps_sentinel(data);
}

/// Datagrams keep a UDP listener alive. After any number of datagrams that
/// are not the sentinel, none of them awaited for longer than the window,
/// the listener still listens, and its clock counts from the last of them.
pub proof fn law_udp_datagrams_keep_alive(l: ListenerView, run: Seq<Timed>)
    requires
        l.protocol == Protocol::Udp,
        l.state is Listening,
        forall|i: int|
            0 <= i < run.len() ==> (#[trigger] run[i].event matches ListenerEventView::Received(
                data,
            ) && !has_sentinel_prefix(data)),
    ensures
        listener_run(l, run) == if run.len() == 0 {
            l
        } else {
            l.armed(run.last().now)
        },
    decreases run.len(),
{
    if run.len() > 0 {
        let before = run.drop_last();
        assert forall|i: int| 0 <= i < before.len() implies (
        #[trigger] before[i].event matches ListenerEventView::Received(data)
            && !has_sentinel_prefix(data)) by {
            assert(before[i] == run[i]);
        }
        law_udp_datagrams_keep_alive(l, before);
        let last = run[run.len() - 1];
        assert(last.event matches ListenerEventView::Received(data) && !has_sentinel_prefix(data));
        if let ListenerEventView::Received(data) = last.event {
            law_udp_rearms_on_datagram(listener_run(l, before), last.now, data);
        }
    }
}

/// One silent gap ends a UDP listener. However many datagrams came before,
/// a wait that ends `idle_timeout` ticks or more after the last of them
/// stops the listener with `IdleTimeout`; a wait that ends sooner does not.
pub proof fn law_udp_silent_gap_terminates(
    l: ListenerView,
    last_datagram: nat,
    data: Seq<u8>,
    now: nat,
)
    requires
        l.protocol == Protocol::Udp,
        l.state is Listening,
        !has_sentinel_prefix(data),
        last_datagram <= now,
    ensures
        ({
            let heard = listener_step(l, last_datagram, ListenerEventView::Received(data)).0;
            let then = listener_step(heard, now, ListenerEventView::WaitElapsed);
            if now - last_datagram >= l.idle_timeout {
                then == (heard.terminated(TerminationReasonView::IdleTimeout), ListenerActionView::Stop)
            } else {
                then == (
                    heard,
                    ListenerActionView::Wait {
                        remaining: (l.idle_timeout - (now - last_datagram)) as nat,
                    },
                )
            }
        }),
{
    law_udp_rearms_on_datagram(l, last_datagram, data);
}

/// TCP echo is the identity. Payload that is not the sentinel, received
/// while listening, is handed back for writing exactly as it came, up to the
/// size of the read buffer, and the listener goes on listening.
pub proof fn law_tcp_echo_round_trip(l: ListenerView, now: nat, data: Seq<u8>)
    requires
        l.protocol == Protocol::Tcp,
        l.state is Listening,
        data.len() > 0,
        !has_sentinel_prefix(data),
    ensures
        listener_step(l, now, ListenerEventView::Received(data)) == (
            l,
            ListenerActionView::Echo { payload: taken(data), remaining: l.remaining(now) },
        ),
        data.len() <= READ_BUFFER_SIZE ==> taken(data) == data,
        taken(data).len() <= READ_BUFFER_SIZE,
{
    law_taken_keeps_sentinel(data);
}

/// UDP never echoes: no event makes a UDP listener ask for `Echo`.
pub proof fn law_udp_never_echoes(l: ListenerView, now: nat, event: ListenerEventView)
    requires
        l.protocol == Protocol::Udp,
    ensures
        !(listener_step(l, now, event).1 is Echo),
{
}

} // verus!
