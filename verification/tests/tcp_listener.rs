use port_probe::config::{DEFAULT_IDLE_TIMEOUT, READ_BUFFER_SIZE};
use port_probe::listener::{ListenerAction, ListenerEvent, ProbeListener};
use port_probe::sentinel::sentinel_message;
use port_probe::status::{BindError, ListenerState, Protocol, TerminationReason};

fn listening_tcp(bound_at: u64, idle_timeout: u64) -> ProbeListener {
    let (listener, action) =
        ProbeListener::new(Protocol::Tcp, idle_timeout).step(bound_at, ListenerEvent::Bound);
    assert_eq!(action, ListenerAction::Wait { remaining: idle_timeout });
    listener
}

fn recoverable(detail: &str) -> ListenerEvent {
    ListenerEvent::ReceiveFailed { detail: detail.to_string(), recoverable: true }
}

#[test]
fn tcp_listener_starts_out_starting() {
    let listener = ProbeListener::new(Protocol::Tcp, 5000);
    assert_eq!(listener.protocol(), Protocol::Tcp);
    assert_eq!(*listener.state(), ListenerState::Starting);
    assert_eq!(listener.into_reason(), None);
}

#[test]
fn tcp_listener_listens_once_bound() {
    let (listener, action) =
        ProbeListener::new(Protocol::Tcp, 5000).step(250, ListenerEvent::Bound);
    assert_eq!(*listener.state(), ListenerState::Listening);
    assert_eq!(action, ListenerAction::Wait { remaining: 5000 });
    assert_eq!(listener.remaining(250), 5000);
    assert_eq!(listener.remaining(251), 4999);
}

#[test]
fn tcp_bind_failure_is_returned_as_the_bind_error() {
    let error = BindError { reason: "address already in use".to_string() };
    let (listener, action) =
        ProbeListener::new(Protocol::Tcp, 5000).step(0, ListenerEvent::BindFailed(error.clone()));
    assert_eq!(action, ListenerAction::Stop);
    assert!(!action.is_overdue());
    assert_eq!(*listener.state(), ListenerState::Terminated(TerminationReason::BindFailed(error.clone())));
    let reason = listener.into_reason().unwrap();
    assert_eq!(reason, TerminationReason::BindFailed(error));
    assert!(reason.is_bind_failure());
    assert!(!reason.is_sentinel());
    assert_ne!(reason, TerminationReason::TransportError("address already in use".to_string()));
    assert_ne!(reason, TerminationReason::IdleTimeout);
}

#[test]
fn tcp_listener_that_failed_to_bind_never_listens() {
    let error = BindError { reason: "permission denied".to_string() };
    let (failed, _) =
        ProbeListener::new(Protocol::Tcp, 5000).step(0, ListenerEvent::BindFailed(error.clone()));
    let later = vec![
        ListenerEvent::Bound,
        ListenerEvent::Received(sentinel_message()),
        ListenerEvent::WaitElapsed,
    ];
    let mut listener = failed.clone();
    for event in later {
        let (next, action) = listener.step(9000, event);
        assert_eq!(action, ListenerAction::Stop);
        assert_eq!(next, failed);
        listener = next;
    }
    assert_eq!(listener.into_reason(), Some(TerminationReason::BindFailed(error)));
}

#[test]
fn tcp_listener_starts_by_asking_to_bind() {
    let (listener, action) = ProbeListener::start(Protocol::Tcp, 5000);
    assert_eq!(action, ListenerAction::Bind);
    assert_eq!(listener, ProbeListener::new(Protocol::Tcp, 5000));
    assert_eq!(*listener.state(), ListenerState::Starting);
}

#[test]
fn tcp_wait_of_no_ticks_is_overdue() {
    assert!(ListenerAction::Wait { remaining: 0 }.is_overdue());
    assert!(ListenerAction::Echo { payload: b"late".to_vec(), remaining: 0 }.is_overdue());
    assert!(!ListenerAction::Wait { remaining: 1 }.is_overdue());
    assert!(!ListenerAction::Echo { payload: vec![], remaining: 5000 }.is_overdue());
    assert!(!ListenerAction::Bind.is_overdue());
    assert!(!ListenerAction::Stop.is_overdue());
    let listener = listening_tcp(0, 5000);
    let (listener, action) = listener.step(5000, ListenerEvent::Received(b"late".to_vec()));
    assert!(action.is_overdue());
    let (listener, action) = listener.step(5000, ListenerEvent::WaitElapsed);
    assert_eq!(action, ListenerAction::Stop);
    assert_eq!(listener.into_reason(), Some(TerminationReason::IdleTimeout));
}

#[test]
fn tcp_starting_listener_ignores_traffic_and_asks_to_bind() {
    let listener = ProbeListener::new(Protocol::Tcp, 5000);
    let (listener, action) = listener.step(10, ListenerEvent::Received(sentinel_message()));
    assert_eq!(action, ListenerAction::Bind);
    assert_eq!(*listener.state(), ListenerState::Starting);
    let (listener, action) = listener.step(9000, ListenerEvent::WaitElapsed);
    assert_eq!(action, ListenerAction::Bind);
    assert_eq!(*listener.state(), ListenerState::Starting);
    let (listener, action) = listener.step(9001, recoverable("reset"));
    assert_eq!(action, ListenerAction::Bind);
    assert_eq!(*listener.state(), ListenerState::Starting);
}

#[test]
fn tcp_sentinel_terminates_listener() {
    let listener = listening_tcp(0, 5000);
    let (listener, action) = listener.step(1000, ListenerEvent::Received(sentinel_message()));
    assert_eq!(action, ListenerAction::Stop);
    assert_eq!(
        *listener.state(),
        ListenerState::Terminated(TerminationReason::SentinelReceived)
    );
}

#[test]
fn tcp_sentinel_terminates_after_any_earlier_traffic() {
    let mut listener = listening_tcp(0, 5000);
    let earlier: Vec<ListenerEvent> = vec![
        ListenerEvent::Received(b"ping".to_vec()),
        ListenerEvent::Received(vec![]),
        recoverable("connection reset by peer"),
        ListenerEvent::Received(b"hello from client".to_vec()),
        ListenerEvent::Received(vec![0u8; 4096]),
        ListenerEvent::Bound,
    ];
    let mut now = 100;
    for event in earlier {
        let (next, action) = listener.step(now, event);
        assert_ne!(action, ListenerAction::Stop);
        assert_eq!(*next.state(), ListenerState::Listening);
        listener = next;
        now += 100;
    }
    let (listener, action) =
        listener.step(now, ListenerEvent::Received(b"Hello from client!".to_vec()));
    assert_eq!(action, ListenerAction::Stop);
    assert_eq!(listener.into_reason(), Some(TerminationReason::SentinelReceived));
}

#[test]
fn tcp_sentinel_wins_even_after_the_clock_ran_out() {
    let listener = listening_tcp(0, 5000);
    let (listener, action) = listener.step(60_000, ListenerEvent::Received(sentinel_message()));
    assert_eq!(action, ListenerAction::Stop);
    assert_eq!(listener.into_reason(), Some(TerminationReason::SentinelReceived));
}

#[test]
fn tcp_second_sentinel_changes_nothing() {
    let listener = listening_tcp(0, 5000);
    let (once, _) = listener.step(10, ListenerEvent::Received(sentinel_message()));
    let (twice, action) = once.clone().step(20, ListenerEvent::Received(sentinel_message()));
    assert_eq!(action, ListenerAction::Stop);
    assert_eq!(twice, once);
}

#[test]
fn tcp_terminated_listener_stays_terminated() {
    let listener = listening_tcp(0, 5000);
    let (stopped, _) = listener.step(5000, ListenerEvent::WaitElapsed);
    let events = vec![
        ListenerEvent::Bound,
        ListenerEvent::BindFailed(BindError { reason: "late".to_string() }),
        ListenerEvent::Received(sentinel_message()),
        ListenerEvent::Received(b"ping".to_vec()),
        ListenerEvent::ReceiveFailed { detail: "gone".to_string(), recoverable: false },
        ListenerEvent::WaitElapsed,
    ];
    let mut listener = stopped.clone();
    for event in events {
        let (next, action) = listener.step(7000, event);
        assert_eq!(action, ListenerAction::Stop);
        assert_eq!(next, stopped);
        listener = next;
    }
    assert_eq!(listener.into_reason(), Some(TerminationReason::IdleTimeout));
}

#[test]
fn tcp_echoes_payload_exactly() {
    let listener = listening_tcp(0, 5000);
    let payload = b"any bytes \x00\x01\xfe\xff at all".to_vec();
    let (listener, action) = listener.step(1200, ListenerEvent::Received(payload.clone()));
    assert_eq!(action, ListenerAction::Echo { payload, remaining: 3800 });
    assert_eq!(*listener.state(), ListenerState::Listening);
}

#[test]
fn tcp_echoes_a_full_buffer_whole() {
    let listener = listening_tcp(0, 5000);
    let payload = vec![0x41u8; READ_BUFFER_SIZE];
    let (_, action) = listener.step(1, ListenerEvent::Received(payload.clone()));
    assert_eq!(action, ListenerAction::Echo { payload, remaining: 4999 });
}

#[test]
fn tcp_echo_is_bounded_by_the_read_buffer() {
    let listener = listening_tcp(0, 5000);
    let mut payload: Vec<u8> = Vec::new();
    for i in 0..(READ_BUFFER_SIZE + 500) {
        payload.push((i % 200) as u8);
    }
    let expected = payload[..READ_BUFFER_SIZE].to_vec();
    let (_, action) = listener.step(0, ListenerEvent::Received(payload));
    assert_eq!(action, ListenerAction::Echo { payload: expected, remaining: 5000 });
}

#[test]
fn tcp_zero_length_read_is_a_no_op() {
    let listener = listening_tcp(0, 5000);
    let (listener, action) = listener.step(2000, ListenerEvent::Received(vec![]));
    assert_eq!(action, ListenerAction::Wait { remaining: 3000 });
    assert_eq!(*listener.state(), ListenerState::Listening);
    assert_eq!(listener, listening_tcp(0, 5000));
}

#[test]
fn tcp_clock_is_absolute_not_sliding() {
    let mut listener = listening_tcp(1000, 5000);
    let arrivals: [(u64, u64); 4] = [(2000, 4000), (3500, 2500), (5900, 100), (5999, 1)];
    for (now, left) in arrivals {
        let (next, action) = listener.step(now, ListenerEvent::Received(b"chatter".to_vec()));
        assert_eq!(action, ListenerAction::Echo { payload: b"chatter".to_vec(), remaining: left });
        listener = next;
    }
    let (listener, action) = listener.step(6000, ListenerEvent::WaitElapsed);
    assert_eq!(action, ListenerAction::Stop);
    assert_eq!(listener.into_reason(), Some(TerminationReason::IdleTimeout));
}

#[test]
fn tcp_idle_timeout_without_any_traffic() {
    let listener = listening_tcp(0, DEFAULT_IDLE_TIMEOUT);
    let (listener, action) = listener.step(DEFAULT_IDLE_TIMEOUT, ListenerEvent::WaitElapsed);
    assert_eq!(action, ListenerAction::Stop);
    assert_eq!(listener.into_reason(), Some(TerminationReason::IdleTimeout));
}

#[test]
fn tcp_early_wake_keeps_waiting_for_the_rest() {
    let listener = listening_tcp(0, 5000);
    let (listener, action) = listener.step(4999, ListenerEvent::WaitElapsed);
    assert_eq!(action, ListenerAction::Wait { remaining: 1 });
    assert_eq!(*listener.state(), ListenerState::Listening);
}

#[test]
fn tcp_traffic_past_the_deadline_is_served_then_times_out() {
    let listener = listening_tcp(0, 5000);
    let (listener, action) = listener.step(5500, ListenerEvent::Received(b"late".to_vec()));
    assert_eq!(action, ListenerAction::Echo { payload: b"late".to_vec(), remaining: 0 });
    let (listener, action) = listener.step(5500, ListenerEvent::WaitElapsed);
    assert_eq!(action, ListenerAction::Stop);
    assert_eq!(listener.into_reason(), Some(TerminationReason::IdleTimeout));
}

#[test]
fn tcp_recoverable_read_error_is_absorbed() {
    let listener = listening_tcp(0, 5000);
    let (listener, action) = listener.step(700, recoverable("connection reset by peer"));
    assert_eq!(action, ListenerAction::Wait { remaining: 4300 });
    assert_eq!(*listener.state(), ListenerState::Listening);
}

#[test]
fn tcp_unrecoverable_read_error_terminates() {
    let listener = listening_tcp(0, 5000);
    let event = ListenerEvent::ReceiveFailed { detail: "socket gone".to_string(), recoverable: false };
    let (listener, action) = listener.step(700, event);
    assert_eq!(action, ListenerAction::Stop);
    assert_eq!(
        listener.into_reason(),
        Some(TerminationReason::TransportError("socket gone".to_string()))
    );
}

#[test]
fn tcp_clock_reading_before_arming_counts_as_no_time() {
    let listener = listening_tcp(1000, 5000);
    assert_eq!(listener.remaining(0), 5000);
    let (_, action) = listener.step(10, ListenerEvent::WaitElapsed);
    assert_eq!(action, ListenerAction::Wait { remaining: 5000 });
}

#[test]
fn tcp_zero_timeout_expires_at_once() {
    let listener = listening_tcp(40, 0);
    let (listener, action) = listener.step(40, ListenerEvent::WaitElapsed);
    assert_eq!(action, ListenerAction::Stop);
    assert_eq!(listener.into_reason(), Some(TerminationReason::IdleTimeout));
}

#[test]
fn tcp_clock_at_the_end_of_time() {
    let listener = listening_tcp(u64::MAX - 10, u64::MAX);
    assert_eq!(listener.remaining(u64::MAX), u64::MAX - 10);
    let listener = listening_tcp(0, u64::MAX);
    assert_eq!(listener.remaining(u64::MAX), 0);
    let (listener, action) = listener.step(u64::MAX, ListenerEvent::WaitElapsed);
    assert_eq!(action, ListenerAction::Stop);
    assert_eq!(listener.into_reason(), Some(TerminationReason::IdleTimeout));
}
