use port_probe::client::{ClientAction, ClientEvent, ProbeClient, ProbeReport};
use port_probe::config::{ProbeConfig, ProbeTarget, SETTLE_DELAY};
use port_probe::listener::{ListenerAction, ListenerEvent, ProbeListener};
use port_probe::orchestrator::{AggregateResult, Orchestrator, RunAction, RunEvent};
use port_probe::status::{BindError, ListenerState, ProbeOutcome, Protocol, TerminationReason};

/// A loopback host in memory. A port is open on a protocol while a
/// listener is bound there and listening; what a client sends to an open
/// port is handed to that listener, and what the listener echoes comes back
/// to the client.
struct Loopback {
    port: u16,
    now: u64,
    tcp: Option<ProbeListener>,
    udp: Option<ProbeListener>,
    /// Protocols on which the port is already taken by someone else.
    taken: Vec<Protocol>,
}

impl Loopback {
    fn quiet(port: u16) -> Loopback {
        Loopback { port, now: 0, tcp: None, udp: None, taken: Vec::new() }
    }

    fn slot(&mut self, protocol: Protocol) -> &mut Option<ProbeListener> {
        match protocol {
            Protocol::Tcp => &mut self.tcp,
            Protocol::Udp => &mut self.udp,
        }
    }

    fn is_open(&mut self, protocol: Protocol, port: u16) -> bool {
        let here = self.port == port;
        match self.slot(protocol) {
            Some(listener) => here && *listener.state() == ListenerState::Listening,
            None => false,
        }
    }

    /// Starts a listener and binds it, as the owner of the sockets would.
    fn listen(&mut self, protocol: Protocol, idle_timeout: u64) -> ListenerAction {
        let now = self.now;
        let (listener, action) = ProbeListener::start(protocol, idle_timeout);
        assert_eq!(action, ListenerAction::Bind);
        let bind = if self.taken.contains(&protocol) {
            ListenerEvent::BindFailed(BindError { reason: "address already in use".to_string() })
        } else {
            ListenerEvent::Bound
        };
        let (listener, action) = listener.step(now, bind);
        *self.slot(protocol) = Some(listener);
        action
    }

    /// Hands `payload` to the listener on `protocol`, if the port is open,
    /// and returns what the listener writes back.
    fn deliver(&mut self, protocol: Protocol, port: u16, payload: Vec<u8>) -> Option<Vec<u8>> {
        if !self.is_open(protocol, port) {
            return None;
        }
        let now = self.now;
        let listener = self.slot(protocol).take().unwrap();
        let (listener, action) = listener.step(now, ListenerEvent::Received(payload));
        *self.slot(protocol) = Some(listener);
        match action {
            ListenerAction::Echo { payload, .. } => Some(payload),
            _ => None,
        }
    }

    /// Lets time pass and wakes every listener that is still waiting.
    fn pass(&mut self, ticks: u64) {
        self.now += ticks;
        let now = self.now;
        for protocol in [Protocol::Tcp, Protocol::Udp] {
            if let Some(listener) = self.slot(protocol).take() {
                let (listener, _) = listener.step(now, ListenerEvent::WaitElapsed);
                *self.slot(protocol) = Some(listener);
            }
        }
    }

    fn state(&mut self, protocol: Protocol) -> ListenerState {
        self.slot(protocol).as_ref().unwrap().state().clone()
    }
}

/// Carries out one protocol's client attempt against the loopback host.
fn attempt(net: &mut Loopback, protocol: Protocol, target: &ProbeTarget, timeout: u64) -> ProbeOutcome {
    let (mut client, mut action) = ProbeClient::start(protocol, timeout);
    loop {
        let event = match action {
            ClientAction::Open { .. } => match protocol {
                Protocol::Tcp if !net.is_open(Protocol::Tcp, target.port()) => {
                    ClientEvent::OpenFailed("connection refused".to_string())
                }
                _ => ClientEvent::Opened,
            },
            ClientAction::Send { payload } => {
                net.deliver(protocol, target.port(), payload);
                ClientEvent::Sent
            }
            ClientAction::Done => break,
        };
        let (next, asked) = client.step(event);
        client = next;
        action = asked;
    }
    client.into_outcome().unwrap()
}

fn probe(net: &mut Loopback, target: &ProbeTarget, timeout: u64) -> ProbeReport {
    ProbeReport {
        tcp: attempt(net, Protocol::Tcp, target, timeout),
        udp: attempt(net, Protocol::Udp, target, timeout),
    }
}

/// Runs the orchestrator against the loopback host from start to finish.
fn run(net: &mut Loopback, config: &ProbeConfig) -> AggregateResult {
    let (mut orchestrator, mut action) = Orchestrator::new(SETTLE_DELAY).step(RunEvent::Start);
    let mut news: Vec<RunEvent> = Vec::new();
    let mut told: Vec<Protocol> = Vec::new();
    let mut steps: u32 = 0;
    loop {
        steps += 1;
        assert!(steps < 100, "the run does not come to an end");
        let event = match action {
            RunAction::StartListeners => {
                for protocol in [Protocol::Tcp, Protocol::Udp] {
                    net.listen(protocol, config.idle_timeout);
                    match net.state(protocol) {
                        ListenerState::Terminated(reason) => {
                            told.push(protocol);
                            news.push(RunEvent::ListenerTerminated(protocol, reason));
                        }
                        _ => news.push(RunEvent::ListenerReady(protocol)),
                    }
                }
                news.remove(0)
            }
            RunAction::Wait => {
                if news.is_empty() {
                    net.pass(config.idle_timeout);
                }
                for protocol in [Protocol::Tcp, Protocol::Udp] {
                    if let ListenerState::Terminated(reason) = net.state(protocol) {
                        if !told.contains(&protocol) {
                            told.push(protocol);
                            news.push(RunEvent::ListenerTerminated(protocol, reason));
                        }
                    }
                }
                news.remove(0)
            }
            RunAction::Settle { delay } => {
                net.pass(delay);
                RunEvent::SettleElapsed
            }
            RunAction::RunClient => {
                assert_ne!(net.state(Protocol::Tcp), ListenerState::Starting);
                assert_ne!(net.state(Protocol::Udp), ListenerState::Starting);
                if net.taken.is_empty() {
                    assert_eq!(net.state(Protocol::Tcp), ListenerState::Listening);
                    assert_eq!(net.state(Protocol::Udp), ListenerState::Listening);
                }
                RunEvent::ProbeCompleted(probe(net, &config.target, config.idle_timeout))
            }
            RunAction::Finish => break,
        };
        let (next, asked) = orchestrator.step(event);
        orchestrator = next;
        action = asked;
    }
    orchestrator.into_result().unwrap()
}

#[test]
fn end_to_end_both_protocols_reachable() {
    let config = ProbeConfig::default();
    assert_eq!(config.target, ProbeTarget::new("127.0.0.1".to_string(), 8081));
    let mut net = Loopback::quiet(8081);
    let result = run(&mut net, &config);
    assert_eq!(
        result,
        AggregateResult {
            tcp_listener_result: TerminationReason::SentinelReceived,
            udp_listener_result: TerminationReason::SentinelReceived,
            tcp_probe_outcome: ProbeOutcome::Reachable,
            udp_probe_outcome: ProbeOutcome::Reachable,
        }
    );
    assert!(result.succeeded());
}

#[test]
fn run_with_a_taken_tcp_port_reports_the_bind_error() {
    let config = ProbeConfig::default();
    let mut net = Loopback::quiet(8081);
    net.taken.push(Protocol::Tcp);
    let result = run(&mut net, &config);
    assert_eq!(
        result,
        AggregateResult {
            tcp_listener_result: TerminationReason::BindFailed(BindError {
                reason: "address already in use".to_string(),
            }),
            udp_listener_result: TerminationReason::SentinelReceived,
            tcp_probe_outcome: ProbeOutcome::ConnectFailed("connection refused".to_string()),
            udp_probe_outcome: ProbeOutcome::Reachable,
        }
    );
    assert!(!result.succeeded());
}

#[test]
fn run_with_both_ports_taken_reports_both_bind_errors() {
    let config = ProbeConfig::default();
    let mut net = Loopback::quiet(8081);
    net.taken.push(Protocol::Tcp);
    net.taken.push(Protocol::Udp);
    let result = run(&mut net, &config);
    assert!(result.tcp_listener_result.is_bind_failure());
    assert!(result.udp_listener_result.is_bind_failure());
    assert_eq!(result.udp_probe_outcome, ProbeOutcome::Reachable);
    assert!(!result.succeeded());
}

#[test]
fn probe_without_listeners_fails_tcp_but_not_udp() {
    let target = ProbeTarget::loopback(8081);
    let mut net = Loopback::quiet(8081);
    let report = probe(&mut net, &target, 5000);
    assert_eq!(report.tcp, ProbeOutcome::ConnectFailed("connection refused".to_string()));
    assert_eq!(report.udp, ProbeOutcome::Reachable);
}

#[test]
fn probe_of_listening_tcp_port_is_reachable_and_of_another_port_is_not() {
    let mut net = Loopback::quiet(8081);
    net.listen(Protocol::Tcp, 5000);
    let bound = ProbeTarget::loopback(8081);
    let unbound = ProbeTarget::loopback(8082);
    assert_eq!(
        attempt(&mut net, Protocol::Tcp, &unbound, 5000),
        ProbeOutcome::ConnectFailed("connection refused".to_string())
    );
    assert_eq!(net.state(Protocol::Tcp), ListenerState::Listening);
    assert_eq!(attempt(&mut net, Protocol::Tcp, &bound, 5000), ProbeOutcome::Reachable);
    assert_eq!(
        net.state(Protocol::Tcp),
        ListenerState::Terminated(TerminationReason::SentinelReceived)
    );
}

#[test]
fn run_against_another_port_ends_in_idle_timeouts() {
    let config = ProbeConfig { target: ProbeTarget::loopback(9000), idle_timeout: 5000 };
    let mut net = Loopback::quiet(8081);
    let result = run(&mut net, &config);
    assert_eq!(
        result,
        AggregateResult {
            tcp_listener_result: TerminationReason::IdleTimeout,
            udp_listener_result: TerminationReason::IdleTimeout,
            tcp_probe_outcome: ProbeOutcome::ConnectFailed("connection refused".to_string()),
            udp_probe_outcome: ProbeOutcome::Reachable,
        }
    );
    assert!(!result.succeeded());
}

#[test]
fn tcp_round_trip_returns_what_was_sent() {
    let mut net = Loopback::quiet(8081);
    net.listen(Protocol::Tcp, 5000);
    net.listen(Protocol::Udp, 5000);
    let messages: Vec<Vec<u8>> = vec![
        b"ping".to_vec(),
        b"hello from client".to_vec(),
        b"Hello from clien".to_vec(),
        vec![0, 1, 2, 253, 254, 255],
        vec![0x5a; 1024],
    ];
    for message in messages {
        net.now += 10;
        assert_eq!(net.deliver(Protocol::Tcp, 8081, message.clone()), Some(message.clone()));
        assert_eq!(net.deliver(Protocol::Udp, 8081, message), None);
    }
    assert_eq!(net.state(Protocol::Tcp), ListenerState::Listening);
    assert_eq!(net.state(Protocol::Udp), ListenerState::Listening);
    let long = vec![0x33u8; 1500];
    assert_eq!(net.deliver(Protocol::Tcp, 8081, long.clone()), Some(long[..1024].to_vec()));
}

#[test]
fn tcp_traffic_does_not_postpone_the_idle_timeout() {
    let mut net = Loopback::quiet(8081);
    net.listen(Protocol::Tcp, 5000);
    net.listen(Protocol::Udp, 5000);
    for _ in 0..4 {
        net.pass(1200);
        net.deliver(Protocol::Tcp, 8081, b"chatter".to_vec());
        net.deliver(Protocol::Udp, 8081, b"chatter".to_vec());
    }
    assert_eq!(net.state(Protocol::Tcp), ListenerState::Listening);
    net.pass(200);
    assert_eq!(net.state(Protocol::Tcp), ListenerState::Terminated(TerminationReason::IdleTimeout));
    assert_eq!(net.state(Protocol::Udp), ListenerState::Listening);
    net.pass(4799);
    assert_eq!(net.state(Protocol::Udp), ListenerState::Listening);
    net.pass(1);
    assert_eq!(net.state(Protocol::Udp), ListenerState::Terminated(TerminationReason::IdleTimeout));
}
