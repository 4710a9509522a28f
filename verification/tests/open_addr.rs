use tokio_nat_traversal::addr::{Ipv4Addr, SocketAddr, SocketAddrV4};
use tokio_nat_traversal::igd_async::GetAnyAddressError;
use tokio_nat_traversal::mc::QueryPublicAddrError;
use tokio_nat_traversal::open_addr::{
    public_addr_protocol, BindPublicError, OpenAddr, OpenAddrAction, OpenAddrErrorKind, OpenAddrEvent,
};
use tokio_nat_traversal::protocol::Protocol;

fn v4(a: u8, b: u8, c: u8, d: u8, port: u16) -> SocketAddr {
    SocketAddr::V4(SocketAddrV4 { ip: Ipv4Addr::new(a, b, c, d), port })
}

fn attempt() -> OpenAddr {
    OpenAddr::new(Protocol::Udp, v4(0, 0, 0, 0, 4000), GetAnyAddressError::Ipv6NotSupported)
}

/// Reports an event the attempt must accept.
fn step(m: &mut OpenAddr, ev: OpenAddrEvent) -> OpenAddrAction {
    assert!(m.is_running());
    assert!(m.accepts_event(&ev));
    m.step(ev)
}

fn is(act: &OpenAddrAction, name: &str) -> bool {
    match (act, name) {
        (OpenAddrAction::PollQueries, "PollQueries") => true,
        (OpenAddrAction::PollServers, "PollServers") => true,
        (OpenAddrAction::StartQuery(_), "StartQuery") => true,
        (OpenAddrAction::StartTimeout, "StartTimeout") => true,
        (OpenAddrAction::PollTimeout, "PollTimeout") => true,
        (OpenAddrAction::NotReady, "NotReady") => true,
        (OpenAddrAction::Done(_), "Done") => true,
        _ => false,
    }
}

/// Polls, finds no finished query, takes `server` from the list and starts a query to it.
fn start_query(m: &mut OpenAddr, server: SocketAddr) {
    assert!(is(&step(m, OpenAddrEvent::QueriesIdle), "PollServers"));
    match step(m, OpenAddrEvent::ServerFound(server)) {
        OpenAddrAction::StartQuery(s) => assert_eq!(s, server),
        _ => panic!("expected a query to the server"),
    }
    assert!(is(&step(m, OpenAddrEvent::QueryStarted), "PollQueries"));
}

fn query_error() -> QueryPublicAddrError {
    QueryPublicAddrError::ResponseTimeout
}

#[test]
fn two_agreeing_servers_open_the_address() {
    let public = v4(203, 0, 113, 9, 61000);
    let mut m = attempt();
    assert_eq!(m.protocol(), Protocol::Udp);
    assert_eq!(m.bind_addr(), v4(0, 0, 0, 0, 4000));
    assert!(is(&step(&mut m, OpenAddrEvent::Polled), "PollQueries"));
    start_query(&mut m, v4(1, 1, 1, 1, 10));
    start_query(&mut m, v4(2, 2, 2, 2, 10));
    // two queries run: wait
    assert!(is(&step(&mut m, OpenAddrEvent::QueriesIdle), "NotReady"));
    assert!(is(&step(&mut m, OpenAddrEvent::Polled), "PollQueries"));
    assert!(is(&step(&mut m, OpenAddrEvent::QueryFinished(Ok(public))), "PollQueries"));
    match step(&mut m, OpenAddrEvent::QueryFinished(Ok(public))) {
        OpenAddrAction::Done(Ok(a)) => assert_eq!(a, public),
        _ => panic!("expected the agreed address"),
    }
    assert!(!m.is_running());
}

#[test]
fn disagreeing_servers_give_inconsistent_addrs() {
    let first = v4(203, 0, 113, 9, 61000);
    let second = v4(203, 0, 113, 9, 61001);
    let mut m = attempt();
    step(&mut m, OpenAddrEvent::Polled);
    start_query(&mut m, v4(1, 1, 1, 1, 10));
    start_query(&mut m, v4(2, 2, 2, 2, 10));
    assert!(is(&step(&mut m, OpenAddrEvent::QueryFinished(Ok(first))), "PollQueries"));
    match step(&mut m, OpenAddrEvent::QueryFinished(Ok(second))) {
        OpenAddrAction::Done(Err(e)) => {
            assert!(matches!(e.igd_err, GetAnyAddressError::Ipv6NotSupported));
            assert_eq!(e.igd_err.description(), "IPv6 not supported for UPnP");
            assert_eq!(e.kind.description(), "NAT did not give us a consistent port mapping");
            match e.kind {
                OpenAddrErrorKind::InconsistentAddrs(a0, a1) => {
                    assert_eq!(a0, first);
                    assert_eq!(a1, second);
                },
                _ => panic!("expected inconsistent addresses"),
            }
        },
        _ => panic!("expected a failure"),
    }
}

#[test]
fn failed_queries_hit_the_error_limit_with_at_most_six_errors() {
    let mut m = attempt();
    step(&mut m, OpenAddrEvent::Polled);
    // four failures, two at a time
    for _ in 0..2 {
        start_query(&mut m, v4(1, 1, 1, 1, 10));
        start_query(&mut m, v4(2, 2, 2, 2, 10));
        step(&mut m, OpenAddrEvent::QueryFinished(Err(query_error())));
        step(&mut m, OpenAddrEvent::QueryFinished(Err(query_error())));
    }
    // two more queries run; both fail before the attempt looks again
    start_query(&mut m, v4(3, 3, 3, 3, 10));
    start_query(&mut m, v4(4, 4, 4, 4, 10));
    step(&mut m, OpenAddrEvent::QueryFinished(Err(query_error())));
    step(&mut m, OpenAddrEvent::QueryFinished(Err(query_error())));
    match step(&mut m, OpenAddrEvent::QueriesIdle) {
        OpenAddrAction::Done(Err(e)) => {
            assert_eq!(e.description(), "hit error limit contacting traversal servers");
            match e.kind {
                OpenAddrErrorKind::HitErrorLimit(v) => assert_eq!(v.len(), 6),
                _ => panic!("expected the error limit"),
            }
        },
        _ => panic!("expected a failure"),
    }
}

#[test]
fn the_fifth_failure_ends_the_attempt() {
    let mut m = attempt();
    step(&mut m, OpenAddrEvent::Polled);
    for _ in 0..5 {
        start_query(&mut m, v4(1, 1, 1, 1, 10));
        step(&mut m, OpenAddrEvent::QueryFinished(Err(query_error())));
    }
    match step(&mut m, OpenAddrEvent::QueriesIdle) {
        OpenAddrAction::Done(Err(e)) => match e.kind {
            OpenAddrErrorKind::HitErrorLimit(v) => assert_eq!(v.len(), 5),
            _ => panic!("expected the error limit"),
        },
        _ => panic!("expected a failure"),
    }
}

#[test]
fn no_servers_at_all_is_lack_of_servers() {
    let mut m = attempt();
    step(&mut m, OpenAddrEvent::Polled);
    step(&mut m, OpenAddrEvent::QueriesIdle);
    match step(&mut m, OpenAddrEvent::ServersExhausted) {
        OpenAddrAction::Done(Err(e)) => {
            assert_eq!(e.description(), "lack of traversal servers necessary to map port");
            assert!(matches!(e.kind, OpenAddrErrorKind::LackOfServers));
        },
        _ => panic!("expected a failure"),
    }
}

#[test]
fn one_answer_then_no_more_servers_is_accepted() {
    let public = v4(198, 51, 100, 1, 5000);
    let mut m = attempt();
    step(&mut m, OpenAddrEvent::Polled);
    start_query(&mut m, v4(1, 1, 1, 1, 10));
    step(&mut m, OpenAddrEvent::QueryFinished(Ok(public)));
    assert!(is(&step(&mut m, OpenAddrEvent::QueriesIdle), "PollServers"));
    match step(&mut m, OpenAddrEvent::ServersExhausted) {
        OpenAddrAction::Done(Ok(a)) => assert_eq!(a, public),
        _ => panic!("expected the only address"),
    }
}

#[test]
fn servers_exhausted_with_a_running_query_keeps_polling() {
    let mut m = attempt();
    step(&mut m, OpenAddrEvent::Polled);
    start_query(&mut m, v4(1, 1, 1, 1, 10));
    assert!(is(&step(&mut m, OpenAddrEvent::QueriesIdle), "PollServers"));
    assert!(is(&step(&mut m, OpenAddrEvent::ServersExhausted), "PollQueries"));
}

#[test]
fn waiting_for_servers_starts_and_polls_a_timeout() {
    let public = v4(198, 51, 100, 1, 5000);
    let mut m = attempt();
    step(&mut m, OpenAddrEvent::Polled);
    step(&mut m, OpenAddrEvent::QueriesIdle);
    assert!(is(&step(&mut m, OpenAddrEvent::ServersPending), "StartTimeout"));
    assert!(is(&step(&mut m, OpenAddrEvent::TimeoutStarted), "PollTimeout"));
    assert!(is(&step(&mut m, OpenAddrEvent::TimeoutPending), "NotReady"));
    step(&mut m, OpenAddrEvent::Polled);
    step(&mut m, OpenAddrEvent::QueriesIdle);
    assert!(is(&step(&mut m, OpenAddrEvent::ServersPending), "PollTimeout"));
    match step(&mut m, OpenAddrEvent::TimeoutElapsed) {
        OpenAddrAction::Done(Err(e)) => assert!(matches!(e.kind, OpenAddrErrorKind::LackOfServers)),
        _ => panic!("expected a failure"),
    }
    let mut m = attempt();
    step(&mut m, OpenAddrEvent::Polled);
    start_query(&mut m, v4(1, 1, 1, 1, 10));
    step(&mut m, OpenAddrEvent::QueryFinished(Ok(public)));
    step(&mut m, OpenAddrEvent::QueriesIdle);
    assert!(is(&step(&mut m, OpenAddrEvent::ServersPending), "StartTimeout"));
    step(&mut m, OpenAddrEvent::TimeoutStarted);
    match step(&mut m, OpenAddrEvent::TimeoutElapsed) {
        OpenAddrAction::Done(Ok(a)) => assert_eq!(a, public),
        _ => panic!("expected the known address"),
    }
}

#[test]
fn a_running_query_defers_the_timeout() {
    let mut m = attempt();
    step(&mut m, OpenAddrEvent::Polled);
    start_query(&mut m, v4(1, 1, 1, 1, 10));
    step(&mut m, OpenAddrEvent::QueriesIdle);
    assert!(is(&step(&mut m, OpenAddrEvent::ServersPending), "NotReady"));
}

#[test]
fn only_answers_to_the_last_action_are_accepted() {
    let mut m = attempt();
    assert!(m.is_running());
    assert!(m.accepts_event(&OpenAddrEvent::Polled));
    assert!(!m.accepts_event(&OpenAddrEvent::QueriesIdle));
    assert!(!m.accepts_event(&OpenAddrEvent::QueryStarted));
    m.step(OpenAddrEvent::Polled);
    assert!(m.accepts_event(&OpenAddrEvent::QueriesIdle));
    assert!(!m.accepts_event(&OpenAddrEvent::QueryFinished(Ok(v4(1, 2, 3, 4, 5)))));
    assert!(!m.accepts_event(&OpenAddrEvent::TimeoutElapsed));
    start_query(&mut m, v4(1, 1, 1, 1, 10));
    assert!(m.accepts_event(&OpenAddrEvent::QueryFinished(Ok(v4(1, 2, 3, 4, 5)))));
    assert!(!m.accepts_event(&OpenAddrEvent::QueryStarted));
    let mut m = attempt();
    m.step(OpenAddrEvent::Polled);
    m.step(OpenAddrEvent::QueriesIdle);
    m.step(OpenAddrEvent::ServersExhausted);
    assert!(!m.is_running());
    assert!(!m.accepts_event(&OpenAddrEvent::Polled));
}

#[test]
fn sockets_are_made_public_for_their_own_protocol() {
    assert_eq!(public_addr_protocol(Protocol::Udp), Protocol::Udp);
    assert_eq!(public_addr_protocol(Protocol::Tcp), Protocol::Tcp);
}

#[test]
fn error_descriptions() {
    assert_eq!(QueryPublicAddrError::ConnectTimeout.description(), "timed out contacting server");
    assert_eq!(
        QueryPublicAddrError::ResponseTimeout.description(),
        "timed out waiting for response from echo server"
    );
    let io = std::io::Error::new(std::io::ErrorKind::Other, "x");
    assert_eq!(QueryPublicAddrError::Bind(io).description(), "error binding to socket address");
    let io = std::io::Error::new(std::io::ErrorKind::Other, "x");
    assert_eq!(BindPublicError::Bind(io).description(), "error binding to local address");
}
