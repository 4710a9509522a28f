use vstd::prelude::*;
use crate::addr::SocketAddr;
use crate::igd_async::GetAnyAddressError;
use crate::mc::QueryPublicAddrError;
use crate::protocol::Protocol;

verus! {

/// How many failed traversal-server queries end the attempt.
pub const QUERY_ERROR_LIMIT: usize = 5;

/// How many traversal-server queries run at once, at most.
pub const MAX_ACTIVE_QUERIES: usize = 2;

/// The protocol that a socket's public address is opened for: the socket's
/// own, so that the public address reaches the socket over it.
pub fn public_addr_protocol(socket_protocol: Protocol) -> (r: Protocol)
    ensures
        r == socket_protocol,
{
    socket_protocol
}

/// Why binding publicly failed.
#[derive(Debug)]
pub enum BindPublicError {
    Bind(std::io::Error),
    OpenAddr(OpenAddrError),
}

impl BindPublicError {
    /// A short description of the failure.
    pub fn description(&self) -> (r: &'static str)
        ensures
            r@ == match *self {
                BindPublicError::Bind(_) => "error binding to local address"@,
                BindPublicError::OpenAddr(_) => "error opening external port"@,
            },
    {
        match self {
            BindPublicError::Bind(_) => "error binding to local address",
            BindPublicError::OpenAddr(_) => "error opening external port",
        }
    }
}

/// Why hole punching through traversal servers failed.
#[derive(Debug)]
pub enum OpenAddrErrorKind {
    /// Two servers saw us at different public addresses: the first one
    /// reported, then the disagreeing one.
    InconsistentAddrs(SocketAddr, SocketAddr),
    /// Too many queries failed; these are their errors.
    HitErrorLimit(Vec<QueryPublicAddrError>),
    /// The servers ran out before any of them answered.
    LackOfServers,
}

/// Why a public address could not be opened: the gateway's refusal, and then
/// why hole punching failed.
#[derive(Debug)]
pub struct OpenAddrError {
    pub igd_err: GetAnyAddressError,
    pub kind: OpenAddrErrorKind,
}

impl OpenAddrErrorKind {
    /// A short description of the failure.
    pub fn description(&self) -> (r: &'static str)
        ensures
            r@ == match *self {
                OpenAddrErrorKind::InconsistentAddrs(..) => "NAT did not give us a consistent port mapping"@,
                OpenAddrErrorKind::HitErrorLimit(..) => "hit error limit contacting traversal servers"@,
                OpenAddrErrorKind::LackOfServers => "lack of traversal servers necessary to map port"@,
            },
    {
        match self {
            OpenAddrErrorKind::InconsistentAddrs(..) => "NAT did not give us a consistent port mapping",
            OpenAddrErrorKind::HitErrorLimit(..) => "hit error limit contacting traversal servers",
            OpenAddrErrorKind::LackOfServers => "lack of traversal servers necessary to map port",
        }
    }
}

impl OpenAddrError {
    /// The description of the hole-punching failure.
    pub fn description(&self) -> (r: &'static str)
        ensures
            r@ == match self.kind {
                OpenAddrErrorKind::InconsistentAddrs(..) => "NAT did not give us a consistent port mapping"@,
                OpenAddrErrorKind::HitErrorLimit(..) => "hit error limit contacting traversal servers"@,
                OpenAddrErrorKind::LackOfServers => "lack of traversal servers necessary to map port"@,
            },
    {
        self.kind.description()
    }
}

/// What the outside world reports to the hole-punching state machine.
pub enum OpenAddrEvent {
    /// The caller polled the attempt.
    Polled,
    /// A running query finished, with our public address or an error.
    QueryFinished(Result<SocketAddr, QueryPublicAddrError>),
    /// No running query has finished.
    QueriesIdle,
    /// The server list produced another traversal server.
    ServerFound(SocketAddr),
    /// The server list has ended.
    ServersExhausted,
    /// The server list has no server now but may produce more later.
    ServersPending,
    /// The query asked for by `StartQuery` was started.
    QueryStarted,
    /// The timeout asked for by `StartTimeout` was started.
    TimeoutStarted,
    /// The timeout waiting for more servers has elapsed.
    TimeoutElapsed,
    /// The timeout waiting for more servers has not elapsed yet.
    TimeoutPending,
}

/// What the hole-punching state machine asks of the outside world next.
pub enum OpenAddrAction {
    /// Poll the running queries and report with `QueryFinished` or `QueriesIdle`.
    PollQueries,
    /// Poll the server list and report with `ServerFound`, `ServersExhausted` or `ServersPending`.
    PollServers,
    /// Drop the timeout if one runs, start a query to this server, and report `QueryStarted`.
    StartQuery(SocketAddr),
    /// Start the timeout that waits for more servers, and report `TimeoutStarted`.
    StartTimeout,
    /// Poll the timeout and report with `TimeoutElapsed` or `TimeoutPending`.
    PollTimeout,
    /// Nothing more can happen now; report `Polled` when polled again.
    NotReady,
    /// The attempt is over, with this outcome.
    Done(Result<SocketAddr, OpenAddrError>),
}

/// What an attempt waits to hear about next: the answer to the action it
/// asked for last.
#[derive(Clone, Copy, Debug, PartialEq, Eq, Structural)]
pub enum Awaiting {
    /// The next poll (after `NotReady`, or before the first poll).
    Poll,
    /// The outcome of polling the running queries.
    Queries,
    /// The outcome of polling the server list.
    Servers,
    /// The start of the query asked for.
    QueryStart,
    /// The start of the timeout asked for.
    TimeoutStart,
    /// The outcome of polling the timeout.
    Timeout,
    /// Nothing: the attempt is over.
    Finished,
}

/// What an attempt waits for after asking for `act`.
pub open spec fn awaiting_after(act: OpenAddrAction) -> Awaiting {
    match act {
        OpenAddrAction::PollQueries => Awaiting::Queries,
        OpenAddrAction::PollServers => Awaiting::Servers,
        OpenAddrAction::StartQuery(_) => Awaiting::QueryStart,
        OpenAddrAction::StartTimeout => Awaiting::TimeoutStart,
        OpenAddrAction::PollTimeout => Awaiting::Timeout,
        OpenAddrAction::NotReady => Awaiting::Poll,
        OpenAddrAction::Done(_) => Awaiting::Finished,
    }
}

/// The decision state of an attempt to find our public address by asking
/// traversal servers, after the gateway failed to map a port.
pub struct OpenAddr {
    protocol: Protocol,
    bind_addr: SocketAddr,
    igd_err: Option<GetAnyAddressError>,
    known_addr_opt: Option<SocketAddr>,
    active_queries: usize,
    errors: Vec<QueryPublicAddrError>,
    more_servers_timeout: bool,
    awaiting: Awaiting,
}

impl OpenAddr {
    /// The protocol whose public address is sought.
    pub closed spec fn spec_protocol(&self) -> Protocol {
        self.protocol
    }

    /// The local address whose public counterpart is sought.
    pub closed spec fn spec_bind_addr(&self) -> SocketAddr {
        self.bind_addr
    }

    /// The gateway's error; taken when the attempt fails.
    pub closed spec fn spec_igd_err(&self) -> Option<GetAnyAddressError> {
        self.igd_err
    }

    /// The first public address that a server reported, if any did.
    pub closed spec fn spec_known_addr(&self) -> Option<SocketAddr> {
        self.known_addr_opt
    }

    /// How many queries are running.
    pub closed spec fn spec_active_queries(&self) -> nat {
        self.active_queries as nat
    }

    /// The errors of the queries that failed so far, in order.
    pub closed spec fn spec_errors(&self) -> Seq<QueryPublicAddrError> {
        self.errors@
    }

    /// Whether the timeout waiting for more servers is running.
    pub closed spec fn spec_timeout_running(&self) -> bool {
        self.more_servers_timeout
    }

    /// What the attempt waits to hear about next.
    pub closed spec fn spec_awaiting(&self) -> Awaiting {
        self.awaiting
    }

    /// The attempt is still running: it holds the gateway's error, at most
    /// two queries run, the timeout only runs while no query does, failed
    /// and running queries together number at most six, and what it waits
    /// for fits its state.
    pub open spec fn wf(&self) -> bool {
        &&& self.spec_awaiting() != Awaiting::Finished
        &&& self.spec_igd_err() is Some
        &&& self.spec_active_queries() <= MAX_ACTIVE_QUERIES
        &&& self.spec_timeout_running() ==> self.spec_active_queries() == 0
        &&& self.spec_errors().len() + self.spec_active_queries() <= QUERY_ERROR_LIMIT + MAX_ACTIVE_QUERIES - 1
        &&& self.spec_awaiting() != Awaiting::Queries ==> self.spec_errors().len() < QUERY_ERROR_LIMIT
        &&& self.spec_awaiting() == Awaiting::Servers ==> self.spec_active_queries() < MAX_ACTIVE_QUERIES
        &&& self.spec_awaiting() == Awaiting::QueryStart ==> self.spec_active_queries() < MAX_ACTIVE_QUERIES
        &&& self.spec_awaiting() == Awaiting::TimeoutStart ==> self.spec_active_queries() == 0
        &&& self.spec_awaiting() == Awaiting::Timeout ==> self.spec_timeout_running()
    }

    /// Whether the outside world can report `ev` in this state: only an
    /// answer to the action asked for last, and a query can only finish
    /// while one runs.
    pub open spec fn accepts(&self, ev: OpenAddrEvent) -> bool {
        match self.spec_awaiting() {
            Awaiting::Poll => ev is Polled,
            Awaiting::Queries => ev is QueriesIdle || (ev is QueryFinished && self.spec_active_queries() > 0),
            Awaiting::Servers => ev is ServerFound || ev is ServersExhausted || ev is ServersPending,
            Awaiting::QueryStart => ev is QueryStarted,
            Awaiting::TimeoutStart => ev is TimeoutStarted,
            Awaiting::Timeout => ev is TimeoutElapsed || ev is TimeoutPending,
            Awaiting::Finished => false,
        }
    }

    /// A new attempt for `bind_addr` over `protocol`, after the gateway
    /// failed with `igd_err`.
    pub fn new(protocol: Protocol, bind_addr: SocketAddr, igd_err: GetAnyAddressError) -> (r: OpenAddr)
        ensures
            r.wf(),
            r.spec_protocol() == protocol,
            r.spec_bind_addr() == bind_addr,
            r.spec_igd_err() == Some(igd_err),
            r.spec_known_addr() is None,
            r.spec_active_queries() == 0,
            r.spec_errors() == Seq::<QueryPublicAddrError>::empty(),
            !r.spec_timeout_running(),
            r.spec_awaiting() == Awaiting::Poll,
    {
        OpenAddr {
            protocol,
            bind_addr,
            igd_err: Some(igd_err),
            known_addr_opt: None,
            active_queries: 0,
            errors: Vec::new(),
            more_servers_timeout: false,
            awaiting: Awaiting::Poll,
        }
    }

    /// Whether the attempt can still take steps: it has not ended.
    pub fn is_running(&self) -> (r: bool)
        ensures
            r == (self.spec_awaiting() != Awaiting::Finished),
    {
        self.awaiting != Awaiting::Finished
    }

    /// Whether `ev` can be reported in this state.
    pub fn accepts_event(&self, ev: &OpenAddrEvent) -> (r: bool)
        ensures
            r == self.accepts(*ev),
    {
        match self.awaiting {
            Awaiting::Poll => matches!(ev, OpenAddrEvent::Polled),
            Awaiting::Queries => match ev {
                OpenAddrEvent::QueriesIdle => true,
                OpenAddrEvent::QueryFinished(_) => self.active_queries > 0,
                _ => false,
            },
            Awaiting::Servers => match ev {
                OpenAddrEvent::ServerFound(_) => true,
                OpenAddrEvent::ServersExhausted => true,
                OpenAddrEvent::ServersPending => true,
                _ => false,
            },
            Awaiting::QueryStart => matches!(ev, OpenAddrEvent::QueryStarted),
            Awaiting::TimeoutStart => matches!(ev, OpenAddrEvent::TimeoutStarted),
            Awaiting::Timeout => match ev {
                OpenAddrEvent::TimeoutElapsed => true,
                OpenAddrEvent::TimeoutPending => true,
                _ => false,
            },
            Awaiting::Finished => false,
        }
    }

    /// The protocol whose public address is sought.
    pub fn protocol(&self) -> (r: Protocol)
        ensures
            r == self.spec_protocol(),
    {
        self.protocol
    }

    /// The local address whose public counterpart is sought.
    pub fn bind_addr(&self) -> (r: SocketAddr)
        ensures
            r == self.spec_bind_addr(),
    {
        self.bind_addr
    }
}

/// `t` is `s` with the given dynamic fields and the same protocol and local address.
pub open spec fn state_is(
    t: OpenAddr,
    s: OpenAddr,
    igd_err: Option<GetAnyAddressError>,
    known: Option<SocketAddr>,
    active: nat,
    errors: Seq<QueryPublicAddrError>,
    timeout: bool,
) -> bool {
    &&& t.spec_protocol() == s.spec_protocol()
    &&& t.spec_bind_addr() == s.spec_bind_addr()
    &&& t.spec_igd_err() == igd_err
    &&& t.spec_known_addr() == known
    &&& t.spec_active_queries() == active
    &&& t.spec_errors() == errors
    &&& t.spec_timeout_running() == timeout
}

/// `t` is `s` unchanged.
pub open spec fn unchanged(t: OpenAddr, s: OpenAddr) -> bool {
    state_is(
        t,
        s,
        s.spec_igd_err(),
        s.spec_known_addr(),
        s.spec_active_queries(),
        s.spec_errors(),
        s.spec_timeout_running(),
    )
}

/// How the attempt ends when no server is left to ask: with the address
/// already reported, or else for lack of servers.
pub open spec fn settles(s: OpenAddr, t: OpenAddr, act: OpenAddrAction) -> bool {
    match s.spec_known_addr() {
        Some(k) => act == OpenAddrAction::Done(Ok(k)) && unchanged(t, s),
        None => {
            &&& act matches OpenAddrAction::Done(Err(e)) && Some(e.igd_err) == s.spec_igd_err()
                && e.kind is LackOfServers
            &&& state_is(
                t,
                s,
                None,
                s.spec_known_addr(),
                s.spec_active_queries(),
                s.spec_errors(),
                s.spec_timeout_running(),
            )
        },
    }
}

/// One step of the attempt: from state `s`, the event `ev` leads to state `t`
/// and action `act`, and the attempt then waits for the answer to `act`.
pub open spec fn step_ok(s: OpenAddr, ev: OpenAddrEvent, t: OpenAddr, act: OpenAddrAction) -> bool {
    t.spec_awaiting() == awaiting_after(act) && step_effect(s, ev, t, act)
}

/// What one step records and decides: from state `s`, the event `ev` leads
/// to state `t` and action `act`.
pub open spec fn step_effect(s: OpenAddr, ev: OpenAddrEvent, t: OpenAddr, act: OpenAddrAction) -> bool {
    match ev {
        OpenAddrEvent::Polled => act is PollQueries && unchanged(t, s),
        OpenAddrEvent::QueryFinished(Err(e)) => {
            &&& act is PollQueries
            &&& state_is(
                t,
                s,
                s.spec_igd_err(),
                s.spec_known_addr(),
                (s.spec_active_queries() - 1) as nat,
                s.spec_errors().push(e),
                s.spec_timeout_running(),
            )
        },
        OpenAddrEvent::QueryFinished(Ok(addr)) => match s.spec_known_addr() {
            Some(known) => if known == addr {
                &&& act == OpenAddrAction::Done(Ok(addr))
                &&& state_is(
                    t,
                    s,
                    s.spec_igd_err(),
                    s.spec_known_addr(),
                    (s.spec_active_queries() - 1) as nat,
                    s.spec_errors(),
                    s.spec_timeout_running(),
                )
            } else {
                &&& act matches OpenAddrAction::Done(Err(e)) && Some(e.igd_err) == s.spec_igd_err()
                    && e.kind == OpenAddrErrorKind::InconsistentAddrs(known, addr)
                &&& state_is(
                    t,
                    s,
                    None,
                    s.spec_known_addr(),
                    (s.spec_active_queries() - 1) as nat,
                    s.spec_errors(),
                    s.spec_timeout_running(),
                )
            },
            None => {
                &&& act is PollQueries
                &&& state_is(
                    t,
                    s,
                    s.spec_igd_err(),
                    Some(addr),
                    (s.spec_active_queries() - 1) as nat,
                    s.spec_errors(),
                    s.spec_timeout_running(),
                )
            },
        },
        OpenAddrEvent::QueriesIdle => if s.spec_errors().len() >= QUERY_ERROR_LIMIT {
            &&& act matches OpenAddrAction::Done(Err(e)) && Some(e.igd_err) == s.spec_igd_err()
                && (e.kind matches OpenAddrErrorKind::HitErrorLimit(v) && v@ == s.spec_errors())
            &&& state_is(
                t,
                s,
                None,
                s.spec_known_addr(),
                s.spec_active_queries(),
                Seq::empty(),
                s.spec_timeout_running(),
            )
        } else if s.spec_active_queries() == MAX_ACTIVE_QUERIES {
            act is NotReady && unchanged(t, s)
        } else {
            act is PollServers && unchanged(t, s)
        },
        OpenAddrEvent::ServerFound(server) => act == OpenAddrAction::StartQuery(server) && unchanged(t, s),
        OpenAddrEvent::QueryStarted => {
            &&& act is PollQueries
            &&& state_is(
                t,
                s,
                s.spec_igd_err(),
                s.spec_known_addr(),
                s.spec_active_queries() + 1,
                s.spec_errors(),
                false,
            )
        },
        OpenAddrEvent::ServersExhausted => if s.spec_active_queries() == 0 {
            settles(s, t, act)
        } else {
            act is PollQueries && unchanged(t, s)
        },
        OpenAddrEvent::ServersPending => {
            &&& unchanged(t, s)
            &&& if s.spec_active_queries() != 0 {
                act is NotReady
            } else if s.spec_timeout_running() {
                act is PollTimeout
            } else {
                act is StartTimeout
            }
        },
        OpenAddrEvent::TimeoutStarted => {
            &&& act is PollTimeout
            &&& state_is(
                t,
                s,
                s.spec_igd_err(),
                s.spec_known_addr(),
                s.spec_active_queries(),
                s.spec_errors(),
                true,
            )
        },
        OpenAddrEvent::TimeoutElapsed => settles(s, t, act),
        OpenAddrEvent::TimeoutPending => act is NotReady && unchanged(t, s),
    }
}

impl OpenAddr {
    /// Takes the gateway's error to end the attempt with `kind`.
    fn fail(&mut self, kind: OpenAddrErrorKind) -> (r: OpenAddrAction)
        requires
            old(self).spec_igd_err() is Some,
        ensures
            r matches OpenAddrAction::Done(Err(e)) && Some(e.igd_err) == old(self).spec_igd_err()
                && e.kind == kind,
            state_is(
                *final(self),
                *old(self),
                None,
                old(self).spec_known_addr(),
                old(self).spec_active_queries(),
                old(self).spec_errors(),
                old(self).spec_timeout_running(),
            ),
    {
        let igd_err = self.igd_err.take().unwrap();
        OpenAddrAction::Done(Err(OpenAddrError { igd_err, kind }))
    }

    /// Ends the attempt with the address already reported, or else for lack of servers.
    fn settle(&mut self) -> (r: OpenAddrAction)
        requires
            old(self).spec_igd_err() is Some,
        ensures
            settles(*old(self), *final(self), r),
    {
        match self.known_addr_opt {
            Some(known_addr) => OpenAddrAction::Done(Ok(known_addr)),
            None => self.fail(OpenAddrErrorKind::LackOfServers),
        }
    }

    /// Takes one step: records what `ev` reports, decides what to do next,
    /// and then waits for the answer to that.
    pub fn step(&mut self, ev: OpenAddrEvent) -> (act: OpenAddrAction)
        requires
            old(self).wf(),
            old(self).accepts(ev),
        ensures
            step_ok(*old(self), ev, *final(self), act),
            !(act is Done) ==> final(self).wf(),
    {
        let act = self.decide(ev);
        self.awaiting = match act {
            OpenAddrAction::PollQueries => Awaiting::Queries,
            OpenAddrAction::PollServers => Awaiting::Servers,
            OpenAddrAction::StartQuery(_) => Awaiting::QueryStart,
            OpenAddrAction::StartTimeout => Awaiting::TimeoutStart,
            OpenAddrAction::PollTimeout => Awaiting::Timeout,
            OpenAddrAction::NotReady => Awaiting::Poll,
            OpenAddrAction::Done(_) => Awaiting::Finished,
        };
        act
    }

    /// Records what `ev` reports and decides what to do next.
    fn decide(&mut self, ev: OpenAddrEvent) -> (act: OpenAddrAction)
        requires
            old(self).wf(),
            old(self).accepts(ev),
        ensures
            step_effect(*old(self), ev, *final(self), act),
    {
        match ev {
            OpenAddrEvent::Polled => OpenAddrAction::PollQueries,
            OpenAddrEvent::QueryFinished(Err(e)) => {
                self.active_queries = self.active_queries - 1;
                self.errors.push(e);
                OpenAddrAction::PollQueries
            },
            OpenAddrEvent::QueryFinished(Ok(addr)) => {
                self.active_queries = self.active_queries - 1;
                match self.known_addr_opt {
                    Some(known_addr) => {
                        if known_addr == addr {
                            OpenAddrAction::Done(Ok(addr))
                        } else {
                            self.fail(OpenAddrErrorKind::InconsistentAddrs(known_addr, addr))
                        }
                    },
                    None => {
                        self.known_addr_opt = Some(addr);
                        OpenAddrAction::PollQueries
                    },
                }
            },
            OpenAddrEvent::QueriesIdle => {
                if self.errors.len() >= QUERY_ERROR_LIMIT {
                    let mut errors: Vec<QueryPublicAddrError> = Vec::new();
                    std::mem::swap(&mut errors, &mut self.errors);
                    self.fail(OpenAddrErrorKind::HitErrorLimit(errors))
                } else if self.active_queries == MAX_ACTIVE_QUERIES {
                    OpenAddrAction::NotReady
                } else {
                    OpenAddrAction::PollServers
                }
            },
            OpenAddrEvent::ServerFound(server_addr) => OpenAddrAction::StartQuery(server_addr),
            OpenAddrEvent::QueryStarted => {
                self.active_queries = self.active_queries + 1;
                self.more_servers_timeout = false;
                OpenAddrAction::PollQueries
            },
            OpenAddrEvent::ServersExhausted => {
                if self.active_queries == 0 {
                    self.settle()
                } else {
                    OpenAddrAction::PollQueries
                }
            },
            OpenAddrEvent::ServersPending => {
                if self.active_queries != 0 {
                    OpenAddrAction::NotReady
                } else if self.more_servers_timeout {
                    OpenAddrAction::PollTimeout
                } else {
                    OpenAddrAction::StartTimeout
                }
            },
            OpenAddrEvent::TimeoutStarted => {
                self.more_servers_timeout = true;
                OpenAddrAction::PollTimeout
            },
            OpenAddrEvent::TimeoutElapsed => self.settle(),
            OpenAddrEvent::TimeoutPending => OpenAddrAction::NotReady,
        }
    }
}

/// An attempt only succeeds with the first public address that a traversal
/// server reported.
pub proof fn lemma_open_addr_success_is_first_reported(
    s: OpenAddr,
    ev: OpenAddrEvent,
    t: OpenAddr,
    act: OpenAddrAction,
)
    requires
        step_ok(s, ev, t, act),
    ensures
        act matches OpenAddrAction::Done(Ok(a)) ==> s.spec_known_addr() == Some(a),
{
}

/// An attempt that ends with inconsistent addresses names the first address
/// reported and the different address that a later server reported.
pub proof fn lemma_open_addr_inconsistent_names_both(
    s: OpenAddr,
    ev: OpenAddrEvent,
    t: OpenAddr,
    act: OpenAddrAction,
)
    requires
        step_ok(s, ev, t, act),
    ensures
        act matches OpenAddrAction::Done(Err(e)) ==> (e.kind matches OpenAddrErrorKind::InconsistentAddrs(
            a0,
            a1,
        ) ==> s.spec_known_addr() == Some(a0) && a0 != a1 && ev == OpenAddrEvent::QueryFinished(
            Ok(a1),
        )),
{
}

/// Every failure of an attempt carries the gateway's error, and a failure for
/// too many errors carries every query error so far, at least five of them
/// and, from a running attempt, at most six.
pub proof fn lemma_open_addr_failure_contents(
    s: OpenAddr,
    ev: OpenAddrEvent,
    t: OpenAddr,
    act: OpenAddrAction,
)
    requires
        step_ok(s, ev, t, act),
    ensures
        act matches OpenAddrAction::Done(Err(e)) ==> Some(e.igd_err) == s.spec_igd_err(),
        act matches OpenAddrAction::Done(Err(e)) ==> (e.kind matches OpenAddrErrorKind::HitErrorLimit(v)
            ==> v@ == s.spec_errors() && v@.len() >= QUERY_ERROR_LIMIT),
        s.wf() ==> (act matches OpenAddrAction::Done(Err(e)) ==> (e.kind matches OpenAddrErrorKind::HitErrorLimit(v)
            ==> v@.len() <= QUERY_ERROR_LIMIT + MAX_ACTIVE_QUERIES - 1)),
{
}

/// While an attempt runs, at most two queries run at once and the timeout
/// only runs while none does.
pub proof fn lemma_open_addr_step_keeps_wf(
    s: OpenAddr,
    ev: OpenAddrEvent,
    t: OpenAddr,
    act: OpenAddrAction,
)
    requires
        s.wf(),
        s.accepts(ev),
        step_ok(s, ev, t, act),
        !(act is Done),
    ensures
        t.wf(),
{
}

/// Once a server has reported an address, the attempt keeps it until it ends.
pub proof fn lemma_open_addr_known_addr_sticks(
    s: OpenAddr,
    ev: OpenAddrEvent,
    t: OpenAddr,
    act: OpenAddrAction,
)
    requires
        step_ok(s, ev, t, act),
        s.spec_known_addr() is Some,
        !(act is Done),
    ensures
        t.spec_known_addr() == s.spec_known_addr(),
{
}

/// The addresses that finished queries reported, in order.
pub open spec fn reported_addrs(evs: Seq<OpenAddrEvent>) -> Seq<SocketAddr>
    decreases evs.len(),
{
    if evs.len() == 0 {
        seq![]
    } else {
        let earlier = reported_addrs(evs.drop_last());
        match evs.last() {
            OpenAddrEvent::QueryFinished(Ok(a)) => earlier.push(a),
            _ => earlier,
        }
    }
}

/// The `i`-th step of a run is a step of the state machine.
pub open spec fn step_at(
    states: Seq<OpenAddr>,
    evs: Seq<OpenAddrEvent>,
    acts: Seq<OpenAddrAction>,
    i: int,
) -> bool {
    states[i].accepts(evs[i]) && step_ok(states[i], evs[i], states[i + 1], acts[i])
}

/// A run of an attempt: the states it passes through, the events reported to
/// it and the actions it answered with, each event accepted by the state it
/// was reported to, and no step after the attempt ended.
pub open spec fn is_run(states: Seq<OpenAddr>, evs: Seq<OpenAddrEvent>, acts: Seq<OpenAddrAction>) -> bool {
    &&& states.len() == evs.len() + 1
    &&& acts.len() == evs.len()
    &&& forall|i: int| 0 <= i < evs.len() ==> #[trigger] step_at(states, evs, acts, i)
    &&& forall|i: int| 0 <= i < acts.len() - 1 ==> !(#[trigger] acts[i] is Done)
}

/// `s` is an attempt as `OpenAddr::new` makes it after the gateway failed with `igd_err`.
pub open spec fn is_fresh(s: OpenAddr, igd_err: GetAnyAddressError) -> bool {
    &&& s.spec_igd_err() == Some(igd_err)
    &&& s.spec_known_addr() is None
    &&& s.spec_active_queries() == 0
    &&& s.spec_errors() == Seq::<QueryPublicAddrError>::empty()
    &&& !s.spec_timeout_running()
    &&& s.spec_awaiting() == Awaiting::Poll
}

/// The errors that failed queries reported, in order.
pub open spec fn failed_queries(evs: Seq<OpenAddrEvent>) -> Seq<QueryPublicAddrError>
    decreases evs.len(),
{
    if evs.len() == 0 {
        seq![]
    } else {
        let earlier = failed_queries(evs.drop_last());
        match evs.last() {
            OpenAddrEvent::QueryFinished(Err(e)) => earlier.push(e),
            _ => earlier,
        }
    }
}

/// Before each step of a run from a fresh attempt, the attempt is running,
/// still holds the gateway's error, has seen at most one reported address
/// and knows the first one.
proof fn lemma_run_invariant(
    states: Seq<OpenAddr>,
    evs: Seq<OpenAddrEvent>,
    acts: Seq<OpenAddrAction>,
    igd_err: GetAnyAddressError,
    i: int,
)
    requires
        is_run(states, evs, acts),
        is_fresh(states[0], igd_err),
        0 <= i < evs.len(),
    ensures
        states[i].wf(),
        states[i].spec_igd_err() == Some(igd_err),
        states[i].spec_errors() == failed_queries(evs.take(i)),
        reported_addrs(evs.take(i)).len() <= 1,
        states[i].spec_known_addr() == (if reported_addrs(evs.take(i)).len() == 0 {
            None
        } else {
            Some(reported_addrs(evs.take(i))[0])
        }),
    decreases i,
{
    if i == 0 {
        assert(evs.take(0) =~= Seq::<OpenAddrEvent>::empty());
    } else {
        lemma_run_invariant(states, evs, acts, igd_err, i - 1);
        assert(step_at(states, evs, acts, i - 1));
        assert(!(acts[i - 1] is Done));
        lemma_open_addr_step_keeps_wf(states[i - 1], evs[i - 1], states[i], acts[i - 1]);
        assert(evs.take(i).drop_last() =~= evs.take(i - 1));
        assert(evs.take(i).last() == evs[i - 1]);
    }
}

/// A run from a fresh attempt that ends with success ends with the first
/// address any query reported; either a second query reported the same
/// address, or it was the only one reported and no query was running when
/// the servers ran out or the wait for more servers elapsed.
pub proof fn lemma_run_success(
    states: Seq<OpenAddr>,
    evs: Seq<OpenAddrEvent>,
    acts: Seq<OpenAddrAction>,
    igd_err: GetAnyAddressError,
    a: SocketAddr,
)
    requires
        is_run(states, evs, acts),
        is_fresh(states[0], igd_err),
        evs.len() > 0,
        acts.last() == OpenAddrAction::Done(Ok(a)),
    ensures
        reported_addrs(evs).len() >= 1,
        reported_addrs(evs)[0] == a,
        (reported_addrs(evs).len() == 2 && reported_addrs(evs)[1] == a && evs.last()
            == OpenAddrEvent::QueryFinished(Ok(a))) || (reported_addrs(evs).len() == 1 && (
        evs.last() is ServersExhausted || evs.last() is TimeoutElapsed) && states[evs.len()
            - 1].spec_active_queries() == 0),
{
    let k = evs.len() - 1;
    lemma_run_invariant(states, evs, acts, igd_err, k);
    assert(step_at(states, evs, acts, k));
    assert(evs.take(k + 1) =~= evs);
    assert(evs.drop_last() =~= evs.take(k));
}

/// In a run from a fresh attempt, at most two queries run before any step,
/// and the server list is only polled while fewer than two run.
pub proof fn lemma_run_at_most_two_queries(
    states: Seq<OpenAddr>,
    evs: Seq<OpenAddrEvent>,
    acts: Seq<OpenAddrAction>,
    igd_err: GetAnyAddressError,
)
    requires
        is_run(states, evs, acts),
        is_fresh(states[0], igd_err),
    ensures
        forall|i: int|
            0 <= i < evs.len() ==> #[trigger] states[i].spec_active_queries() <= MAX_ACTIVE_QUERIES,
        forall|i: int|
            0 <= i < evs.len() ==> (#[trigger] acts[i] is PollServers ==> states[i].spec_active_queries()
                < MAX_ACTIVE_QUERIES),
        evs.len() > 0 && !(acts.last() is Done) ==> states[evs.len() as int].spec_active_queries()
            <= MAX_ACTIVE_QUERIES,
{
    assert forall|i: int| 0 <= i < evs.len() implies #[trigger] states[i].spec_active_queries()
        <= MAX_ACTIVE_QUERIES by {
        lemma_run_invariant(states, evs, acts, igd_err, i);
    }
    assert forall|i: int| 0 <= i < evs.len() implies (#[trigger] acts[i] is PollServers
        ==> states[i].spec_active_queries() < MAX_ACTIVE_QUERIES) by {
        lemma_run_invariant(states, evs, acts, igd_err, i);
        assert(step_at(states, evs, acts, i));
    }
    if evs.len() > 0 && !(acts.last() is Done) {
        let k = evs.len() - 1;
        lemma_run_invariant(states, evs, acts, igd_err, k);
        assert(step_at(states, evs, acts, k));
        lemma_open_addr_step_keeps_wf(states[k], evs[k], states[k + 1], acts[k]);
    }
}

/// In a run from an attempt made after the gateway failed with `igd_err`,
/// every failure carries exactly that error, whatever its kind.
pub proof fn lemma_run_failure_carries_gateway_error(
    states: Seq<OpenAddr>,
    evs: Seq<OpenAddrEvent>,
    acts: Seq<OpenAddrAction>,
    igd_err: GetAnyAddressError,
)
    requires
        is_run(states, evs, acts),
        is_fresh(states[0], igd_err),
    ensures
        forall|i: int|
            0 <= i < acts.len() ==> (#[trigger] acts[i] matches OpenAddrAction::Done(Err(e)) ==> e.igd_err
                == igd_err),
{
    assert forall|i: int| 0 <= i < acts.len() implies (#[trigger] acts[i] matches OpenAddrAction::Done(
        Err(e),
    ) ==> e.igd_err == igd_err) by {
        lemma_run_invariant(states, evs, acts, igd_err, i);
        assert(step_at(states, evs, acts, i));
        lemma_open_addr_failure_contents(states[i], evs[i], states[i + 1], acts[i]);
    }
}

/// In a run from a fresh attempt, a failure for too many errors carries the
/// errors of every query that failed before it, in the order they failed,
/// five or six of them, while fewer than two queries had succeeded.
pub proof fn lemma_run_error_limit(
    states: Seq<OpenAddr>,
    evs: Seq<OpenAddrEvent>,
    acts: Seq<OpenAddrAction>,
    igd_err: GetAnyAddressError,
)
    requires
        is_run(states, evs, acts),
        is_fresh(states[0], igd_err),
    ensures
        forall|i: int|
            0 <= i < acts.len() ==> (#[trigger] acts[i] matches OpenAddrAction::Done(Err(e)) ==> (
            e.kind matches OpenAddrErrorKind::HitErrorLimit(v) ==> {
                &&& v@ == failed_queries(evs.take(i))
                &&& QUERY_ERROR_LIMIT <= v@.len() <= QUERY_ERROR_LIMIT + MAX_ACTIVE_QUERIES - 1
                &&& reported_addrs(evs.take(i)).len() < 2
            })),
{
    assert forall|i: int| 0 <= i < acts.len() implies (#[trigger] acts[i] matches OpenAddrAction::Done(
        Err(e),
    ) ==> (e.kind matches OpenAddrErrorKind::HitErrorLimit(v) ==> {
        &&& v@ == failed_queries(evs.take(i))
        &&& QUERY_ERROR_LIMIT <= v@.len() <= QUERY_ERROR_LIMIT + MAX_ACTIVE_QUERIES - 1
        &&& reported_addrs(evs.take(i)).len() < 2
    })) by {
        lemma_run_invariant(states, evs, acts, igd_err, i);
        assert(step_at(states, evs, acts, i));
        lemma_open_addr_failure_contents(states[i], evs[i], states[i + 1], acts[i]);
    }
}

} // verus!
