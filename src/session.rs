use vstd::prelude::*;

use crate::config::ClusterConfig;
use crate::error::ClientError;
use crate::future::Future;
use crate::result::QueryResult;
use crate::statement::{all_bound, bound_values, first_unbound, Consistency, Statement};
use crate::value::Value;

verus! {

/// The oldest native protocol version that this client speaks.
pub const MIN_PROTOCOL_VERSION: u32 = 3;

/// The newest native protocol version that this client speaks.
pub const MAX_PROTOCOL_VERSION: u32 = 5;

/// What the transport reports after trying the contact points.
#[derive(Clone, Copy, Debug, PartialEq, Eq, Structural)]
pub enum ConnectEvent {
    /// Sockets were opened to a node that answered with this protocol version.
    Established { connections: u32, protocol_version: u32 },
    /// No contact point answered.
    Unreachable,
    /// The cluster refused the credentials.
    AuthenticationRejected,
}

/// The abstract state of a session.
pub struct SessionView {
    pub open: bool,
    pub connections: nat,
    pub pending: nat,
}

/// The outcome of a connect attempt, given what the transport reported.
pub open spec fn connect_outcome(event: ConnectEvent) -> Result<SessionView, ClientError> {
    match event {
        ConnectEvent::Established { connections, protocol_version } => {
            if connections == 0 {
                Err(ClientError::NetworkUnreachable)
            } else if protocol_version < MIN_PROTOCOL_VERSION || protocol_version
                > MAX_PROTOCOL_VERSION {
                Err(ClientError::IncompatibleProtocol { version: protocol_version })
            } else {
                Ok(SessionView { open: true, connections: connections as nat, pending: 0 })
            }
        },
        ConnectEvent::Unreachable => Err(ClientError::NetworkUnreachable),
        ConnectEvent::AuthenticationRejected => Err(ClientError::Unauthorized),
    }
}

/// Whether a session outcome agrees with an abstract one.
pub open spec fn session_outcome_is(
    r: Result<Session, ClientError>,
    expected: Result<SessionView, ClientError>,
) -> bool {
    match r {
        Ok(s) => s.wf() && expected == Ok::<SessionView, ClientError>(s@),
        Err(e) => expected == Err::<SessionView, ClientError>(e),
    }
}

/// The error with which executing a statement whose slots are `params` is
/// refused in state `s`, or `None` when it goes out.
pub open spec fn execute_refusal(s: SessionView, params: Seq<Option<Value>>) -> Option<
    ClientError,
> {
    if !s.open {
        Some(ClientError::Resource)
    } else if !all_bound(params) {
        Some(ClientError::UnboundParameter { index: first_unbound(params) as usize })
    } else {
        None
    }
}

/// The state that closing leaves: an open session with nothing pending is
/// closed and holds no connection; otherwise nothing changes.
pub open spec fn after_close(s: SessionView) -> SessionView {
    if s.open && s.pending == 0 {
        SessionView { open: false, connections: 0, pending: 0 }
    } else {
        s
    }
}

/// What a statement's future resolves to, given the server's response.
pub open spec fn response_outcome(response: Response) -> Result<QueryResult, ClientError> {
    match response {
        Response::Rows(res) => Ok(res),
        Response::Failed(message) => Err(ClientError::Protocol { message }),
    }
}

/// What goes over the wire for one statement: the query, its consistency
/// level and every parameter value, in position order.
pub struct Request {
    pub query: String,
    pub consistency: Consistency,
    pub values: Vec<Value>,
}

/// What the server answered to one request.
pub enum Response {
    /// The statement ran; these are its rows (none for a statement that
    /// returns none).
    Rows(QueryResult),
    /// The server rejected the statement with this message.
    Failed(String),
}

/// An established logical connection to the cluster.
pub struct Session {
    open: bool,
    connections: u32,
    pending: u64,
}

impl View for Session {
    type V = SessionView;

    closed spec fn view(&self) -> SessionView {
        SessionView {
            open: self.open,
            connections: self.connections as nat,
            pending: self.pending as nat,
        }
    }
}

impl Session {
    /// A closed session holds no connection and has nothing pending.
    pub open spec fn wf(&self) -> bool {
        !self@.open ==> self@.connections == 0 && self@.pending == 0
    }

    /// Starts connecting to the cluster that `config` names. Without any
    /// contact point the future is resolved at once with
    /// `NetworkUnreachable`; otherwise it is pending until the transport
    /// reports through `finish_connect`.
    pub fn connect(config: &ClusterConfig) -> (r: Future<Session>)
        ensures
            config@.len() == 0 ==> r@ == Some(Err::<Session, ClientError>(ClientError::NetworkUnreachable)),
            config@.len() > 0 ==> r@ is None,
    {
        if config.len() == 0 {
            Future::ready(Err(ClientError::NetworkUnreachable))
        } else {
            Future::pending()
        }
    }

    /// The session, or the error, that a connect attempt gives when the
    /// transport reports `event`.
    pub fn establish(event: ConnectEvent) -> (r: Result<Session, ClientError>)
        ensures
            session_outcome_is(r, connect_outcome(event)),
    {
        match event {
            ConnectEvent::Established { connections, protocol_version } => {
                if connections == 0 {
                    Err(ClientError::NetworkUnreachable)
                } else if protocol_version < MIN_PROTOCOL_VERSION || protocol_version
                    > MAX_PROTOCOL_VERSION {
                    Err(ClientError::IncompatibleProtocol { version: protocol_version })
                } else {
                    Ok(Session { open: true, connections, pending: 0 })
                }
            },
            ConnectEvent::Unreachable => Err(ClientError::NetworkUnreachable),
            ConnectEvent::AuthenticationRejected => Err(ClientError::Unauthorized),
        }
    }

    /// Resolves a pending connect future with what `event` gives. A future
    /// that is already resolved is left as it is and the call fails with
    /// `Resource`.
    pub fn finish_connect(future: &mut Future<Session>, event: ConnectEvent) -> (r: Result<
        (),
        ClientError,
    >)
        ensures
            r is Ok <==> old(future)@ is None,
            r is Err ==> r == Err::<(), ClientError>(ClientError::Resource) && final(future)@ == old(
                future,
            )@,
            r is Ok ==> final(future)@ is Some && session_outcome_is(
                final(future)@->0,
                connect_outcome(event),
            ),
    {
        if future.is_ready() {
            return Err(ClientError::Resource);
        }
        let outcome = Session::establish(event);
        future.resolve(outcome)
    }

    /// Hands `statement` to the session. A closed session refuses it with
    /// `Resource`, and a statement with an unbound parameter is refused with
    /// `UnboundParameter`; either way nothing is sent and the session is
    /// unchanged. Otherwise the request to send comes back with a pending
    /// future, and the session counts one more pending statement.
    pub fn execute(&mut self, statement: Statement) -> (r: Result<
        (Request, Future<QueryResult>),
        ClientError,
    >)
        requires
            old(self).wf(),
            old(self)@.pending < u64::MAX,
        ensures
            final(self).wf(),
            execute_refusal(old(self)@, statement@.params) matches Some(e) ==> r == Err::<
                (Request, Future<QueryResult>),
                ClientError,
            >(e) && final(self)@ == old(self)@,
            execute_refusal(old(self)@, statement@.params) is None ==> r is Ok && final(self)@
                == (SessionView { pending: old(self)@.pending + 1, ..old(self)@ }),
            r matches Ok((req, fut)) ==> req.query@ == statement@.query && req.consistency
                == statement@.consistency && req.values@ == bound_values(statement@.params)
                && fut@ is None,
    {
        if !self.open {
            return Err(ClientError::Resource);
        }
        match statement.into_parts() {
            Ok((query, consistency, values)) => {
                self.pending = self.pending + 1;
                Ok((Request { query, consistency, values }, Future::pending()))
            },
            Err(e) => {
                Err(e)
            },
        }
    }

    /// Resolves the future of a pending statement with the server's
    /// `response`, and counts one pending statement less. A future that is
    /// already resolved, or a session with nothing pending, leaves both as
    /// they are and fails with `Resource`.
    pub fn complete(&mut self, future: &mut Future<QueryResult>, response: Response) -> (r: Result<
        (),
        ClientError,
    >)
        requires
            old(self).wf(),
        ensures
            final(self).wf(),
            r is Ok <==> old(future)@ is None && old(self)@.pending > 0,
            r is Err ==> r == Err::<(), ClientError>(ClientError::Resource) && final(future)@ == old(
                future,
            )@ && final(self)@ == old(self)@,
            r is Ok ==> final(future)@ == Some(response_outcome(response)) && final(self)@ == (
            SessionView { pending: (old(self)@.pending - 1) as nat, ..old(self)@ }),
    {
        if future.is_ready() || self.pending == 0 {
            return Err(ClientError::Resource);
        }
        let outcome = match response {
            Response::Rows(res) => Ok(res),
            Response::Failed(message) => Err(ClientError::Protocol { message }),
        };
        self.pending = self.pending - 1;
        future.resolve(outcome)
    }

    /// Closes the session and releases its connections, returning how many
    /// were released. A closed session, or one with statements pending, is
    /// left as it is and the call fails with `Resource`.
    pub fn close(&mut self) -> (r: Result<u32, ClientError>)
        requires
            old(self).wf(),
        ensures
            final(self).wf(),
            final(self)@ == after_close(old(self)@),
            r is Ok <==> old(self)@.open && old(self)@.pending == 0,
            r matches Ok(n) ==> n == old(self)@.connections,
            r is Err ==> r == Err::<u32, ClientError>(ClientError::Resource),
    {
        if !self.open || self.pending > 0 {
            return Err(ClientError::Resource);
        }
        let released = self.connections;
        self.open = false;
        self.connections = 0;
        Ok(released)
    }

    /// Whether the session is open.
    pub fn is_open(&self) -> (r: bool)
        ensures
            r == self@.open,
    {
        self.open
    }

    /// How many sockets the session holds.
    pub fn connection_count(&self) -> (r: u32)
        ensures
            r == self@.connections,
    {
        self.connections
    }

    /// How many executed statements still await their response.
    pub fn pending_count(&self) -> (r: u64)
        ensures
            r == self@.pending,
    {
        self.pending
    }
}

/// Closing an open session with nothing pending releases every connection,
/// and the closed session then refuses every statement with `Resource`.
pub proof fn lemma_closed_session_refuses(s: SessionView, params: Seq<Option<Value>>)
    requires
        s.open,
        s.pending == 0,
    ensures
        after_close(s).connections == 0,
        !after_close(s).open,
        execute_refusal(after_close(s), params) == Some(ClientError::Resource),
{
}

} // verus!
