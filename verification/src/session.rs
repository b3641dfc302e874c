//! Per-connection session state machines. Each accepted connection is an
//! independent unit of work: the server side authenticates (when auth is
//! enabled), connects to the fixed backend, relays, and closes; the client
//! side connects to the remote relay, runs its half of the handshake (when
//! auth is enabled), relays, and closes. A failure at any step is terminal
//! for the session and never touches any other session.

use crate::auth::{AuthError, Claims};
use crate::relay::{combine_outcomes, spec_combine, Pump, RelayOutcome, SessionError};
use vstd::prelude::*;

verus! {

/// What the surrounding loop must do next for a session.
#[derive(Clone, Copy, PartialEq, Eq, Structural, Debug)]
pub enum SessionAction {
    /// Run the local half of the auth handshake on the tunnel stream.
    RunHandshake,
    /// Open the outbound connection to the backend (server side).
    ConnectBackend,
    /// Start the two concurrent copy directions.
    StartRelay,
    /// Close the connection; the session is over.
    Close,
}

/// Where a server-side session stands.
#[derive(Clone, Copy, PartialEq, Eq, Structural, Debug)]
pub enum ServerPhase {
    AwaitingAuth,
    ConnectingBackend,
    Relaying,
    Closed,
}

/// The server side of one relayed connection: authenticate the inbound
/// tunnel (when auth is enabled), connect to the fixed backend, relay until
/// both directions end, report the outcome.
pub struct ServerSession {
    phase: ServerPhase,
    auth_enabled: bool,
    authenticated: bool,
    outcome: Option<RelayOutcome>,
}

impl ServerSession {
    /// Where this session stands.
    pub closed spec fn spec_phase(&self) -> ServerPhase {
        self.phase
    }

    /// Whether this session must authenticate before relaying.
    pub closed spec fn spec_auth_enabled(&self) -> bool {
        self.auth_enabled
    }

    /// Whether the handshake has reached `Authenticated`.
    pub closed spec fn spec_authenticated(&self) -> bool {
        self.authenticated
    }

    /// The terminal outcome, once the session has closed.
    pub closed spec fn spec_outcome(&self) -> Option<RelayOutcome> {
        self.outcome
    }

    /// A session reaches the backend, and relays, only after authentication
    /// has succeeded on a path that requires it; the outcome exists exactly
    /// once the session has closed.
    pub open spec fn wf(&self) -> bool {
        &&& (self.spec_phase() is ConnectingBackend || self.spec_phase() is Relaying) ==> (
        self.spec_auth_enabled() ==> self.spec_authenticated())
        &&& self.spec_outcome() is Some <==> self.spec_phase() is Closed
    }

    /// A fresh session for one accepted inbound connection. With auth
    /// enabled it awaits the handshake; without, it goes straight to the
    /// backend connect.
    pub fn new(auth_enabled: bool) -> (s: ServerSession)
        ensures
            s.wf(),
            s.spec_auth_enabled() == auth_enabled,
            !s.spec_authenticated(),
            auth_enabled ==> s.spec_phase() is AwaitingAuth,
            !auth_enabled ==> s.spec_phase() is ConnectingBackend,
    {
        ServerSession {
            phase: if auth_enabled {
                ServerPhase::AwaitingAuth
            } else {
                ServerPhase::ConnectingBackend
            },
            auth_enabled,
            authenticated: false,
            outcome: None,
        }
    }

    /// Consumes the handshake result. Success moves on to the backend
    /// connect; any rejection closes the session at once, with no backend
    /// connection attempted and no bytes relayed in either direction.
    pub fn on_auth(&mut self, result: &Result<Claims, AuthError>) -> (a: SessionAction)
        requires
            old(self).wf(),
            old(self).spec_phase() is AwaitingAuth,
        ensures
            final(self).wf(),
            final(self).spec_auth_enabled() == old(self).spec_auth_enabled(),
            a == spec_auth_action(*result),
            (match result {
                Ok(_) => {
                    &&& final(self).spec_phase() is ConnectingBackend
                    &&& final(self).spec_authenticated()
                    &&& a is ConnectBackend
                },
                Err(e) => {
                    &&& final(self).spec_phase() is Closed
                    &&& a is Close
                    &&& final(self).spec_outcome() == Some(
                        RelayOutcome::Failed {
                            error: SessionError::Auth(*e),
                            front_to_back: 0,
                            back_to_front: 0,
                        },
                    )
                },
            }),
    {
        match result {
            Ok(_) => {
                self.authenticated = true;
                self.phase = ServerPhase::ConnectingBackend;
                SessionAction::ConnectBackend
            },
            Err(e) => {
                self.phase = ServerPhase::Closed;
                self.outcome = Some(
                    RelayOutcome::Failed {
                        error: SessionError::Auth(*e),
                        front_to_back: 0,
                        back_to_front: 0,
                    },
                );
                SessionAction::Close
            },
        }
    }

    /// Consumes the backend connect's result. Success starts the relay; a
    /// failure closes the inbound connection with zero bytes relayed in
    /// either direction.
    pub fn on_backend_connect(&mut self, ok: bool) -> (a: SessionAction)
        requires
            old(self).wf(),
            old(self).spec_phase() is ConnectingBackend,
        ensures
            final(self).wf(),
            final(self).spec_auth_enabled() == old(self).spec_auth_enabled(),
            ok ==> final(self).spec_phase() is Relaying && a is StartRelay,
            !ok ==> {
                &&& final(self).spec_phase() is Closed
                &&& a is Close
                &&& final(self).spec_outcome() == Some(
                    RelayOutcome::Failed {
                        error: SessionError::BackendConnect,
                        front_to_back: 0,
                        back_to_front: 0,
                    },
                )
            },
    {
        if ok {
            self.phase = ServerPhase::Relaying;
            SessionAction::StartRelay
        } else {
            self.phase = ServerPhase::Closed;
            self.outcome = Some(
                RelayOutcome::Failed {
                    error: SessionError::BackendConnect,
                    front_to_back: 0,
                    back_to_front: 0,
                },
            );
            SessionAction::Close
        }
    }

    /// Consumes the two ended relay directions and closes the session with
    /// their combined outcome.
    pub fn on_relay_done(&mut self, fb: &Pump, bf: &Pump) -> (a: SessionAction)
        requires
            old(self).wf(),
            old(self).spec_phase() is Relaying,
            !(fb.spec_state() is Running),
            !(bf.spec_state() is Running),
        ensures
            final(self).wf(),
            final(self).spec_phase() is Closed,
            a is Close,
            final(self).spec_outcome() == Some(
                spec_combine(
                    fb.spec_state() is Failed,
                    bf.spec_state() is Failed,
                    fb.spec_bytes(),
                    bf.spec_bytes(),
                ),
            ),
    {
        let o = combine_outcomes(fb, bf);
        self.phase = ServerPhase::Closed;
        self.outcome = Some(o);
        SessionAction::Close
    }

    /// The terminal outcome of a closed session.
    pub fn outcome(&self) -> (o: RelayOutcome)
        requires
            self.wf(),
            self.spec_phase() is Closed,
        ensures
            Some(o) == self.spec_outcome(),
    {
        match self.outcome {
            Some(o) => o,
            None => RelayOutcome::Complete { front_to_back: 0, back_to_front: 0 },
        }
    }
}

/// Where a client-side session stands.
#[derive(Clone, Copy, PartialEq, Eq, Structural, Debug)]
pub enum ClientPhase {
    ConnectingRemote,
    Authenticating,
    Relaying,
    Closed,
}

/// The client side of one relayed connection: connect to the remote relay
/// over the configured transport, run the client half of the handshake (when
/// auth is enabled), relay until both directions end, report the outcome.
pub struct ClientSession {
    phase: ClientPhase,
    auth_enabled: bool,
    authenticated: bool,
    outcome: Option<RelayOutcome>,
}

impl ClientSession {
    /// Where this session stands.
    pub closed spec fn spec_phase(&self) -> ClientPhase {
        self.phase
    }

    /// Whether this session must authenticate before relaying.
    pub closed spec fn spec_auth_enabled(&self) -> bool {
        self.auth_enabled
    }

    /// Whether the handshake has reached `Authenticated`.
    pub closed spec fn spec_authenticated(&self) -> bool {
        self.authenticated
    }

    /// The terminal outcome, once the session has closed.
    pub closed spec fn spec_outcome(&self) -> Option<RelayOutcome> {
        self.outcome
    }

    /// Relay starts only after authentication has succeeded on a path that
    /// requires it; the outcome exists exactly once the session has closed.
    pub open spec fn wf(&self) -> bool {
        &&& self.spec_phase() is Relaying ==> (self.spec_auth_enabled()
            ==> self.spec_authenticated())
        &&& self.spec_outcome() is Some <==> self.spec_phase() is Closed
    }

    /// A fresh session for one accepted local connection, about to dial the
    /// remote relay.
    pub fn new(auth_enabled: bool) -> (s: ClientSession)
        ensures
            s.wf(),
            s.spec_auth_enabled() == auth_enabled,
            !s.spec_authenticated(),
            s.spec_phase() is ConnectingRemote,
    {
        ClientSession {
            phase: ClientPhase::ConnectingRemote,
            auth_enabled,
            authenticated: false,
            outcome: None,
        }
    }

    /// Consumes the remote connect's result. Success moves on to the
    /// handshake — or straight to the relay when auth is disabled; a failure
    /// closes the local connection without relaying anything.
    pub fn on_remote_connect(&mut self, ok: bool) -> (a: SessionAction)
        requires
            old(self).wf(),
            old(self).spec_phase() is ConnectingRemote,
        ensures
            final(self).wf(),
            final(self).spec_auth_enabled() == old(self).spec_auth_enabled(),
            (ok && old(self).spec_auth_enabled()) ==> final(self).spec_phase() is Authenticating
                && a is RunHandshake,
            (ok && !old(self).spec_auth_enabled()) ==> final(self).spec_phase() is Relaying
                && a is StartRelay,
            !ok ==> {
                &&& final(self).spec_phase() is Closed
                &&& a is Close
                &&& final(self).spec_outcome() == Some(
                    RelayOutcome::Failed {
                        error: SessionError::RemoteConnect,
                        front_to_back: 0,
                        back_to_front: 0,
                    },
                )
            },
    {
        if ok {
            if self.auth_enabled {
                self.phase = ClientPhase::Authenticating;
                SessionAction::RunHandshake
            } else {
                self.phase = ClientPhase::Relaying;
                SessionAction::StartRelay
            }
        } else {
            self.phase = ClientPhase::Closed;
            self.outcome = Some(
                RelayOutcome::Failed {
                    error: SessionError::RemoteConnect,
                    front_to_back: 0,
                    back_to_front: 0,
                },
            );
            SessionAction::Close
        }
    }

    /// Consumes the client handshake result: whether the reply byte
    /// authenticated it. Acceptance starts the relay; a rejection — or a
    /// handshake I/O failure — closes the local connection without relaying.
    pub fn on_auth_result(&mut self, accepted: bool) -> (a: SessionAction)
        requires
            old(self).wf(),
            old(self).spec_phase() is Authenticating,
        ensures
            final(self).wf(),
            final(self).spec_auth_enabled() == old(self).spec_auth_enabled(),
            accepted ==> final(self).spec_phase() is Relaying && final(self).spec_authenticated()
                && a is StartRelay,
            !accepted ==> {
                &&& final(self).spec_phase() is Closed
                &&& a is Close
                &&& final(self).spec_outcome() == Some(
                    RelayOutcome::Failed {
                        error: SessionError::HandshakeRejected,
                        front_to_back: 0,
                        back_to_front: 0,
                    },
                )
            },
    {
        if accepted {
            self.authenticated = true;
            self.phase = ClientPhase::Relaying;
            SessionAction::StartRelay
        } else {
            self.phase = ClientPhase::Closed;
            self.outcome = Some(
                RelayOutcome::Failed {
                    error: SessionError::HandshakeRejected,
                    front_to_back: 0,
                    back_to_front: 0,
                },
            );
            SessionAction::Close
        }
    }

    /// Consumes the two ended relay directions and closes the session with
    /// their combined outcome.
    pub fn on_relay_done(&mut self, fb: &Pump, bf: &Pump) -> (a: SessionAction)
        requires
            old(self).wf(),
            old(self).spec_phase() is Relaying,
            !(fb.spec_state() is Running),
            !(bf.spec_state() is Running),
        ensures
            final(self).wf(),
            final(self).spec_phase() is Closed,
            a is Close,
            final(self).spec_outcome() == Some(
                spec_combine(
                    fb.spec_state() is Failed,
                    bf.spec_state() is Failed,
                    fb.spec_bytes(),
                    bf.spec_bytes(),
                ),
            ),
    {
        let o = combine_outcomes(fb, bf);
        self.phase = ClientPhase::Closed;
        self.outcome = Some(o);
        SessionAction::Close
    }

    /// The terminal outcome of a closed session.
    pub fn outcome(&self) -> (o: RelayOutcome)
        requires
            self.wf(),
            self.spec_phase() is Closed,
        ensures
            Some(o) == self.spec_outcome(),
    {
        match self.outcome {
            Some(o) => o,
            None => RelayOutcome::Complete { front_to_back: 0, back_to_front: 0 },
        }
    }
}

/// The action a server session takes on the handshake result: open the
/// backend connection on success, close at once on any rejection.
pub open spec fn spec_auth_action<T>(result: Result<T, AuthError>) -> SessionAction {
    if result is Ok {
        SessionAction::ConnectBackend
    } else {
        SessionAction::Close
    }
}

/// For all tokens with an expiration in the past, the server's validation
/// yields `TokenExpired`, so the handshake rejects and the session's only
/// step is to close: no backend connection is ever opened for it.
pub proof fn lemma_expired_token_no_backend(bytes: Seq<u8>, secret: Seq<u8>, now: u64)
    requires
        vstd::utf8::valid_utf8(bytes),
        crate::auth::jwt_claims(vstd::utf8::decode_utf8(bytes), secret) is Some,
        (crate::auth::jwt_claims(vstd::utf8::decode_utf8(bytes), secret)->0).1 <= now,
    ensures
        crate::auth::spec_validate_bytes(bytes, secret, now) == Err::<(Seq<char>, u64), _>(
            AuthError::TokenExpired,
        ),
        spec_auth_action(crate::auth::spec_validate_bytes(bytes, secret, now))
            == SessionAction::Close,
{
}

} // verus!
