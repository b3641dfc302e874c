//! The auth handshake state machines. The client frames its token as a
//! length-prefixed message and awaits a one-byte reply; the server reads the
//! frame, validates the token, and either replies with the accept byte or
//! closes the connection without replying.

use crate::auth::{
    spec_validate_bytes, jwt_claims, AuthError, Claims,
};
use crate::codec::{be_u32_bytes, be_u32_value, u32_from_be, ACCEPT_BYTE};
use vstd::prelude::*;
use vstd::utf8::{decode_utf8, valid_utf8};

verus! {

/// What the server puts on the wire after validating: the accept byte on
/// success, or nothing — a rejected connection is closed without a reply.
#[derive(Clone, Copy, PartialEq, Eq, Structural, Debug)]
pub enum ServerReply {
    Accept,
    Close,
}

/// The bytes a reply stands for on the wire.
pub open spec fn spec_reply_bytes(r: ServerReply) -> Seq<u8> {
    match r {
        ServerReply::Accept => seq![ACCEPT_BYTE],
        ServerReply::Close => Seq::empty(),
    }
}

/// The bytes the server owes on the wire for a validation outcome: the
/// accept byte after success, nothing after a rejection.
pub open spec fn spec_reply_for(decision: Result<(Seq<char>, u64), AuthError>) -> Seq<u8> {
    if decision is Ok {
        seq![ACCEPT_BYTE]
    } else {
        Seq::empty()
    }
}

impl ServerReply {
    /// The bytes to write for this reply.
    pub fn wire_bytes(&self) -> (b: Vec<u8>)
        ensures
            b@ == spec_reply_bytes(*self),
    {
        match self {
            ServerReply::Accept => {
                let mut v: Vec<u8> = Vec::new();
                v.push(ACCEPT_BYTE);
                proof {
                    assert(v@ =~= seq![ACCEPT_BYTE]);
                }
                v
            },
            ServerReply::Close => Vec::new(),
        }
    }
}

/// The server half of the handshake: it awaits the 4-byte length prefix,
/// then that many token bytes, validates them, and either authenticates or
/// rejects. Payload relay never begins for a session whose handshake did not
/// reach `Authenticated`.
pub enum ServerHandshake {
    AwaitingLength,
    AwaitingToken { token_len: u32 },
    Authenticated { claims: Claims },
    Rejected { error: AuthError },
}

impl ServerHandshake {
    /// A fresh handshake, waiting for the length prefix.
    pub fn new() -> (s: Self)
        ensures
            s is AwaitingLength,
    {
        ServerHandshake::AwaitingLength
    }

    /// Consumes the four length-prefix bytes; the server must read that many
    /// token bytes next.
    pub fn on_length(self, b: [u8; 4]) -> (s: Self)
        requires
            self is AwaitingLength,
        ensures
            s matches ServerHandshake::AwaitingToken { token_len } && token_len == be_u32_value(
                b@,
            ),
    {
        ServerHandshake::AwaitingToken { token_len: u32_from_be(b) }
    }

    /// How many token bytes are owed.
    pub fn token_len(&self) -> (n: u32)
        requires
            self is AwaitingToken,
        ensures
            n == self->token_len,
    {
        match self {
            ServerHandshake::AwaitingToken { token_len } => *token_len,
            _ => 0,
        }
    }

    /// Consumes the token bytes and validates them against the secret and
    /// the current time. The handshake authenticates, and owes the accept
    /// byte, exactly when validation succeeds; any failure rejects, and the
    /// connection is closed without a reply.
    pub fn on_token(self, bytes: Vec<u8>, secret: &[u8], now: u64) -> (r: (Self, ServerReply))
        requires
            self is AwaitingToken,
            bytes@.len() == self->token_len,
        ensures
            (match spec_validate_bytes(bytes@, secret@, now) {
                Ok(p) => r.0 matches ServerHandshake::Authenticated { claims } && (
                claims.sub@,
                claims.exp,
                ) == p && r.1 is Accept,
                Err(e) => r.0 matches ServerHandshake::Rejected { error } && error == e
                    && r.1 is Close,
            }),
            spec_reply_bytes(r.1) == spec_reply_for(spec_validate_bytes(bytes@, secret@, now)),
    {
        match crate::auth::validate_token_bytes(bytes, secret, now) {
            Ok(claims) => (ServerHandshake::Authenticated { claims }, ServerReply::Accept),
            Err(error) => (ServerHandshake::Rejected { error }, ServerReply::Close),
        }
    }

    /// Records an I/O failure while the handshake bytes were being read: the
    /// handshake rejects and the connection is closed.
    pub fn on_io_error(self) -> (s: Self)
        requires
            self is AwaitingLength || self is AwaitingToken,
        ensures
            s matches ServerHandshake::Rejected { error } && error == AuthError::IoError,
    {
        ServerHandshake::Rejected { error: AuthError::IoError }
    }
}

/// The client half of the handshake: it sends the length prefix, then the
/// token bytes, and awaits the one-byte reply.
#[derive(Clone, Copy, PartialEq, Eq, Structural, Debug)]
pub enum ClientHandshake {
    Idle,
    SendingLength,
    SendingToken,
    AwaitingAck,
    Authenticated,
    Rejected,
}

impl ClientHandshake {
    /// A fresh handshake, before anything is sent.
    pub fn new() -> (s: Self)
        ensures
            s is Idle,
    {
        ClientHandshake::Idle
    }

    /// Begins the handshake: the first frame on the wire is the token's
    /// length as four big-endian bytes.
    pub fn begin(self, token: &[u8]) -> (r: (Self, [u8; 4]))
        requires
            self is Idle,
            token@.len() <= u32::MAX,
        ensures
            r.0 is SendingLength,
            r.1@ == be_u32_bytes(token@.len() as u32),
    {
        (ClientHandshake::SendingLength, crate::codec::u32_to_be(token.len() as u32))
    }

    /// After the length prefix is on the wire, the token bytes follow.
    pub fn on_length_sent(self) -> (s: Self)
        requires
            self is SendingLength,
        ensures
            s is SendingToken,
    {
        ClientHandshake::SendingToken
    }

    /// After the token bytes are on the wire, the client awaits the reply.
    pub fn on_token_sent(self) -> (s: Self)
        requires
            self is SendingToken,
        ensures
            s is AwaitingAck,
    {
        ClientHandshake::AwaitingAck
    }

    /// Consumes the one-byte reply: the accept byte authenticates, any other
    /// value rejects.
    pub fn on_ack(self, b: u8) -> (s: Self)
        requires
            self is AwaitingAck,
        ensures
            s is Authenticated <==> b == ACCEPT_BYTE,
            s is Rejected <==> b != ACCEPT_BYTE,
    {
        if b == ACCEPT_BYTE {
            ClientHandshake::Authenticated
        } else {
            ClientHandshake::Rejected
        }
    }

    /// Records an I/O failure — a failed write, a failed read, or the peer
    /// closing — at any point before the reply arrived: the handshake
    /// rejects.
    pub fn on_io_error(self) -> (s: Self)
        requires
            !(self is Authenticated),
        ensures
            s is Rejected,
    {
        ClientHandshake::Rejected
    }
}

/// For every token whose bytes are UTF-8 text carrying a signature that
/// matches the pre-shared secret and an expiration in the future, the
/// server's validation yields exactly those claims, so the handshake reaches
/// `Authenticated` and the wire reply is the single accept byte.
pub proof fn lemma_valid_token_accepted(bytes: Seq<u8>, secret: Seq<u8>, now: u64)
    requires
        valid_utf8(bytes),
        jwt_claims(decode_utf8(bytes), secret) is Some,
        (jwt_claims(decode_utf8(bytes), secret)->0).1 > now,
    ensures
        spec_validate_bytes(bytes, secret, now) == Ok::<_, AuthError>(
            jwt_claims(decode_utf8(bytes), secret)->0,
        ),
        spec_reply_for(spec_validate_bytes(bytes, secret, now)) == seq![ACCEPT_BYTE],
{
}

/// For every token whose expiration is not in the future, the server's
/// validation yields `TokenExpired`, so the handshake rejects and the wire
/// carries no reply.
pub proof fn lemma_expired_token_rejected(bytes: Seq<u8>, secret: Seq<u8>, now: u64)
    requires
        valid_utf8(bytes),
        jwt_claims(decode_utf8(bytes), secret) is Some,
        (jwt_claims(decode_utf8(bytes), secret)->0).1 <= now,
    ensures
        spec_validate_bytes(bytes, secret, now) == Err::<(Seq<char>, u64), _>(
            AuthError::TokenExpired,
        ),
        spec_reply_for(spec_validate_bytes(bytes, secret, now)) == Seq::<u8>::empty(),
{
}

/// For every token that is not UTF-8 text, or whose signature does not match
/// the pre-shared secret, the server's validation yields `InvalidToken`, so
/// the handshake rejects and the wire carries no reply.
pub proof fn lemma_invalid_token_rejected(bytes: Seq<u8>, secret: Seq<u8>, now: u64)
    requires
        !valid_utf8(bytes) || jwt_claims(decode_utf8(bytes), secret) is None,
    ensures
        spec_validate_bytes(bytes, secret, now) == Err::<(Seq<char>, u64), _>(
            AuthError::InvalidToken,
        ),
        spec_reply_for(spec_validate_bytes(bytes, secret, now)) == Seq::<u8>::empty(),
{
}

} // verus!
