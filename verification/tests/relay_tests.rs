use relay_core::auth::{validate_token_bytes, AuthError};
use relay_core::config::{Endpoint, RelayConfig};
use relay_core::relay::{combine_outcomes, Pump, RelayOutcome, SessionError};
use relay_core::session::{ClientSession, ServerSession, SessionAction};

fn make_token(sub: &str, exp: u64, secret: &[u8]) -> String {
    let mut claims = serde_json::Map::new();
    claims.insert(
        "sub".to_string(),
        serde_json::Value::String(sub.to_string()),
    );
    claims.insert(
        "exp".to_string(),
        serde_json::Value::Number(serde_json::Number::from(exp)),
    );
    let header = jsonwebtoken::Header::new(jsonwebtoken::Algorithm::HS256);
    jsonwebtoken::encode(
        &header,
        &serde_json::Value::Object(claims),
        &jsonwebtoken::EncodingKey::from_secret(secret),
    )
    .unwrap()
}

const SECRET: &[u8] = b"your_secret_key";
const NOW: u64 = 1_000_000;

#[test]
fn pump_counts_every_chunk() {
    let mut p = Pump::new();
    assert_eq!(p.bytes(), 0);
    p.record(3);
    p.record(4);
    assert_eq!(p.bytes(), 7);
    assert!(p.is_running());
    p.finish_eof();
    assert!(!p.is_running());
    assert_eq!(p.bytes(), 7);
}

#[test]
fn clean_completion_reports_both_counts() {
    let mut fb = Pump::new();
    fb.record(10);
    fb.finish_eof();
    let mut bf = Pump::new();
    bf.record(20);
    bf.record(5);
    bf.finish_eof();
    let outcome = combine_outcomes(&fb, &bf);
    assert_eq!(
        outcome,
        RelayOutcome::Complete {
            front_to_back: 10,
            back_to_front: 25,
        }
    );
}

#[test]
fn failed_front_direction_is_reported_with_partial_counts() {
    let mut fb = Pump::new();
    fb.record(2);
    fb.finish_error();
    let mut bf = Pump::new();
    bf.record(9);
    bf.finish_eof();
    let outcome = combine_outcomes(&fb, &bf);
    assert_eq!(
        outcome,
        RelayOutcome::Failed {
            error: SessionError::FrontToBack,
            front_to_back: 2,
            back_to_front: 9,
        }
    );
}

#[test]
fn failed_back_direction_is_reported_with_partial_counts() {
    let mut fb = Pump::new();
    fb.finish_eof();
    let mut bf = Pump::new();
    bf.finish_error();
    let outcome = combine_outcomes(&fb, &bf);
    assert_eq!(
        outcome,
        RelayOutcome::Failed {
            error: SessionError::BackToFront,
            front_to_back: 0,
            back_to_front: 0,
        }
    );
}

/// The server-side scenario on one accepted tunnel connection: a correctly
/// signed token for subject "u1" expiring an hour from now is accepted, the
/// backend at 127.0.0.1:25565 is connected, "ping" flows front to back and
/// "pong" back to front, and the engine reports (4, 4).
#[test]
fn server_session_relays_ping_pong() {
    let config = RelayConfig {
        listen: Endpoint {
            host: "0.0.0.0".to_string(),
            port: 19132,
        },
        forward: Endpoint {
            host: "127.0.0.1".to_string(),
            port: 25565,
        },
        auth_enabled: true,
        secret: SECRET.to_vec(),
        token: Vec::new(),
    };
    assert_eq!(config.forward.port, 25565);

    let token = make_token("u1", NOW + 3600, &config.secret);
    let verdict = validate_token_bytes(token.into_bytes(), &config.secret, NOW);

    let mut session = ServerSession::new(config.auth_enabled);
    let action = session.on_auth(&verdict);
    assert_eq!(action, SessionAction::ConnectBackend);

    let action = session.on_backend_connect(true);
    assert_eq!(action, SessionAction::StartRelay);

    let mut fb = Pump::new();
    fb.record("ping".len());
    fb.finish_eof();
    let mut bf = Pump::new();
    bf.record("pong".len());
    bf.finish_eof();
    let action = session.on_relay_done(&fb, &bf);
    assert_eq!(action, SessionAction::Close);
    assert_eq!(
        session.outcome(),
        RelayOutcome::Complete {
            front_to_back: 4,
            back_to_front: 4,
        }
    );
}

/// The rejection scenario: a token that expired one second ago is rejected,
/// nothing is written back, and no backend connection is ever attempted.
#[test]
fn server_session_rejects_expired_token_without_backend() {
    let token = make_token("u1", NOW - 1, SECRET);
    let verdict = validate_token_bytes(token.into_bytes(), SECRET, NOW);
    assert_eq!(verdict.as_ref().unwrap_err(), &AuthError::TokenExpired);

    let mut session = ServerSession::new(true);
    let action = session.on_auth(&verdict);
    assert_eq!(action, SessionAction::Close);
    assert_eq!(
        session.outcome(),
        RelayOutcome::Failed {
            error: SessionError::Auth(AuthError::TokenExpired),
            front_to_back: 0,
            back_to_front: 0,
        }
    );
}

#[test]
fn backend_connect_failure_closes_with_zero_bytes() {
    let token = make_token("u1", NOW + 3600, SECRET);
    let verdict = validate_token_bytes(token.into_bytes(), SECRET, NOW);

    let mut session = ServerSession::new(true);
    assert_eq!(session.on_auth(&verdict), SessionAction::ConnectBackend);
    let action = session.on_backend_connect(false);
    assert_eq!(action, SessionAction::Close);
    assert_eq!(
        session.outcome(),
        RelayOutcome::Failed {
            error: SessionError::BackendConnect,
            front_to_back: 0,
            back_to_front: 0,
        }
    );
}

#[test]
fn server_session_without_auth_goes_straight_to_backend() {
    let mut session = ServerSession::new(false);
    assert_eq!(session.on_backend_connect(true), SessionAction::StartRelay);
}

#[test]
fn client_session_happy_path() {
    let mut session = ClientSession::new(true);
    assert_eq!(session.on_remote_connect(true), SessionAction::RunHandshake);
    assert_eq!(session.on_auth_result(true), SessionAction::StartRelay);
    let mut fb = Pump::new();
    fb.record(4);
    fb.finish_eof();
    let mut bf = Pump::new();
    bf.record(4);
    bf.finish_eof();
    assert_eq!(session.on_relay_done(&fb, &bf), SessionAction::Close);
    assert_eq!(
        session.outcome(),
        RelayOutcome::Complete {
            front_to_back: 4,
            back_to_front: 4,
        }
    );
}

#[test]
fn client_session_closes_when_remote_unreachable() {
    let mut session = ClientSession::new(true);
    assert_eq!(session.on_remote_connect(false), SessionAction::Close);
    assert_eq!(
        session.outcome(),
        RelayOutcome::Failed {
            error: SessionError::RemoteConnect,
            front_to_back: 0,
            back_to_front: 0,
        }
    );
}

#[test]
fn client_session_closes_on_rejected_handshake() {
    let mut session = ClientSession::new(true);
    assert_eq!(session.on_remote_connect(true), SessionAction::RunHandshake);
    assert_eq!(session.on_auth_result(false), SessionAction::Close);
    assert_eq!(
        session.outcome(),
        RelayOutcome::Failed {
            error: SessionError::HandshakeRejected,
            front_to_back: 0,
            back_to_front: 0,
        }
    );
}

#[test]
fn client_session_without_auth_relays_directly() {
    let mut session = ClientSession::new(false);
    assert_eq!(session.on_remote_connect(true), SessionAction::StartRelay);
}

/// Fifty sessions advanced in interleaved steps; session 7 fails its
/// front→back copy mid-relay. Every other session completes with exactly its
/// own byte counts: a failure in one session does not leak into any other.
#[test]
fn fifty_interleaved_sessions_are_independent() {
    let n: usize = 50;
    let failing: usize = 7;

    let mut sessions: Vec<ServerSession> = Vec::new();
    let mut pumps: Vec<(Pump, Pump)> = Vec::new();
    let token = make_token("u1", NOW + 3600, SECRET);

    for _ in 0..n {
        sessions.push(ServerSession::new(true));
        pumps.push((Pump::new(), Pump::new()));
    }
    // Interleave: every session authenticates, then every session connects,
    // then the relays advance round-robin.
    for k in 0..n {
        let verdict = validate_token_bytes(token.clone().into_bytes(), SECRET, NOW);
        assert_eq!(sessions[k].on_auth(&verdict), SessionAction::ConnectBackend);
    }
    for k in 0..n {
        assert_eq!(sessions[k].on_backend_connect(true), SessionAction::StartRelay);
    }
    for k in 0..n {
        pumps[k].0.record(k + 1);
        pumps[k].1.record(2 * (k + 1));
    }
    for k in (0..n).rev() {
        if k == failing {
            pumps[k].0.finish_error();
        } else {
            pumps[k].0.record(10);
            pumps[k].0.finish_eof();
        }
        pumps[k].1.finish_eof();
    }
    for k in 0..n {
        let (fb, bf) = &pumps[k];
        assert_eq!(sessions[k].on_relay_done(fb, bf), SessionAction::Close);
    }
    for k in 0..n {
        let expected = if k == failing {
            RelayOutcome::Failed {
                error: SessionError::FrontToBack,
                front_to_back: (k + 1) as u64,
                back_to_front: (2 * (k + 1)) as u64,
            }
        } else {
            RelayOutcome::Complete {
                front_to_back: (k + 1 + 10) as u64,
                back_to_front: (2 * (k + 1)) as u64,
            }
        };
        assert_eq!(sessions[k].outcome(), expected);
    }
}
