//! Wire codec of the auth handshake: a 4-byte big-endian length prefix
//! followed by the token bytes, and the single-byte server reply.

use vstd::prelude::*;

verus! {

/// The wire byte with which the server accepts a handshake.
pub const ACCEPT_BYTE: u8 = 1;

/// The value of four bytes read as a big-endian unsigned 32-bit integer.
pub open spec fn be_u32_value(b: Seq<u8>) -> int
    recommends
        b.len() == 4,
{
    b[0] * 0x100_0000 + b[1] * 0x1_0000 + b[2] * 0x100 + b[3]
}

/// The four big-endian bytes of an unsigned 32-bit value.
pub open spec fn be_u32_bytes(n: u32) -> Seq<u8> {
    seq![
        (n / 0x100_0000) as u8,
        ((n / 0x1_0000) % 0x100) as u8,
        ((n / 0x100) % 0x100) as u8,
        (n % 0x100) as u8,
    ]
}

/// Reads a big-endian length prefix.
pub fn u32_from_be(b: [u8; 4]) -> (n: u32)
    ensures
        n == be_u32_value(b@),
{
    (b[0] as u32) * 0x100_0000 + (b[1] as u32) * 0x1_0000 + (b[2] as u32) * 0x100 + (b[3] as u32)
}

/// Writes a big-endian length prefix.
pub fn u32_to_be(n: u32) -> (b: [u8; 4])
    ensures
        b@ == be_u32_bytes(n),
{
    let b = [
        (n / 0x100_0000) as u8,
        ((n / 0x1_0000) % 0x100) as u8,
        ((n / 0x100) % 0x100) as u8,
        (n % 0x100) as u8,
    ];
    proof {
        assert(b@ =~= be_u32_bytes(n));
    }
    b
}

/// Encoding four bytes and reading them back yields the value unchanged.
pub proof fn lemma_be_u32_round_trip(n: u32)
    ensures
        be_u32_value(be_u32_bytes(n)) == n,
{
    assert(n / 0x100_0000 < 0x100) by (bit_vector);
    assert(n == (n / 0x100_0000) * 0x100_0000 + ((n / 0x1_0000) % 0x100) * 0x1_0000 + ((n
        / 0x100) % 0x100) * 0x100 + (n % 0x100)) by (bit_vector);
}

/// The wire form of the client's auth request: the token's length as four
/// big-endian bytes, then the token bytes themselves.
pub open spec fn auth_request_bytes(token: Seq<u8>) -> Seq<u8>
    recommends
        token.len() <= u32::MAX,
{
    be_u32_bytes(token.len() as u32) + token
}

/// Frames a token for the client half of the handshake.
pub fn encode_auth_request(token: &[u8]) -> (msg: Vec<u8>)
    requires
        token@.len() <= u32::MAX,
    ensures
        msg@ == auth_request_bytes(token@),
{
    let len_bytes = u32_to_be(token.len() as u32);
    let mut msg: Vec<u8> = Vec::new();
    msg.push(len_bytes[0]);
    msg.push(len_bytes[1]);
    msg.push(len_bytes[2]);
    msg.push(len_bytes[3]);
    let mut i: usize = 0;
    while i < token.len()
        invariant
            i <= token@.len(),
            msg@ == be_u32_bytes(token@.len() as u32) + token@.subrange(0, i as int),
        decreases token@.len() - i,
    {
        msg.push(token[i]);
        i = i + 1;
        proof {
            assert(msg@ =~= be_u32_bytes(token@.len() as u32) + token@.subrange(0, i as int));
        }
    }
    proof {
        assert(token@.subrange(0, token@.len() as int) =~= token@);
        assert(msg@ =~= auth_request_bytes(token@));
    }
    msg
}

/// Framing round trip: the prefix of a framed auth request reads back as
/// exactly the token's length, and what follows it is the token itself — the
/// server recovers what the client framed.
pub proof fn lemma_auth_request_round_trip(token: Seq<u8>)
    requires
        token.len() <= u32::MAX,
    ensures
        be_u32_value(auth_request_bytes(token).subrange(0, 4)) == token.len(),
        auth_request_bytes(token).subrange(4, auth_request_bytes(token).len() as int) == token,
{
    lemma_be_u32_round_trip(token.len() as u32);
    assert(auth_request_bytes(token).subrange(0, 4) =~= be_u32_bytes(token.len() as u32));
    assert(auth_request_bytes(token).subrange(4, auth_request_bytes(token).len() as int)
        =~= token);
}

} // verus!
