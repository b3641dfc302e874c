//! The port-discovery side channel: the relay publishes two ephemeral port
//! numbers to a cooperating local process as a comma-separated decimal
//! message, and the consumer answers with a fixed sentinel once it is done.

use vstd::prelude::*;

verus! {

/// The decimal digit bytes of a value, most significant first, without
/// leading zeros.
pub open spec fn dec_bytes(n: int) -> Seq<u8>
    recommends
        n >= 0,
    decreases n,
{
    if n < 10 {
        seq![(48 + n) as u8]
    } else {
        dec_bytes(n / 10).push((48 + n % 10) as u8)
    }
}

/// Whether a byte is a decimal digit.
pub open spec fn is_digit(b: u8) -> bool {
    48 <= b <= 57
}

/// Whether every byte of a run is a decimal digit.
pub open spec fn all_digits(s: Seq<u8>) -> bool {
    forall|i: int| 0 <= i < s.len() ==> is_digit(#[trigger] s[i])
}

/// The value of a run of digit bytes, most significant first.
pub open spec fn dec_value(s: Seq<u8>) -> int
    decreases s.len(),
{
    if s.len() == 0 {
        0
    } else {
        dec_value(s.drop_last()) * 10 + (s.last() - 48)
    }
}

/// The published message for two ports: their decimal forms joined by a
/// comma.
pub open spec fn spec_port_message(p1: u16, p2: u16) -> Seq<u8> {
    dec_bytes(p1 as int) + seq![44u8] + dec_bytes(p2 as int)
}

/// Whether `bytes` has the shape of a port message split at position `i`: a
/// comma there, a nonempty run of digits on each side, and each side's value
/// fitting a 16-bit port. The digits themselves cannot be commas, so at most
/// one position has this shape.
pub open spec fn spec_message_shape(bytes: Seq<u8>, i: int) -> bool {
    &&& 1 <= i && i + 1 < bytes.len()
    &&& bytes[i] == 44
    &&& all_digits(bytes.subrange(0, i))
    &&& all_digits(bytes.subrange(i + 1, bytes.len() as int))
    &&& dec_value(bytes.subrange(0, i)) <= u16::MAX
    &&& dec_value(bytes.subrange(i + 1, bytes.len() as int)) <= u16::MAX
}

/// The two ports a side-channel message carries, if it is well shaped.
pub open spec fn spec_parse_ports(bytes: Seq<u8>) -> Option<(u16, u16)> {
    if exists|i: int| spec_message_shape(bytes, i) {
        let i = choose|i: int| spec_message_shape(bytes, i);
        Some(
            (
                dec_value(bytes.subrange(0, i)) as u16,
                dec_value(bytes.subrange(i + 1, bytes.len() as int)) as u16,
            ),
        )
    } else {
        None
    }
}

/// Appends the decimal digits of `n`.
fn push_decimal(out: &mut Vec<u8>, n: u16)
    ensures
        final(out)@ == old(out)@ + dec_bytes(n as int),
    decreases n,
{
    if n >= 10 {
        push_decimal(out, n / 10);
    }
    out.push(48 + (n % 10) as u8);
    proof {
        if n >= 10 {
            assert(old(out)@ + dec_bytes(n as int) =~= (old(out)@ + dec_bytes(
                (n / 10) as int,
            )).push((48 + n as int % 10) as u8));
        } else {
            assert(old(out)@ + dec_bytes(n as int) =~= old(out)@.push((48 + n as int) as u8));
        }
    }
}

/// Encodes the two ephemeral ports for the side channel.
pub fn encode_port_message(p1: u16, p2: u16) -> (msg: Vec<u8>)
    ensures
        msg@ == spec_port_message(p1, p2),
{
    let mut msg: Vec<u8> = Vec::new();
    push_decimal(&mut msg, p1);
    msg.push(44);
    push_decimal(&mut msg, p2);
    proof {
        assert(msg@ =~= spec_port_message(p1, p2));
    }
    msg
}

/// Every decimal form is a nonempty run of digits.
proof fn lemma_dec_bytes_digits(n: int)
    requires
        n >= 0,
    ensures
        all_digits(dec_bytes(n)),
        dec_bytes(n).len() >= 1,
    decreases n,
{
    if n >= 10 {
        lemma_dec_bytes_digits(n / 10);
    }
}

/// Reading a decimal form back yields the value it was made from.
proof fn lemma_dec_bytes_value(n: int)
    requires
        n >= 0,
    ensures
        dec_value(dec_bytes(n)) == n,
    decreases n,
{
    if n < 10 {
        assert(dec_bytes(n).drop_last() =~= Seq::<u8>::empty());
        assert((48 + n) as u8 == 48 + n);
        assert(dec_value(Seq::<u8>::empty()) == 0);
        assert(dec_bytes(n).last() == (48 + n) as u8);
        assert(dec_value(dec_bytes(n)) == dec_value(dec_bytes(n).drop_last()) * 10 + (dec_bytes(
            n,
        ).last() - 48));
    } else {
        lemma_dec_bytes_value(n / 10);
        assert(dec_bytes(n).drop_last() =~= dec_bytes(n / 10));
        assert(0 <= n % 10 < 10);
        assert((48 + n % 10) as u8 == 48 + n % 10);
        vstd::arithmetic::div_mod::lemma_fundamental_div_mod(n, 10);
    }
}

/// A nonnegative value is read from any run of digits.
proof fn lemma_dec_value_nonneg(s: Seq<u8>)
    requires
        all_digits(s),
    ensures
        dec_value(s) >= 0,
    decreases s.len(),
{
    if s.len() > 0 {
        assert(all_digits(s.drop_last()));
        lemma_dec_value_nonneg(s.drop_last());
    }
}

/// A well-shaped message has its comma in only one place: the digits on
/// either side of a comma cannot themselves be commas.
proof fn lemma_shape_unique(bytes: Seq<u8>, i: int, j: int)
    requires
        spec_message_shape(bytes, i),
        spec_message_shape(bytes, j),
    ensures
        i == j,
{
    if i < j {
        assert(bytes.subrange(0, j)[i] == bytes[i]);
    } else if j < i {
        assert(bytes.subrange(0, i)[j] == bytes[j]);
    }
}

/// Reads a run of digit bytes in `bytes[start..end]` as a 16-bit value.
fn parse_decimal(bytes: &[u8], start: usize, end: usize) -> (r: Option<u16>)
    requires
        start <= end <= bytes@.len(),
    ensures
        (match r {
            Some(v) => start < end && all_digits(bytes@.subrange(start as int, end as int))
                && dec_value(bytes@.subrange(start as int, end as int)) == v,
            None => start == end || !all_digits(bytes@.subrange(start as int, end as int))
                || dec_value(bytes@.subrange(start as int, end as int)) > u16::MAX,
        }),
{
    if start == end {
        return None;
    }
    let ghost seg = bytes@.subrange(start as int, end as int);
    let mut v: u32 = 0;
    let mut too_big = false;
    let mut j: usize = start;
    while j < end
        invariant
            start <= j <= end <= bytes@.len(),
            seg == bytes@.subrange(start as int, end as int),
            all_digits(bytes@.subrange(start as int, j as int)),
            !too_big ==> v == dec_value(bytes@.subrange(start as int, j as int)) && v <= u16::MAX,
            too_big ==> dec_value(bytes@.subrange(start as int, j as int)) > u16::MAX,
        decreases end - j,
    {
        let b = bytes[j];
        if b < 48 || b > 57 {
            proof {
                assert(!is_digit(seg[j - start]));
            }
            return None;
        }
        proof {
            assert(bytes@.subrange(start as int, (j + 1) as int).drop_last() =~= bytes@.subrange(
                start as int,
                j as int,
            ));
            assert(bytes@.subrange(start as int, (j + 1) as int).last() == b);
            assert(all_digits(bytes@.subrange(start as int, (j + 1) as int)));
        }
        if too_big {
            proof {
                lemma_dec_value_nonneg(bytes@.subrange(start as int, j as int));
            }
        } else {
            v = v * 10 + (b - 48) as u32;
            if v > 65535 {
                too_big = true;
            }
        }
        j = j + 1;
    }
    proof {
        assert(bytes@.subrange(start as int, end as int) == bytes@.subrange(
            start as int,
            j as int,
        ));
    }
    if too_big {
        None
    } else {
        Some(v as u16)
    }
}

/// Reads a side-channel message: exactly the well-shaped port messages
/// parse, to the two port values they carry.
pub fn parse_port_message(bytes: &[u8]) -> (r: Option<(u16, u16)>)
    ensures
        r == spec_parse_ports(bytes@),
{
    let n = bytes.len();
    let mut f: usize = 0;
    let mut found = false;
    while !found && f < n
        invariant
            0 <= f <= n == bytes@.len(),
            forall|k: int| 0 <= k < f ==> bytes@[k] != 44,
            found ==> f < n && bytes@[f as int] == 44,
        decreases n - f, (if found { 0int } else { 1int }),
    {
        if bytes[f] == 44 {
            found = true;
        } else {
            f = f + 1;
        }
    }
    if !found {
        proof {
            assert forall|i: int| !spec_message_shape(bytes@, i) by {
                if 1 <= i && i + 1 < bytes@.len() {
                    assert(bytes@[i] != 44);
                }
            }
        }
        return None;
    }
    proof {
        assert(bytes@[f as int] == 44);
        assert forall|i: int| spec_message_shape(bytes@, i) implies i == f as int by {
            if i < f {
                assert(bytes@[i] != 44);
            } else if i > f {
                assert(bytes@.subrange(0, i)[f as int] == bytes@[f as int]);
                assert(is_digit(bytes@.subrange(0, i)[f as int]));
            }
        }
    }
    let left = parse_decimal(bytes, 0, f);
    let right = parse_decimal(bytes, f + 1, n);
    match (left, right) {
        (Some(p1), Some(p2)) => {
            proof {
                assert(spec_message_shape(bytes@, f as int));
                let ch = choose|i: int| spec_message_shape(bytes@, i);
                lemma_shape_unique(bytes@, ch, f as int);
            }
            Some((p1, p2))
        },
        _ => {
            proof {
                assert forall|i: int| !spec_message_shape(bytes@, i) by {
                    if spec_message_shape(bytes@, i) {
                        assert(i == f as int);
                    }
                }
            }
            None
        },
    }
}

/// The sentinel the consuming process sends back on the side channel once it
/// is done with the published ports.
pub open spec fn spec_done_sentinel() -> Seq<u8> {
    seq![103u8, 111u8, 111u8, 100u8, 106u8, 111u8, 98u8, 103u8, 117u8, 121u8]
}

/// Whether a side-channel message is the done sentinel, after which the
/// channel is torn down.
pub fn is_done_sentinel(bytes: &[u8]) -> (r: bool)
    ensures
        r == (bytes@ == spec_done_sentinel()),
{
    let sentinel: [u8; 10] = [103, 111, 111, 100, 106, 111, 98, 103, 117, 121];
    if bytes.len() != 10 {
        proof {
            assert(bytes@ != spec_done_sentinel());
        }
        return false;
    }
    let mut i: usize = 0;
    while i < 10
        invariant
            0 <= i <= 10,
            bytes@.len() == 10,
            sentinel@ == spec_done_sentinel(),
            forall|k: int| 0 <= k < i ==> bytes@[k] == spec_done_sentinel()[k],
        decreases 10 - i,
    {
        if bytes[i] != sentinel[i] {
            proof {
                assert(bytes@[i as int] != spec_done_sentinel()[i as int]);
            }
            return false;
        }
        i = i + 1;
    }
    proof {
        assert(bytes@ =~= spec_done_sentinel());
    }
    true
}

/// Round trip: a published port message is well shaped and parses back to
/// exactly the two ports it was made from.
pub proof fn lemma_port_message_round_trip(p1: u16, p2: u16)
    ensures
        spec_parse_ports(spec_port_message(p1, p2)) == Some((p1, p2)),
{
    let m = spec_port_message(p1, p2);
    let i = dec_bytes(p1 as int).len() as int;
    lemma_dec_bytes_digits(p1 as int);
    lemma_dec_bytes_digits(p2 as int);
    lemma_dec_bytes_value(p1 as int);
    lemma_dec_bytes_value(p2 as int);
    assert(m.subrange(0, i) =~= dec_bytes(p1 as int));
    assert(m.subrange(i + 1, m.len() as int) =~= dec_bytes(p2 as int));
    assert(m[i] == 44);
    assert(spec_message_shape(m, i));
    let ch = choose|j: int| spec_message_shape(m, j);
    lemma_shape_unique(m, ch, i);
}

} // verus!
