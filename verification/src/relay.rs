//! Byte accounting of the relay engine. A session relays two directions,
//! front→back and back→front, each a run of copy steps that ends at
//! end-of-stream or with a failure; the engine waits for both directions to
//! end and then reports the combined outcome.

use crate::auth::AuthError;
use vstd::prelude::*;

verus! {

/// The number of bytes a sequence of copy steps moved in total.
pub open spec fn total_bytes(chunks: Seq<int>) -> int
    decreases chunks.len(),
{
    if chunks.len() == 0 {
        0
    } else {
        total_bytes(chunks.drop_last()) + chunks.last()
    }
}

/// Which phase or direction of a session failed.
#[derive(Clone, Copy, PartialEq, Eq, Structural, Debug)]
pub enum SessionError {
    /// The server rejected the inbound token.
    Auth(AuthError),
    /// The server accepted, but the client saw a rejection or an I/O failure
    /// before the reply byte authenticated it.
    HandshakeRejected,
    /// The client could not reach the remote relay.
    RemoteConnect,
    /// The server could not reach the backend.
    BackendConnect,
    /// The front→back copy failed mid-relay.
    FrontToBack,
    /// The back→front copy failed mid-relay.
    BackToFront,
}

/// The terminal result of one session: a pair of byte counts on clean
/// bidirectional completion, or the failure that ended it together with
/// whatever counts the two directions reached.
#[derive(Clone, Copy, PartialEq, Eq, Structural, Debug)]
pub enum RelayOutcome {
    Complete { front_to_back: u64, back_to_front: u64 },
    Failed { error: SessionError, front_to_back: u64, back_to_front: u64 },
}

/// How one direction of the relay ended, if it has.
#[derive(Clone, Copy, PartialEq, Eq, Structural, Debug)]
pub enum PumpState {
    Running,
    Eof,
    Failed,
}

/// One direction of the relay engine: it counts the bytes each copy step
/// moves, until its source half reports end-of-stream or either half fails.
pub struct Pump {
    bytes: u64,
    state: PumpState,
    chunks: Ghost<Seq<int>>,
}

impl Pump {
    /// The bytes this direction has moved so far.
    pub closed spec fn spec_bytes(&self) -> u64 {
        self.bytes
    }

    /// Whether this direction is still running, done, or failed.
    pub closed spec fn spec_state(&self) -> PumpState {
        self.state
    }

    /// The sizes of the copy steps this direction has performed, in order.
    pub closed spec fn spec_chunks(&self) -> Seq<int> {
        self.chunks@
    }

    /// The byte count always equals the total of the recorded copy steps.
    pub open spec fn wf(&self) -> bool {
        &&& self.spec_bytes() == total_bytes(self.spec_chunks())
        &&& forall|i: int| 0 <= i < self.spec_chunks().len() ==> #[trigger] self.spec_chunks()[i]
            >= 0
    }

    /// A fresh direction: nothing moved, still running.
    pub fn new() -> (p: Pump)
        ensures
            p.wf(),
            p.spec_bytes() == 0,
            p.spec_state() is Running,
            p.spec_chunks() == Seq::<int>::empty(),
    {
        Pump { bytes: 0, state: PumpState::Running, chunks: Ghost(Seq::empty()) }
    }

    /// The bytes moved so far.
    pub fn bytes(&self) -> (n: u64)
        ensures
            n == self.spec_bytes(),
    {
        self.bytes
    }

    /// Whether this direction is still running.
    pub fn is_running(&self) -> (b: bool)
        ensures
            b == (self.spec_state() is Running),
    {
        match self.state {
            PumpState::Running => true,
            _ => false,
        }
    }

    /// Records one copy step that moved `n` bytes from the source half to
    /// the destination half.
    pub fn record(&mut self, n: usize)
        requires
            old(self).wf(),
            old(self).spec_state() is Running,
            old(self).spec_bytes() + n <= u64::MAX,
        ensures
            final(self).wf(),
            final(self).spec_state() is Running,
            final(self).spec_bytes() == old(self).spec_bytes() + n,
            final(self).spec_chunks() == old(self).spec_chunks().push(n as int),
    {
        self.bytes = self.bytes + n as u64;
        proof {
            self.chunks@ = self.chunks@.push(n as int);
            assert(self.chunks@.drop_last() =~= old(self).spec_chunks());
        }
    }

    /// Ends this direction: its source half reported end-of-stream.
    pub fn finish_eof(&mut self)
        requires
            old(self).wf(),
            old(self).spec_state() is Running,
        ensures
            final(self).wf(),
            final(self).spec_state() is Eof,
            final(self).spec_bytes() == old(self).spec_bytes(),
            final(self).spec_chunks() == old(self).spec_chunks(),
    {
        self.state = PumpState::Eof;
    }

    /// Ends this direction: a read or write failed. The failure is terminal
    /// for the session, but the other direction is still drained.
    pub fn finish_error(&mut self)
        requires
            old(self).wf(),
            old(self).spec_state() is Running,
        ensures
            final(self).wf(),
            final(self).spec_state() is Failed,
            final(self).spec_bytes() == old(self).spec_bytes(),
            final(self).spec_chunks() == old(self).spec_chunks(),
    {
        self.state = PumpState::Failed;
    }
}

/// The outcome the engine reports once both directions have ended: the two
/// byte counts when both ended at end-of-stream, else the failed direction —
/// front→back named first when both failed — with the counts reached.
pub open spec fn spec_combine(
    fb_failed: bool,
    bf_failed: bool,
    fb_bytes: u64,
    bf_bytes: u64,
) -> RelayOutcome {
    if !fb_failed && !bf_failed {
        RelayOutcome::Complete { front_to_back: fb_bytes, back_to_front: bf_bytes }
    } else {
        RelayOutcome::Failed {
            error: if fb_failed {
                SessionError::FrontToBack
            } else {
                SessionError::BackToFront
            },
            front_to_back: fb_bytes,
            back_to_front: bf_bytes,
        }
    }
}

/// Combines the two ended directions into the session's outcome. The engine
/// calls this only after both directions have finished: a failed direction
/// does not cut the other short.
pub fn combine_outcomes(fb: &Pump, bf: &Pump) -> (o: RelayOutcome)
    requires
        !(fb.spec_state() is Running),
        !(bf.spec_state() is Running),
    ensures
        o == spec_combine(
            fb.spec_state() is Failed,
            bf.spec_state() is Failed,
            fb.spec_bytes(),
            bf.spec_bytes(),
        ),
{
    let fb_failed = match fb.state {
        PumpState::Failed => true,
        _ => false,
    };
    let bf_failed = match bf.state {
        PumpState::Failed => true,
        _ => false,
    };
    if !fb_failed && !bf_failed {
        RelayOutcome::Complete { front_to_back: fb.bytes, back_to_front: bf.bytes }
    } else {
        RelayOutcome::Failed {
            error: if fb_failed {
                SessionError::FrontToBack
            } else {
                SessionError::BackToFront
            },
            front_to_back: fb.bytes,
            back_to_front: bf.bytes,
        }
    }
}

/// Byte-count fidelity: for a session that completes normally — both
/// directions ended at end-of-stream — the counts the engine reports equal
/// the total bytes written to each respective write half over the session's
/// lifetime, that is, the totals of the two directions' recorded copy steps.
pub proof fn lemma_byte_count_fidelity(fb: Pump, bf: Pump)
    requires
        fb.wf(),
        bf.wf(),
        fb.spec_state() is Eof,
        bf.spec_state() is Eof,
    ensures
        spec_combine(false, false, fb.spec_bytes(), bf.spec_bytes())
            matches RelayOutcome::Complete { front_to_back, back_to_front }
            && front_to_back == total_bytes(fb.spec_chunks()) && back_to_front == total_bytes(
            bf.spec_chunks(),
        ),
{
}

} // verus!
