use vstd::prelude::*;

use crate::route::{PeerAddress, RouteKey};

verus! {

/// The outcome of one receive call on a non-blocking datagram socket.
#[derive(Clone, Copy, Debug, PartialEq, Eq, Structural)]
pub enum RecvResult {
    /// A datagram of `len` bytes arrived from `addr`.
    Received { len: usize, addr: PeerAddress },
    /// No datagram is waiting: the socket is drained.
    WouldBlock,
    /// Any other receive error; it concerns this datagram only.
    Failed,
}

/// What the reactor does after one receive call.
#[derive(Clone, Copy, Debug, PartialEq, Eq, Structural)]
pub enum DrainStep {
    /// Hand the first `len` bytes of the buffer to the handler with `key`,
    /// then receive again.
    Deliver { len: usize, key: RouteKey },
    /// Log the error and receive again.
    Retry,
    /// Stop draining this socket until its next readiness event.
    Done,
}

pub open spec fn drain_step_spec(index: usize, r: RecvResult) -> DrainStep {
    match r {
        RecvResult::Received { len, addr } => DrainStep::Deliver {
            len,
            key: RouteKey { is_stream: false, index, addr },
        },
        RecvResult::WouldBlock => DrainStep::Done,
        RecvResult::Failed => DrainStep::Retry,
    }
}

/// Decides what follows one receive call on the socket whose global index is
/// `index`: only a would-block result ends the drain.
pub fn drain_step(index: usize, r: RecvResult) -> (s: DrainStep)
    ensures
        s == drain_step_spec(index, r),
{
    match r {
        RecvResult::Received { len, addr } => DrainStep::Deliver {
            len,
            key: RouteKey::new(false, index, addr),
        },
        RecvResult::WouldBlock => DrainStep::Done,
        RecvResult::Failed => DrainStep::Retry,
    }
}

/// The deliveries made by draining a socket whose receive calls return
/// `results` in turn, following `drain_step` until it says `Done`.
pub open spec fn delivered(index: usize, results: Seq<RecvResult>) -> Seq<(usize, RouteKey)>
    decreases results.len(),
{
    if results.len() == 0 {
        Seq::empty()
    } else {
        match drain_step_spec(index, results[0]) {
            DrainStep::Deliver { len, key } => seq![(len, key)] + delivered(index, results.drop_first()),
            DrainStep::Retry => delivered(index, results.drop_first()),
            DrainStep::Done => Seq::empty(),
        }
    }
}

/// `n` datagrams waiting back-to-back on one socket, followed by a would-block,
/// are all delivered by one drain, in arrival order, each with its length,
/// its sender and the socket's index.
pub proof fn lemma_drain_complete(index: usize, results: Seq<RecvResult>, n: nat)
    requires
        n < results.len(),
        forall|i: int| 0 <= i < n ==> results[i] is Received,
        results[n as int] == RecvResult::WouldBlock,
    ensures
        delivered(index, results).len() == n,
        forall|i: int|
            0 <= i < n ==> #[trigger] delivered(index, results)[i] == (
                results[i]->Received_len,
                RouteKey { is_stream: false, index, addr: results[i]->Received_addr },
            ),
    decreases n,
{
    if n > 0 {
        let rest = results.drop_first();
        assert forall|i: int| 0 <= i < n - 1 implies rest[i] is Received by {
            assert(rest[i] == results[i + 1]);
        }
        assert(rest[n - 1] == results[n as int]);
        lemma_drain_complete(index, rest, (n - 1) as nat);
        let d = delivered(index, results);
        assert forall|i: int| 0 <= i < n implies #[trigger] d[i] == (
            results[i]->Received_len,
            RouteKey { is_stream: false, index, addr: results[i]->Received_addr },
        ) by {
            if i > 0 {
                assert(d[i] == delivered(index, rest)[i - 1]);
                assert(rest[i - 1] == results[i]);
            }
        }
    }
}

} // verus!
