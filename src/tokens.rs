use vstd::prelude::*;

verus! {

/// The registration token reserved for a reactor's wake primitive.
pub const NOTIFY_TOKEN: usize = 0;

/// How many socket-set updates may wait in a reactor's control queue.
pub const CONTROL_CAPACITY: usize = 64;

/// What a readiness event's token stands for.
#[derive(Clone, Copy, Debug, PartialEq, Eq, Structural)]
pub enum Dispatch {
    /// The wake primitive fired.
    Notify,
    /// A socket is readable; the payload is the global socket index to put in
    /// the route key.
    Socket(usize),
    /// No socket is registered under this token.
    Unknown,
}

/// The token under which the main socket at `index` is registered.
pub open spec fn main_token_spec(index: nat) -> nat {
    index + 1
}

/// What a token means to the main reactor, which owns `main_count` sockets.
pub open spec fn classify_main_spec(token: usize, main_count: usize) -> Dispatch {
    if token == NOTIFY_TOKEN {
        Dispatch::Notify
    } else if token <= main_count {
        Dispatch::Socket((token - 1) as usize)
    } else {
        Dispatch::Unknown
    }
}

/// The registration token of main socket `index`; `None` when it would not fit.
pub fn main_token(index: usize) -> (r: Option<usize>)
    ensures
        match r {
            Some(t) => t == main_token_spec(index as nat),
            None => main_token_spec(index as nat) > usize::MAX,
        },
{
    index.checked_add(1)
}

/// Maps a readiness token of the main reactor to the notifier or to the index
/// of the main socket it was registered for.
pub fn classify_main(token: usize, main_count: usize) -> (r: Dispatch)
    ensures
        r == classify_main_spec(token, main_count),
{
    if token == NOTIFY_TOKEN {
        Dispatch::Notify
    } else if token <= main_count {
        Dispatch::Socket(token - 1)
    } else {
        Dispatch::Unknown
    }
}

/// Registering main socket `index` and classifying the token that it was
/// registered under gives back that same index, never the notifier.
pub proof fn lemma_main_token_round_trip(index: usize, main_count: usize)
    requires
        index < main_count,
    ensures
        main_token_spec(index as nat) <= usize::MAX,
        classify_main_spec(main_token_spec(index as nat) as usize, main_count) == Dispatch::Socket(
            index,
        ),
{
}

} // verus!
