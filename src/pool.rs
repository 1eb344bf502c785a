use vstd::prelude::*;

use crate::tokens::{classify_main_spec, Dispatch, NOTIFY_TOKEN};

verus! {

/// The pool that results from applying one control message to `pool`:
/// `None` empties it (cone mode), `Some(list)` appends `list` (symmetric mode).
pub open spec fn updated<S>(pool: Seq<S>, msg: Option<Seq<S>>) -> Seq<S> {
    match msg {
        None => Seq::empty(),
        Some(list) => pool + list,
    }
}

/// The pool after the queued control messages `msgs` are applied in order
/// during one wake-up.
pub open spec fn updated_all<S>(pool: Seq<S>, msgs: Seq<Option<Seq<S>>>) -> Seq<S>
    decreases msgs.len(),
{
    if msgs.len() == 0 {
        pool
    } else {
        updated(updated_all(pool, msgs.drop_last()), msgs.last())
    }
}

/// Whether `n` more sockets can be given tokens after a pool of `len` sockets
/// whose indices start at `main_count`: the tokens must fit in `usize` and
/// none may be the notifier's.
pub open spec fn can_add_spec(main_count: nat, len: nat, n: nat) -> bool {
    n == 0 || (main_count + len > NOTIFY_TOKEN && main_count + len + n <= usize::MAX)
}

/// The sub reactor's replaceable set of extra sockets. The socket at position
/// `i` is registered under token `main_count + i`, which is also its global
/// index in route keys, so extra sockets never share an index with a main one.
pub struct ExtraSockets<S> {
    main_count: usize,
    sockets: Vec<S>,
}

impl<S> ExtraSockets<S> {
    /// The number of main sockets, where the extra sockets' indices begin.
    pub closed spec fn main_count_spec(&self) -> nat {
        self.main_count as nat
    }

    /// The extra sockets, in the order of their tokens.
    pub closed spec fn sockets_seq(&self) -> Seq<S> {
        self.sockets@
    }

    pub open spec fn wf(&self) -> bool {
        &&& self.main_count_spec() + self.sockets_seq().len() <= usize::MAX
        &&& self.sockets_seq().len() > 0 ==> self.main_count_spec() > NOTIFY_TOKEN
    }

    /// The socket registered under `token`, if any.
    pub open spec fn socket_at(&self, token: nat) -> Option<S> {
        if self.main_count_spec() <= token < self.main_count_spec() + self.sockets_seq().len() {
            Some(self.sockets_seq()[token - self.main_count_spec()])
        } else {
            None
        }
    }

    /// What a token means to the sub reactor.
    pub open spec fn classify_spec(&self, token: usize) -> Dispatch {
        if token == NOTIFY_TOKEN {
            Dispatch::Notify
        } else if self.socket_at(token as nat) is Some {
            Dispatch::Socket(token)
        } else {
            Dispatch::Unknown
        }
    }

    /// An empty pool (cone mode) whose indices start after `main_count` main sockets.
    pub fn new(main_count: usize) -> (r: Self)
        ensures
            r.wf(),
            r.main_count_spec() == main_count,
            r.sockets_seq() == Seq::<S>::empty(),
    {
        ExtraSockets { main_count, sockets: Vec::new() }
    }

    pub fn main_count(&self) -> (r: usize)
        ensures
            r == self.main_count_spec(),
    {
        self.main_count
    }

    pub fn len(&self) -> (r: usize)
        ensures
            r == self.sockets_seq().len(),
    {
        self.sockets.len()
    }

    pub fn is_empty(&self) -> (r: bool)
        ensures
            r == (self.sockets_seq().len() == 0),
    {
        self.sockets.len() == 0
    }

    /// The tokens that `n` more sockets would be registered under, in order, or
    /// `None` when they cannot all be given one.
    pub fn assign_tokens(&self, n: usize) -> (r: Option<Vec<usize>>)
        requires
            self.wf(),
        ensures
            r is Some <==> can_add_spec(self.main_count_spec(), self.sockets_seq().len(), n as nat),
            r matches Some(v) ==> v@.len() == n && forall|i: int|
                0 <= i < n ==> v@[i] == self.main_count_spec() + self.sockets_seq().len() + i,
    {
        let start = self.main_count + self.sockets.len();
        if n == 0 {
            return Some(Vec::new());
        }
        if start == NOTIFY_TOKEN || n > usize::MAX - start {
            return None;
        }
        let mut v: Vec<usize> = Vec::with_capacity(n);
        let mut i: usize = 0;
        while i < n
            invariant
                i <= n,
                start + n <= usize::MAX,
                start == self.main_count_spec() + self.sockets_seq().len(),
                v@.len() == i,
                forall|j: int| 0 <= j < i ==> v@[j] == start + j,
            decreases n - i,
        {
            v.push(start + i);
            i = i + 1;
        }
        Some(v)
    }

    /// Switches to symmetric mode with `list` added after the sockets already
    /// held; earlier ones are kept. The sockets must have been registered under
    /// the tokens that `assign_tokens(list.len())` gave.
    pub fn extend(&mut self, list: Vec<S>)
        requires
            old(self).wf(),
            can_add_spec(old(self).main_count_spec(), old(self).sockets_seq().len(), list@.len()),
        ensures
            final(self).wf(),
            final(self).main_count_spec() == old(self).main_count_spec(),
            final(self).sockets_seq() == updated(old(self).sockets_seq(), Some(list@)),
    {
        let mut list = list;
        self.sockets.append(&mut list);
    }

    /// Reverts to cone mode: the pool becomes empty and every socket it held is
    /// handed back, in token order, to be deregistered.
    pub fn revert_to_cone(&mut self) -> (r: Vec<S>)
        requires
            old(self).wf(),
        ensures
            final(self).wf(),
            final(self).main_count_spec() == old(self).main_count_spec(),
            final(self).sockets_seq() == updated(old(self).sockets_seq(), None),
            r@ == old(self).sockets_seq(),
    {
        let mut taken: Vec<S> = Vec::new();
        std::mem::swap(&mut taken, &mut self.sockets);
        taken
    }

    /// The socket registered under `token`.
    pub fn get(&self, token: usize) -> (r: Option<&S>)
        requires
            self.wf(),
        ensures
            match r {
                Some(s) => self.socket_at(token as nat) == Some(*s),
                None => self.socket_at(token as nat) is None,
            },
    {
        if self.main_count <= token && token - self.main_count < self.sockets.len() {
            Some(&self.sockets[token - self.main_count])
        } else {
            None
        }
    }

    /// Maps a readiness token of the sub reactor to the notifier or to the
    /// global index of the extra socket registered under it.
    pub fn classify(&self, token: usize) -> (r: Dispatch)
        requires
            self.wf(),
        ensures
            r == self.classify_spec(token),
    {
        if token == NOTIFY_TOKEN {
            Dispatch::Notify
        } else if self.main_count <= token && token - self.main_count < self.sockets.len() {
            Dispatch::Socket(token)
        } else {
            Dispatch::Unknown
        }
    }
}

/// Every route index is unique across both reactors: a main socket's index
/// lies below `main_count`, an extra socket's lies in
/// `[main_count, main_count + k)` for a pool of `k` sockets, distinct tokens of
/// one reactor give distinct indices, and no socket token is the notifier's.
pub proof fn lemma_indices_disjoint<S>(
    pool: ExtraSockets<S>,
    main_a: usize,
    main_b: usize,
    extra_a: usize,
    extra_b: usize,
)
    requires
        pool.wf(),
    ensures
        classify_main_spec(main_a, pool.main_count_spec() as usize) matches Dispatch::Socket(i)
            ==> i < pool.main_count_spec() && main_a != NOTIFY_TOKEN,
        pool.classify_spec(extra_a) matches Dispatch::Socket(j) ==> pool.main_count_spec() <= j
            < pool.main_count_spec() + pool.sockets_seq().len() && extra_a != NOTIFY_TOKEN,
        classify_main_spec(main_a, pool.main_count_spec() as usize) matches Dispatch::Socket(i)
            ==> pool.classify_spec(extra_a) matches Dispatch::Socket(j) ==> i != j,
        classify_main_spec(main_a, pool.main_count_spec() as usize) matches Dispatch::Socket(i)
            ==> classify_main_spec(main_b, pool.main_count_spec() as usize) matches Dispatch::Socket(
            i2,
        ) ==> main_a != main_b ==> i != i2,
        pool.classify_spec(extra_a) matches Dispatch::Socket(j) ==> pool.classify_spec(extra_b)
            matches Dispatch::Socket(j2) ==> extra_a != extra_b ==> j != j2,
{
}

/// Updates are additive: `Some(first)` then `Some(second)` drained in one
/// wake-up, with no `None` between them, leave the earlier sockets, then
/// `first`, then `second`, each socket of `second` after all of `first`.
pub proof fn lemma_updates_accumulate<S>(pool: Seq<S>, first: Seq<S>, second: Seq<S>)
    ensures
        updated_all(pool, seq![Some(first), Some(second)]) == pool + first + second,
        updated_all(pool, seq![Some(first), Some(second)]).len() == pool.len() + first.len()
            + second.len(),
{
    let msgs = seq![Some(first), Some(second)];
    let one = seq![Some(first)];
    assert(msgs.drop_last() =~= one);
    assert(one.drop_last() =~= Seq::<Option<Seq<S>>>::empty());
    assert(updated_all(pool, one.drop_last()) == pool);
    assert(one.last() == Some(first));
    assert(updated_all(pool, one) == pool + first);
    assert(msgs.last() == Some(second));
    assert(updated_all(pool, msgs) == (pool + first) + second);
}

/// `None` after any sequence of updates leaves no extra socket.
pub proof fn lemma_cone_revert<S>(pool: Seq<S>, msgs: Seq<Option<Seq<S>>>)
    ensures
        updated_all(pool, msgs.push(None)) == Seq::<S>::empty(),
{
    assert(msgs.push(None).drop_last() == msgs);
}

} // verus!
