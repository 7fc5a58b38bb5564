use vstd::prelude::*;
use std::collections::VecDeque;
use futures::channel::oneshot::Sender;
use crate::record::{elapsed, Conn, IdleConn};
use crate::waiter::send_to_waiter;

verus! {

broadcast use vstd::std_specs::vecdeque::group_vec_dequeue_axioms;

/// Information about the state of a pool.
#[derive(Debug, Clone, Copy, PartialEq, Eq)]
pub struct State {
    /// The number of connections currently being managed by the pool.
    pub connections: u32,
    /// The number of idle connections.
    pub idle_connections: u32,
}

/// What a checkout attempt found under the lock.
pub enum Checkout<C> {
    /// The head of the idle deque was taken; `replenish` says whether a
    /// replenishment should be scheduled.
    Idle { entry: IdleConn<C>, replenish: bool },
    /// No idle connection: the caller was queued as a waiter;
    /// `spawn_connector` says whether a connection attempt should be started.
    Waiting { spawn_connector: bool },
}

/// An idle record passes every configured expiry predicate at `now`.
pub open spec fn fresh<C>(
    idle_timeout: Option<u64>,
    max_lifetime: Option<u64>,
    now: u64,
    e: IdleConn<C>,
) -> bool {
    &&& idle_timeout matches Some(t) ==> elapsed(now, e.idle_start) < t
    &&& max_lifetime matches Some(l) ==> elapsed(now, e.conn.birth) < l
}

/// The expiry predicates at `now`, as a predicate on idle records.
pub open spec fn fresh_at<C>(idle_timeout: Option<u64>, max_lifetime: Option<u64>, now: u64) -> spec_fn(
    IdleConn<C>,
) -> bool {
    |e: IdleConn<C>| fresh(idle_timeout, max_lifetime, now, e)
}

fn is_fresh<C>(idle_timeout: Option<u64>, max_lifetime: Option<u64>, now: u64, e: &IdleConn<C>) -> (r:
    bool)
    ensures
        r == fresh(idle_timeout, max_lifetime, now, *e),
{
    let mut keep = true;
    if let Some(t) = idle_timeout {
        keep = keep && now.saturating_sub(e.idle_start) < t;
    }
    if let Some(l) = max_lifetime {
        keep = keep && now.saturating_sub(e.conn.birth) < l;
    }
    keep
}

/// The pool data that is guarded by the pool's lock.
#[verifier::reject_recursive_types(C)]
pub struct PoolInternals<C> {
    waiters: VecDeque<Sender<Conn<C>>>,
    conns: VecDeque<IdleConn<C>>,
    num_conns: u32,
    pending_conns: u32,
    max_size: u32,
}

impl<C> PoolInternals<C> {
    /// The idle deque, oldest first.
    pub closed spec fn idle(&self) -> Seq<IdleConn<C>> {
        self.conns@
    }

    /// The queue of waiting callers, first come first.
    pub closed spec fn waiting(&self) -> Seq<Sender<Conn<C>>> {
        self.waiters@
    }

    /// Live connections: idle plus checked out.
    pub closed spec fn live(&self) -> nat {
        self.num_conns as nat
    }

    /// Connection attempts in flight.
    pub closed spec fn pending(&self) -> nat {
        self.pending_conns as nat
    }

    /// The bound on live plus pending connections.
    pub closed spec fn capacity(&self) -> nat {
        self.max_size as nat
    }

    /// The pool's invariants.
    pub open spec fn wf(&self) -> bool {
        &&& self.live() + self.pending() <= self.capacity()
        &&& self.idle().len() <= self.live()
        &&& self.waiting().len() > 0 ==> self.idle().len() == 0
        &&& forall|i: int| 0 <= i < self.idle().len() ==> (#[trigger] self.idle()[i]).wf()
    }

    /// Live connections that are not idle, that is, held by callers.
    pub open spec fn checked_out(&self) -> int {
        self.live() - self.idle().len()
    }

    /// Whether another connection may be opened.
    pub open spec fn has_room(&self) -> bool {
        self.live() + self.pending() < self.capacity()
    }

    /// Live and pending counts and the bound are the same in both states.
    pub open spec fn same_counts(pre: Self, post: Self) -> bool {
        &&& post.live() == pre.live()
        &&& post.pending() == pre.pending()
        &&& post.capacity() == pre.capacity()
    }

    /// `post` is `pre` with the head of the idle deque, `entry`, taken out.
    pub open spec fn took_idle(pre: Self, post: Self, entry: IdleConn<C>) -> bool {
        &&& pre.idle().len() > 0
        &&& entry == pre.idle()[0]
        &&& post.idle() == pre.idle().drop_first()
        &&& post.waiting() == pre.waiting()
        &&& Self::same_counts(pre, post)
    }

    /// `post` is `pre` with `waiter` queued behind the other waiters.
    pub open spec fn queued(pre: Self, post: Self, waiter: Sender<Conn<C>>) -> bool {
        &&& pre.idle().len() == 0
        &&& post.idle() == pre.idle()
        &&& post.waiting() == pre.waiting().push(waiter)
        &&& Self::same_counts(pre, post)
    }

    /// The record was parked at the back of the idle deque after every
    /// waiter turned out to be gone.
    pub open spec fn parked(pre: Self, post: Self, entry: IdleConn<C>) -> bool {
        &&& post.idle() == pre.idle().push(entry)
        &&& post.waiting().len() == 0
    }

    /// The connection went to a waiter: the first `k` waiters left the
    /// queue, in order, and the idle deque is untouched.
    pub open spec fn handed_over(pre: Self, post: Self) -> bool {
        &&& post.idle() == pre.idle()
        &&& exists|k: int|
            1 <= k <= pre.waiting().len() && post.waiting() == #[trigger] pre.waiting().subrange(
                k,
                pre.waiting().len() as int,
            )
    }

    /// A returned or fresh record was routed: to a waiter, or to the idle deque.
    pub open spec fn routed(pre: Self, post: Self, entry: IdleConn<C>) -> bool {
        Self::parked(pre, post, entry) || Self::handed_over(pre, post)
    }

    /// One checkout or one return of a sound connection, whatever the
    /// waiters' receivers did.
    pub open spec fn checkout_or_return(pre: Self, post: Self) -> bool {
        ||| exists|entry: IdleConn<C>| #[trigger] Self::took_idle(pre, post, entry)
        ||| exists|waiter: Sender<Conn<C>>| #[trigger] Self::queued(pre, post, waiter)
        ||| exists|entry: IdleConn<C>|
            #[trigger] Self::routed(pre, post, entry) && Self::same_counts(pre, post)
    }

    /// Creates empty internals for a pool of at most `max_size` connections.
    pub fn new(max_size: u32) -> (r: Self)
        requires
            max_size > 0,
        ensures
            r.wf(),
            r.idle().len() == 0,
            r.waiting().len() == 0,
            r.live() == 0,
            r.pending() == 0,
            r.capacity() == max_size,
    {
        PoolInternals {
            waiters: VecDeque::new(),
            conns: VecDeque::new(),
            num_conns: 0,
            pending_conns: 0,
            max_size,
        }
    }

    /// A snapshot of the live and idle counts.
    pub fn state(&self) -> (r: State)
        requires
            self.wf(),
        ensures
            r.connections == self.live(),
            r.idle_connections == self.idle().len(),
    {
        State { connections: self.num_conns, idle_connections: self.conns.len() as u32 }
    }

    /// The number of connection attempts in flight.
    pub fn pending_conns(&self) -> (r: u32)
        ensures
            r == self.pending(),
    {
        self.pending_conns
    }

    /// Routes a record: to the first waiter whose receiver is still there,
    /// else to the back of the idle deque. Returns whether a waiter got it.
    fn put_idle_conn(&mut self, entry: IdleConn<C>) -> (delivered: bool)
        ensures
            Self::routed(*old(self), *final(self), entry),
            delivered ==> Self::handed_over(*old(self), *final(self)),
            !delivered ==> Self::parked(*old(self), *final(self), entry),
            Self::same_counts(*old(self), *final(self)),
    {
        let ghost pre = *self;
        let ghost n = pre.waiting().len() as int;
        let ghost mut k: int = 0;
        let IdleConn { conn, idle_start } = entry;
        let mut conn = conn;
        let mut delivered = false;
        loop
            invariant_except_break
                n == pre.waiting().len(),
                0 <= k <= n,
                !delivered,
                self.waiting() == pre.waiting().subrange(k, n),
                self.idle() == pre.idle(),
                Self::same_counts(pre, *self),
                conn == entry.conn,
                idle_start == entry.idle_start,
            ensures
                Self::same_counts(pre, *self),
                delivered ==> Self::handed_over(pre, *self),
                !delivered ==> Self::parked(pre, *self, entry),
            decreases n - k,
        {
            let ghost before = self.waiting();
            assert(before.len() == n - k);
            match self.waiters.pop_front() {
                Some(waiter) => {
                    assert(self.waiting() == before.subrange(1, before.len() as int));
                    proof {
                        k = k + 1;
                        assert(self.waiting() =~= pre.waiting().subrange(k, n));
                    }
                    match send_to_waiter(waiter, conn) {
                        Ok(()) => {
                            delivered = true;
                            break;
                        },
                        Err(c) => {
                            conn = c;
                        },
                    }
                },
                None => {
                    self.conns.push_back(IdleConn { conn, idle_start });
                    break;
                },
            }
        }
        delivered
    }

    /// Under the lock, a checkout takes the head of the idle deque, or else
    /// queues `waiter` for the next connection that becomes available.
    pub fn checkout(&mut self, waiter: Sender<Conn<C>>) -> (r: Checkout<C>)
        requires
            old(self).wf(),
        ensures
            final(self).wf(),
            old(self).idle().len() > 0 <==> r is Idle,
            match r {
                Checkout::Idle { entry, replenish } => {
                    &&& Self::took_idle(*old(self), *final(self), entry)
                    &&& replenish == old(self).has_room()
                },
                Checkout::Waiting { spawn_connector } => {
                    &&& Self::queued(*old(self), *final(self), waiter)
                    &&& spawn_connector == old(self).has_room()
                },
            },
    {
        let room = self.num_conns + self.pending_conns < self.max_size;
        match self.conns.pop_front() {
            Some(entry) => Checkout::Idle { entry, replenish: room },
            None => {
                self.waiters.push_back(waiter);
                Checkout::Waiting { spawn_connector: room }
            },
        }
    }

    /// Forgets `dropped` live connections that are no longer in the idle
    /// deque. Returns whether a replenishment should be scheduled.
    fn drop_connections(&mut self, dropped: u32) -> (replenish: bool)
        requires
            dropped <= old(self).checked_out(),
            old(self).live() + old(self).pending() <= old(self).capacity(),
        ensures
            final(self).live() == old(self).live() - dropped,
            final(self).pending() == old(self).pending(),
            final(self).capacity() == old(self).capacity(),
            final(self).idle() == old(self).idle(),
            final(self).waiting() == old(self).waiting(),
            replenish == final(self).has_room(),
    {
        self.num_conns = self.num_conns - dropped;
        self.num_conns + self.pending_conns < self.max_size
    }

    /// Drops a checked-out connection that failed validation. Returns
    /// whether a replenishment should be scheduled.
    pub fn discard(&mut self) -> (replenish: bool)
        requires
            old(self).wf(),
            old(self).checked_out() > 0,
        ensures
            final(self).wf(),
            final(self).live() == old(self).live() - 1,
            final(self).pending() == old(self).pending(),
            final(self).capacity() == old(self).capacity(),
            final(self).idle() == old(self).idle(),
            final(self).waiting() == old(self).waiting(),
            replenish == final(self).has_room(),
    {
        self.drop_connections(1)
    }

    /// Takes back a checked-out connection at `now`. A broken one is dropped
    /// (the result then says whether to replenish); a sound one becomes idle
    /// from `now` on and is routed to a waiter or to the idle deque.
    pub fn put_back(&mut self, conn: Conn<C>, broken: bool, now: u64) -> (replenish: bool)
        requires
            old(self).wf(),
            old(self).checked_out() > 0,
            now >= conn.birth,
        ensures
            final(self).wf(),
            broken ==> {
                &&& final(self).live() == old(self).live() - 1
                &&& final(self).pending() == old(self).pending()
                &&& final(self).capacity() == old(self).capacity()
                &&& final(self).idle() == old(self).idle()
                &&& final(self).waiting() == old(self).waiting()
                &&& replenish == final(self).has_room()
            },
            !broken ==> {
                &&& Self::routed(*old(self), *final(self), IdleConn { conn, idle_start: now })
                &&& Self::same_counts(*old(self), *final(self))
                &&& !replenish
            },
    {
        if broken {
            self.drop_connections(1)
        } else {
            let entry = IdleConn::make_idle(conn, now);
            self.put_idle_conn(entry);
            false
        }
    }

    /// Under the lock, a connector claims a slot if the pool has room:
    /// the attempt is then counted as pending.
    pub fn begin_connect(&mut self) -> (started: bool)
        requires
            old(self).wf(),
        ensures
            final(self).wf(),
            started == old(self).has_room(),
            final(self).pending() == old(self).pending() + if started {
                1nat
            } else {
                0nat
            },
            final(self).live() == old(self).live(),
            final(self).capacity() == old(self).capacity(),
            final(self).idle() == old(self).idle(),
            final(self).waiting() == old(self).waiting(),
    {
        if self.num_conns + self.pending_conns >= self.max_size {
            false
        } else {
            self.pending_conns = self.pending_conns + 1;
            true
        }
    }

    /// A pending attempt opened `conn` at `now`: it becomes live and is
    /// routed to a waiter or to the idle deque. Returns whether a waiter got it.
    pub fn connect_succeeded(&mut self, conn: C, now: u64) -> (delivered: bool)
        requires
            old(self).wf(),
            old(self).pending() > 0,
        ensures
            final(self).wf(),
            final(self).live() == old(self).live() + 1,
            final(self).pending() == old(self).pending() - 1,
            final(self).capacity() == old(self).capacity(),
            Self::routed(
                *old(self),
                *final(self),
                IdleConn { conn: Conn { conn, birth: now }, idle_start: now },
            ),
            delivered ==> Self::handed_over(*old(self), *final(self)),
    {
        self.pending_conns = self.pending_conns - 1;
        self.num_conns = self.num_conns + 1;
        let entry = IdleConn { conn: Conn { conn, birth: now }, idle_start: now };
        assert(self.idle() == old(self).idle() && self.waiting() == old(self).waiting());
        self.put_idle_conn(entry)
    }

    /// A pending attempt gave up.
    pub fn connect_failed(&mut self)
        requires
            old(self).wf(),
            old(self).pending() > 0,
        ensures
            final(self).wf(),
            final(self).live() == old(self).live(),
            final(self).pending() == old(self).pending() - 1,
            final(self).capacity() == old(self).capacity(),
            final(self).idle() == old(self).idle(),
            final(self).waiting() == old(self).waiting(),
    {
        self.pending_conns = self.pending_conns - 1;
    }

    /// The number of connector tasks a replenishment starts: enough to bring
    /// the idle count up to `min_idle`, as far as free slots allow.
    pub open spec fn replenish_need(&self, min_idle: Option<u32>) -> nat {
        let desired: int = match min_idle {
            Some(m) => m as int,
            None => 0,
        };
        let idle = self.idle().len() as int;
        let slots = self.capacity() - self.live() - self.pending();
        let target = if desired < idle + slots {
            desired
        } else {
            idle + slots
        };
        if target > idle {
            (target - idle) as nat
        } else {
            0
        }
    }

    /// Under the lock, computes how many connections a replenishment opens.
    pub fn replenish_count(&self, min_idle: Option<u32>) -> (r: u32)
        requires
            self.wf(),
        ensures
            r == self.replenish_need(min_idle),
            self.idle().len() + r <= self.idle().len() + self.capacity() - self.live()
                - self.pending(),
    {
        let slots = self.max_size - self.num_conns - self.pending_conns;
        let idle = self.conns.len() as u32;
        let desired = match min_idle {
            Some(m) => m,
            None => 0,
        };
        let target = if desired < idle + slots {
            desired
        } else {
            idle + slots
        };
        if target > idle {
            target - idle
        } else {
            0
        }
    }

    /// One tick of the reaper at `now`: keeps the idle records that pass
    /// every configured expiry predicate, in order, and forgets the others.
    /// Returns whether a replenishment should be scheduled.
    pub fn reap(&mut self, now: u64, idle_timeout: Option<u64>, max_lifetime: Option<u64>) -> (replenish:
        bool)
        requires
            old(self).wf(),
        ensures
            final(self).wf(),
            final(self).idle() == old(self).idle().filter(fresh_at(idle_timeout, max_lifetime, now)),
            forall|i: int|
                0 <= i < final(self).idle().len() ==> fresh(
                    idle_timeout,
                    max_lifetime,
                    now,
                    #[trigger] final(self).idle()[i],
                ),
            final(self).live() + old(self).idle().len() == old(self).live() + final(self).idle().len(),
            final(self).pending() == old(self).pending(),
            final(self).capacity() == old(self).capacity(),
            final(self).waiting() == old(self).waiting(),
            replenish == final(self).has_room(),
    {
        let ghost pre = *self;
        let ghost keep = fresh_at::<C>(idle_timeout, max_lifetime, now);
        let n = self.conns.len();
        let mut kept: VecDeque<IdleConn<C>> = VecDeque::new();
        let mut i: usize = 0;
        while i < n
            invariant
                n == pre.idle().len(),
                0 <= i <= n,
                self.idle() == pre.idle().subrange(i as int, n as int),
                kept@ == pre.idle().subrange(0, i as int).filter(keep),
                forall|j: int| 0 <= j < kept@.len() ==> (#[trigger] kept@[j]).wf(),
                forall|j: int| 0 <= j < kept@.len() ==> keep(#[trigger] kept@[j]),
                self.waiting() == pre.waiting(),
                Self::same_counts(pre, *self),
                pre.wf(),
                keep == fresh_at::<C>(idle_timeout, max_lifetime, now),
            decreases n - i,
        {
            let e = self.conns.pop_front().unwrap();
            proof {
                assert(self.idle() =~= pre.idle().subrange(i + 1, n as int));
                assert(e == pre.idle()[i as int]);
                assert(pre.idle().subrange(0, i + 1) =~= pre.idle().subrange(0, i as int).push(e));
                pre.idle().subrange(0, i as int).lemma_filter_push(e, keep);
            }
            let keep_it = is_fresh(idle_timeout, max_lifetime, now, &e);
            assert(keep_it == keep(e));
            if keep_it {
                kept.push_back(e);
            }
            i += 1;
        }
        proof {
            assert(pre.idle().subrange(0, n as int) =~= pre.idle());
            pre.idle().lemma_filter_len(keep);
        }
        self.conns = kept;
        let dropped = (n - self.conns.len()) as u32;
        self.drop_connections(dropped)
    }
}

} // verus!
