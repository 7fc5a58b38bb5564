use vstd::prelude::*;

verus! {

/// A live backend connection with the instant (in milliseconds) it was opened.
#[derive(Debug)]
pub struct Conn<C> {
    /// The backend connection value.
    pub conn: C,
    /// When the connection was opened; never changes.
    pub birth: u64,
}

/// A connection parked in the pool's idle deque.
#[derive(Debug)]
pub struct IdleConn<C> {
    /// The parked connection.
    pub conn: Conn<C>,
    /// When the connection last became idle.
    pub idle_start: u64,
}

/// Time elapsed from `since` to `now`, zero when `now` is not later.
pub open spec fn elapsed(now: u64, since: u64) -> nat {
    if now >= since {
        (now - since) as nat
    } else {
        0
    }
}

impl<C> IdleConn<C> {
    /// An idle record never started being idle before its connection was opened.
    pub open spec fn wf(&self) -> bool {
        self.idle_start >= self.conn.birth
    }

    /// Parks a connection as idle from `now` on, keeping its birth.
    pub fn make_idle(conn: Conn<C>, now: u64) -> (r: IdleConn<C>)
        requires
            now >= conn.birth,
        ensures
            r == (IdleConn { conn, idle_start: now }),
            r.wf(),
    {
        IdleConn { conn, idle_start: now }
    }
}

} // verus!
