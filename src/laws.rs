use vstd::prelude::*;
use crate::internals::PoolInternals;
use crate::record::IdleConn;

verus! {

/// No leaks: along any run of checkouts and returns of sound connections,
/// the number of live connections stays what it was at the start.
pub proof fn lemma_no_leak<C>(trace: Seq<PoolInternals<C>>)
    requires
        trace.len() > 0,
        forall|i: int|
            0 <= i < trace.len() - 1 ==> PoolInternals::checkout_or_return(
                #[trigger] trace[i],
                trace[i + 1],
            ),
    ensures
        trace.last().live() == trace[0].live(),
    decreases trace.len(),
{
    if trace.len() > 1 {
        let prefix = trace.drop_last();
        assert forall|i: int| 0 <= i < prefix.len() - 1 implies PoolInternals::checkout_or_return(
            #[trigger] prefix[i],
            prefix[i + 1],
        ) by {
            assert(prefix[i] == trace[i] && prefix[i + 1] == trace[i + 1]);
        }
        lemma_no_leak(prefix);
        let k = trace.len() - 2;
        assert(PoolInternals::checkout_or_return(trace[k], trace[k + 1]));
    }
}

/// Round trip: taking the head of the idle deque and handing the same
/// connection straight back leaves it at the back of the idle deque, the
/// very connection with its birth kept.
pub proof fn lemma_checkout_return_round_trip<C>(
    s0: PoolInternals<C>,
    s1: PoolInternals<C>,
    s2: PoolInternals<C>,
    entry: IdleConn<C>,
    now: u64,
)
    requires
        s0.wf(),
        PoolInternals::took_idle(s0, s1, entry),
        PoolInternals::routed(s1, s2, IdleConn { conn: entry.conn, idle_start: now }),
    ensures
        s2.idle() == s0.idle().drop_first().push(IdleConn { conn: entry.conn, idle_start: now }),
        s2.idle().last().conn == entry.conn,
{
}

} // verus!
