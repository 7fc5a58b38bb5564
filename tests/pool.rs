use bb8::{Backoff, Builder, Checkout, Conn, IdleConn, PoolInternals, RunError, State};
use futures::channel::oneshot;

type Rx = oneshot::Receiver<Conn<u32>>;

fn waiter() -> (oneshot::Sender<Conn<u32>>, Rx) {
    oneshot::channel()
}

fn received(rx: &mut Rx) -> Option<(u32, u64)> {
    match rx.try_recv() {
        Ok(Some(c)) => Some((c.conn, c.birth)),
        _ => None,
    }
}

/// Opens `n` connections with ids 1..=n at time `now`, parking each.
fn open_idle(p: &mut PoolInternals<u32>, n: u32, now: u64) {
    for id in 1..=n {
        assert!(p.begin_connect());
        assert!(!p.connect_succeeded(id, now));
    }
}

/// Takes the head of the idle deque, which must be there.
fn take(p: &mut PoolInternals<u32>) -> IdleConn<u32> {
    let (tx, _rx) = waiter();
    match p.checkout(tx) {
        Checkout::Idle { entry, .. } => entry,
        Checkout::Waiting { .. } => panic!("expected an idle connection"),
    }
}

fn state(p: &PoolInternals<u32>) -> (u32, u32) {
    let s: State = p.state();
    (s.connections, s.idle_connections)
}

#[test]
fn builder_defaults() {
    let b = Builder::new();
    assert_eq!(b.max_size, 10);
    assert_eq!(b.min_idle, None);
    assert!(b.test_on_check_out);
    assert_eq!(b.max_lifetime, Some(30 * 60 * 1000));
    assert_eq!(b.idle_timeout, Some(10 * 60 * 1000));
    assert_eq!(b.connection_timeout, 30 * 1000);
    assert_eq!(b.reaper_rate, 30 * 1000);
    assert_eq!(Builder::default(), b);
}

#[test]
fn builder_setters_change_one_setting() {
    let b = Builder::new()
        .max_size(2)
        .min_idle(Some(1))
        .test_on_check_out(false)
        .max_lifetime(None)
        .idle_timeout(Some(50))
        .connection_timeout(1000)
        .reaper_rate(20);
    assert_eq!(b.max_size, 2);
    assert_eq!(b.min_idle, Some(1));
    assert!(!b.test_on_check_out);
    assert_eq!(b.max_lifetime, None);
    assert_eq!(b.idle_timeout, Some(50));
    assert_eq!(b.connection_timeout, 1000);
    assert_eq!(b.reaper_rate, 20);
}

#[test]
fn builder_checks_min_idle_against_max_size() {
    assert!(Builder::new().max_size(3).min_idle(Some(3)).min_idle_fits());
    assert!(!Builder::new().max_size(3).min_idle(Some(4)).min_idle_fits());
    assert!(Builder::new().min_idle(None).min_idle_fits());
}

#[test]
fn reaper_armed_only_with_an_expiry() {
    assert!(Builder::new().reaper_enabled());
    assert!(Builder::new().idle_timeout(None).reaper_enabled());
    assert!(Builder::new().max_lifetime(None).reaper_enabled());
    assert!(!Builder::new().max_lifetime(None).idle_timeout(None).reaper_enabled());
}

#[test]
fn max_size_respected() {
    let mut p = PoolInternals::<u32>::new(2);
    let (ta, mut ra) = waiter();
    let (tb, mut rb) = waiter();
    let (tc, mut rc) = waiter();
    assert!(matches!(p.checkout(ta), Checkout::Waiting { spawn_connector: true }));
    assert!(p.begin_connect());
    assert!(matches!(p.checkout(tb), Checkout::Waiting { spawn_connector: true }));
    assert!(p.begin_connect());
    assert!(matches!(p.checkout(tc), Checkout::Waiting { spawn_connector: false }));
    assert!(!p.begin_connect());
    assert!(p.connect_succeeded(1, 5));
    assert!(p.connect_succeeded(2, 6));
    assert_eq!(received(&mut ra), Some((1, 5)));
    assert_eq!(received(&mut rb), Some((2, 6)));
    assert_eq!(received(&mut rc), None);
    assert_eq!(state(&p), (2, 0));
    // The first caller hands its connection back: the third receives it.
    assert!(!p.put_back(Conn { conn: 1, birth: 5 }, false, 10));
    assert_eq!(received(&mut rc), Some((1, 5)));
    assert_eq!(state(&p), (2, 0));
}

#[test]
fn test_on_check_out_drops_bad_entries() {
    let mut p = PoolInternals::<u32>::new(4);
    open_idle(&mut p, 1, 0);
    assert_eq!(state(&p), (1, 1));
    let bad = take(&mut p);
    assert_eq!(bad.conn.conn, 1);
    // The first probe fails: the connection is dropped.
    assert!(p.discard());
    assert_eq!(state(&p), (0, 0));
    open_idle(&mut p, 1, 3);
    let good = take(&mut p);
    assert_eq!(good.conn.birth, 3);
    assert_eq!(state(&p), (1, 0));
}

#[test]
fn broken_on_return_is_dropped_and_replenished() {
    let mut p = PoolInternals::<u32>::new(4);
    open_idle(&mut p, 1, 0);
    let e = take(&mut p);
    assert!(p.put_back(e.conn, true, 10));
    assert_eq!(state(&p), (0, 0));
    assert_eq!(p.replenish_count(Some(1)), 1);
    open_idle(&mut p, 1, 11);
    assert_eq!(state(&p), (1, 1));
    assert_eq!(p.replenish_count(Some(1)), 0);
}

#[test]
fn idle_timeout_reaps_excess() {
    let mut p = PoolInternals::<u32>::new(4);
    open_idle(&mut p, 1, 0);
    let e = take(&mut p);
    assert!(!p.put_back(e.conn, false, 10));
    assert_eq!(state(&p), (1, 1));
    assert!(p.reap(59, Some(50), None));
    assert_eq!(state(&p), (1, 1));
    assert!(p.reap(60, Some(50), None));
    assert_eq!(state(&p), (0, 0));
}

#[test]
fn max_lifetime_reaps_aged() {
    let mut p = PoolInternals::<u32>::new(4);
    open_idle(&mut p, 1, 0);
    let e = take(&mut p);
    assert!(!p.put_back(e.conn, false, 90));
    p.reap(99, None, Some(100));
    assert_eq!(state(&p), (1, 1));
    p.reap(100, None, Some(100));
    assert_eq!(state(&p), (0, 0));
}

#[test]
fn reap_keeps_fresh_entries_in_order() {
    let mut p = PoolInternals::<u32>::new(4);
    open_idle(&mut p, 3, 0);
    let a = take(&mut p);
    let b = take(&mut p);
    let c = take(&mut p);
    p.put_back(a.conn, false, 10);
    p.put_back(b.conn, false, 40);
    p.put_back(c.conn, false, 30);
    // Only `a` has been idle for 50 ms at time 60.
    assert!(p.reap(60, Some(50), Some(1000)));
    assert_eq!(state(&p), (2, 2));
    assert_eq!(take(&mut p).conn.conn, 2);
    assert_eq!(take(&mut p).conn.conn, 3);
}

#[test]
fn waiter_fifo() {
    let mut p = PoolInternals::<u32>::new(3);
    open_idle(&mut p, 3, 0);
    let held: Vec<IdleConn<u32>> = (0..3).map(|_| take(&mut p)).collect();
    let (ta, mut ra) = waiter();
    let (tb, mut rb) = waiter();
    let (tc, mut rc) = waiter();
    for tx in vec![ta, tb, tc] {
        assert!(matches!(p.checkout(tx), Checkout::Waiting { spawn_connector: false }));
    }
    let mut held = held.into_iter();
    p.put_back(held.next().unwrap().conn, false, 1);
    assert_eq!(received(&mut ra), Some((1, 0)));
    assert_eq!(received(&mut rb), None);
    p.put_back(held.next().unwrap().conn, false, 2);
    assert_eq!(received(&mut rb), Some((2, 0)));
    assert_eq!(received(&mut rc), None);
    p.put_back(held.next().unwrap().conn, false, 3);
    assert_eq!(received(&mut rc), Some((3, 0)));
    assert_eq!(state(&p), (3, 0));
}

#[test]
fn abandoned_waiter_is_skipped() {
    let mut p = PoolInternals::<u32>::new(1);
    open_idle(&mut p, 1, 0);
    let e = take(&mut p);
    let (ta, ra) = waiter();
    let (tb, mut rb) = waiter();
    p.checkout(ta);
    p.checkout(tb);
    drop(ra);
    p.put_back(e.conn, false, 7);
    assert_eq!(received(&mut rb), Some((1, 0)));
    assert_eq!(state(&p), (1, 0));
}

#[test]
fn connection_parked_when_every_waiter_is_gone() {
    let mut p = PoolInternals::<u32>::new(1);
    open_idle(&mut p, 1, 0);
    let e = take(&mut p);
    let (ta, ra) = waiter();
    p.checkout(ta);
    drop(ra);
    p.put_back(e.conn, false, 7);
    assert_eq!(state(&p), (1, 1));
    let again = take(&mut p);
    assert_eq!((again.conn.conn, again.conn.birth, again.idle_start), (1, 0, 7));
}

#[test]
fn checkout_then_return_round_trip() {
    let mut p = PoolInternals::<u32>::new(4);
    open_idle(&mut p, 2, 0);
    let e = take(&mut p);
    assert_eq!(e.conn.conn, 1);
    p.put_back(e.conn, false, 20);
    // The other connection is now the head; the returned one is at the back.
    assert_eq!(take(&mut p).conn.conn, 2);
    let back = take(&mut p);
    assert_eq!((back.conn.conn, back.conn.birth, back.idle_start), (1, 0, 20));
}

#[test]
fn checkouts_and_returns_do_not_leak() {
    let mut p = PoolInternals::<u32>::new(3);
    open_idle(&mut p, 3, 0);
    for round in 0..5u64 {
        let a = take(&mut p);
        let b = take(&mut p);
        p.put_back(b.conn, false, round * 2 + 1);
        p.put_back(a.conn, false, round * 2 + 2);
        assert_eq!(state(&p), (3, 3));
    }
}

#[test]
fn one_more_than_max_size_waits_without_connector() {
    let n: u32 = 4;
    let mut p = PoolInternals::<u32>::new(n);
    let mut rxs = Vec::new();
    for _ in 0..n {
        let (tx, rx) = waiter();
        rxs.push(rx);
        assert!(matches!(p.checkout(tx), Checkout::Waiting { spawn_connector: true }));
        assert!(p.begin_connect());
    }
    let (tx, _rx) = waiter();
    assert!(matches!(p.checkout(tx), Checkout::Waiting { spawn_connector: false }));
    assert_eq!(p.pending_conns(), n);
    for id in 0..n {
        assert!(p.connect_succeeded(id, 1));
    }
    for (id, rx) in rxs.iter_mut().enumerate() {
        assert_eq!(received(rx), Some((id as u32, 1)));
    }
    assert_eq!(p.pending_conns(), 0);
}

#[test]
fn failed_connect_releases_its_slot() {
    let mut p = PoolInternals::<u32>::new(1);
    assert!(p.begin_connect());
    assert!(!p.begin_connect());
    p.connect_failed();
    assert_eq!(p.pending_conns(), 0);
    assert!(p.begin_connect());
}

#[test]
fn always_invalid_connections_keep_being_replaced() {
    let mut p = PoolInternals::<u32>::new(2);
    for round in 0..3u32 {
        open_idle(&mut p, 1, round as u64);
        let _ = take(&mut p);
        assert!(p.discard());
        assert_eq!(state(&p), (0, 0));
    }
}

#[test]
fn replenish_count_respects_min_idle_and_slots() {
    let mut p = PoolInternals::<u32>::new(3);
    assert_eq!(p.replenish_count(None), 0);
    assert_eq!(p.replenish_count(Some(2)), 2);
    open_idle(&mut p, 1, 0);
    assert_eq!(p.replenish_count(Some(2)), 1);
    assert!(p.begin_connect());
    assert!(p.begin_connect());
    // No slot left: nothing more is opened.
    assert_eq!(p.replenish_count(Some(3)), 0);
}

#[test]
fn backoff_doubles_from_200_ms_up_to_half_the_timeout() {
    let mut b = Backoff::new(1000, 30000);
    let mut seen = Vec::new();
    for now in [1100u64, 1300, 1700, 2500, 4100, 7300, 13700, 26500] {
        seen.push(b.on_failure(now).unwrap());
    }
    assert_eq!(seen, vec![200, 400, 800, 1600, 3200, 6400, 12800, 15000]);
    assert_eq!(b.on_failure(30999), Some(15000));
    assert_eq!(b.on_failure(31000), None);
    assert_eq!(b.delay, 15000);
}

#[test]
fn backoff_capped_by_small_timeout() {
    let mut b = Backoff::new(0, 100);
    assert_eq!(b.on_failure(10), Some(50));
    assert_eq!(b.on_failure(60), Some(50));
    assert_eq!(b.on_failure(100), None);
}

#[test]
fn run_error_from_wraps_user_error() {
    let e: RunError<String> = RunError::from("boom".to_string());
    assert_eq!(e, RunError::User("boom".to_string()));
    assert_ne!(e, RunError::TimedOut);
}

#[test]
fn make_idle_keeps_birth() {
    let e = IdleConn::make_idle(Conn { conn: 9u32, birth: 4 }, 12);
    assert_eq!((e.conn.conn, e.conn.birth, e.idle_start), (9, 4, 12));
}
