use conn_pool::config::PoolConfig;
use conn_pool::conn::{Conn, IdleConn};
use conn_pool::internals::PoolInternals;

fn config(max_size: u32, min_idle: Option<u32>) -> PoolConfig {
    PoolConfig {
        max_size,
        min_idle,
        max_lifetime: None,
        idle_timeout: None,
        connection_timeout: 1000,
        reaper_rate: 100,
        test_on_check_out: false,
    }
}

fn empty_pool() -> PoolInternals<u32> {
    PoolInternals::default()
}

#[test]
fn default_pool_is_empty() {
    let p = empty_pool();
    let st = p.state();
    assert_eq!(st.connections, 0);
    assert_eq!(st.idle_connections, 0);
    assert_eq!(p.pending_conns, 0);
    assert_eq!(p.waiters.len(), 0);
}

#[test]
fn wanted_mints_up_to_min_idle() {
    let mut p = empty_pool();
    let cfg = config(5, Some(3));
    let approvals = p.wanted(&cfg);
    assert_eq!(approvals.len(), 3);
    assert_eq!(p.pending_conns, 3);
    // the target is already covered now: a second call mints nothing
    let mut again = p.wanted(&cfg);
    assert_eq!(again.len(), 0);
    assert_eq!(p.pending_conns, 3);
    assert!(again.next().is_none());
}

#[test]
fn approvals_clamped_by_max_size() {
    let mut p = empty_pool();
    let cfg = config(2, None);
    let first = p.approvals(&cfg, 5);
    assert_eq!(first.len(), 2);
    assert_eq!(p.pending_conns, 2);
    // no headroom is left
    let second = p.approvals(&cfg, 1);
    assert_eq!(second.len(), 0);
    assert_eq!(p.pending_conns, 2);
}

#[test]
fn connect_success_resolves_pending_into_owned() {
    let mut p = empty_pool();
    let cfg = config(1, Some(1));
    let mut approvals = p.wanted(&cfg);
    let approval = approvals.next().expect("one approval");
    p.put(IdleConn::new(Conn::new(7u32, 5), 5), Some(approval));
    assert_eq!(p.pending_conns, 0);
    let st = p.state();
    assert_eq!(st.connections, 1);
    assert_eq!(st.idle_connections, 1);
}

#[test]
fn connect_failed_resolves_pending_without_a_connection() {
    let mut p = empty_pool();
    let cfg = config(2, None);
    let mut approvals = p.approvals(&cfg, 1);
    let approval = approvals.next().expect("one approval");
    assert_eq!(p.pending_conns, 1);
    p.connect_failed(approval);
    assert_eq!(p.pending_conns, 0);
    assert_eq!(p.num_conns, 0);
}

#[test]
fn pop_returns_oldest_idle_first() {
    let mut p = empty_pool();
    let cfg = config(3, None);
    for birth in [10u64, 20, 30] {
        let mut approvals = p.approvals(&cfg, 1);
        let a = approvals.next().unwrap();
        p.put(IdleConn::new(Conn::new(birth as u32, birth), birth), Some(a));
    }
    let first = p.pop().expect("idle connection");
    assert_eq!(first.birth, 10);
    let second = p.pop().expect("idle connection");
    assert_eq!(second.birth, 20);
    assert_eq!(p.state().idle_connections, 1);
    assert_eq!(p.state().connections, 3);
}

#[test]
fn pop_on_empty_pool_is_none() {
    let mut p = empty_pool();
    assert!(p.pop().is_none());
}

#[test]
fn round_trip_checkout_put_back_restores_counters() {
    let mut p = empty_pool();
    let cfg = config(2, None);
    let mut approvals = p.approvals(&cfg, 1);
    let a = approvals.next().unwrap();
    p.put(IdleConn::new(Conn::new(42u32, 9), 9), Some(a));
    let before = p.state();
    let pending_before = p.pending_conns;

    let conn = p.pop().expect("idle connection");
    assert_eq!(conn.birth, 9);
    // healthy return, no waiter parked: back to the idle queue
    p.put(IdleConn::new(conn, 50), None);

    let after = p.state();
    assert_eq!(after, before);
    assert_eq!(p.pending_conns, pending_before);
    // the record is the same physical connection
    let again = p.pop().expect("idle connection");
    assert_eq!(again.birth, 9);
    assert_eq!(again.conn, 42);
}

#[test]
fn put_hands_off_to_earliest_live_waiter() {
    let mut p = empty_pool();
    let cfg = config(5, None);
    let (tx1, mut rx1) = futures_channel::oneshot::channel::<Conn<u32>>();
    let (tx2, mut rx2) = futures_channel::oneshot::channel::<Conn<u32>>();
    let mut approvals = p.push_waiter(tx1, &cfg);
    p.push_waiter(tx2, &cfg);
    assert_eq!(p.waiters.len(), 2);

    // parking the waiter minted an admission; resolve it
    let a = approvals.next().unwrap();
    p.put(IdleConn::new(Conn::new(1u32, 3), 3), Some(a));

    // the earliest-parked waiter got the connection, not the later one
    let got = rx1.try_recv().expect("sender not dropped");
    assert_eq!(got.expect("delivered").conn, 1);
    assert!(rx2.try_recv().expect("sender not dropped").is_none());
    // nothing landed in the idle queue
    assert_eq!(p.state().idle_connections, 0);
    assert_eq!(p.waiters.len(), 1);
}

#[test]
fn put_skips_cancelled_waiter_and_serves_next() {
    let mut p = empty_pool();
    let cfg = config(5, None);
    let (tx1, rx1) = futures_channel::oneshot::channel::<Conn<u32>>();
    let (tx2, mut rx2) = futures_channel::oneshot::channel::<Conn<u32>>();
    let mut approvals = p.push_waiter(tx1, &cfg);
    p.push_waiter(tx2, &cfg);
    // the earliest waiter gives up before anything arrives
    drop(rx1);

    let a = approvals.next().unwrap();
    p.put(IdleConn::new(Conn::new(8u32, 4), 4), Some(a));

    // the cancelled waiter was discarded; the next one was served
    let got = rx2.try_recv().expect("sender not dropped");
    assert_eq!(got.expect("delivered").conn, 8);
    assert_eq!(p.waiters.len(), 0);
    assert_eq!(p.state().idle_connections, 0);
}

#[test]
fn put_idles_when_every_waiter_is_cancelled() {
    let mut p = empty_pool();
    let cfg = config(5, None);
    let (tx1, rx1) = futures_channel::oneshot::channel::<Conn<u32>>();
    let mut approvals = p.push_waiter(tx1, &cfg);
    drop(rx1);

    let a = approvals.next().unwrap();
    p.put(IdleConn::new(Conn::new(3u32, 6), 6), Some(a));

    assert_eq!(p.waiters.len(), 0);
    assert_eq!(p.state().idle_connections, 1);
    assert_eq!(p.state().connections, 1);
}

#[test]
fn broken_return_drops_and_replenishes() {
    let mut p = empty_pool();
    let cfg = config(2, Some(1));
    let mut approvals = p.wanted(&cfg);
    let a = approvals.next().unwrap();
    p.put(IdleConn::new(Conn::new(5u32, 1), 1), Some(a));

    let conn = p.pop().expect("idle connection");
    assert_eq!(conn.conn, 5);
    // the manager found it broken on return: drop it, then replenish
    p.dropped(1);
    assert_eq!(p.num_conns, 0);
    let replacement = p.wanted(&cfg);
    assert_eq!(replacement.len(), 1);
    assert_eq!(p.pending_conns, 1);
}

#[test]
fn checkout_pops_and_replenishes_toward_min_idle() {
    let mut p = empty_pool();
    let cfg = config(5, Some(2));
    let mut approvals = p.wanted(&cfg);
    assert_eq!(approvals.len(), 2);
    let a1 = approvals.next().unwrap();
    let a2 = approvals.next().unwrap();
    p.put(IdleConn::new(Conn::new(1u32, 1), 1), Some(a1));
    p.put(IdleConn::new(Conn::new(2u32, 2), 2), Some(a2));

    // popping the oldest idle record drops the idle count below the
    // minimum, so the checkout itself mints a replacement admission
    let (conn, replacement) = p.checkout(&cfg).expect("idle connection");
    assert_eq!(conn.conn, 1);
    assert_eq!(replacement.len(), 1);
    assert_eq!(p.pending_conns, 1);
    assert_eq!(p.state().idle_connections, 1);
    assert_eq!(p.state().connections, 2);
}

#[test]
fn checkout_on_empty_pool_parks_nothing_and_is_none() {
    let mut p = empty_pool();
    let cfg = config(5, None);
    assert!(p.checkout(&cfg).is_none());
    assert_eq!(p.pending_conns, 0);
}

#[test]
fn put_back_broken_drops_and_mints_replacement() {
    let mut p = empty_pool();
    let cfg = config(3, Some(2));
    let mut approvals = p.wanted(&cfg);
    let a1 = approvals.next().unwrap();
    let a2 = approvals.next().unwrap();
    p.put(IdleConn::new(Conn::new(1u32, 1), 1), Some(a1));
    p.put(IdleConn::new(Conn::new(2u32, 2), 2), Some(a2));

    // the checkout pre-mints a replacement to keep the idle minimum covered
    let (conn, mut minted) = p.checkout(&cfg).expect("idle connection");
    assert_eq!(minted.len(), 1);
    // ... but that connector gives up
    p.connect_failed(minted.next().unwrap());
    assert_eq!(p.pending_conns, 0);

    // the manager finds the checked-out connection broken on return:
    // it is dropped and the idle minimum drives a fresh admission
    let replacement = p.put_back(conn, true, 60, &cfg);
    assert_eq!(p.num_conns, 1);
    assert_eq!(replacement.len(), 1);
    assert_eq!(p.pending_conns, 1);
    assert_eq!(p.state().idle_connections, 1);
}

#[test]
fn put_back_healthy_idles_the_connection_again() {
    let mut p = empty_pool();
    let cfg = config(2, None);
    let mut approvals = p.approvals(&cfg, 1);
    let a = approvals.next().unwrap();
    p.put(IdleConn::new(Conn::new(5u32, 1), 1), Some(a));

    let (conn, _) = p.checkout(&cfg).expect("idle connection");
    let none_minted = p.put_back(conn, false, 60, &cfg);
    assert_eq!(none_minted.len(), 0);
    assert_eq!(p.state().connections, 1);
    assert_eq!(p.state().idle_connections, 1);
    // same physical connection, new idle-start
    let again = p.pop().unwrap();
    assert_eq!(again.birth, 1);
}

#[test]
fn drop_connections_accounts_and_replenishes() {
    let mut p = empty_pool();
    let cfg = config(3, Some(2));
    let mut approvals = p.wanted(&cfg);
    let a1 = approvals.next().unwrap();
    let a2 = approvals.next().unwrap();
    p.put(IdleConn::new(Conn::new(1u32, 1), 1), Some(a1));
    p.put(IdleConn::new(Conn::new(2u32, 2), 2), Some(a2));
    // both get checked out, then both are found expired/broken
    p.pop().unwrap();
    p.pop().unwrap();
    let minted = p.drop_connections(&cfg, 2);
    assert_eq!(p.num_conns, 0);
    assert_eq!(minted.len(), 2);
    assert_eq!(p.pending_conns, 2);
}

#[test]
fn reap_removes_expired_idle_records() {
    let mut p = empty_pool();
    let mut cfg = config(5, None);
    cfg.idle_timeout = Some(50);
    for (birth, idle_start) in [(0u64, 10u64), (0, 80), (0, 90)] {
        let mut approvals = p.approvals(&cfg, 1);
        let a = approvals.next().unwrap();
        p.put(IdleConn::new(Conn::new(idle_start as u32, birth), idle_start), Some(a));
    }
    // at instant 100 only the records idle since 80 and 90 are young enough
    let removed = p.reap(&cfg, 100);
    assert_eq!(removed, 1);
    assert_eq!(p.state().idle_connections, 2);
    p.dropped(removed as u32);
    assert_eq!(p.state().connections, 2);
    // survivors kept their order
    assert_eq!(p.pop().unwrap().conn, 80);
    assert_eq!(p.pop().unwrap().conn, 90);
}

#[test]
fn reap_respects_max_lifetime() {
    let mut p = empty_pool();
    let mut cfg = config(5, None);
    cfg.max_lifetime = Some(100);
    for birth in [0u64, 60] {
        let mut approvals = p.approvals(&cfg, 1);
        let a = approvals.next().unwrap();
        p.put(IdleConn::new(Conn::new(birth as u32, birth), 70), Some(a));
    }
    let removed = p.reap(&cfg, 110);
    assert_eq!(removed, 1);
    assert_eq!(p.pop().unwrap().birth, 60);
}

#[test]
fn second_reap_tick_removes_nothing() {
    let mut p = empty_pool();
    let mut cfg = config(5, None);
    cfg.idle_timeout = Some(50);
    cfg.max_lifetime = Some(500);
    for idle_start in [10u64, 40, 80] {
        let mut approvals = p.approvals(&cfg, 1);
        let a = approvals.next().unwrap();
        p.put(IdleConn::new(Conn::new(idle_start as u32, 0), idle_start), Some(a));
    }
    let first = p.reap(&cfg, 100);
    assert_eq!(first, 2);
    p.dropped(first as u32);
    let snapshot = p.state();
    // same instant, no intervening activity: the second tick is a no-op
    let second = p.reap(&cfg, 100);
    assert_eq!(second, 0);
    assert_eq!(p.state(), snapshot);
}

#[test]
fn counters_never_exceed_max_size() {
    let mut p = empty_pool();
    let cfg = config(3, Some(2));
    // mint in several ways; the clamp holds throughout
    p.wanted(&cfg);
    assert!(p.num_conns + p.pending_conns <= cfg.max_size);
    let (tx, _rx) = futures_channel::oneshot::channel::<Conn<u32>>();
    p.push_waiter(tx, &cfg);
    assert!(p.num_conns + p.pending_conns <= cfg.max_size);
    p.approvals(&cfg, 10);
    assert_eq!(p.num_conns + p.pending_conns, 3);
    // idle never exceeds owned
    assert!(p.state().idle_connections <= p.state().connections);
}

#[test]
fn backoff_starts_at_the_floor_and_doubles() {
    let timeout_ms = 30_000u64;
    let d1 = conn_pool::backoff::next_delay(0, timeout_ms);
    assert_eq!(d1, 200);
    let d2 = conn_pool::backoff::next_delay(d1, timeout_ms);
    assert_eq!(d2, 400);
    let d3 = conn_pool::backoff::next_delay(d2, timeout_ms);
    assert_eq!(d3, 800);
}

#[test]
fn backoff_is_capped_at_half_the_connection_timeout() {
    let timeout_ms = 1_000u64;
    let mut delay = 0u64;
    for _ in 0..10 {
        delay = conn_pool::backoff::next_delay(delay, timeout_ms);
        assert!(delay <= timeout_ms / 2);
    }
    assert_eq!(delay, 500);
}

#[test]
fn connector_gives_up_only_past_the_budget() {
    assert!(!conn_pool::backoff::give_up(1000, 1000));
    assert!(conn_pool::backoff::give_up(1001, 1000));
    assert!(!conn_pool::backoff::give_up(0, 1000));
}

#[test]
fn approvals_at_the_largest_bound() {
    let mut p = empty_pool();
    let cfg = config(u32::MAX, None);
    let batch = p.approvals(&cfg, u32::MAX);
    assert_eq!(batch.len(), u32::MAX as usize);
    assert_eq!(p.pending_conns, u32::MAX);
    let none_left = p.approvals(&cfg, 1);
    assert_eq!(none_left.len(), 0);
}

#[test]
fn min_idle_or_zero_reads_the_option() {
    assert_eq!(config(4, None).min_idle_or_zero(), 0);
    assert_eq!(config(4, Some(2)).min_idle_or_zero(), 2);
}
