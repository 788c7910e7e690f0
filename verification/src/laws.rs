use vstd::prelude::*;
use crate::config::PoolConfig;
use crate::conn::{Conn, IdleConn};
use crate::internals::{spec_keep, PoolInternals};

verus! {

proof fn lemma_filter_all_kept<A>(s: Seq<A>, pred: spec_fn(A) -> bool)
    requires
        forall|i: int| 0 <= i < s.len() ==> pred(#[trigger] s[i]),
    ensures
        s.filter(pred) == s,
    decreases s.len(),
{
    reveal(Seq::filter);
    if s.len() == 0 {
        assert(s.filter(pred) =~= s);
    } else {
        assert(forall|i: int| 0 <= i < s.drop_last().len() ==> pred(#[trigger] s.drop_last()[i]))
            by {
            assert(forall|i: int|
                0 <= i < s.drop_last().len() ==> #[trigger] s.drop_last()[i] == s[i]);
        }
        lemma_filter_all_kept(s.drop_last(), pred);
        assert(pred(s.last()));
        assert(s.drop_last().push(s.last()) =~= s);
    }
}

proof fn lemma_filter_idempotent<A>(s: Seq<A>, pred: spec_fn(A) -> bool)
    ensures
        s.filter(pred).filter(pred) == s.filter(pred),
{
    let f = s.filter(pred);
    assert forall|i: int| 0 <= i < f.len() implies pred(#[trigger] f[i]) by {
        s.lemma_filter_pred(pred, i);
    }
    lemma_filter_all_kept(f, pred);
}

/// The pool's global bounds, holding at every lock-released moment: under
/// the invariant that every operation preserves, connections owned plus
/// admissions outstanding never exceed `max_size`, and the idle queue never
/// holds more than the pool owns.
pub proof fn lemma_global_bounds<C>(s: PoolInternals<C>, config: PoolConfig)
    requires
        s.inv(config),
    ensures
        s.num_conns + s.pending_conns <= config.max_size,
        s.conns@.len() <= s.num_conns,
{
}

/// Replenishment converges and never overshoots downwards: once the idle
/// minimum `k` is covered by idle records and pending admissions together
/// (as `wanted` ensures after minting), each connector completion — one
/// pending admission resolving into an idle record, with no waiter parked —
/// keeps it covered.
pub proof fn lemma_replenish_step_keeps_min_idle<C>(
    pre: PoolInternals<C>,
    post: PoolInternals<C>,
    rec: IdleConn<C>,
    k: nat,
)
    requires
        pre.conns@.len() + pre.pending_conns >= k,
        pre.pending_conns >= 1,
        post.conns@ == pre.conns@.push(rec),
        post.pending_conns == pre.pending_conns - 1,
    ensures
        post.conns@.len() + post.pending_conns >= k,
{
}

/// Reaping is idempotent: one pass keeps exactly the records `spec_keep`
/// admits, so a second pass at the same instant, with no intervening
/// activity and no further expirations, removes nothing and leaves the idle
/// queue unchanged.
pub proof fn lemma_reap_idempotent<C>(conns: Seq<IdleConn<C>>, config: PoolConfig, now: u64)
    ensures
        conns.filter(|rec: IdleConn<C>| spec_keep(rec, config, now)).filter(
            |rec: IdleConn<C>| spec_keep(rec, config, now),
        ) == conns.filter(|rec: IdleConn<C>| spec_keep(rec, config, now)),
{
    lemma_filter_idempotent(conns, |rec: IdleConn<C>| spec_keep(rec, config, now));
}

/// A returned connection has exactly one disposition: the two outcomes that
/// `put` allows — handed to a waiter with the idle queue unchanged, or
/// appended to the idle queue — exclude each other, so a connection handed
/// to a caller is never also sitting in the idle queue.
pub proof fn lemma_put_disposition_exclusive<C>(
    pre: Seq<IdleConn<C>>,
    post: Seq<IdleConn<C>>,
    rec: IdleConn<C>,
)
    ensures
        !(post == pre && post == pre.push(rec)),
{
    if post == pre && post == pre.push(rec) {
        assert(pre.len() == pre.push(rec).len());
    }
}

/// A checkout immediately followed by a healthy return, with no waiter
/// parked, leaves the pool's counters as they were: `s1` is `s0` after the
/// front idle record was popped (the checkout), and `s2` is `s1` after the
/// same connection was put back healthy without an approval; then owned,
/// pending and idle counts all match `s0`.
pub proof fn lemma_checkout_put_back_round_trip<C>(
    s0: PoolInternals<C>,
    s1: PoolInternals<C>,
    s2: PoolInternals<C>,
    c: Conn<C>,
    now: u64,
)
    requires
        s0.waiters@.len() == 0,
        s0.conns@.len() > 0,
        // what `pop` ensures of the checkout
        c == s0.conns@[0].conn,
        s1.conns@ == s0.conns@.subrange(1, s0.conns@.len() as int),
        s1.num_conns == s0.num_conns,
        s1.pending_conns == s0.pending_conns,
        s1.waiters@ == s0.waiters@,
        // what `put` ensures of the healthy, approval-free return
        s2.num_conns == s1.num_conns,
        s2.pending_conns == s1.pending_conns,
        (exists|j: int|
            0 <= j < s1.waiters@.len() && s2.waiters@ == #[trigger] s1.waiters@.skip(j + 1)
                && s2.conns@ == s1.conns@) || (s2.waiters@.len() == 0 && s2.conns@
            == s1.conns@.push(IdleConn { conn: c, idle_start: now })),
    ensures
        s2.num_conns == s0.num_conns,
        s2.pending_conns == s0.pending_conns,
        s2.conns@.len() == s0.conns@.len(),
{
}

} // verus!
