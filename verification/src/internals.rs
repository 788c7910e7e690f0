use vstd::prelude::*;
use std::collections::VecDeque;
use futures_channel::oneshot::Sender;
use crate::approvals::{Approval, ApprovalIter};
use crate::config::PoolConfig;
use crate::conn::{Conn, IdleConn};

verus! {

/// A snapshot of the pool's externally visible counters.
#[derive(Clone, Copy, PartialEq, Eq, Structural, Debug)]
pub struct State {
    /// Physical connections currently owned by the pool (idle + checked out).
    pub connections: u32,
    /// Connections currently sitting in the idle queue.
    pub idle_connections: u32,
}

/// Whether an idle record survives a reaper pass at instant `now`: it has
/// neither sat idle past `idle_timeout` nor lived past `max_lifetime`,
/// whichever of the two are configured.
pub open spec fn spec_keep<C>(rec: IdleConn<C>, config: PoolConfig, now: u64) -> bool {
    &&& (config.idle_timeout is Some ==> now - rec.idle_start < config.idle_timeout->0)
    &&& (config.max_lifetime is Some ==> now - rec.conn.birth < config.max_lifetime->0)
}

/// The pool data that must be protected by a lock.
///
/// `conns` is the idle queue, FIFO (oldest idle first); `waiters` is the
/// queue of parked checkout callers, strict FIFO. `num_conns` counts the
/// physical connections the pool owns, idle or lent out; `pending_conns`
/// counts the admissions whose connector attempt has not yet resolved.
#[verifier::reject_recursive_types(C)]
pub struct PoolInternals<C> {
    pub waiters: VecDeque<Sender<Conn<C>>>,
    pub conns: VecDeque<IdleConn<C>>,
    pub num_conns: u32,
    pub pending_conns: u32,
}

impl<C> PoolInternals<C> {
    /// Connections owned plus admissions outstanding: what counts against
    /// `max_size`.
    pub open spec fn spec_live(self) -> int {
        self.num_conns + self.pending_conns
    }

    /// The pool's two global invariants: the idle queue never holds more
    /// than the pool owns, and owned plus pending never exceed the bound.
    pub open spec fn inv(self, config: PoolConfig) -> bool {
        &&& self.conns@.len() <= self.num_conns
        &&& self.spec_live() <= config.max_size
    }

    /// How many admissions `max_size` still allows.
    pub open spec fn spec_headroom(self, config: PoolConfig) -> int {
        if self.spec_live() < config.max_size {
            config.max_size - self.spec_live()
        } else {
            0
        }
    }

    /// How many new admissions are required to restore
    /// `idle.len() + pending_conns >= min_idle`, before clamping.
    pub open spec fn spec_wanted(self, config: PoolConfig) -> int {
        let available = self.conns@.len() + self.pending_conns;
        if available < config.spec_min_idle() {
            config.spec_min_idle() - available
        } else {
            0
        }
    }

    /// Pop the oldest idle record for a checkout, if one is there.
    pub fn pop(&mut self) -> (r: Option<Conn<C>>)
        ensures
            final(self).num_conns == old(self).num_conns,
            final(self).pending_conns == old(self).pending_conns,
            final(self).waiters@ == old(self).waiters@,
            match r {
                Some(c) => old(self).conns@.len() > 0 && c == old(self).conns@[0].conn
                    && final(self).conns@ == old(self).conns@.subrange(
                    1,
                    old(self).conns@.len() as int,
                ),
                None => old(self).conns@.len() == 0 && final(self).conns@ == old(self).conns@,
            },
    {
        match self.conns.pop_front() {
            Some(idle) => Some(idle.into_conn()),
            None => None,
        }
    }

    /// Mint up to `num` approvals, clamped to the headroom that `max_size`
    /// leaves, and account for them in `pending_conns`.
    pub fn approvals(&mut self, config: &PoolConfig, num: u32) -> (r: ApprovalIter)
        requires
            old(self).inv(*config),
        ensures
            final(self).inv(*config),
            final(self).waiters@ == old(self).waiters@,
            final(self).conns@ == old(self).conns@,
            final(self).num_conns == old(self).num_conns,
            r.spec_len() == if num <= old(self).spec_headroom(*config) {
                num as int
            } else {
                old(self).spec_headroom(*config)
            },
            final(self).pending_conns == old(self).pending_conns + r.spec_len(),
    {
        let current: u32 = self.num_conns + self.pending_conns;
        let allowed: u32 = if current < config.max_size {
            config.max_size - current
        } else {
            0
        };
        let num: u32 = if num < allowed {
            num
        } else {
            allowed
        };
        self.pending_conns = self.pending_conns + num;
        ApprovalIter::from_count(num as usize)
    }

    /// Mint the approvals needed to restore the idle minimum, clamped to the
    /// headroom. With no connection checked out, what is idle or pending
    /// afterwards covers `min_idle`: this is the replenishment target.
    pub fn wanted(&mut self, config: &PoolConfig) -> (r: ApprovalIter)
        requires
            old(self).inv(*config),
        ensures
            final(self).inv(*config),
            final(self).waiters@ == old(self).waiters@,
            final(self).conns@ == old(self).conns@,
            final(self).num_conns == old(self).num_conns,
            r.spec_len() == if old(self).spec_wanted(*config) <= old(self).spec_headroom(*config) {
                old(self).spec_wanted(*config)
            } else {
                old(self).spec_headroom(*config)
            },
            final(self).pending_conns == old(self).pending_conns + r.spec_len(),
            old(self).num_conns == old(self).conns@.len() && config.valid()
                ==> final(self).conns@.len() + final(self).pending_conns
                >= config.spec_min_idle(),
    {
        let available: u32 = self.conns.len() as u32 + self.pending_conns;
        let min_idle: u32 = config.min_idle_or_zero();
        let wanted: u32 = if available < min_idle {
            min_idle - available
        } else {
            0
        };
        self.approvals(config, wanted)
    }

    /// Park a checkout caller at the back of the waiter queue and mint an
    /// approval for one additional connection, if `max_size` allows it.
    pub fn push_waiter(&mut self, waiter: Sender<Conn<C>>, config: &PoolConfig) -> (r: ApprovalIter)
        requires
            old(self).inv(*config),
        ensures
            final(self).inv(*config),
            final(self).waiters@ == old(self).waiters@.push(waiter),
            final(self).conns@ == old(self).conns@,
            final(self).num_conns == old(self).num_conns,
            r.spec_len() == if 1 <= old(self).spec_headroom(*config) {
                1int
            } else {
                0int
            },
            final(self).pending_conns == old(self).pending_conns + r.spec_len(),
    {
        self.waiters.push_back(waiter);
        self.approvals(config, 1)
    }

    /// Return a connection to the pool, or deliver a fresh one. With an
    /// approval the admission resolves: `pending_conns` becomes `num_conns`.
    /// The connection is offered to the parked waiters strictly in queue
    /// order; each cancelled waiter hands it back and is discarded; the first
    /// live waiter takes it. Only if no waiter takes it does the record land
    /// at the back of the idle queue — never both.
    pub fn put(&mut self, conn: IdleConn<C>, approval: Option<Approval>)
        requires
            approval is Some ==> old(self).pending_conns >= 1 && old(self).num_conns < u32::MAX,
            old(self).conns@.len() + 1 <= old(self).num_conns + (if approval is Some {
                1int
            } else {
                0int
            }),
        ensures
            final(self).num_conns == old(self).num_conns + (if approval is Some {
                1int
            } else {
                0int
            }),
            final(self).pending_conns == old(self).pending_conns - (if approval is Some {
                1int
            } else {
                0int
            }),
            final(self).spec_live() == old(self).spec_live(),
            final(self).conns@.len() <= final(self).num_conns,
            (exists|j: int|
                0 <= j < old(self).waiters@.len()
                    && final(self).waiters@ == #[trigger] old(self).waiters@.skip(j + 1)
                    && final(self).conns@ == old(self).conns@)
                || (final(self).waiters@.len() == 0
                    && final(self).conns@ == old(self).conns@.push(conn)),
            old(self).waiters@.len() == 0 && approval is Some
                ==> final(self).conns@.len() + final(self).pending_conns
                    == old(self).conns@.len() + old(self).pending_conns,
    {
        if approval.is_some() {
            self.pending_conns = self.pending_conns - 1;
            self.num_conns = self.num_conns + 1;
        }
        let IdleConn { conn: mut inner, idle_start } = conn;
        let ghost w0 = self.waiters@;
        let ghost c0 = self.conns@;
        let ghost n1 = self.num_conns;
        let ghost p1 = self.pending_conns;
        let ghost mut popped: int = 0;
        loop
            invariant_except_break
                0 <= popped <= w0.len(),
                self.waiters@ == w0.skip(popped),
                self.conns@ == c0,
                self.num_conns == n1,
                self.pending_conns == p1,
                inner == conn.conn,
                idle_start == conn.idle_start,
            ensures
                self.num_conns == n1,
                self.pending_conns == p1,
                (exists|j: int|
                    0 <= j < w0.len() && self.waiters@ == #[trigger] w0.skip(j + 1)
                        && self.conns@ == c0) || (self.waiters@.len() == 0 && self.conns@ == c0.push(
                    conn,
                )),
            decreases w0.len() - popped,
        {
            match self.waiters.pop_front() {
                Some(waiter) => {
                    match waiter.send(inner) {
                        Ok(_) => {
                            proof {
                                assert(self.waiters@ =~= w0.skip(popped + 1));
                                assert(0 <= popped < w0.len() && self.waiters@ == w0.skip(
                                    popped + 1,
                                ) && self.conns@ == c0);
                            }
                            break ;
                        },
                        Err(c) => {
                            inner = c;
                            proof {
                                assert(self.waiters@ =~= w0.skip(popped + 1));
                                popped = popped + 1;
                            }
                        },
                    }
                },
                None => {
                    self.conns.push_back(IdleConn { conn: inner, idle_start });
                    proof {
                        assert(IdleConn { conn: inner, idle_start } == conn);
                    }
                    break ;
                },
            }
        }
    }

    /// A connector gave up on its approval: the admission resolves with no
    /// connection.
    pub fn connect_failed(&mut self, approval: Approval)
        requires
            old(self).pending_conns >= 1,
        ensures
            final(self).pending_conns == old(self).pending_conns - 1,
            final(self).num_conns == old(self).num_conns,
            final(self).conns@ == old(self).conns@,
            final(self).waiters@ == old(self).waiters@,
    {
        let _ = approval;
        self.pending_conns = self.pending_conns - 1;
    }

    /// Account for `num` connections that were dropped (found broken on
    /// return, failed validation, or reaped). The dropped connections are no
    /// longer in the idle queue, so the idle bound must already hold without
    /// them.
    pub fn dropped(&mut self, num: u32)
        requires
            num <= old(self).num_conns,
            old(self).conns@.len() <= old(self).num_conns - num,
        ensures
            final(self).num_conns == old(self).num_conns - num,
            final(self).pending_conns == old(self).pending_conns,
            final(self).conns@ == old(self).conns@,
            final(self).waiters@ == old(self).waiters@,
    {
        self.num_conns = self.num_conns - num;
    }

    /// Account for `num` connections that were dropped and mint what
    /// replenishment then wants: the one compound step behind every
    /// drop-and-replenish site (broken return, failed validation, reaping).
    pub fn drop_connections(&mut self, config: &PoolConfig, num: u32) -> (r: ApprovalIter)
        requires
            old(self).inv(*config),
            num <= old(self).num_conns,
            old(self).conns@.len() <= old(self).num_conns - num,
        ensures
            final(self).inv(*config),
            final(self).num_conns == old(self).num_conns - num,
            final(self).conns@ == old(self).conns@,
            final(self).waiters@ == old(self).waiters@,
            final(self).pending_conns == old(self).pending_conns + r.spec_len(),
            r.spec_len() == ({
                let available = old(self).conns@.len() + old(self).pending_conns;
                let want = if available < config.spec_min_idle() {
                    config.spec_min_idle() - available
                } else {
                    0int
                };
                let live = old(self).num_conns - num + old(self).pending_conns;
                let headroom = if live < config.max_size {
                    config.max_size - live
                } else {
                    0int
                };
                if want <= headroom {
                    want
                } else {
                    headroom
                }
            }),
            config.valid() && old(self).num_conns - num == old(self).conns@.len()
                ==> final(self).conns@.len() + final(self).pending_conns
                >= config.spec_min_idle(),
    {
        self.dropped(num);
        self.wanted(config)
    }

    /// Checkout fast path: pop the oldest idle connection, if one is there,
    /// and mint the approvals that replenishment then wants to cover the
    /// idle minimum again.
    pub fn checkout(&mut self, config: &PoolConfig) -> (r: Option<(Conn<C>, ApprovalIter)>)
        requires
            old(self).inv(*config),
        ensures
            final(self).inv(*config),
            final(self).waiters@ == old(self).waiters@,
            final(self).num_conns == old(self).num_conns,
            r is None ==> old(self).conns@.len() == 0 && final(self).conns@ == old(self).conns@
                && final(self).pending_conns == old(self).pending_conns,
            r is Some ==> old(self).conns@.len() > 0 && (r->0).0 == old(self).conns@[0].conn
                && final(self).conns@ == old(self).conns@.subrange(1, old(self).conns@.len() as int)
                && final(self).pending_conns == old(self).pending_conns + (r->0).1.spec_len()
                && (r->0).1.spec_len() == ({
                let available = old(self).conns@.len() - 1 + old(self).pending_conns;
                let want = if available < config.spec_min_idle() {
                    config.spec_min_idle() - available
                } else {
                    0int
                };
                let headroom = if old(self).spec_live() < config.max_size {
                    config.max_size - old(self).spec_live()
                } else {
                    0int
                };
                if want <= headroom {
                    want
                } else {
                    headroom
                }
            }),
    {
        match self.pop() {
            Some(conn) => {
                let approvals = self.wanted(config);
                Some((conn, approvals))
            },
            None => None,
        }
    }

    /// Return path, once the manager has said whether the connection is
    /// broken. A broken connection is dropped and replenishment approvals
    /// are minted for dispatch; a healthy one is offered to the waiters in
    /// queue order or idled as of `now`, and nothing needs replenishing.
    pub fn put_back(&mut self, conn: Conn<C>, broken: bool, now: u64, config: &PoolConfig) -> (r:
        ApprovalIter)
        requires
            old(self).inv(*config),
            old(self).num_conns >= 1,
            old(self).conns@.len() + 1 <= old(self).num_conns,
        ensures
            final(self).inv(*config),
            final(self).num_conns == old(self).num_conns - (if broken {
                1int
            } else {
                0int
            }),
            broken ==> final(self).conns@ == old(self).conns@ && final(self).waiters@ == old(
                self,
            ).waiters@ && final(self).pending_conns == old(self).pending_conns + r.spec_len()
                && r.spec_len() == ({
                let available = old(self).conns@.len() + old(self).pending_conns;
                let want = if available < config.spec_min_idle() {
                    config.spec_min_idle() - available
                } else {
                    0int
                };
                let live = old(self).num_conns - 1 + old(self).pending_conns;
                let headroom = if live < config.max_size {
                    config.max_size - live
                } else {
                    0int
                };
                if want <= headroom {
                    want
                } else {
                    headroom
                }
            }),
            !broken ==> r.spec_len() == 0 && final(self).pending_conns == old(self).pending_conns
                && ((exists|j: int|
                0 <= j < old(self).waiters@.len()
                    && final(self).waiters@ == #[trigger] old(self).waiters@.skip(j + 1)
                    && final(self).conns@ == old(self).conns@) || (final(self).waiters@.len() == 0
                && final(self).conns@ == old(self).conns@.push(
                IdleConn { conn, idle_start: now },
            ))),
    {
        if broken {
            self.drop_connections(config, 1)
        } else {
            self.put(IdleConn::new(conn, now), None);
            ApprovalIter::from_count(0)
        }
    }

    /// Prune the idle queue at instant `now`: retain exactly the records
    /// that `spec_keep` admits, keeping their order, and report how many were
    /// removed. Counters are not touched here; the caller accounts for the
    /// removals with `dropped`. Checked-out connections are never examined.
    pub fn reap(&mut self, config: &PoolConfig, now: u64) -> (r: usize)
        requires
            forall|i: int|
                0 <= i < old(self).conns@.len() ==> (#[trigger] old(self).conns@[i]).idle_start
                    <= now && old(self).conns@[i].conn.birth <= now,
        ensures
            final(self).conns@ == old(self).conns@.filter(
                |rec: IdleConn<C>| spec_keep(rec, *config, now),
            ),
            r == old(self).conns@.len() - final(self).conns@.len(),
            final(self).num_conns == old(self).num_conns,
            final(self).pending_conns == old(self).pending_conns,
            final(self).waiters@ == old(self).waiters@,
    {
        let ghost pred = |rec: IdleConn<C>| spec_keep(rec, *config, now);
        proof {
            reveal(Seq::filter);
        }
        let before: usize = self.conns.len();
        let mut kept: VecDeque<IdleConn<C>> = VecDeque::new();
        let ghost c0 = self.conns@;
        let ghost mut i: int = 0;
        loop
            invariant
                0 <= i <= c0.len(),
                self.conns@ == c0.skip(i),
                kept@ == c0.take(i).filter(pred),
                pred == (|rec: IdleConn<C>| spec_keep(rec, *config, now)),
                self.num_conns == old(self).num_conns,
                self.pending_conns == old(self).pending_conns,
                self.waiters@ == old(self).waiters@,
                forall|k: int|
                    0 <= k < c0.len() ==> (#[trigger] c0[k]).idle_start <= now && c0[k].conn.birth
                        <= now,
            ensures
                self.conns@.len() == 0,
                kept@ == c0.filter(pred),
                self.num_conns == old(self).num_conns,
                self.pending_conns == old(self).pending_conns,
                self.waiters@ == old(self).waiters@,
            decreases c0.len() - i,
        {
            match self.conns.pop_front() {
                Some(rec) => {
                    proof {
                        assert(rec == c0[i]);
                        assert(self.conns@ =~= c0.skip(i + 1));
                    }
                    let mut keep = true;
                    if let Some(t) = config.idle_timeout {
                        if !(now - rec.idle_start < t) {
                            keep = false;
                        }
                    }
                    if let Some(l) = config.max_lifetime {
                        if !(now - rec.conn.birth < l) {
                            keep = false;
                        }
                    }
                    proof {
                        reveal(Seq::filter);
                        assert(keep == spec_keep(rec, *config, now));
                        assert(pred(rec) == keep);
                        assert(c0.take(i + 1).drop_last() =~= c0.take(i));
                        assert(c0.take(i + 1).last() == c0[i]);
                        assert(c0.take(i + 1).filter(pred) == if pred(c0[i]) {
                            c0.take(i).filter(pred).push(c0[i])
                        } else {
                            c0.take(i).filter(pred)
                        });
                    }
                    if keep {
                        kept.push_back(rec);
                    }
                    proof {
                        i = i + 1;
                    }
                },
                None => {
                    proof {
                        assert(c0.take(i) =~= c0);
                    }
                    break ;
                },
            }
        }
        self.conns = kept;
        proof {
            c0.lemma_filter_len(pred);
        }
        let after: usize = self.conns.len();
        before - after
    }

    /// Snapshot of the externally visible counters; pending admissions are
    /// intentionally not exposed.
    pub fn state(&self) -> (r: State)
        requires
            self.conns@.len() <= self.num_conns,
        ensures
            r.connections == self.num_conns,
            r.idle_connections == self.conns@.len(),
    {
        State { connections: self.num_conns, idle_connections: self.conns.len() as u32 }
    }
}

impl<C> Default for PoolInternals<C> {
    /// A fresh pool: no connections, no admissions, no waiters.
    fn default() -> (r: Self)
        ensures
            r.waiters@.len() == 0,
            r.conns@.len() == 0,
            r.num_conns == 0,
            r.pending_conns == 0,
    {
        PoolInternals {
            waiters: VecDeque::new(),
            conns: VecDeque::new(),
            num_conns: 0,
            pending_conns: 0,
        }
    }
}

} // verus!
