use vstd::prelude::*;

verus! {

/// A pool-owned physical connection: the manager-supplied resource together
/// with the instant (pool clock, milliseconds) it was established.
pub struct Conn<C> {
    pub conn: C,
    pub birth: u64,
}

/// An idle record: a connection plus the instant it most recently became
/// idle. Promoted back to a bare `Conn` on checkout.
pub struct IdleConn<C> {
    pub conn: Conn<C>,
    pub idle_start: u64,
}

impl<C> Conn<C> {
    pub fn new(conn: C, birth: u64) -> (r: Self)
        ensures
            r.conn == conn,
            r.birth == birth,
    {
        Conn { conn, birth }
    }
}

impl<C> IdleConn<C> {
    /// Mark a connection idle as of `now`.
    pub fn new(conn: Conn<C>, now: u64) -> (r: Self)
        ensures
            r.conn == conn,
            r.idle_start == now,
    {
        IdleConn { conn, idle_start: now }
    }

    /// Promote the record back to a bare connection on checkout.
    pub fn into_conn(self) -> (r: Conn<C>)
        ensures
            r == self.conn,
    {
        self.conn
    }
}

} // verus!
