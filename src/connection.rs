//! Ownership of the database and its connections: who may disconnect or close, and when.
use vstd::prelude::*;

use crate::appender::Appender;

verus! {

/// Number of close signals given by `n` releases of a database held `holders` times.
pub open spec fn closes_after(holders: nat, n: nat) -> nat
    decreases n,
{
    if n == 0 || holders == 0 {
        0
    } else {
        (if release_spec(holders).1 { 1nat } else { 0nat }) + closes_after(
            release_spec(holders).0,
            (n - 1) as nat,
        )
    }
}

/// A close of a connection that is `open`: whether it is open after, and whether the native
/// connection must be disconnected.
pub open spec fn close_spec(open: bool) -> (bool, bool) {
    (false, open)
}

/// A release of a database held `holders` times: the holders after, and whether the database
/// must be closed now.
pub open spec fn release_spec(holders: nat) -> (nat, bool) {
    ((holders - 1) as nat, holders == 1)
}

/// The shared database: how many connections hold it, and whether it was closed.
pub struct RawDatabase {
    holders: u64,
    closed: bool,
}

impl RawDatabase {
    pub closed spec fn holders(&self) -> nat {
        self.holders as nat
    }

    pub closed spec fn is_closed(&self) -> bool {
        self.closed
    }

    /// A database that was just opened and that no connection holds yet.
    pub fn new() -> (r: RawDatabase)
        ensures
            r.holders() == 0,
            !r.is_closed(),
    {
        RawDatabase { holders: 0, closed: false }
    }

    /// Number of connections that hold the database.
    pub fn holder_count(&self) -> (r: u64)
        ensures
            r == self.holders(),
    {
        self.holders
    }

    /// Whether the database was closed.
    pub fn closed(&self) -> (r: bool)
        ensures
            r == self.is_closed(),
    {
        self.closed
    }

    /// A connection takes hold of the database; `false` (and no change) where the count is full.
    pub fn acquire(&mut self) -> (r: bool)
        requires
            !old(self).is_closed(),
        ensures
            !final(self).is_closed(),
            r == (old(self).holders() < u64::MAX),
            r ==> final(self).holders() == old(self).holders() + 1,
            !r ==> final(self).holders() == old(self).holders(),
    {
        if self.holders == u64::MAX {
            return false;
        }
        self.holders = self.holders + 1;
        true
    }

    /// A connection lets go of the database; `true` when it was the last one, and the
    /// database must be closed now.
    pub fn release(&mut self) -> (r: bool)
        requires
            !old(self).is_closed(),
            old(self).holders() > 0,
        ensures
            (final(self).holders(), r) == release_spec(old(self).holders()),
            final(self).is_closed() == r,
    {
        self.holders = self.holders - 1;
        if self.holders == 0 {
            self.closed = true;
            true
        } else {
            false
        }
    }
}

/// One connection: open until closed. Each connection is its own native connection.
pub struct RawConnection {
    open: bool,
}

impl RawConnection {
    pub closed spec fn is_open_spec(&self) -> bool {
        self.open
    }

    /// A connection just established on `db`, which it now holds.
    pub fn connect(db: &mut RawDatabase) -> (r: Option<RawConnection>)
        requires
            !old(db).is_closed(),
        ensures
            !final(db).is_closed(),
            r is Some == (old(db).holders() < u64::MAX),
            r matches Some(c) ==> c.is_open_spec() && final(db).holders() == old(db).holders() + 1,
            r is None ==> final(db).holders() == old(db).holders(),
    {
        if db.acquire() {
            Some(RawConnection { open: true })
        } else {
            None
        }
    }

    /// A second, independent connection to the same database.
    pub fn try_clone(&self, db: &mut RawDatabase) -> (r: Option<RawConnection>)
        requires
            !old(db).is_closed(),
        ensures
            !final(db).is_closed(),
            r is Some == (old(db).holders() < u64::MAX),
            r matches Some(c) ==> c.is_open_spec() && final(db).holders() == old(db).holders() + 1,
            r is None ==> final(db).holders() == old(db).holders(),
    {
        RawConnection::connect(db)
    }

    /// Whether the connection is open.
    pub fn is_open(&self) -> (r: bool)
        ensures
            r == self.is_open_spec(),
    {
        self.open
    }

    /// A new appender: it gets a connection of its own to the same database, and starts live
    /// with no rows.
    pub fn appender(&self, db: &mut RawDatabase) -> (r: Option<(RawConnection, Appender)>)
        requires
            !old(db).is_closed(),
        ensures
            !final(db).is_closed(),
            r is Some == (old(db).holders() < u64::MAX),
            r matches Some(p) ==> p.0.is_open_spec() && p.1.is_live() && p.1.row_count() == 0
                && final(db).holders() == old(db).holders() + 1,
            r is None ==> final(db).holders() == old(db).holders(),
    {
        match self.try_clone(db) {
            Some(con) => Some((con, Appender::new())),
            None => None,
        }
    }

    /// Closes the connection; `true` when the native connection must be disconnected now,
    /// which is on the first close only.
    pub fn close(&mut self) -> (r: bool)
        ensures
            (final(self).is_open_spec(), r) == close_spec(old(self).is_open_spec()),
    {
        let was_open = self.open;
        self.open = false;
        was_open
    }
}

/// A connection as its user holds it: the state of one native connection.
pub struct Connection(RawConnection);

impl Connection {
    pub closed spec fn raw(&self) -> RawConnection {
        self.0
    }

    /// Wraps an established connection.
    pub fn new(con: RawConnection) -> (r: Connection)
        ensures
            r.raw() == con,
    {
        Connection(con)
    }

    /// Closes the connection; `true` when the native connection must be disconnected now.
    /// Closing again asks for nothing.
    pub fn close(&mut self) -> (r: bool)
        ensures
            (final(self).raw().is_open_spec(), r) == close_spec(old(self).raw().is_open_spec()),
    {
        self.0.close()
    }

    /// Whether the connection is open.
    pub fn is_open(&self) -> (r: bool)
        ensures
            r == self.raw().is_open_spec(),
    {
        self.0.is_open()
    }

    /// The underlying connection.
    pub fn db(&self) -> (r: &RawConnection)
        ensures
            *r == self.raw(),
    {
        &self.0
    }
}

/// Closing a connection twice disconnects it once: the second close asks for nothing,
/// whatever state the connection was in.
pub proof fn lemma_close_idempotent(open: bool)
    ensures
        !close_spec(close_spec(open).0).1,
        !close_spec(close_spec(open).0).0,
{
}

/// A duplicated connection outlives the original: while the duplicate holds the database,
/// the original's release does not close it.
pub proof fn lemma_duplicate_keeps_database(holders: nat)
    requires
        holders >= 1,
    ensures
        !release_spec(holders + 1).1,
        release_spec(holders + 1).0 == holders,
{
}

/// A database held by `holders` connections is closed exactly once when all of them let go,
/// and not before the last one does.
pub proof fn lemma_closes_once(holders: nat)
    requires
        holders > 0,
    ensures
        closes_after(holders, holders) == 1,
        forall|n: nat| n < holders ==> closes_after(holders, n) == 0,
    decreases holders,
{
    if holders > 1 {
        lemma_closes_once((holders - 1) as nat);
        assert forall|n: nat| n < holders implies closes_after(holders, n) == 0 by {
            if n > 0 {
                assert(closes_after((holders - 1) as nat, (n - 1) as nat) == 0);
            }
        }
    } else {
        assert(closes_after(0, 0) == 0);
        assert forall|n: nat| n < holders implies closes_after(holders, n) == 0 by {}
    }
}

} // verus!
