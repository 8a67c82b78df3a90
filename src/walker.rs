//! The row walker: steps through a result's rows, chunk by chunk, in order.
use vstd::prelude::*;

verus! {

/// Every row position of the chunks of sizes `sizes`, as (chunk, row) pairs, in order.
pub open spec fn all_rows(sizes: Seq<u64>) -> Seq<(nat, nat)>
    decreases sizes.len(),
{
    if sizes.len() == 0 {
        Seq::empty()
    } else {
        all_rows(sizes.drop_last()) + chunk_rows((sizes.len() - 1) as nat, sizes.last() as nat, sizes.last() as nat)
    }
}

/// The first `n` row positions of chunk `c`.
pub open spec fn chunk_rows(c: nat, size: nat, n: nat) -> Seq<(nat, nat)> {
    Seq::new(n, |i: int| (c, i as nat))
}

/// What the caller does after a step of the walker.
#[derive(Clone, Copy, Debug, PartialEq, Eq, Structural)]
pub enum WalkStep {
    /// Fetch the next chunk and hand it to `load_chunk`.
    NeedChunk,
    /// Row `.0` of the loaded chunk is the current row.
    Row(u64),
    /// No rows remain.
    Done,
}

/// Position in a chunked result: the loaded chunk's size and cursor, or no chunk, or the end.
pub struct RowWalker {
    /// Size of the loaded chunk and the number of its rows already produced.
    chunk: Option<(u64, u64)>,
    exhausted: bool,
    /// Sizes of the chunks loaded so far.
    sizes: Ghost<Seq<u64>>,
    /// The row positions produced so far.
    produced: Ghost<Seq<(nat, nat)>>,
}

impl RowWalker {
    /// Sizes of the chunks loaded so far.
    pub closed spec fn chunk_sizes(&self) -> Seq<u64> {
        self.sizes@
    }

    /// The (chunk, row) positions produced so far.
    pub closed spec fn produced(&self) -> Seq<(nat, nat)> {
        self.produced@
    }

    /// Whether the result has been walked to its end.
    pub closed spec fn is_exhausted(&self) -> bool {
        self.exhausted
    }

    /// Whether a chunk is loaded.
    pub closed spec fn has_chunk(&self) -> bool {
        self.chunk is Some
    }

    /// The cursor inside the loaded chunk.
    pub closed spec fn cursor(&self) -> u64 {
        match self.chunk {
            Some(p) => p.1,
            None => 0,
        }
    }

    /// The size of the loaded chunk.
    pub closed spec fn chunk_size(&self) -> u64 {
        match self.chunk {
            Some(p) => p.0,
            None => 0,
        }
    }

    /// The walker's invariant: what was produced is every row of the earlier chunks and the
    /// rows of the loaded chunk before its cursor.
    pub closed spec fn wf(&self) -> bool {
        &&& !(self.exhausted && self.chunk is Some)
        &&& match self.chunk {
            None => self.produced@ == all_rows(self.sizes@),
            Some((size, cursor)) => {
                &&& self.sizes@.len() > 0
                &&& self.sizes@.last() == size
                &&& cursor <= size
                &&& self.produced@ == all_rows(self.sizes@.drop_last()) + chunk_rows(
                    (self.sizes@.len() - 1) as nat,
                    size as nat,
                    cursor as nat,
                )
            },
        }
    }

    /// A walker before the first chunk.
    pub fn new() -> (r: RowWalker)
        ensures
            r.wf(),
            !r.is_exhausted(),
            !r.has_chunk(),
            r.chunk_sizes() == Seq::<u64>::empty(),
            r.produced() == Seq::<(nat, nat)>::empty(),
    {
        RowWalker {
            chunk: None,
            exhausted: false,
            sizes: Ghost(Seq::empty()),
            produced: Ghost(Seq::empty()),
        }
    }

    /// Whether a chunk is loaded.
    pub fn chunk_loaded(&self) -> (r: bool)
        ensures
            r == self.has_chunk(),
    {
        self.chunk.is_some()
    }

    /// The cursor inside the loaded chunk: the number of its rows produced so far.
    pub fn position(&self) -> (r: u64)
        requires
            self.has_chunk(),
        ensures
            r == self.cursor(),
    {
        match self.chunk {
            Some(p) => p.1,
            None => 0,
        }
    }

    /// Whether the walk has ended.
    pub fn exhausted(&self) -> (r: bool)
        ensures
            r == self.is_exhausted(),
    {
        self.exhausted
    }

    /// One step: the next row of the loaded chunk, or a request for the next chunk when there
    /// is none or it is used up (the used-up chunk is dropped), or the end.
    pub fn advance(&mut self) -> (r: WalkStep)
        requires
            old(self).wf(),
        ensures
            final(self).wf(),
            final(self).chunk_sizes() == old(self).chunk_sizes(),
            final(self).is_exhausted() == old(self).is_exhausted(),
            old(self).is_exhausted() ==> r == WalkStep::Done && final(self).produced() == old(
                self,
            ).produced(),
            !old(self).is_exhausted() && old(self).has_chunk() && old(self).cursor() < old(
                self,
            ).chunk_size() ==> {
                &&& r == WalkStep::Row(old(self).cursor())
                &&& final(self).has_chunk()
                &&& final(self).cursor() == old(self).cursor() + 1
                &&& final(self).produced() == old(self).produced().push(
                    ((old(self).chunk_sizes().len() - 1) as nat, old(self).cursor() as nat),
                )
            },
            !old(self).is_exhausted() && !(old(self).has_chunk() && old(self).cursor() < old(
                self,
            ).chunk_size()) ==> r == WalkStep::NeedChunk && !final(self).has_chunk()
                && final(self).produced() == old(self).produced(),
    {
        if self.exhausted {
            return WalkStep::Done;
        }
        match self.chunk {
            Some((size, cursor)) => {
                if cursor < size {
                    self.chunk = Some((size, cursor + 1));
                    let ghost c = (self.sizes@.len() - 1) as nat;
                    proof {
                        let before = chunk_rows(c, size as nat, cursor as nat);
                        let after = chunk_rows(c, size as nat, (cursor + 1) as nat);
                        assert(after =~= before.push((c, cursor as nat)));
                        self.produced@ = self.produced@.push((c, cursor as nat));
                        assert(self.produced@ =~= all_rows(self.sizes@.drop_last()) + after);
                    }
                    WalkStep::Row(cursor)
                } else {
                    self.chunk = None;
                    proof {
                        let s = self.sizes@;
                        assert(chunk_rows((s.len() - 1) as nat, size as nat, cursor as nat)
                            =~= chunk_rows((s.len() - 1) as nat, s.last() as nat, s.last() as nat));
                    }
                    WalkStep::NeedChunk
                }
            },
            None => WalkStep::NeedChunk,
        }
    }

    /// Hands the walker the next chunk's row count, or `None` when the result has no more
    /// chunks. A chunk of zero rows is dropped at once.
    pub fn load_chunk(&mut self, size: Option<u64>)
        requires
            old(self).wf(),
            !old(self).has_chunk(),
            !old(self).is_exhausted(),
        ensures
            final(self).wf(),
            final(self).produced() == old(self).produced(),
            size is None ==> final(self).is_exhausted() && final(self).chunk_sizes() == old(
                self,
            ).chunk_sizes(),
            size matches Some(n) ==> {
                &&& !final(self).is_exhausted()
                &&& final(self).chunk_sizes() == old(self).chunk_sizes().push(n)
                &&& final(self).has_chunk() == (n > 0)
                &&& n > 0 ==> final(self).cursor() == 0 && final(self).chunk_size() == n
            },
    {
        match size {
            None => {
                self.exhausted = true;
            },
            Some(n) => {
                proof {
                    let s = self.sizes@.push(n);
                    assert(s.drop_last() =~= self.sizes@);
                    assert(chunk_rows((s.len() - 1) as nat, n as nat, 0) =~= Seq::empty());
                    assert(self.produced@ =~= all_rows(s.drop_last()) + chunk_rows(
                        (s.len() - 1) as nat,
                        n as nat,
                        0,
                    ));
                    if n == 0 {
                        assert(chunk_rows((s.len() - 1) as nat, s.last() as nat, s.last() as nat)
                            =~= Seq::empty());
                        assert(self.produced@ =~= all_rows(s));
                    }
                    self.sizes@ = s;
                }
                if n > 0 {
                    self.chunk = Some((n, 0));
                }
            },
        }
    }
}

/// A walk that has ended has produced every row of every chunk exactly once, in order:
/// chunk by chunk, and inside a chunk from its first row to its last.
pub proof fn lemma_walk_complete(w: RowWalker)
    requires
        w.wf(),
        w.is_exhausted(),
    ensures
        w.produced() == all_rows(w.chunk_sizes()),
{
}

} // verus!
