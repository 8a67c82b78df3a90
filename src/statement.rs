//! The life of a prepared statement: parameters bound by position, then one execution.
use vstd::prelude::*;

use crate::error::Error;

verus! {

/// What a statement has done: how many parameters were bound in order, and whether its
/// result was fetched.
pub struct StatementState {
    pub next_index: u64,
    pub executed: bool,
}

/// The state after a `fetch`, and whether the fetch was refused.
pub open spec fn fetch_spec(s: StatementState) -> (StatementState, bool) {
    if s.executed {
        (s, true)
    } else {
        (StatementState { executed: true, ..s }, false)
    }
}

/// The state of a prepared statement. The engine's handle lives beside it; a result may be
/// fetched once, unless `reset_result` discards it.
pub struct Statement {
    bind_idx: u64,
    executed: bool,
}

impl View for Statement {
    type V = StatementState;

    closed spec fn view(&self) -> StatementState {
        StatementState { next_index: self.bind_idx, executed: self.executed }
    }
}

impl Statement {
    /// A freshly prepared statement: nothing bound, not executed.
    pub fn new() -> (r: Statement)
        ensures
            r@ == (StatementState { next_index: 0, executed: false }),
    {
        Statement { bind_idx: 0, executed: false }
    }

    /// Claims the next positional parameter index (0-based); `None` once every index of 64
    /// bits has been used.
    pub fn bind(&mut self) -> (r: Option<u64>)
        ensures
            old(self)@.next_index < u64::MAX ==> r == Some(old(self)@.next_index) && final(self)@
                == (StatementState { next_index: (old(self)@.next_index + 1) as u64, ..old(self)@ }),
            old(self)@.next_index == u64::MAX ==> r is None && final(self)@ == old(self)@,
    {
        if self.bind_idx == u64::MAX {
            return None;
        }
        self.bind_idx = self.bind_idx + 1;
        Some(self.bind_idx - 1)
    }

    /// Number of parameters bound in order so far.
    pub fn bound(&self) -> (r: u64)
        ensures
            r == self@.next_index,
    {
        self.bind_idx
    }

    /// Whether the result has been fetched.
    pub fn is_executed(&self) -> (r: bool)
        ensures
            r == self@.executed,
    {
        self.executed
    }

    /// Claims the one execution: `AlreadyExecuted` if the result was fetched before.
    pub fn fetch(&mut self) -> (r: Result<(), Error>)
        ensures
            (final(self)@, r is Err) == fetch_spec(old(self)@),
            r matches Err(e) ==> e == Error::AlreadyExecuted,
    {
        if self.executed {
            return Err(Error::AlreadyExecuted);
        }
        self.executed = true;
        Ok(())
    }

    /// Gives the execution back after the engine failed to run the statement.
    pub fn execution_failed(&mut self)
        ensures
            final(self)@ == (StatementState { executed: false, ..old(self)@ }),
    {
        self.executed = false;
    }

    /// Discards the fetched result; the statement may then be fetched again.
    pub fn reset_result(&mut self)
        ensures
            final(self)@ == (StatementState { executed: false, ..old(self)@ }),
    {
        if self.executed {
            self.executed = false;
        }
    }
}

/// A statement's result is fetched at most once: after a fetch that was not refused, the
/// next fetch is refused; and a new statement's first fetch is not.
pub proof fn lemma_fetch_once(s: StatementState)
    ensures
        !fetch_spec(s).1 ==> fetch_spec(fetch_spec(s).0).1,
        fetch_spec(StatementState { next_index: s.next_index, executed: false }).1 == false,
{
}

} // verus!
