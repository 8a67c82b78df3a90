//! The life of a bulk appender: rows are appended until a flush or a failed row ends it.
use vstd::prelude::*;

use crate::error::{result_from_state, Error, STATE_SUCCESS};

verus! {

/// The state of an appender. The engine's handle lives beside it while it is live.
pub struct Appender {
    live: bool,
    rows: u64,
}

impl Appender {
    pub closed spec fn is_live(&self) -> bool {
        self.live
    }

    /// Rows appended so far.
    pub closed spec fn row_count(&self) -> nat {
        self.rows as nat
    }

    /// An appender just created by the engine.
    pub fn new() -> (r: Appender)
        ensures
            r.is_live(),
            r.row_count() == 0,
    {
        Appender { live: true, rows: 0 }
    }

    /// Whether rows may still be appended, and whether dropping it must flush it.
    pub fn live(&self) -> (r: bool)
        ensures
            r == self.is_live(),
    {
        self.live
    }

    /// Rows appended so far.
    pub fn rows(&self) -> (r: u64)
        ensures
            r == self.row_count(),
    {
        self.rows
    }

    /// Records how a row ended: with `STATE_SUCCESS` the row counts; otherwise the appender
    /// is destroyed and the failure is returned with the engine's message.
    pub fn append(&mut self, end_row_state: u32, message: Option<String>) -> (r: Result<(), Error>)
        requires
            old(self).is_live(),
        ensures
            end_row_state == STATE_SUCCESS ==> r is Ok && final(self).is_live()
                && final(self).row_count() == if old(self).row_count() < u64::MAX {
                old(self).row_count() + 1
            } else {
                old(self).row_count()
            },
            end_row_state != STATE_SUCCESS ==> r == Err::<(), Error>(
                Error::EngineFailure { code: end_row_state, message },
            ) && !final(self).is_live() && final(self).row_count() == old(self).row_count(),
    {
        if end_row_state == STATE_SUCCESS {
            if self.rows < u64::MAX {
                self.rows = self.rows + 1;
            }
        } else {
            self.live = false;
        }
        result_from_state(end_row_state, message)
    }

    /// Records a flush: the buffer is pushed to storage and the appender destroyed, and the
    /// flush's failure is returned with the engine's message.
    pub fn save(&mut self, flush_state: u32, message: Option<String>) -> (r: Result<(), Error>)
        requires
            old(self).is_live(),
        ensures
            !final(self).is_live(),
            final(self).row_count() == old(self).row_count(),
            flush_state == STATE_SUCCESS ==> r is Ok,
            flush_state != STATE_SUCCESS ==> r == Err::<(), Error>(
                Error::EngineFailure { code: flush_state, message },
            ),
    {
        self.live = false;
        result_from_state(flush_state, message)
    }
}

} // verus!
