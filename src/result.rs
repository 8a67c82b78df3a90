//! A query result: resolved columns, the loaded chunk, and the walk over its rows.
use vstd::prelude::*;

use crate::decode::{decode_fails, decodes_to, failure_is, ColumnVector};
use crate::error::{ConversionError, Error, STATE_ERROR};
use crate::row::{copy_texts, text_views, AbstractRow};
use crate::value::{DuckValue, TypeTag};
use crate::walker::{all_rows, lemma_walk_complete, RowWalker, WalkStep};

verus! {

/// Whether every name before `i` was resolved.
pub open spec fn resolved_before(names: Seq<Option<String>>, i: int) -> bool {
    forall|j: int| 0 <= j < i ==> (#[trigger] names[j]) is Some
}

/// Resolves the names of the columns: all of them, or `InvalidColumnIndex` with the first
/// column whose name could not be read.
pub fn resolve_columns_name(names: Vec<Option<String>>) -> (r: Result<Vec<String>, Error>)
    ensures
        r is Ok <==> resolved_before(names@, names@.len() as int),
        r matches Ok(v) ==> v@.len() == names@.len() && forall|i: int|
            0 <= i < v@.len() ==> names@[i] == Some(#[trigger] v@[i]),
        r matches Err(e) ==> exists|i: int|
            0 <= i < names@.len() && resolved_before(names@, i) && names@[i] is None && e
                == Error::InvalidColumnIndex(i as usize),
{
    let mut out: Vec<String> = Vec::new();
    let mut i: usize = 0;
    while i < names.len()
        invariant
            i <= names@.len(),
            out@.len() == i,
            resolved_before(names@, i as int),
            forall|k: int| 0 <= k < i ==> names@[k] == Some(#[trigger] out@[k]),
        decreases names@.len() - i,
    {
        match &names[i] {
            Some(n) => {
                out.push(n.clone());
            },
            None => {
                return Err(Error::InvalidColumnIndex(i));
            },
        }
        i = i + 1;
    }
    Ok(out)
}

/// A query result. Column names and types are fixed when it is made; rows are produced by
/// walking the chunks that the engine hands over, one after another.
pub struct RawResult {
    column_names: Vec<String>,
    column_types: Vec<TypeTag>,
    walker: RowWalker,
    chunk: Vec<ColumnVector>,
    changes: u64,
}

impl RawResult {
    pub closed spec fn names(&self) -> Seq<Seq<char>> {
        text_views(self.column_names@)
    }

    pub closed spec fn types(&self) -> Seq<TypeTag> {
        self.column_types@
    }

    /// The columns of the loaded chunk.
    pub closed spec fn chunk(&self) -> Seq<ColumnVector> {
        self.chunk@
    }

    pub closed spec fn walker(&self) -> RowWalker {
        self.walker
    }

    pub closed spec fn changes_spec(&self) -> u64 {
        self.changes
    }

    /// One type per name, and a walker in order.
    pub closed spec fn wf(&self) -> bool {
        self.column_names@.len() == self.column_types@.len() && self.walker.wf()
    }

    /// Whether column `j` of the loaded chunk is there and its cell `row` decodes.
    pub open spec fn column_decodes(&self, j: int, row: int) -> bool {
        j < self.chunk().len() && !decode_fails(self.chunk()[j], self.types()[j], row)
    }

    /// Whether `k` is the first column whose cell `row` is missing or cannot be decoded.
    pub open spec fn first_bad_column(&self, k: int, row: int) -> bool {
        &&& 0 <= k < self.types().len()
        &&& !self.column_decodes(k, row)
        &&& forall|j: int| 0 <= j < k ==> #[trigger] self.column_decodes(j, row)
    }

    /// Whether `e` is the error of reading row `row`: `EngineFailure` when there are no columns
    /// or the first bad column is missing from the chunk, otherwise the conversion error of the
    /// first column that fails.
    pub open spec fn row_error_is(&self, row: int, e: Error) -> bool {
        if self.types().len() == 0 {
            e is EngineFailure
        } else {
            exists|k: int|
                #[trigger] self.first_bad_column(k, row) && if k < self.chunk().len() {
                    e matches Error::Conversion(ce) && failure_is(
                        self.chunk()[k],
                        self.types()[k],
                        row,
                        ce,
                    )
                } else {
                    e is EngineFailure
                }
        }
    }

    /// Whether `advance` just produced a row.
    pub open spec fn row_ready(&self) -> bool {
        self.walker().has_chunk() && self.walker().cursor() > 0
    }

    /// Index inside the loaded chunk of the current row.
    pub open spec fn current_row(&self) -> int {
        self.walker().cursor() - 1
    }

    /// A result with the given columns and count of changed rows, before its first chunk.
    pub fn new(column_names: Vec<String>, column_types: Vec<TypeTag>, changes: u64) -> (r: RawResult)
        requires
            column_names@.len() == column_types@.len(),
        ensures
            r.wf(),
            r.names() == text_views(column_names@),
            r.types() == column_types@,
            r.changes_spec() == changes,
            r.walker().chunk_sizes() == Seq::<u64>::empty(),
            r.walker().produced() == Seq::<(nat, nat)>::empty(),
            !r.walker().is_exhausted(),
            !r.walker().has_chunk(),
    {
        RawResult {
            column_names,
            column_types,
            walker: RowWalker::new(),
            chunk: Vec::new(),
            changes,
        }
    }

    /// Rows changed by the statement (for INSERT, UPDATE and DELETE; 0 for a query).
    pub fn changes(&self) -> (r: u64)
        ensures
            r == self.changes_spec(),
    {
        self.changes
    }

    /// Number of columns.
    pub fn column_count(&self) -> (r: u64)
        requires
            self.wf(),
        ensures
            r == self.types().len(),
    {
        self.column_types.len() as u64
    }

    /// Type of column `col_index`, or `InvalidColumnIndex` past the last column.
    pub fn column_type(&self, col_index: usize) -> (r: Result<TypeTag, Error>)
        requires
            self.wf(),
        ensures
            col_index < self.types().len() ==> r == Ok::<TypeTag, Error>(self.types()[col_index as int]),
            col_index >= self.types().len() ==> r == Err::<TypeTag, Error>(Error::InvalidColumnIndex(col_index)),
    {
        if col_index >= self.column_types.len() {
            return Err(Error::InvalidColumnIndex(col_index));
        }
        Ok(self.column_types[col_index])
    }

    /// Name of column `col_index`, or `InvalidColumnIndex` past the last column.
    pub fn column_name(&self, col_index: usize) -> (r: Result<&str, Error>)
        requires
            self.wf(),
        ensures
            col_index < self.names().len() ==> (r matches Ok(s) && s@ == self.names()[col_index as int]),
            col_index >= self.names().len() ==> r == Err::<&str, Error>(Error::InvalidColumnIndex(col_index)),
    {
        if col_index >= self.column_names.len() {
            return Err(Error::InvalidColumnIndex(col_index));
        }
        Ok(self.column_names[col_index].as_str())
    }

    /// One step of the walk (see `RowWalker::advance`); a used-up chunk's columns are dropped.
    pub fn advance(&mut self) -> (r: WalkStep)
        requires
            old(self).wf(),
        ensures
            final(self).wf(),
            final(self).names() == old(self).names(),
            final(self).types() == old(self).types(),
            final(self).changes_spec() == old(self).changes_spec(),
            r is NeedChunk ==> final(self).chunk().len() == 0,
            r is Row ==> final(self).chunk() == old(self).chunk(),
            final(self).walker().chunk_sizes() == old(self).walker().chunk_sizes(),
            final(self).walker().is_exhausted() == old(self).walker().is_exhausted(),
            old(self).walker().is_exhausted() ==> r == WalkStep::Done
                && final(self).walker().produced() == old(self).walker().produced(),
            !old(self).walker().is_exhausted() && old(self).walker().has_chunk() && old(self).walker().cursor() < old(self).walker().chunk_size() ==> {
                &&& r == WalkStep::Row(old(self).walker().cursor())
                &&& final(self).row_ready()
                &&& final(self).current_row() == old(self).walker().cursor()
                &&& final(self).walker().produced() == old(self).walker().produced().push(
                    ((old(self).walker().chunk_sizes().len() - 1) as nat, old(self).walker().cursor() as nat),
                )
            },
            !old(self).walker().is_exhausted() && !(old(self).walker().has_chunk() && old(self).walker().cursor() < old(self).walker().chunk_size()) ==> r == WalkStep::NeedChunk && !final(self).walker().has_chunk()
                && final(self).walker().produced() == old(self).walker().produced(),
    {
        let step = self.walker.advance();
        if let WalkStep::NeedChunk = step {
            self.chunk = Vec::new();
        }
        step
    }

    /// Hands over the next chunk (its columns and row count) after `advance` asked for one,
    /// or `None` when the engine has no more chunks.
    pub fn load_chunk(&mut self, next: Option<(Vec<ColumnVector>, u64)>)
        requires
            old(self).wf(),
            !old(self).walker().has_chunk(),
            !old(self).walker().is_exhausted(),
        ensures
            final(self).wf(),
            final(self).names() == old(self).names(),
            final(self).types() == old(self).types(),
            final(self).changes_spec() == old(self).changes_spec(),
            final(self).walker().produced() == old(self).walker().produced(),
            next is None ==> final(self).walker().is_exhausted()
                && final(self).walker().chunk_sizes() == old(self).walker().chunk_sizes(),
            next matches Some(p) ==> {
                &&& !final(self).walker().is_exhausted()
                &&& final(self).walker().chunk_sizes() == old(self).walker().chunk_sizes().push(p.1)
                &&& final(self).walker().has_chunk() == (p.1 > 0)
                &&& p.1 > 0 ==> final(self).walker().cursor() == 0 && final(self).walker().chunk_size() == p.1
                &&& final(self).chunk() == p.0@
            },
    {
        match next {
            None => {
                self.walker.load_chunk(None);
            },
            Some((columns, size)) => {
                self.walker.load_chunk(Some(size));
                self.chunk = columns;
            },
        }
    }

    /// Decodes row `row_idx` of the loaded chunk: one value per column, each read with its
    /// column's type.
    pub fn get_row(&self, row_idx: u64) -> (r: Result<Vec<DuckValue>, Error>)
        requires
            self.wf(),
        ensures
            self.types().len() == 0 ==> r matches Err(Error::EngineFailure { .. }),
            r matches Err(e) ==> self.row_error_is(row_idx as int, e),
            self.types().len() > 0 && self.chunk().len() >= self.types().len() && r is Err ==> r matches Err(
                Error::Conversion(_),
            ),
            r is Ok <==> self.types().len() > 0 && self.chunk().len() >= self.types().len()
                && forall|i: int| 0 <= i < self.types().len() ==> !decode_fails(
                    #[trigger] self.chunk()[i],
                    self.types()[i],
                    row_idx as int,
                ),
            r matches Ok(v) ==> v@.len() == self.types().len() && forall|i: int|
                0 <= i < v@.len() ==> decodes_to(
                    self.chunk()[i],
                    self.types()[i],
                    row_idx as int,
                    #[trigger] v@[i],
                ),
    {
        let n = self.column_types.len();
        if n == 0 {
            return Err(
                Error::EngineFailure {
                    code: STATE_ERROR,
                    message: Some("No columns in result".to_owned()),
                },
            );
        }
        let mut values: Vec<DuckValue> = Vec::new();
        let mut i: usize = 0;
        while i < n
            invariant
                self.wf(),
                n == self.types().len(),
                i <= n,
                values@.len() == i,
                i > 0 ==> self.chunk().len() >= i,
                forall|k: int|
                    0 <= k < i ==> !decode_fails(
                        #[trigger] self.chunk()[k],
                        self.types()[k],
                        row_idx as int,
                    ),
                forall|k: int|
                    0 <= k < i ==> decodes_to(
                        self.chunk()[k],
                        self.types()[k],
                        row_idx as int,
                        #[trigger] values@[k],
                    ),
            decreases n - i,
        {
            if i >= self.chunk.len() {
                proof {
                    assert(self.first_bad_column(i as int, row_idx as int));
                }
                return Err(
                    Error::EngineFailure {
                        code: STATE_ERROR,
                        message: Some("Column is null".to_owned()),
                    },
                );
            }
            match DuckValue::from_duckdb_vec(&self.chunk[i], self.column_types[i], row_idx) {
                Ok(v) => {
                    values.push(v);
                },
                Err(e) => {
                    proof {
                        assert(self.first_bad_column(i as int, row_idx as int));
                    }
                    return Err(Error::Conversion(e));
                },
            }
            i = i + 1;
        }
        Ok(values)
    }

    /// The current row, right after `advance` produced it, with the columns' names.
    pub fn current(&self) -> (r: Result<AbstractRow, Error>)
        requires
            self.wf(),
            self.row_ready(),
        ensures
            r matches Err(e) ==> self.row_error_is(self.current_row(), e),
            self.types().len() > 0 && self.chunk().len() >= self.types().len() && r is Err ==> r matches Err(
                Error::Conversion(_),
            ),
            r is Ok <==> self.types().len() > 0 && self.chunk().len() >= self.types().len()
                && forall|i: int| 0 <= i < self.types().len() ==> !decode_fails(
                    #[trigger] self.chunk()[i],
                    self.types()[i],
                    self.current_row(),
                ),
            r matches Ok(row) ==> {
                &&& row.wf()
                &&& row.names() == self.names()
                &&& row.values().len() == self.types().len()
                &&& forall|i: int|
                    0 <= i < row.values().len() ==> decodes_to(
                        self.chunk()[i],
                        self.types()[i],
                        self.current_row(),
                        #[trigger] row.values()[i],
                    )
            },
    {
        let row_idx = self.walker.position() - 1;
        let values = self.get_row(row_idx)?;
        let names = copy_texts(&self.column_names);
        Ok(AbstractRow::new(values, names))
    }
}

/// A result walked to its end has produced every row of every chunk it was handed exactly
/// once, in order: chunk by chunk, and inside a chunk from its first row to its last.
pub proof fn lemma_result_walk_complete(r: RawResult)
    requires
        r.wf(),
        r.walker().is_exhausted(),
    ensures
        r.walker().produced() == all_rows(r.walker().chunk_sizes()),
{
    lemma_walk_complete(r.walker());
}

} // verus!
