//! A decoded row: column names with their values.
use vstd::prelude::*;

use crate::config::same_text;
use crate::value::DuckValue;

verus! {

/// Whether no column before `i` is named `name`.
pub open spec fn first_named(names: Seq<Seq<char>>, name: Seq<char>, i: int) -> bool {
    0 <= i < names.len() && names[i] == name && forall|j: int| 0 <= j < i ==> names[j] != name
}

/// The views of a list of texts.
pub open spec fn text_views(v: Seq<String>) -> Seq<Seq<char>> {
    v.map_values(|s: String| s@)
}

/// Copies a list of texts.
pub fn copy_texts(v: &Vec<String>) -> (r: Vec<String>)
    ensures
        r@.len() == v@.len(),
        text_views(r@) == text_views(v@),
{
    let mut r: Vec<String> = Vec::new();
    let mut i: usize = 0;
    while i < v.len()
        invariant
            i <= v@.len(),
            r@.len() == i,
            forall|k: int| 0 <= k < i ==> #[trigger] r@[k]@ == v@[k]@,
        decreases v@.len() - i,
    {
        r.push(v[i].clone());
        i = i + 1;
    }
    assert(text_views(r@) =~= text_views(v@));
    r
}

/// A fully decoded row: the value of each column, with the columns' names.
#[derive(Debug)]
pub struct AbstractRow {
    values: Vec<DuckValue>,
    names: Vec<String>,
}

impl AbstractRow {
    /// The values, in column order.
    pub closed spec fn values(&self) -> Seq<DuckValue> {
        self.values@
    }

    /// The column names, in column order.
    pub closed spec fn names(&self) -> Seq<Seq<char>> {
        text_views(self.names@)
    }

    /// One name per value.
    pub closed spec fn wf(&self) -> bool {
        self.values@.len() == self.names@.len()
    }

    /// A row from its values and the names of their columns.
    pub fn new(result: Vec<DuckValue>, col_names: Vec<String>) -> (r: AbstractRow)
        requires
            result@.len() == col_names@.len(),
        ensures
            r.wf(),
            r.values() == result@,
            r.names() == text_views(col_names@),
    {
        AbstractRow { values: result, names: col_names }
    }

    /// Number of columns.
    pub fn len(&self) -> (r: usize)
        requires
            self.wf(),
        ensures
            r == self.values().len(),
    {
        self.values.len()
    }

    /// The value of the first column named `name`, or `None` when no column has that name.
    pub fn get(&self, name: &str) -> (r: Option<&DuckValue>)
        requires
            self.wf(),
        ensures
            r is None <==> forall|i: int| 0 <= i < self.names().len() ==> self.names()[i] != name@,
            r matches Some(v) ==> exists|i: int|
                first_named(self.names(), name@, i) && *v == self.values()[i],
    {
        let mut i: usize = 0;
        while i < self.names.len()
            invariant
                self.wf(),
                i <= self.names@.len(),
                forall|j: int| 0 <= j < i ==> self.names()[j] != name@,
            decreases self.names@.len() - i,
        {
            if same_text(self.names[i].as_str(), name) {
                assert(first_named(self.names(), name@, i as int));
                assert(self.values()[i as int] == self.values@[i as int]);
                return Some(&self.values[i]);
            }
            i = i + 1;
        }
        None
    }
}

} // verus!
