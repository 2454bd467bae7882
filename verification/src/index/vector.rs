//! The indices of a table, as the dataset lists them, and their statistics.

use vstd::prelude::*;
use vstd::string::StringExecFns;
use crate::error::{Error, ErrorView};
use crate::index::IndexRequest;
use crate::text::same_text;

verus! {

/// An index of a table.
#[derive(Clone, Debug, PartialEq, Eq)]
pub struct VectorIndex {
    /// The columns that the index is on.
    pub columns: Vec<String>,
    pub index_name: String,
    pub index_uuid: String,
}

/// The mathematical value of a [`VectorIndex`].
pub struct VectorIndexView {
    pub columns: Seq<Seq<char>>,
    pub index_name: Seq<char>,
    pub index_uuid: Seq<char>,
}

impl View for VectorIndex {
    type V = VectorIndexView;

    open spec fn view(&self) -> VectorIndexView {
        VectorIndexView {
            columns: self.columns.deep_view(),
            index_name: self.index_name@,
            index_uuid: self.index_uuid@,
        }
    }
}

/// How many rows of a table an index covers.
#[derive(Clone, Copy, Debug, PartialEq, Eq, Structural)]
pub struct VectorIndexStatistics {
    pub num_indexed_rows: usize,
    pub num_unindexed_rows: usize,
}

/// The values of a list of indices.
pub open spec fn views(indices: Seq<VectorIndex>) -> Seq<VectorIndexView> {
    Seq::new(indices.len(), |i: int| indices[i]@)
}

/// The position of the first index with the identifier `index_uuid`.
pub fn find_index(indices: &Vec<VectorIndex>, index_uuid: &str) -> (r: Option<usize>)
    ensures
        match r {
            Some(i) => i < indices@.len() && indices@[i as int].index_uuid@ == index_uuid@
                && forall|j: int| 0 <= j < i ==> (#[trigger] indices@[j]).index_uuid@ != index_uuid@,
            None => forall|j: int|
                0 <= j < indices@.len() ==> (#[trigger] indices@[j]).index_uuid@ != index_uuid@,
        },
{
    let mut i: usize = 0;
    while i < indices.len()
        invariant
            i <= indices@.len(),
            forall|j: int| 0 <= j < i ==> (#[trigger] indices@[j]).index_uuid@ != index_uuid@,
        decreases indices@.len() - i,
    {
        if same_text(indices[i].index_uuid.as_str(), index_uuid) {
            return Some(i);
        }
        i += 1;
    }
    None
}

/// The number of rows that the index covers, where there is such an index.
pub fn count_indexed_rows(stats: Option<VectorIndexStatistics>) -> (n: Option<usize>)
    ensures
        n == (match stats {
            Some(s) => Some(s.num_indexed_rows),
            None => None,
        }),
{
    match stats {
        Some(s) => Some(s.num_indexed_rows),
        None => None,
    }
}

/// The number of rows that the index does not cover, where there is such an
/// index.
pub fn count_unindexed_rows(stats: Option<VectorIndexStatistics>) -> (n: Option<usize>)
    ensures
        n == (match stats {
            Some(s) => Some(s.num_unindexed_rows),
            None => None,
        }),
{
    match stats {
        Some(s) => Some(s.num_unindexed_rows),
        None => None,
    }
}

/// The failure of reading the statistics `raw` of an index, which could not
/// be read because of `cause`.
pub fn statistics_error(cause: &str, raw: &str) -> (e: Error)
    ensures
        e@ == (ErrorView::Lance {
            message: "error deserializing index statistics "@ + cause@ + ": "@ + raw@,
        }),
{
    Error::Lance {
        message: String::from_str("error deserializing index statistics ").concat(cause).concat(
            ": ",
        ).concat(raw),
    }
}

/// Whether one of `indices` is on the column `column` alone.
pub open spec fn has_index_on(indices: Seq<VectorIndexView>, column: Seq<char>) -> bool {
    exists|i: int| 0 <= i < indices.len() && (#[trigger] indices[i]).columns == seq![column]
}

/// Whether the index that `request` asks for may be built on a table that
/// has the indices `indices`: it may not where the table has an index on
/// the same column and the request does not allow replacing it.
pub fn check_replace(indices: &Vec<VectorIndex>, request: &IndexRequest) -> (r: Result<(), Error>)
    ensures
        r is Err <==> !request.params.spec_replace() && has_index_on(
            views(indices@),
            request.column@,
        ),
        r matches Err(e) ==> e@ == ErrorView::IndexAlreadyExists,
{
    if request.params.replace() {
        return Ok(());
    }
    let mut i: usize = 0;
    while i < indices.len()
        invariant
            i <= indices@.len(),
            !request.params.spec_replace(),
            forall|j: int|
                0 <= j < i ==> (#[trigger] views(indices@)[j]).columns != seq![request.column@],
        decreases indices@.len() - i,
    {
        let columns = &indices[i].columns;
        if columns.len() == 1 && same_text(columns[0].as_str(), request.column.as_str()) {
            proof {
                assert(columns.deep_view() =~= seq![request.column@]);
                assert(views(indices@)[i as int].columns == seq![request.column@]);
                assert(has_index_on(views(indices@), request.column@));
            }
            return Err(Error::IndexAlreadyExists);
        }
        proof {
            if columns.deep_view() == seq![request.column@] {
                assert(columns.deep_view().len() == 1);
                assert(columns.deep_view()[0] == request.column@);
            }
        }
        i += 1;
    }
    Ok(())
}

} // verus!
