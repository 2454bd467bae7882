//! The description of one read of a table, and the scan that answers it.

use vstd::prelude::*;
use vstd::slice::slice_to_vec;
use vstd::string::StringExecFns;
use crate::error::{view_result, Error, ErrorView};
use crate::index::DistanceType;
use crate::schema::{
    default_vector_column, first_named, lemma_vector_columns, spec_default_vector_column,
    vector_columns, FieldView, Schema,
};
use crate::text::{
    clone_string_pairs, clone_strings, clone_text, decimal, decimal_digits, text_of,
};

verus! {

/// The number of rows that a vector search returns where no limit is set.
pub const DEFAULT_TOP_K: usize = 10;

/// The number of partitions that a vector search probes where none is set.
pub const DEFAULT_NPROBES: usize = 20;

/// The columns that a query returns.
#[derive(Debug, PartialEq, Eq)]
pub enum Select {
    /// Every column of the table.
    All,
    /// The columns of these names, in this order.
    Simple(Vec<String>),
    /// One column for each pair of a name and an expression: the value of
    /// the expression, under the name.
    Projection(Vec<(String, String)>),
}

/// The mathematical value of a [`Select`].
pub enum SelectView {
    All,
    Simple(Seq<Seq<char>>),
    Projection(Seq<(Seq<char>, Seq<char>)>),
}

impl View for Select {
    type V = SelectView;

    open spec fn view(&self) -> SelectView {
        match self {
            Select::All => SelectView::All,
            Select::Simple(columns) => SelectView::Simple(columns.deep_view()),
            Select::Projection(columns) => SelectView::Projection(columns.deep_view()),
        }
    }
}

/// A builder for queries: scans, and searches for the nearest neighbours of
/// a vector.
///
/// A query vector is held as the bit patterns of its single precision
/// floating point items.
#[derive(Clone, Debug, PartialEq, Eq)]
pub struct Query {
    /// The column to search in. Where none is named, the column is picked by
    /// the schema of the table.
    pub column: Option<String>,
    /// The vector whose nearest neighbours are searched for.
    pub query_vector: Option<Vec<u32>>,
    /// The number of partitions of the index that are probed.
    pub nprobes: usize,
    /// Where set, that many times `limit` candidates are ranked again by
    /// their exact distance.
    pub refine_factor: Option<u32>,
    /// Where set, the distance to search with in place of the one that the
    /// index was trained with.
    pub metric_type: Option<DistanceType>,
    /// The most rows to return.
    pub limit: Option<usize>,
    /// A filter on the rows that are returned.
    pub filter: Option<String>,
    /// The columns to return.
    pub select: Select,
    /// Whether an index is used where there is one. Default is true.
    pub use_index: bool,
    /// Whether the filter is applied before the vector search.
    pub prefilter: bool,
}

/// The mathematical value of a [`Query`].
pub struct QueryView {
    pub column: Option<Seq<char>>,
    pub query_vector: Option<Seq<u32>>,
    pub nprobes: usize,
    pub refine_factor: Option<u32>,
    pub metric_type: Option<DistanceType>,
    pub limit: Option<usize>,
    pub filter: Option<Seq<char>>,
    pub select: SelectView,
    pub use_index: bool,
    pub prefilter: bool,
}

/// The items of a vector that may be missing.
pub open spec fn items_of(v: Option<Vec<u32>>) -> Option<Seq<u32>> {
    match v {
        Some(items) => Some(items@),
        None => None,
    }
}

impl View for Query {
    type V = QueryView;

    open spec fn view(&self) -> QueryView {
        QueryView {
            column: text_of(self.column),
            query_vector: items_of(self.query_vector),
            nprobes: self.nprobes,
            refine_factor: self.refine_factor,
            metric_type: self.metric_type,
            limit: self.limit,
            filter: text_of(self.filter),
            select: self.select@,
            use_index: self.use_index,
            prefilter: self.prefilter,
        }
    }
}

/// The query that a table hands out: a scan of every row and column.
pub open spec fn new_query() -> QueryView {
    QueryView {
        column: None,
        query_vector: None,
        nprobes: DEFAULT_NPROBES,
        refine_factor: None,
        metric_type: None,
        limit: None,
        filter: None,
        select: SelectView::All,
        use_index: true,
        prefilter: false,
    }
}

impl Query {
    /// A scan of every row and column.
    pub fn new() -> (q: Query)
        ensures
            q@ == new_query(),
    {
        Query {
            query_vector: None,
            column: None,
            limit: None,
            nprobes: DEFAULT_NPROBES,
            refine_factor: None,
            metric_type: None,
            use_index: true,
            filter: None,
            select: Select::All,
            prefilter: false,
        }
    }

    /// Set the column to query.
    pub fn column(self, column: &str) -> (q: Query)
        ensures
            q@ == (QueryView { column: Some(column@), ..self@ }),
    {
        let mut q = self;
        q.column = Some(String::from_str(column));
        q
    }

    /// Set the maximum number of results to return.
    pub fn limit(self, limit: usize) -> (q: Query)
        ensures
            q@ == (QueryView { limit: Some(limit), ..self@ }),
    {
        let mut q = self;
        q.limit = Some(limit);
        q
    }

    /// Find the nearest vectors to the given query vector, whose items are
    /// given by their bit patterns.
    pub fn nearest_to(self, vector: &[u32]) -> (q: Query)
        ensures
            q@ == (QueryView { query_vector: Some(vector@), ..self@ }),
    {
        let mut q = self;
        q.query_vector = Some(slice_to_vec(vector));
        q
    }

    /// Set the number of probes to use.
    pub fn nprobes(self, nprobes: usize) -> (q: Query)
        ensures
            q@ == (QueryView { nprobes, ..self@ }),
    {
        let mut q = self;
        q.nprobes = nprobes;
        q
    }

    /// Set the refine factor to use.
    pub fn refine_factor(self, refine_factor: u32) -> (q: Query)
        ensures
            q@ == (QueryView { refine_factor: Some(refine_factor), ..self@ }),
    {
        let mut q = self;
        q.refine_factor = Some(refine_factor);
        q
    }

    /// Set the distance to search with. It should be the one that the index
    /// was trained with, or the results are inaccurate.
    pub fn metric_type(self, metric_type: DistanceType) -> (q: Query)
        ensures
            q@ == (QueryView { metric_type: Some(metric_type), ..self@ }),
    {
        let mut q = self;
        q.metric_type = Some(metric_type);
        q
    }

    /// Whether to use an index if available. Set to false to search every
    /// vector.
    pub fn use_index(self, use_index: bool) -> (q: Query)
        ensures
            q@ == (QueryView { use_index, ..self@ }),
    {
        let mut q = self;
        q.use_index = use_index;
        q
    }

    /// A filter statement to be applied to this query.
    pub fn filter(self, filter: &str) -> (q: Query)
        ensures
            q@ == (QueryView { filter: Some(filter@), ..self@ }),
    {
        let mut q = self;
        q.filter = Some(String::from_str(filter));
        q
    }

    /// Return only the specified columns, in the order given.
    pub fn select(self, columns: &[&str]) -> (q: Query)
        ensures
            q@ == (QueryView {
                select: SelectView::Simple(Seq::new(columns@.len(), |i: int| columns@[i]@)),
                ..self@
            }),
    {
        let mut names: Vec<String> = Vec::new();
        let mut i: usize = 0;
        while i < columns.len()
            invariant
                i <= columns@.len(),
                names@.len() == i,
                forall|j: int| 0 <= j < i ==> (#[trigger] names@[j])@ == columns@[j]@,
            decreases columns@.len() - i,
        {
            names.push(String::from_str(columns[i]));
            i += 1;
        }
        proof {
            assert(names.deep_view() =~= Seq::new(columns@.len(), |i: int| columns@[i]@));
        }
        let mut q = self;
        q.select = Select::Simple(names);
        q
    }

    /// Return one column for each pair of a name and an expression: the
    /// value of the expression, under the name.
    pub fn select_with_projection(self, columns: &[(&str, &str)]) -> (q: Query)
        ensures
            q@ == (QueryView {
                select: SelectView::Projection(
                    Seq::new(columns@.len(), |i: int| (columns@[i].0@, columns@[i].1@)),
                ),
                ..self@
            }),
    {
        let mut pairs: Vec<(String, String)> = Vec::new();
        let mut i: usize = 0;
        while i < columns.len()
            invariant
                i <= columns@.len(),
                pairs@.len() == i,
                forall|j: int|
                    0 <= j < i ==> (#[trigger] pairs@[j]).0@ == columns@[j].0@ && pairs@[j].1@
                        == columns@[j].1@,
            decreases columns@.len() - i,
        {
            let name = String::from_str(columns[i].0);
            let expression = String::from_str(columns[i].1);
            pairs.push((name, expression));
            i += 1;
        }
        proof {
            assert(pairs.deep_view() =~= Seq::new(
                columns@.len(),
                |i: int| (columns@[i].0@, columns@[i].1@),
            ));
        }
        let mut q = self;
        q.select = Select::Projection(pairs);
        q
    }

    /// Whether the filter is applied before the vector search.
    pub fn prefilter(self, prefilter: bool) -> (q: Query)
        ensures
            q@ == (QueryView { prefilter, ..self@ }),
    {
        let mut q = self;
        q.prefilter = prefilter;
        q
    }
}

impl Clone for Select {
    fn clone(&self) -> (r: Select)
        ensures
            r@ == self@,
    {
        match self {
            Select::All => Select::All,
            Select::Simple(columns) => Select::Simple(clone_strings(columns)),
            Select::Projection(columns) => Select::Projection(clone_string_pairs(columns)),
        }
    }
}

/// A search for the nearest neighbours of a vector.
#[derive(Clone, Debug, PartialEq, Eq)]
pub struct Nearest {
    /// The vector column that is searched.
    pub column: String,
    /// The bit patterns of the items of the query vector.
    pub vector: Vec<u32>,
    /// The number of neighbours to find.
    pub k: usize,
}

/// The mathematical value of a [`Nearest`].
pub struct NearestView {
    pub column: Seq<char>,
    pub vector: Seq<u32>,
    pub k: usize,
}

impl View for Nearest {
    type V = NearestView;

    open spec fn view(&self) -> NearestView {
        NearestView { column: self.column@, vector: self.vector@, k: self.k }
    }
}

/// What a query asks of the scanner of the dataset.
#[derive(Clone, Debug, PartialEq, Eq)]
pub struct ScanPlan {
    /// The vector search to run, where the query has a vector.
    pub nearest: Option<Nearest>,
    /// The most rows to return from a scan without a vector search.
    pub limit: Option<usize>,
    pub nprobes: usize,
    pub use_index: bool,
    pub prefilter: bool,
    pub select: Select,
    pub filter: Option<String>,
    pub refine_factor: Option<u32>,
    pub metric_type: Option<DistanceType>,
}

/// The mathematical value of a [`ScanPlan`].
pub struct ScanPlanView {
    pub nearest: Option<NearestView>,
    pub limit: Option<usize>,
    pub nprobes: usize,
    pub use_index: bool,
    pub prefilter: bool,
    pub select: SelectView,
    pub filter: Option<Seq<char>>,
    pub refine_factor: Option<u32>,
    pub metric_type: Option<DistanceType>,
}

impl View for ScanPlan {
    type V = ScanPlanView;

    open spec fn view(&self) -> ScanPlanView {
        ScanPlanView {
            nearest: match self.nearest {
                Some(n) => Some(n@),
                None => None,
            },
            limit: self.limit,
            nprobes: self.nprobes,
            use_index: self.use_index,
            prefilter: self.prefilter,
            select: self.select@,
            filter: text_of(self.filter),
            refine_factor: self.refine_factor,
            metric_type: self.metric_type,
        }
    }
}

/// The failure of a search in a column that the schema lacks.
pub open spec fn column_not_found(name: Seq<char>) -> ErrorView {
    ErrorView::Store { message: "Column "@ + name + " not found in dataset schema"@ }
}

/// The failure of a search in a column that is no list of `len` floating
/// point items.
pub open spec fn dimension_mismatch(name: Seq<char>, len: nat) -> ErrorView {
    ErrorView::Store {
        message: "Vector column '"@ + name
            + "' does not match the dimension of the query vector: dim="@ + decimal_digits(len),
    }
}

/// The column that a vector of `len` items is searched in: the one that is
/// named, else the one vector column of `len` items. Either way it must be a
/// column of the schema, of fixed size lists of `len` floating point items.
pub open spec fn spec_search_column(
    fields: Seq<FieldView>,
    column: Option<Seq<char>>,
    len: nat,
) -> Result<Seq<char>, ErrorView> {
    let picked = match column {
        Some(name) => Ok(name),
        None => spec_default_vector_column(fields, Some(len as int)),
    };
    match picked {
        Err(e) => Err(e),
        Ok(name) => match first_named(fields, name) {
            None => Err(column_not_found(name)),
            Some(i) => if fields[i].data_type.spec_is_vector(Some(len as int)) {
                Ok(name)
            } else {
                Err(dimension_mismatch(name, len))
            },
        },
    }
}

/// The scan that answers the query `q` on a table of the columns `fields`.
///
/// A query with a vector is a search for its nearest neighbours, 10 of them
/// where no limit is set. A query without one is a scan, of every row where
/// no limit is set. The filter, the columns to return and the settings of
/// the search are handed on as they are.
pub open spec fn spec_plan(fields: Seq<FieldView>, q: QueryView) -> Result<
    ScanPlanView,
    ErrorView,
> {
    match q.query_vector {
        None => Ok(
            ScanPlanView {
                nearest: None,
                limit: q.limit,
                nprobes: q.nprobes,
                use_index: q.use_index,
                prefilter: q.prefilter,
                select: q.select,
                filter: q.filter,
                refine_factor: q.refine_factor,
                metric_type: q.metric_type,
            },
        ),
        Some(vector) => match spec_search_column(fields, q.column, vector.len()) {
            Err(e) => Err(e),
            Ok(column) => Ok(
                ScanPlanView {
                    nearest: Some(
                        NearestView {
                            column,
                            vector,
                            k: match q.limit {
                                Some(limit) => limit,
                                None => DEFAULT_TOP_K,
                            },
                        },
                    ),
                    limit: None,
                    nprobes: q.nprobes,
                    use_index: q.use_index,
                    prefilter: q.prefilter,
                    select: q.select,
                    filter: q.filter,
                    refine_factor: q.refine_factor,
                    metric_type: q.metric_type,
                },
            ),
        },
    }
}

/// A scan hands on what the query asks for: the filter, the columns and the
/// settings of the search as they are, whether the filter runs before the
/// search, and the limit, which for a vector search is the number of
/// neighbours and is 10 where the query sets none.
pub proof fn lemma_plan_hands_on_the_query(fields: Seq<FieldView>, q: QueryView)
    requires
        spec_plan(fields, q) is Ok,
    ensures
        ({
            let plan = spec_plan(fields, q)->Ok_0;
            &&& plan.filter == q.filter
            &&& plan.select == q.select
            &&& plan.prefilter == q.prefilter
            &&& plan.use_index == q.use_index
            &&& plan.nprobes == q.nprobes
            &&& plan.refine_factor == q.refine_factor
            &&& plan.metric_type == q.metric_type
            &&& q.query_vector is None ==> plan.nearest is None && plan.limit == q.limit
            &&& q.query_vector matches Some(vector) ==> {
                &&& plan.limit is None
                &&& plan.nearest matches Some(nearest)
                &&& nearest.vector == vector
                &&& nearest.k == (match q.limit {
                    Some(limit) => limit,
                    None => DEFAULT_TOP_K,
                })
                &&& first_named(fields, nearest.column) matches Some(i)
                &&& fields[i].data_type.spec_is_vector(Some(vector.len() as int))
            }
        }),
{
}

/// No column has more items in its lists than the largest 32 bit number.
proof fn lemma_no_vector_column_that_long(fields: Seq<FieldView>, len: int)
    requires
        len > i32::MAX,
    ensures
        vector_columns(fields, Some(len)).len() == 0,
{
    lemma_vector_columns(fields, Some(len));
    if vector_columns(fields, Some(len)).len() > 0 {
        let i = vector_columns(fields, Some(len))[0];
        assert(fields[i].data_type.spec_is_vector(Some(len)));
    }
}

/// The column that a vector of `len` items is searched in.
///
/// Fails with [`Error::Store`] where no column is named and the schema has
/// no vector column of `len` items, or several; where the schema lacks the
/// column; and where the column is no fixed size list of `len` floating point
/// items.
pub fn search_column(schema: &Schema, column: &Option<String>, len: usize) -> (r: Result<
    String,
    Error,
>)
    ensures
        view_result(r) == spec_search_column(schema@, text_of(*column), len as nat),
{
    let dim: Option<i32> = if len <= i32::MAX as usize {
        Some(len as i32)
    } else {
        None
    };
    let name: String = match column {
        Some(name) => name.clone(),
        None => match dim {
            Some(d) => match default_vector_column(schema, Some(d)) {
                Ok(name) => name,
                Err(e) => {
                    return Err(e);
                },
            },
            None => {
                proof {
                    lemma_no_vector_column_that_long(schema@, len as int);
                }
                return Err(
                    Error::Store {
                        message: String::from_str("No vector column found to create index"),
                    },
                );
            },
        },
    };
    match schema.index_of(name.as_str()) {
        None => Err(
            Error::Store {
                message: String::from_str("Column ").concat(name.as_str()).concat(
                    " not found in dataset schema",
                ),
            },
        ),
        Some(i) => {
            let fits = match dim {
                Some(d) => schema.field(i).data_type.is_vector(Some(d)),
                None => false,
            };
            if fits {
                Ok(name)
            } else {
                let digits = decimal(len);
                Err(
                    Error::Store {
                        message: String::from_str("Vector column '").concat(name.as_str()).concat(
                            "' does not match the dimension of the query vector: dim=",
                        ).concat(digits.as_str()),
                    },
                )
            }
        },
    }
}

impl Query {
    /// The scan that answers this query on a table of the columns of
    /// `schema`.
    ///
    /// Fails, as [`search_column`] does, where the query has a vector and no
    /// column to search it in.
    pub fn plan(&self, schema: &Schema) -> (r: Result<ScanPlan, Error>)
        ensures
            view_result(r) == spec_plan(schema@, self@),
    {
        let nearest = match &self.query_vector {
            None => None,
            Some(vector) => {
                let column = match search_column(schema, &self.column, vector.len()) {
                    Ok(column) => column,
                    Err(e) => {
                        return Err(e);
                    },
                };
                let k = match self.limit {
                    Some(limit) => limit,
                    None => DEFAULT_TOP_K,
                };
                Some(Nearest { column, vector: slice_to_vec(vector.as_slice()), k })
            },
        };
        let limit = match &self.query_vector {
            None => self.limit,
            Some(_) => None,
        };
        Ok(
            ScanPlan {
                nearest,
                limit,
                nprobes: self.nprobes,
                use_index: self.use_index,
                prefilter: self.prefilter,
                select: self.select.clone(),
                filter: clone_text(&self.filter),
                refine_factor: self.refine_factor,
                metric_type: self.metric_type,
            },
        )
    }
}

impl Default for Query {
    fn default() -> (q: Query)
        ensures
            q@ == new_query(),
    {
        Query::new()
    }
}

} // verus!
