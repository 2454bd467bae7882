//! The table facade: what each operation on a table asks of the dataset.

use vstd::prelude::*;
use vstd::string::StringExecFns;
use crate::error::{view_result, Error, ErrorView};
use crate::index::IndexBuilder;
use crate::query::{new_query, spec_plan, Query, QueryView, SelectView};
use crate::remote::table::RemoteTable;
use crate::table::merge::{MergeInsertBuilder, MergeInsertView};
use crate::schema::FieldView;
use crate::text::{same_text, text_of};

pub mod dataset;
pub mod merge;
pub mod optimize;

verus! {

/// How rows are added to a table.
#[derive(Clone, Copy, Debug, PartialEq, Eq, Structural)]
pub enum AddDataMode {
    /// Rows will be appended to the table (the default).
    Append,
    /// The existing table will be overwritten with the new data.
    Overwrite,
}

impl Default for AddDataMode {
    fn default() -> (r: AddDataMode)
        ensures
            r == AddDataMode::Append,
    {
        AddDataMode::Append
    }
}

/// How the dataset layer writes.
#[derive(Clone, Copy, Debug, PartialEq, Eq, Structural)]
pub enum WriteMode {
    /// Create a new dataset; fail where there is one.
    Create,
    /// Append to the dataset.
    Append,
    /// Replace the rows of the dataset.
    Overwrite,
}

impl WriteMode {
    /// The number of rows of a table that had `before` rows, after `added`
    /// rows are written in this mode: appending adds to the rows that are
    /// there, creating and overwriting leave the new rows alone.
    pub open spec fn spec_rows_after(self, before: nat, added: nat) -> nat {
        match self {
            WriteMode::Append => before + added,
            WriteMode::Create | WriteMode::Overwrite => added,
        }
    }

    /// The number of rows of a table that had `before` rows, after `added`
    /// rows are written in this mode; `None` where the number does not fit.
    pub fn rows_after(self, before: usize, added: usize) -> (r: Option<usize>)
        ensures
            match r {
                Some(n) => n == self.spec_rows_after(before as nat, added as nat),
                None => self.spec_rows_after(before as nat, added as nat) > usize::MAX,
            },
    {
        match self {
            WriteMode::Append => before.checked_add(added),
            WriteMode::Create | WriteMode::Overwrite => Some(added),
        }
    }
}

/// Options to use when writing data.
#[derive(Clone, Debug, PartialEq, Eq)]
pub struct WriteOptions<P> {
    /// The write parameters of the dataset layer. If set, these take
    /// precedence over the mode of the builder.
    pub lance_write_params: Option<P>,
}

impl<P> Default for WriteOptions<P> {
    fn default() -> (r: Self)
        ensures
            r.lance_write_params is None,
    {
        WriteOptions { lance_write_params: None }
    }
}

/// A builder for adding the rows `data` to a table.
#[derive(Clone, Debug, PartialEq, Eq)]
pub struct AddDataBuilder<D, P> {
    pub data: D,
    pub mode: AddDataMode,
    pub write_options: WriteOptions<P>,
}

/// The write parameters that the dataset layer is called with.
#[derive(Clone, Debug, PartialEq, Eq)]
pub enum WriteParamsChoice<P> {
    /// The parameters that the caller gave, as they are.
    Explicit(P),
    /// The default parameters, but for the mode.
    Default { mode: WriteMode },
}

/// What adding rows to a table asks of the dataset.
#[derive(Clone, Debug, PartialEq, Eq)]
pub struct WriteRequest<D, P> {
    pub data: D,
    pub params: WriteParamsChoice<P>,
}

impl AddDataMode {
    /// The way the dataset layer writes in this mode.
    pub open spec fn spec_write_mode(self) -> WriteMode {
        match self {
            AddDataMode::Append => WriteMode::Append,
            AddDataMode::Overwrite => WriteMode::Overwrite,
        }
    }

    /// The way the dataset layer writes in this mode.
    #[verifier::when_used_as_spec(spec_write_mode)]
    pub fn write_mode(self) -> (m: WriteMode)
        ensures
            m == self.spec_write_mode(),
    {
        match self {
            AddDataMode::Append => WriteMode::Append,
            AddDataMode::Overwrite => WriteMode::Overwrite,
        }
    }
}

/// What parsing the name of a mode answers.
pub open spec fn spec_parse_add_mode(name: Seq<char>) -> Result<AddDataMode, ErrorView> {
    if name == "append"@ {
        Ok(AddDataMode::Append)
    } else if name == "overwrite"@ {
        Ok(AddDataMode::Overwrite)
    } else {
        Err(ErrorView::InvalidInput { message: "Invalid mode: "@ + name })
    }
}

/// The mode called `name`: one of `append` and `overwrite`.
pub fn parse_add_mode(name: &str) -> (r: Result<AddDataMode, Error>)
    ensures
        match r {
            Ok(mode) => spec_parse_add_mode(name@) == Ok::<AddDataMode, ErrorView>(mode),
            Err(e) => spec_parse_add_mode(name@) == Err::<AddDataMode, ErrorView>(e@),
        },
{
    if same_text(name, "append") {
        Ok(AddDataMode::Append)
    } else if same_text(name, "overwrite") {
        Ok(AddDataMode::Overwrite)
    } else {
        Err(Error::InvalidInput { message: String::from_str("Invalid mode: ").concat(name) })
    }
}

/// The write parameters of a builder with the mode `mode` and the explicit
/// parameters `explicit`: the explicit ones where there are any, whatever
/// the mode.
pub open spec fn spec_write_params<P>(mode: AddDataMode, explicit: Option<P>)
    -> WriteParamsChoice<P> {
    match explicit {
        Some(params) => WriteParamsChoice::Explicit(params),
        None => WriteParamsChoice::Default { mode: mode.spec_write_mode() },
    }
}

impl<D, P> AddDataBuilder<D, P> {
    /// A builder that appends `data`, with default options.
    pub fn new(data: D) -> (r: Self)
        ensures
            r.data == data,
            r.mode == AddDataMode::Append,
            r.write_options.lance_write_params is None,
    {
        AddDataBuilder { data, mode: AddDataMode::Append, write_options: WriteOptions::default() }
    }

    /// Whether the rows are appended or replace those of the table.
    pub fn mode(self, mode: AddDataMode) -> (r: Self)
        ensures
            r.data == self.data,
            r.mode == mode,
            r.write_options == self.write_options,
    {
        AddDataBuilder { data: self.data, mode, write_options: self.write_options }
    }

    /// The options to write with.
    pub fn write_options(self, options: WriteOptions<P>) -> (r: Self)
        ensures
            r.data == self.data,
            r.mode == self.mode,
            r.write_options == options,
    {
        AddDataBuilder { data: self.data, mode: self.mode, write_options: options }
    }

    /// What adding the rows asks of the dataset.
    pub fn into_request(self) -> (r: WriteRequest<D, P>)
        ensures
            r.data == self.data,
            r.params == spec_write_params(self.mode, self.write_options.lance_write_params),
    {
        let params = match self.write_options.lance_write_params {
            Some(params) => WriteParamsChoice::Explicit(params),
            None => WriteParamsChoice::Default { mode: self.mode.write_mode() },
        };
        WriteRequest { data: self.data, params }
    }
}

/// Without explicit write parameters, appending asks the dataset to append
/// and overwriting to overwrite; with them, the mode of the builder has no
/// say.
pub proof fn lemma_explicit_params_override_mode<P>(mode: AddDataMode, other: AddDataMode, p: P)
    ensures
        spec_write_params(AddDataMode::Append, None::<P>) == (WriteParamsChoice::<P>::Default {
            mode: WriteMode::Append,
        }),
        spec_write_params(AddDataMode::Overwrite, None::<P>) == (WriteParamsChoice::<
            P,
        >::Default { mode: WriteMode::Overwrite }),
        spec_write_params(mode, Some(p)) == spec_write_params(other, Some(p)),
        spec_write_params(mode, Some(p)) == WriteParamsChoice::Explicit(p),
{
}

/// Adding `k` rows to a table of `n` rows leaves `n + k` rows where they are
/// appended, which is the default, and `k` rows where they overwrite the
/// table.
pub proof fn lemma_count_after_add<P>(n: nat, k: nat)
    ensures
        spec_write_params(AddDataMode::Append, None::<P>) matches WriteParamsChoice::Default {
            mode,
        } && mode.spec_rows_after(n, k) == n + k,
        spec_write_params(AddDataMode::Overwrite, None::<P>) matches WriteParamsChoice::Default {
            mode,
        } && mode.spec_rows_after(n, k) == k,
{
}

/// How the rows of a table are counted.
#[derive(Clone, Debug, PartialEq, Eq)]
pub enum CountPlan {
    /// The dataset is asked for its number of rows.
    Total,
    /// The rows that a scan with this filter returns are counted.
    Filtered(String),
}

/// The mathematical value of a [`CountPlan`].
pub enum CountPlanView {
    Total,
    Filtered(Seq<char>),
}

impl View for CountPlan {
    type V = CountPlanView;

    open spec fn view(&self) -> CountPlanView {
        match self {
            CountPlan::Total => CountPlanView::Total,
            CountPlan::Filtered(filter) => CountPlanView::Filtered(filter@),
        }
    }
}

/// How the rows that satisfy `filter` are counted, or all rows where there
/// is no filter.
pub open spec fn spec_count_rows(filter: Option<Seq<char>>) -> CountPlanView {
    match filter {
        Some(f) => CountPlanView::Filtered(f),
        None => CountPlanView::Total,
    }
}

/// How the rows that satisfy `filter` are counted, or all rows where there
/// is no filter.
pub fn count_rows(filter: Option<String>) -> (plan: CountPlan)
    ensures
        plan@ == spec_count_rows(text_of(filter)),
{
    match filter {
        Some(f) => CountPlan::Filtered(f),
        None => CountPlan::Total,
    }
}

/// Counting the rows that satisfy a filter, and a query with that filter
/// and nothing else set, ask for the same scan: of every column, with that
/// filter, without a limit and without a vector search.
pub proof fn lemma_count_scans_like_query(fields: Seq<FieldView>, filter: Seq<char>)
    ensures
        spec_count_rows(Some(filter)) == CountPlanView::Filtered(filter),
        (spec_plan(fields, QueryView { filter: Some(filter), ..new_query() }) matches Ok(plan)
            && plan.filter == Some(filter) && plan.limit is None && plan.nearest is None
            && plan.select == SelectView::All),
{
}

/// A failure of the dataset layer, as far as the table tells them apart:
/// its text, and whether it says that the dataset is missing or is there
/// already.
#[derive(Clone, Debug, PartialEq, Eq)]
pub enum DatasetError {
    DatasetNotFound { message: String },
    DatasetAlreadyExists { message: String },
    Other { message: String },
}

impl DatasetError {
    /// The text of the failure.
    pub open spec fn spec_message(self) -> Seq<char> {
        match self {
            DatasetError::DatasetNotFound { message } => message@,
            DatasetError::DatasetAlreadyExists { message } => message@,
            DatasetError::Other { message } => message@,
        }
    }

    /// The failure of an operation that the dataset layer failed with this.
    pub fn into_error(self) -> (e: Error)
        ensures
            e@ == (ErrorView::Lance { message: self.spec_message() }),
    {
        match self {
            DatasetError::DatasetNotFound { message } => Error::Lance { message },
            DatasetError::DatasetAlreadyExists { message } => Error::Lance { message },
            DatasetError::Other { message } => Error::Lance { message },
        }
    }
}

/// The failure of opening the table `name` where loading its dataset has
/// failed with `cause`: the table is not found where the dataset is missing.
pub fn open_error(name: &str, cause: DatasetError) -> (e: Error)
    ensures
        e@ == (match cause {
            DatasetError::DatasetNotFound { .. } => ErrorView::TableNotFound { name: name@ },
            _ => ErrorView::Lance { message: cause.spec_message() },
        }),
{
    match cause {
        DatasetError::DatasetNotFound { .. } => Error::TableNotFound {
            name: String::from_str(name),
        },
        other => other.into_error(),
    }
}

/// The failure of creating the table `name` where writing its dataset has
/// failed with `cause`: the table exists already where the dataset does.
pub fn create_error(name: &str, cause: DatasetError) -> (e: Error)
    ensures
        e@ == (match cause {
            DatasetError::DatasetAlreadyExists { .. } => ErrorView::TableAlreadyExists {
                name: name@,
            },
            _ => ErrorView::Lance { message: cause.spec_message() },
        }),
{
    match cause {
        DatasetError::DatasetAlreadyExists { .. } => Error::TableAlreadyExists {
            name: String::from_str(name),
        },
        other => other.into_error(),
    }
}

/// Calls `std::path::Path::file_stem` on `uri` and reads the stem as text
/// with `to_str`: the outer `None` is that of `file_stem`, for a path
/// without a file name; the inner `None` is that of `to_str`, for a stem
/// that is no valid text. Claimed, and not proved: the call reads nothing
/// but the path, so that what comes back is [`path_file_stem`] of it.
#[verifier::external_body]
fn file_stem(uri: &str) -> (stem: Option<Option<String>>)
    ensures
        stem.deep_view() == path_file_stem(uri@),
{
    std::path::Path::new(uri).file_stem().map(|stem| stem.to_str().map(|text| text.to_string()))
}

/// The name of the table at `uri`, given the file stem of `uri`: the stem.
/// A uri without a file stem that is valid text names no table.
pub open spec fn spec_table_name(uri: Seq<char>, stem: Option<Option<Seq<char>>>) -> Result<
    Seq<char>,
    ErrorView,
> {
    match stem {
        Some(Some(name)) => Ok(name),
        _ => Err(ErrorView::InvalidTableName { name: uri }),
    }
}

/// The name of the table at `uri`, given the file stem of `uri`: the stem,
/// where there is one and it is valid text.
pub fn table_name_from_stem(uri: &str, stem: Option<Option<String>>) -> (r: Result<String, Error>)
    ensures
        view_result(r) == spec_table_name(uri@, stem.deep_view()),
{
    match stem {
        Some(Some(name)) => Ok(name),
        _ => Err(Error::InvalidTableName { name: String::from_str(uri) }),
    }
}

/// The name of the table at `uri`: its file stem, as [`path_file_stem`]
/// names it. Fails with [`Error::InvalidTableName`], which names `uri`, where
/// the path has no file stem, or one that is no valid text.
pub fn get_table_name(uri: &str) -> (r: Result<String, Error>)
    ensures
        view_result(r) == spec_table_name(uri@, path_file_stem(uri@)),
{
    table_name_from_stem(uri, file_stem(uri))
}

/// The file stem that `std::path::Path::file_stem` finds in the path `uri`,
/// read as text: the last component of the path without its extension. The
/// outer `None` stands for a path without a file name, the inner `None` for
/// a stem that is no valid text. The rules by which a path is split are
/// those of the platform that the library is built for.
pub uninterp spec fn path_file_stem(uri: Seq<char>) -> Option<Option<Seq<char>>>;

/// A table in a database on local or object storage.
#[derive(Clone, Debug, PartialEq, Eq)]
pub struct NativeTable {
    pub name: String,
    pub uri: String,
    /// How long a view of the table may be served before the dataset is
    /// looked at again, in nanoseconds.
    pub read_consistency_interval: Option<u128>,
}

/// The mathematical value of a [`NativeTable`].
pub struct NativeTableView {
    pub name: Seq<char>,
    pub uri: Seq<char>,
    pub read_consistency_interval: Option<u128>,
}

impl View for NativeTable {
    type V = NativeTableView;

    open spec fn view(&self) -> NativeTableView {
        NativeTableView {
            name: self.name@,
            uri: self.uri@,
            read_consistency_interval: self.read_consistency_interval,
        }
    }
}

impl NativeTable {
    /// The table called `name` at `uri`.
    pub fn new(uri: &str, name: &str, read_consistency_interval: Option<u128>) -> (t: NativeTable)
        ensures
            t@ == (NativeTableView { name: name@, uri: uri@, read_consistency_interval }),
    {
        NativeTable {
            name: String::from_str(name),
            uri: String::from_str(uri),
            read_consistency_interval,
        }
    }

    /// The table at `uri`, called by the file stem of `uri`. Fails, as
    /// [`get_table_name`] does, where `uri` has no file stem.
    pub fn at(uri: &str, read_consistency_interval: Option<u128>) -> (r: Result<
        NativeTable,
        Error,
    >)
        ensures
            match spec_table_name(uri@, path_file_stem(uri@)) {
                Ok(name) => r matches Ok(t) && t@ == (NativeTableView {
                    name,
                    uri: uri@,
                    read_consistency_interval,
                }),
                Err(e) => r matches Err(got) && got@ == e,
            },
    {
        match get_table_name(uri) {
            Ok(name) => Ok(
                NativeTable { name, uri: String::from_str(uri), read_consistency_interval },
            ),
            Err(e) => Err(e),
        }
    }

    /// The name of the table.
    pub fn name(&self) -> (name: &str)
        ensures
            name@ == self.name@,
    {
        self.name.as_str()
    }
}

/// What an update asks of the dataset: in every row that the predicate
/// holds of, or in every row where there is no predicate, each of the
/// columns named is set to the value of its expression.
#[derive(Clone, Debug, PartialEq, Eq)]
pub struct UpdateRequest {
    pub predicate: Option<String>,
    /// Pairs of a column and the expression for its new value.
    pub updates: Vec<(String, String)>,
}

/// The mathematical value of an [`UpdateRequest`].
pub struct UpdateRequestView {
    pub predicate: Option<Seq<char>>,
    pub updates: Seq<(Seq<char>, Seq<char>)>,
}

impl View for UpdateRequest {
    type V = UpdateRequestView;

    open spec fn view(&self) -> UpdateRequestView {
        UpdateRequestView { predicate: text_of(self.predicate), updates: self.updates.deep_view() }
    }
}

impl UpdateRequestView {
    /// Whether the update changes a row; `holds` says whether the predicate
    /// holds of the row, where there is one.
    pub open spec fn changes_row(self, holds: bool) -> bool {
        self.predicate is None || holds
    }
}

impl UpdateRequest {
    /// Whether the update changes a row; `holds` says whether the predicate
    /// holds of the row, where there is one.
    pub fn changes_row(&self, holds: bool) -> (b: bool)
        ensures
            b == self@.changes_row(holds),
    {
        self.predicate.is_none() || holds
    }
}

/// An update with a predicate changes exactly the rows that the predicate
/// holds of, and leaves the others as they are; one without a predicate
/// changes every row.
pub proof fn lemma_update_changes_where_the_predicate_holds(request: UpdateRequestView, holds: bool)
    ensures
        request.predicate is Some ==> request.changes_row(holds) == holds,
        request.predicate is None ==> request.changes_row(holds),
{
}

impl NativeTable {
    /// What updating the table asks of the dataset: the predicate and the
    /// pairs of a column and an expression, as they are given.
    pub fn update(&self, predicate: Option<&str>, updates: Vec<(&str, &str)>) -> (r: UpdateRequest)
        ensures
            r@ == (UpdateRequestView {
                predicate: match predicate {
                    Some(p) => Some(p@),
                    None => None,
                },
                updates: Seq::new(updates@.len(), |i: int| (updates@[i].0@, updates@[i].1@)),
            }),
    {
        let mut pairs: Vec<(String, String)> = Vec::new();
        let mut i: usize = 0;
        while i < updates.len()
            invariant
                i <= updates@.len(),
                pairs@.len() == i,
                forall|j: int|
                    0 <= j < i ==> (#[trigger] pairs@[j]).0@ == updates@[j].0@ && pairs@[j].1@
                        == updates@[j].1@,
            decreases updates@.len() - i,
        {
            let column = String::from_str(updates[i].0);
            let value = String::from_str(updates[i].1);
            pairs.push((column, value));
            i += 1;
        }
        proof {
            assert(pairs.deep_view() =~= Seq::new(
                updates@.len(),
                |i: int| (updates@[i].0@, updates@[i].1@),
            ));
        }
        let predicate = match predicate {
            Some(p) => Some(String::from_str(p)),
            None => None,
        };
        UpdateRequest { predicate, updates: pairs }
    }
}

/// A table: a collection of rows of one schema, in a database on local or
/// object storage or behind a remote service.
#[derive(Clone, Debug, PartialEq, Eq)]
pub enum Table<C> {
    Native(NativeTable),
    Remote(RemoteTable<C>),
}

impl<C> Table<C> {
    /// The name of the table.
    pub open spec fn spec_name(&self) -> Seq<char> {
        match self {
            Table::Native(table) => table.name@,
            Table::Remote(table) => table.name@,
        }
    }

    /// This table as a [`NativeTable`], or `None` if it is not one.
    pub fn as_native(&self) -> (r: Option<&NativeTable>)
        ensures
            r == (match self {
                Table::Native(table) => Some(table),
                Table::Remote(_) => None,
            }),
    {
        match self {
            Table::Native(table) => Some(table),
            Table::Remote(_) => None,
        }
    }

    /// Get the name of the table.
    pub fn name(&self) -> (name: &str)
        ensures
            name@ == self.spec_name(),
    {
        match self {
            Table::Native(table) => table.name(),
            Table::Remote(table) => table.name(),
        }
    }

    /// Insert new records into this table: a builder that appends `batches`
    /// with default options.
    pub fn add<D, P>(&self, batches: D) -> (r: AddDataBuilder<D, P>)
        ensures
            r.data == batches,
            r.mode == AddDataMode::Append,
            r.write_options.lance_write_params is None,
    {
        AddDataBuilder::new(batches)
    }

    /// Create an index: a builder that names no column and replaces an
    /// index that exists.
    pub fn create_index(&self) -> (r: IndexBuilder)
        ensures
            r@.columns is None,
            r@.replace,
    {
        IndexBuilder::new()
    }

    /// Create a builder for a merge insert operation, which adds, updates
    /// and removes rows in one step.
    ///
    /// The new data is joined with the table on the columns `on`: a key or
    /// an id. The builder says what happens to the rows that are in both,
    /// in the new data only and in the table only; as it is handed out it
    /// changes nothing.
    pub fn merge_insert(&self, on: &[&str]) -> (r: MergeInsertBuilder)
        ensures
            r@ == (MergeInsertView {
                on: Seq::new(on@.len(), |i: int| on@[i]@),
                when_matched: None,
                when_not_matched: false,
                when_not_matched_by_source: None,
            }),
    {
        let mut names: Vec<String> = Vec::new();
        let mut i: usize = 0;
        while i < on.len()
            invariant
                i <= on@.len(),
                names@.len() == i,
                forall|j: int| 0 <= j < i ==> (#[trigger] names@[j])@ == on@[j]@,
            decreases on@.len() - i,
        {
            names.push(String::from_str(on[i]));
            i += 1;
        }
        proof {
            assert(names.deep_view() =~= Seq::new(on@.len(), |i: int| on@[i]@));
        }
        MergeInsertBuilder::new(names)
    }

    /// Search the table with a given query vector, whose items are given by
    /// their bit patterns.
    pub fn search(&self, query: &[u32]) -> (r: Query)
        ensures
            r@ == (QueryView { query_vector: Some(query@), ..new_query() }),
    {
        self.query().nearest_to(query)
    }

    /// Create a generic query: a scan of every row and column.
    pub fn query(&self) -> (r: Query)
        ensures
            r@ == new_query(),
    {
        Query::new()
    }
}

} // verus!
