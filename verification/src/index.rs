//! Index builders: which column an index goes on, with which parameters, and
//! the defaults that are inferred where the caller names none.

use vstd::prelude::*;
use vstd::string::StringExecFns;
use crate::error::{view_result, Error, ErrorView};
use crate::index::vector::{check_replace, has_index_on, views, VectorIndex, VectorIndexView};
use crate::schema::{
    first_named, lemma_no_vector_column, lemma_one_vector_column, lemma_two_vector_columns,
    lemma_vector_columns, quoted_names, spec_supported_btree_data_type,
    supported_btree_data_type, vector_columns, write_quoted_names, Field, FieldView, Schema,
};
use crate::text::same_text;

pub mod vector;

verus! {

/// The distance between two vectors that an index is trained and searched with.
#[derive(Clone, Copy, Debug, PartialEq, Eq, Structural)]
pub enum DistanceType {
    L2,
    Cosine,
    Dot,
}

/// The number of bits of one product quantization code.
pub const NUM_BITS: u32 = 8;

/// The sample rate of a builder that was given none.
pub const DEFAULT_SAMPLE_RATE: u32 = 256;

/// The number of k-means iterations of a builder that was given none.
pub const DEFAULT_MAX_ITERATIONS: u32 = 50;

/// Whether `root` is the integer part of the square root of `n`.
pub open spec fn is_floor_sqrt(n: nat, root: nat) -> bool {
    root * root <= n < (root + 1) * (root + 1)
}

/// A number has one integer square root.
pub proof fn lemma_floor_sqrt_unique(n: nat, a: nat, b: nat)
    requires
        is_floor_sqrt(n, a),
        is_floor_sqrt(n, b),
    ensures
        a == b,
{
    if a < b {
        assert((a + 1) * (a + 1) <= b * b) by (nonlinear_arith)
            requires
                a + 1 <= b,
        ;
    } else if b < a {
        assert((b + 1) * (b + 1) <= a * a) by (nonlinear_arith)
            requires
                b + 1 <= a,
        ;
    }
}

/// The number of partitions for a table of `rows` rows where the caller names
/// none.
pub open spec fn spec_suggested_num_partitions(rows: nat) -> nat {
    if rows == 0 {
        1
    } else {
        choose|root: nat| is_floor_sqrt(rows, root)
    }
}

/// The number of partitions for a table of `rows` rows where the caller names
/// none: the integer part of the square root of `rows`, and at least one.
pub fn suggested_num_partitions(rows: usize) -> (n: u32)
    ensures
        n >= 1,
        rows == 0 ==> n == 1,
        rows >= 1 ==> is_floor_sqrt(rows as nat, n as nat),
        n == spec_suggested_num_partitions(rows as nat),
{
    let target: u64 = rows as u64;
    let mut lo: u64 = 0;
    let mut hi: u64 = 0x1_0000_0000;
    assert(0x1_0000_0000 * 0x1_0000_0000 > u64::MAX) by (nonlinear_arith);
    while hi - lo > 1
        invariant
            lo < hi <= 0x1_0000_0000,
            lo * lo <= target,
            target < hi * hi,
        decreases hi - lo,
    {
        let mid: u64 = lo + (hi - lo) / 2;
        assert(mid * mid <= 0xFFFF_FFFF * 0xFFFF_FFFF) by (nonlinear_arith)
            requires
                0 <= mid <= 0xFFFF_FFFF,
        ;
        if mid * mid <= target {
            lo = mid;
        } else {
            hi = mid;
        }
    }
    if lo == 0 {
        assert(target < 1) by (nonlinear_arith)
            requires
                target < hi * hi,
                hi == 1,
        ;
        1
    } else {
        assert(1 <= lo * lo) by (nonlinear_arith)
            requires
                1 <= lo,
        ;
        proof {
            assert(is_floor_sqrt(rows as nat, lo as nat));
            lemma_floor_sqrt_unique(
                rows as nat,
                lo as nat,
                spec_suggested_num_partitions(rows as nat),
            );
        }
        lo as u32
    }
}

/// The number of sub-vectors for vectors of `dim` items where the caller
/// names none.
pub open spec fn spec_suggested_num_sub_vectors(dim: u32) -> u32 {
    if dim % 16 == 0 {
        dim / 16
    } else if dim % 8 == 0 {
        dim / 8
    } else {
        1
    }
}

/// Whether vectors of `dim` items split into sub-vectors of 8 or 16 items, which
/// is what product quantization is fast on.
pub open spec fn spec_sub_vectors_aligned(dim: u32) -> bool {
    dim % 8 == 0
}

/// The number of sub-vectors for vectors of `dim` items where the caller
/// names none: sixteen items to a sub-vector where that divides `dim`, else
/// eight, else the whole vector as one sub-vector.
#[verifier::when_used_as_spec(spec_suggested_num_sub_vectors)]
pub fn suggested_num_sub_vectors(dim: u32) -> (n: u32)
    ensures
        n == spec_suggested_num_sub_vectors(dim),
{
    if dim % 16 == 0 {
        dim / 16
    } else if dim % 8 == 0 {
        dim / 8
    } else {
        1
    }
}

/// Whether vectors of `dim` items split into sub-vectors of 8 or 16 items. Where
/// they do not, [`suggested_num_sub_vectors`] answers 1 and the caller should
/// warn that the index will be slow.
#[verifier::when_used_as_spec(spec_sub_vectors_aligned)]
pub fn sub_vectors_aligned(dim: u32) -> (b: bool)
    ensures
        b == spec_sub_vectors_aligned(dim),
{
    dim % 8 == 0
}

/// Where the items of a vector do not split into eights, one sub-vector is
/// suggested; where they do, the suggested sub-vectors have 16 or 8 items
/// each.
pub proof fn lemma_suggested_sub_vectors_divide(dim: u32)
    ensures
        !spec_sub_vectors_aligned(dim) ==> spec_suggested_num_sub_vectors(dim) == 1,
        spec_sub_vectors_aligned(dim) ==> spec_suggested_num_sub_vectors(dim) * 8 == dim
            || spec_suggested_num_sub_vectors(dim) * 16 == dim,
{
}

/// The parameters that an index is built with.
#[derive(Clone, Copy, Debug, PartialEq, Eq, Structural)]
pub enum IndexParams {
    Scalar { replace: bool },
    IvfPq {
        replace: bool,
        distance_type: DistanceType,
        num_partitions: u64,
        num_sub_vectors: u32,
        num_bits: u32,
        sample_rate: u32,
        max_iterations: u32,
    },
}

impl IndexParams {
    /// Whether an index that exists on the column is replaced.
    pub open spec fn spec_replace(self) -> bool {
        match self {
            IndexParams::Scalar { replace } => replace,
            IndexParams::IvfPq { replace, .. } => replace,
        }
    }

    /// Whether an index that exists on the column is replaced.
    #[verifier::when_used_as_spec(spec_replace)]
    pub fn replace(self) -> (b: bool)
        ensures
            b == self.spec_replace(),
    {
        match self {
            IndexParams::Scalar { replace } => replace,
            IndexParams::IvfPq { replace, .. } => replace,
        }
    }
}

/// What is handed to the dataset to build one index.
#[derive(Clone, Debug, PartialEq, Eq)]
pub struct IndexRequest {
    pub column: String,
    pub params: IndexParams,
}

/// The mathematical value of an [`IndexRequest`].
pub struct IndexRequestView {
    pub column: Seq<char>,
    pub params: IndexParams,
}

impl View for IndexRequest {
    type V = IndexRequestView;

    open spec fn view(&self) -> IndexRequestView {
        IndexRequestView { column: self.column@, params: self.params }
    }
}

/// Builder for creating some kind of index.
///
/// The methods on this builder say which column to index and which kind of
/// index to build, and hand out the builder of that kind.
#[derive(Clone, Debug, PartialEq, Eq)]
pub struct IndexBuilder {
    pub columns: Option<Vec<String>>,
    pub replace: bool,
}

/// The mathematical value of an [`IndexBuilder`].
pub struct IndexBuilderView {
    pub columns: Option<Seq<Seq<char>>>,
    pub replace: bool,
}

impl View for IndexBuilder {
    type V = IndexBuilderView;

    open spec fn view(&self) -> IndexBuilderView {
        IndexBuilderView { columns: self.columns.deep_view(), replace: self.replace }
    }
}

/// Builder for creating some kind of vector index.
#[derive(Clone, Debug, PartialEq, Eq)]
pub struct VectorIndexBuilder {
    pub common: IndexBuilder,
}

/// Builder for creating some kind of scalar index.
#[derive(Clone, Debug, PartialEq, Eq)]
pub struct ScalarIndexBuilder {
    pub common: IndexBuilder,
}

/// Builder for creating a btree index.
#[derive(Clone, Debug, PartialEq, Eq)]
pub struct BTreeIndexBuilder {
    pub common: IndexBuilder,
}

/// Builder for creating an IVF PQ index.
#[derive(Clone, Debug, PartialEq, Eq)]
pub struct IvfPqIndexBuilder {
    pub common: IndexBuilder,
    pub distance_type: DistanceType,
    pub num_partitions: Option<u32>,
    pub num_sub_vectors: Option<u32>,
    pub sample_rate: u32,
    pub max_iterations: u32,
}

/// The mathematical value of an [`IvfPqIndexBuilder`].
pub struct IvfPqIndexBuilderView {
    pub common: IndexBuilderView,
    pub distance_type: DistanceType,
    pub num_partitions: Option<u32>,
    pub num_sub_vectors: Option<u32>,
    pub sample_rate: u32,
    pub max_iterations: u32,
}

impl View for IvfPqIndexBuilder {
    type V = IvfPqIndexBuilderView;

    open spec fn view(&self) -> IvfPqIndexBuilderView {
        IvfPqIndexBuilderView {
            common: self.common@,
            distance_type: self.distance_type,
            num_partitions: self.num_partitions,
            num_sub_vectors: self.num_sub_vectors,
            sample_rate: self.sample_rate,
            max_iterations: self.max_iterations,
        }
    }
}

impl IndexBuilder {
    /// A builder that names no column and replaces an index that exists.
    pub fn new() -> (r: IndexBuilder)
        ensures
            r@ == (IndexBuilderView { columns: None, replace: true }),
    {
        IndexBuilder { columns: None, replace: true }
    }

    /// The column to index.
    ///
    /// When building a scalar index this must be set.
    ///
    /// When building a vector index, this is optional. The default is the
    /// one column that is a fixed size list of floating point values; where
    /// there is none or more than one, building fails.
    pub fn column(self, column: &str) -> (r: IndexBuilder)
        ensures
            r@ == (IndexBuilderView { columns: Some(seq![column@]), replace: self.replace }),
    {
        let mut columns: Vec<String> = Vec::new();
        columns.push(String::from_str(column));
        proof {
            assert(columns.deep_view() =~= seq![column@]);
        }
        IndexBuilder { columns: Some(columns), replace: self.replace }
    }

    /// Whether to replace the existing index, the default is `true`.
    ///
    /// If this is false, and another index already exists on the same
    /// column, then building fails. This is true even if that index is out of
    /// date.
    pub fn replace(self, v: bool) -> (r: IndexBuilder)
        ensures
            r@ == (IndexBuilderView { columns: self@.columns, replace: v }),
    {
        IndexBuilder { columns: self.columns, replace: v }
    }

    /// Sets the column and the replacement rule that are given, and keeps
    /// the others as they are.
    pub fn with_options(self, column: Option<&str>, replace: Option<bool>) -> (r: IndexBuilder)
        ensures
            r@.columns == (match column {
                Some(c) => Some(seq![c@]),
                None => self@.columns,
            }),
            r@.replace == (match replace {
                Some(v) => v,
                None => self.replace,
            }),
    {
        let named = match column {
            Some(c) => self.column(c),
            None => self,
        };
        match replace {
            Some(v) => named.replace(v),
            None => named,
        }
    }

    /// Create a scalar index.
    ///
    /// Scalar indices are exact indices that are used to quickly satisfy a
    /// variety of filters against a column of scalar values.
    pub fn scalar(self) -> (r: ScalarIndexBuilder)
        ensures
            r.common@ == self@,
    {
        ScalarIndexBuilder { common: self }
    }

    /// Create a vector index.
    ///
    /// Vector indices are approximate indices that are used to find rows
    /// similar to a query vector. They are only supported on columns of fixed
    /// size lists of floating point values.
    pub fn vector(self) -> (r: VectorIndexBuilder)
        ensures
            r.common@ == self@,
    {
        VectorIndexBuilder { common: self }
    }
}

impl Default for IndexBuilder {
    fn default() -> (r: IndexBuilder)
        ensures
            r@ == (IndexBuilderView { columns: None, replace: true }),
    {
        IndexBuilder::new()
    }
}

impl ScalarIndexBuilder {
    /// Create a btree index.
    ///
    /// A btree index keeps a copy of the column in sorted order, and one
    /// header entry for each block of rows. It has no parameters.
    pub fn btree(self) -> (r: BTreeIndexBuilder)
        ensures
            r.common@ == self.common@,
    {
        BTreeIndexBuilder { common: self.common }
    }
}

impl VectorIndexBuilder {
    /// Create an IVF PQ index, with the default of every parameter.
    ///
    /// The vectors are grouped into partitions of similar vectors, and in
    /// each partition stored compressed: divided into sub-vectors, each of
    /// which is quantized into a few bits.
    pub fn ivf_pq(self) -> (r: IvfPqIndexBuilder)
        ensures
            r@ == (IvfPqIndexBuilderView {
                common: self.common@,
                distance_type: DistanceType::L2,
                num_partitions: None,
                num_sub_vectors: None,
                sample_rate: DEFAULT_SAMPLE_RATE,
                max_iterations: DEFAULT_MAX_ITERATIONS,
            }),
    {
        IvfPqIndexBuilder {
            common: self.common,
            distance_type: DistanceType::L2,
            num_partitions: None,
            num_sub_vectors: None,
            sample_rate: DEFAULT_SAMPLE_RATE,
            max_iterations: DEFAULT_MAX_ITERATIONS,
        }
    }
}

impl IvfPqIndexBuilder {
    /// The distance to train the index with. The default is
    /// [`DistanceType::L2`].
    ///
    /// The distance used to train an index must be the one used to search
    /// it, or the results are inaccurate.
    pub fn distance_type(self, distance_type: DistanceType) -> (r: IvfPqIndexBuilder)
        ensures
            r@ == (IvfPqIndexBuilderView { distance_type, ..self@ }),
    {
        let mut r = self;
        r.distance_type = distance_type;
        r
    }

    /// The number of partitions to create. The default is the square root
    /// of the number of rows.
    pub fn num_partitions(self, num_partitions: u32) -> (r: IvfPqIndexBuilder)
        ensures
            r@ == (IvfPqIndexBuilderView { num_partitions: Some(num_partitions), ..self@ }),
    {
        let mut r = self;
        r.num_partitions = Some(num_partitions);
        r
    }

    /// The number of sub-vectors that each vector is divided into. The
    /// default is the dimension divided by 16, or by 8 where 16 does not
    /// divide it, or 1 where neither does.
    pub fn num_sub_vectors(self, num_sub_vectors: u32) -> (r: IvfPqIndexBuilder)
        ensures
            r@ == (IvfPqIndexBuilderView { num_sub_vectors: Some(num_sub_vectors), ..self@ }),
    {
        let mut r = self;
        r.num_sub_vectors = Some(num_sub_vectors);
        r
    }

    /// The rate used to calculate the number of training vectors: the index
    /// is trained on `sample_rate` vectors for each partition. The default is
    /// 256.
    pub fn sample_rate(self, sample_rate: u32) -> (r: IvfPqIndexBuilder)
        ensures
            r@ == (IvfPqIndexBuilderView { sample_rate, ..self@ }),
    {
        let mut r = self;
        r.sample_rate = sample_rate;
        r
    }

    /// The most iterations that training runs for. The default is 50.
    pub fn max_iterations(self, max_iterations: u32) -> (r: IvfPqIndexBuilder)
        ensures
            r@ == (IvfPqIndexBuilderView { max_iterations, ..self@ }),
    {
        let mut r = self;
        r.max_iterations = max_iterations;
        r
    }

    /// Whether the number of rows of the table is needed to fill in the
    /// parameters: it is where no number of partitions was given.
    pub fn needs_row_count(&self) -> (b: bool)
        ensures
            b == (self.num_partitions is None),
    {
        self.num_partitions.is_none()
    }
}

/// What parsing the name of a distance answers.
pub open spec fn spec_parse_distance_type(name: Seq<char>) -> Result<DistanceType, ErrorView> {
    if name == "l2"@ {
        Ok(DistanceType::L2)
    } else if name == "cosine"@ {
        Ok(DistanceType::Cosine)
    } else if name == "dot"@ {
        Ok(DistanceType::Dot)
    } else {
        Err(
            ErrorView::InvalidInput {
                message: "Invalid distance type '"@ + name
                    + "'.  Must be one of l2, cosine, or dot"@,
            },
        )
    }
}

/// The distance called `name`: one of `l2`, `cosine` and `dot`.
pub fn parse_distance_type(name: &str) -> (r: Result<DistanceType, Error>)
    ensures
        match r {
            Ok(d) => spec_parse_distance_type(name@) == Ok::<DistanceType, ErrorView>(d),
            Err(e) => spec_parse_distance_type(name@) == Err::<DistanceType, ErrorView>(e@),
        },
{
    if same_text(name, "l2") {
        Ok(DistanceType::L2)
    } else if same_text(name, "cosine") {
        Ok(DistanceType::Cosine)
    } else if same_text(name, "dot") {
        Ok(DistanceType::Dot)
    } else {
        Err(
            Error::InvalidInput {
                message: String::from_str("Invalid distance type '").concat(name).concat(
                    "'.  Must be one of l2, cosine, or dot",
                ),
            },
        )
    }
}

/// The failure of a request that names more or fewer than one column.
pub open spec fn one_column_only() -> ErrorView {
    ErrorView::Schema { message: "Only one column is supported for index"@ }
}

/// The positions of all the columns of a schema of `n` columns.
pub open spec fn all_positions(n: nat) -> Seq<int> {
    Seq::new(n, |i: int| i)
}

/// The failure of a request that names a column which the schema lacks.
pub open spec fn no_such_field(fields: Seq<FieldView>, name: Seq<char>) -> ErrorView {
    ErrorView::Lance {
        message: "No column is called \""@ + name + "\". The columns of the table are: ["@
            + quoted_names(fields, all_positions(fields.len())) + "]"@,
    }
}

/// The position of the column that the names `columns` select: there is to
/// be one name, and the schema is to have a column of that name.
pub open spec fn spec_named_column(fields: Seq<FieldView>, columns: Seq<Seq<char>>) -> Result<
    int,
    ErrorView,
> {
    if columns.len() != 1 {
        Err(one_column_only())
    } else {
        match first_named(fields, columns[0]) {
            Some(i) => Ok(i),
            None => Err(no_such_field(fields, columns[0])),
        }
    }
}

/// The position of the column that a vector index goes on: the one that is
/// named, else the one vector column of the schema.
pub open spec fn spec_vector_index_column(
    fields: Seq<FieldView>,
    columns: Option<Seq<Seq<char>>>,
) -> Result<int, ErrorView> {
    match columns {
        Some(names) => spec_named_column(fields, names),
        None => {
            let found = vector_columns(fields, None::<int>);
            if found.len() == 0 {
                Err(ErrorView::Schema { message: "No vector columns found in the schema"@ })
            } else if found.len() > 1 {
                Err(
                    ErrorView::Schema {
                        message:
                            "Multiple vector columns found in the schema, please specify the column to index"@,
                    },
                )
            } else {
                Ok(found[0])
            }
        },
    }
}

/// The position of the column that a scalar index goes on: it must be named,
/// and of a type that can be ordered.
pub open spec fn spec_scalar_index_column(
    fields: Seq<FieldView>,
    columns: Option<Seq<Seq<char>>>,
) -> Result<int, ErrorView> {
    match columns {
        None => Err(
            ErrorView::InvalidInput {
                message: "When building a btree index the column must be specified"@,
            },
        ),
        Some(names) => match spec_named_column(fields, names) {
            Err(e) => Err(e),
            Ok(i) => if spec_supported_btree_data_type(fields[i].data_type) {
                Ok(i)
            } else {
                Err(
                    ErrorView::Schema {
                        message: "Column '"@ + fields[i].name + "' has type "@
                            + fields[i].data_type.spec_label()
                            + " which is not a supported type for BTree index"@,
                    },
                )
            },
        },
    }
}

/// The size of a fixed size list, read as an unsigned number of 32 bits. No
/// column of a dataset has a size below zero; such a size is read as its
/// two's complement.
pub open spec fn spec_list_items(size: i32) -> u32 {
    if size >= 0 {
        size as u32
    } else {
        (size + 0x1_0000_0000) as u32
    }
}

/// The size of a fixed size list, read as an unsigned number of 32 bits.
#[verifier::when_used_as_spec(spec_list_items)]
pub fn list_items(size: i32) -> (n: u32)
    ensures
        n == spec_list_items(size),
{
    if size >= 0 {
        size as u32
    } else {
        let wrapped: i64 = size as i64 + 0x1_0000_0000;
        wrapped as u32
    }
}

/// The number of sub-vectors of an index on `field`: the number given, else
/// the one suggested for the number of items in the column's lists.
pub open spec fn spec_num_sub_vectors(field: FieldView, given: Option<u32>) -> Result<
    u32,
    ErrorView,
> {
    match given {
        Some(n) => Ok(n),
        None => match field.data_type.spec_list_size() {
            Some(size) => Ok(spec_suggested_num_sub_vectors(spec_list_items(size))),
            None => Err(
                ErrorView::Schema {
                    message: "Column '"@ + field.name + "' is not a FixedSizeList"@,
                },
            ),
        },
    }
}

/// The parameters of the IVF PQ index that `index` describes, on the column
/// `field` of a table of `rows` rows.
pub open spec fn spec_ivf_pq_params(
    index: IvfPqIndexBuilderView,
    field: FieldView,
    rows: nat,
) -> Result<IndexParams, ErrorView> {
    match spec_num_sub_vectors(field, index.num_sub_vectors) {
        Err(e) => Err(e),
        Ok(num_sub_vectors) => Ok(
            IndexParams::IvfPq {
                replace: index.common.replace,
                distance_type: index.distance_type,
                num_partitions: match index.num_partitions {
                    Some(n) => n as u64,
                    None => spec_suggested_num_partitions(rows) as u64,
                },
                num_sub_vectors,
                num_bits: NUM_BITS,
                sample_rate: index.sample_rate,
                max_iterations: index.max_iterations,
            },
        ),
    }
}

/// The request for the IVF PQ index that `index` describes, on a table of
/// the columns `fields` and of `rows` rows.
pub open spec fn spec_ivf_pq_request(
    fields: Seq<FieldView>,
    rows: nat,
    index: IvfPqIndexBuilderView,
) -> Result<IndexRequestView, ErrorView> {
    match spec_vector_index_column(fields, index.common.columns) {
        Err(e) => Err(e),
        Ok(i) => match spec_ivf_pq_params(index, fields[i], rows) {
            Err(e) => Err(e),
            Ok(params) => Ok(IndexRequestView { column: fields[i].name, params }),
        },
    }
}

/// The request for the btree index that `index` describes, on a table of
/// the columns `fields`.
pub open spec fn spec_btree_request(
    fields: Seq<FieldView>,
    index: IndexBuilderView,
) -> Result<IndexRequestView, ErrorView> {
    match spec_scalar_index_column(fields, index.columns) {
        Err(e) => Err(e),
        Ok(i) => Ok(
            IndexRequestView {
                column: fields[i].name,
                params: IndexParams::Scalar { replace: index.replace },
            },
        ),
    }
}

/// What becomes of a request on a table that has the indices `indices`: it
/// fails where the table has an index on the same column and the request
/// does not allow replacing it.
pub open spec fn spec_unless_exists(
    request: Result<IndexRequestView, ErrorView>,
    indices: Seq<VectorIndexView>,
) -> Result<IndexRequestView, ErrorView> {
    match request {
        Err(e) => Err(e),
        Ok(r) => if !r.params.spec_replace() && has_index_on(indices, r.column) {
            Err(ErrorView::IndexAlreadyExists)
        } else {
            Ok(r)
        },
    }
}

/// What building the IVF PQ index that `index` describes asks of the
/// dataset, on a table of the columns `fields`, of `rows` rows and with
/// the indices `indices`.
pub open spec fn spec_create_ivf_pq_index(
    fields: Seq<FieldView>,
    rows: nat,
    indices: Seq<VectorIndexView>,
    index: IvfPqIndexBuilderView,
) -> Result<IndexRequestView, ErrorView> {
    spec_unless_exists(spec_ivf_pq_request(fields, rows, index), indices)
}

/// What building the btree index that `index` describes asks of the
/// dataset, on a table of the columns `fields` and with the indices
/// `indices`.
pub open spec fn spec_create_btree_index(
    fields: Seq<FieldView>,
    indices: Seq<VectorIndexView>,
    index: IndexBuilderView,
) -> Result<IndexRequestView, ErrorView> {
    spec_unless_exists(spec_btree_request(fields, index), indices)
}

/// Where a schema has no vector column, or more than one, a vector index
/// that names no column fails with a schema error.
pub proof fn lemma_inference_needs_one_vector_column(
    fields: Seq<FieldView>,
    rows: nat,
    indices: Seq<VectorIndexView>,
    index: IvfPqIndexBuilderView,
)
    requires
        index.common.columns is None,
        (forall|i: int|
            0 <= i < fields.len() ==> !(#[trigger] fields[i]).data_type.spec_is_vector(
                None::<int>,
            )) || (exists|i: int, j: int|
            0 <= i < j < fields.len() && (#[trigger] fields[i]).data_type.spec_is_vector(
                None::<int>,
            ) && (#[trigger] fields[j]).data_type.spec_is_vector(None::<int>)),
    ensures
        spec_create_ivf_pq_index(fields, rows, indices, index) matches Err(
            ErrorView::Schema { .. },
        ),
{
    if forall|i: int|
        0 <= i < fields.len() ==> !(#[trigger] fields[i]).data_type.spec_is_vector(None::<int>) {
        lemma_no_vector_column(fields, None::<int>);
    } else {
        let (i, j) = choose|i: int, j: int|
            0 <= i < j < fields.len() && (#[trigger] fields[i]).data_type.spec_is_vector(
                None::<int>,
            ) && (#[trigger] fields[j]).data_type.spec_is_vector(None::<int>);
        lemma_two_vector_columns(fields, None::<int>, i, j);
    }
}

/// Where exactly one column of a schema is a vector column, a vector index
/// that names no column goes on that column. The request succeeds where
/// the index may replace one that exists, which is the default, or the
/// column has none; else it fails because the index exists already.
pub proof fn lemma_inference_picks_the_vector_column(
    fields: Seq<FieldView>,
    rows: nat,
    indices: Seq<VectorIndexView>,
    index: IvfPqIndexBuilderView,
    i: int,
)
    requires
        index.common.columns is None,
        0 <= i < fields.len(),
        fields[i].data_type.spec_is_vector(None::<int>),
        forall|j: int|
            0 <= j < fields.len() && j != i ==> !(#[trigger] fields[j]).data_type.spec_is_vector(
                None::<int>,
            ),
    ensures
        spec_vector_index_column(fields, index.common.columns) == Ok::<int, ErrorView>(i),
        index.common.replace || !has_index_on(indices, fields[i].name) ==> (
        spec_create_ivf_pq_index(fields, rows, indices, index) matches Ok(request)
            && request.column == fields[i].name),
        !index.common.replace && has_index_on(indices, fields[i].name)
            ==> spec_create_ivf_pq_index(fields, rows, indices, index) == Err::<
            IndexRequestView,
            ErrorView,
        >(ErrorView::IndexAlreadyExists),
{
    lemma_one_vector_column(fields, None::<int>, i);
}

/// Whether `r` is the position or the failure that `expected` states.
pub open spec fn is_position(r: Result<usize, Error>, expected: Result<int, ErrorView>) -> bool {
    match r {
        Ok(i) => expected == Ok::<int, ErrorView>(i as int),
        Err(e) => expected == Err::<int, ErrorView>(e@),
    }
}

fn named_column(schema: &Schema, columns: &Vec<String>) -> (r: Result<usize, Error>)
    ensures
        is_position(r, spec_named_column(schema@, columns.deep_view())),
        r matches Ok(i) ==> i < schema@.len(),
{
    if columns.len() != 1 {
        return Err(
            Error::Schema { message: String::from_str("Only one column is supported for index") },
        );
    }
    let name = columns[0].as_str();
    assert(columns.deep_view()[0] == name@);
    match schema.index_of(name) {
        Some(i) => Ok(i),
        None => {
            let mut positions: Vec<usize> = Vec::new();
            let mut k: usize = 0;
            while k < schema.len()
                invariant
                    k <= schema@.len(),
                    positions@.len() == k,
                    forall|j: int| 0 <= j < k ==> positions@[j] == j,
                decreases schema@.len() - k,
            {
                positions.push(k);
                k += 1;
            }
            proof {
                assert(positions@.map_values(|p: usize| p as int) =~= all_positions(
                    schema@.len(),
                ));
            }
            let valid = write_quoted_names(schema, &positions);
            let message = String::from_str("No column is called \"").concat(name).concat(
                "\". The columns of the table are: [",
            ).concat(valid.as_str()).concat("]");
            Err(Error::Lance { message })
        },
    }
}

/// The position of the column that the vector index of `common` goes on: the
/// one that is named, else the one column of `schema` that is a fixed size
/// list of floating point values.
///
/// Fails with [`Error::Schema`] where more or fewer than one column is named,
/// and where none is named and the schema has no vector column or several; with
/// [`Error::Lance`] where the schema lacks the column that is named.
pub fn vector_index_column(schema: &Schema, common: &IndexBuilder) -> (r: Result<usize, Error>)
    ensures
        is_position(r, spec_vector_index_column(schema@, common@.columns)),
        r matches Ok(i) ==> i < schema@.len(),
{
    match &common.columns {
        Some(columns) => named_column(schema, columns),
        None => {
            let found = schema.find_vector_columns(None);
            proof {
                lemma_vector_columns(schema@, None::<int>);
            }
            if found.len() == 0 {
                Err(
                    Error::Schema {
                        message: String::from_str("No vector columns found in the schema"),
                    },
                )
            } else if found.len() > 1 {
                Err(
                    Error::Schema {
                        message: String::from_str(
                            "Multiple vector columns found in the schema, please specify the column to index",
                        ),
                    },
                )
            } else {
                Ok(found[0])
            }
        },
    }
}

/// The position of the column that the scalar index of `common` goes on.
///
/// Fails with [`Error::InvalidInput`] where no column is named; with
/// [`Error::Schema`] where more or fewer than one is named, and where the
/// column's type is none that a btree index supports; with [`Error::Lance`]
/// where the schema lacks the column.
pub fn scalar_index_column(schema: &Schema, common: &IndexBuilder) -> (r: Result<usize, Error>)
    ensures
        is_position(r, spec_scalar_index_column(schema@, common@.columns)),
        r matches Ok(i) ==> i < schema@.len(),
{
    match &common.columns {
        None => Err(
            Error::InvalidInput {
                message: String::from_str(
                    "When building a btree index the column must be specified",
                ),
            },
        ),
        Some(columns) => match named_column(schema, columns) {
            Err(e) => Err(e),
            Ok(i) => {
                let field = schema.field(i);
                if supported_btree_data_type(&field.data_type) {
                    Ok(i)
                } else {
                    let message = String::from_str("Column '").concat(field.name.as_str()).concat(
                        "' has type ",
                    ).concat(field.data_type.label().as_str()).concat(
                        " which is not a supported type for BTree index",
                    );
                    Err(Error::Schema { message })
                }
            },
        },
    }
}

/// The parameters of the IVF PQ index that `index` describes, on the column
/// `field` of a table of `num_rows` rows. What `index` leaves open is filled
/// in: the number of partitions from the number of rows, the number of
/// sub-vectors from the number of items in the column's lists.
///
/// Fails with [`Error::Schema`] where the number of sub-vectors is open and
/// the column is no fixed size list.
pub fn ivf_pq_params(index: &IvfPqIndexBuilder, field: &Field, num_rows: usize) -> (r: Result<
    IndexParams,
    Error,
>)
    ensures
        match r {
            Ok(params) => spec_ivf_pq_params(index@, field@, num_rows as nat) == Ok::<
                IndexParams,
                ErrorView,
            >(params),
            Err(e) => spec_ivf_pq_params(index@, field@, num_rows as nat) == Err::<
                IndexParams,
                ErrorView,
            >(e@),
        },
{
    let num_partitions: u32 = match index.num_partitions {
        Some(n) => n,
        None => suggested_num_partitions(num_rows),
    };
    let num_sub_vectors: u32 = match index.num_sub_vectors {
        Some(n) => n,
        None => {
            match field.data_type.list_size() {
                Some(size) => suggested_num_sub_vectors(list_items(size)),
                None => {
                    return Err(
                        Error::Schema {
                            message: String::from_str("Column '").concat(
                                field.name.as_str(),
                            ).concat("' is not a FixedSizeList"),
                        },
                    );
                },
            }
        },
    };
    Ok(
        IndexParams::IvfPq {
            replace: index.common.replace,
            distance_type: index.distance_type,
            num_partitions: num_partitions as u64,
            num_sub_vectors,
            num_bits: NUM_BITS,
            sample_rate: index.sample_rate,
            max_iterations: index.max_iterations,
        },
    )
}

/// The request for the IVF PQ index that `index` describes, on a table of
/// the columns of `schema` and of `num_rows` rows: the column, as
/// [`vector_index_column`] picks it, and the parameters, as
/// [`ivf_pq_params`] fills them in.
pub fn ivf_pq_request(schema: &Schema, num_rows: usize, index: &IvfPqIndexBuilder) -> (r: Result<
    IndexRequest,
    Error,
>)
    ensures
        view_result(r) == spec_ivf_pq_request(schema@, num_rows as nat, index@),
{
    let position = match vector_index_column(schema, &index.common) {
        Ok(i) => i,
        Err(e) => {
            return Err(e);
        },
    };
    let field = schema.field(position);
    match ivf_pq_params(index, field, num_rows) {
        Ok(params) => Ok(IndexRequest { column: field.name.clone(), params }),
        Err(e) => Err(e),
    }
}

/// The request for the btree index that `index` describes, on a table of
/// the columns of `schema`: the column, as [`scalar_index_column`] accepts
/// it.
pub fn btree_request(schema: &Schema, index: &BTreeIndexBuilder) -> (r: Result<
    IndexRequest,
    Error,
>)
    ensures
        view_result(r) == spec_btree_request(schema@, index.common@),
{
    match scalar_index_column(schema, &index.common) {
        Ok(i) => Ok(
            IndexRequest {
                column: schema.field(i).name.clone(),
                params: IndexParams::Scalar { replace: index.common.replace },
            },
        ),
        Err(e) => Err(e),
    }
}

/// What building the IVF PQ index that `index` describes asks of the
/// dataset, on a table of the columns of `schema`, of `num_rows` rows and
/// with the indices `indices`: the request that [`ivf_pq_request`] makes.
///
/// Fails as [`ivf_pq_request`] does, and with [`Error::IndexAlreadyExists`]
/// where the table has an index on the column and `index` does not allow
/// replacing it.
pub fn create_ivf_pq_index(
    schema: &Schema,
    num_rows: usize,
    indices: &Vec<VectorIndex>,
    index: &IvfPqIndexBuilder,
) -> (r: Result<IndexRequest, Error>)
    ensures
        view_result(r) == spec_create_ivf_pq_index(
            schema@,
            num_rows as nat,
            views(indices@),
            index@,
        ),
{
    let request = match ivf_pq_request(schema, num_rows, index) {
        Ok(request) => request,
        Err(e) => {
            return Err(e);
        },
    };
    match check_replace(indices, &request) {
        Ok(()) => Ok(request),
        Err(e) => Err(e),
    }
}

/// What building the btree index that `index` describes asks of the
/// dataset, on a table of the columns of `schema` and with the indices
/// `indices`: the request that [`btree_request`] makes.
///
/// Fails as [`btree_request`] does, and with [`Error::IndexAlreadyExists`]
/// where the table has an index on the column and `index` does not allow
/// replacing it.
pub fn create_btree_index(
    schema: &Schema,
    indices: &Vec<VectorIndex>,
    index: &BTreeIndexBuilder,
) -> (r: Result<IndexRequest, Error>)
    ensures
        view_result(r) == spec_create_btree_index(schema@, views(indices@), index.common@),
{
    let request = match btree_request(schema, index) {
        Ok(request) => request,
        Err(e) => {
            return Err(e);
        },
    };
    match check_replace(indices, &request) {
        Ok(()) => Ok(request),
        Err(e) => Err(e),
    }
}

} // verus!
