//! The column types and schemas that the engine reasons about, and the rules
//! that pick a vector column or accept a column for a scalar index.

use vstd::prelude::*;
use vstd::string::StringExecFns;
use crate::error::{view_result, Error, ErrorView};
use crate::text::{same_text, signed_decimal, signed_decimal_digits};

verus! {

/// The resolution of a temporal column.
#[derive(Clone, Copy, Debug, PartialEq, Eq)]
pub enum TimeUnit {
    Second,
    Millisecond,
    Microsecond,
    Nanosecond,
}

/// The type of a column, as far as the engine looks into it.
#[derive(Debug, PartialEq, Eq)]
pub enum DataType {
    Boolean,
    Int8,
    Int16,
    Int32,
    Int64,
    UInt8,
    UInt16,
    UInt32,
    UInt64,
    Float16,
    Float32,
    Float64,
    Timestamp(TimeUnit),
    Date32,
    Date64,
    Time32(TimeUnit),
    Time64(TimeUnit),
    Utf8,
    LargeUtf8,
    /// A list of exactly `1` items of type `0` in every row.
    FixedSizeList(Box<DataType>, i32),
    /// Any type that the engine does not look into, with the text that the
    /// type is shown as.
    Other(String),
}

impl TimeUnit {
    /// The name of the unit.
    pub open spec fn spec_label(self) -> Seq<char> {
        match self {
            TimeUnit::Second => "Second"@,
            TimeUnit::Millisecond => "Millisecond"@,
            TimeUnit::Microsecond => "Microsecond"@,
            TimeUnit::Nanosecond => "Nanosecond"@,
        }
    }

    /// The name of the unit.
    pub fn label(self) -> (s: &'static str)
        ensures
            s@ == self.spec_label(),
    {
        match self {
            TimeUnit::Second => "Second",
            TimeUnit::Millisecond => "Millisecond",
            TimeUnit::Microsecond => "Microsecond",
            TimeUnit::Nanosecond => "Nanosecond",
        }
    }
}

/// A number of items, where one is asked for, as a mathematical integer.
pub open spec fn spec_dim(dim: Option<i32>) -> Option<int> {
    match dim {
        Some(d) => Some(d as int),
        None => None,
    }
}

impl Clone for DataType {
    fn clone(&self) -> (r: DataType)
        ensures
            r == *self,
        decreases self,
    {
        match self {
            DataType::Boolean => DataType::Boolean,
            DataType::Int8 => DataType::Int8,
            DataType::Int16 => DataType::Int16,
            DataType::Int32 => DataType::Int32,
            DataType::Int64 => DataType::Int64,
            DataType::UInt8 => DataType::UInt8,
            DataType::UInt16 => DataType::UInt16,
            DataType::UInt32 => DataType::UInt32,
            DataType::UInt64 => DataType::UInt64,
            DataType::Float16 => DataType::Float16,
            DataType::Float32 => DataType::Float32,
            DataType::Float64 => DataType::Float64,
            DataType::Timestamp(unit) => DataType::Timestamp(*unit),
            DataType::Date32 => DataType::Date32,
            DataType::Date64 => DataType::Date64,
            DataType::Time32(unit) => DataType::Time32(*unit),
            DataType::Time64(unit) => DataType::Time64(*unit),
            DataType::Utf8 => DataType::Utf8,
            DataType::LargeUtf8 => DataType::LargeUtf8,
            DataType::FixedSizeList(item, size) => {
                let inner: &DataType = item;
                DataType::FixedSizeList(Box::new(inner.clone()), *size)
            },
            DataType::Other(text) => DataType::Other(text.clone()),
        }
    }
}

impl DataType {
    /// Whether this is one of the signed or unsigned integer types.
    pub open spec fn spec_is_integer(&self) -> bool {
        match self {
            DataType::Int8 | DataType::Int16 | DataType::Int32 | DataType::Int64 => true,
            DataType::UInt8 | DataType::UInt16 | DataType::UInt32 | DataType::UInt64 => true,
            _ => false,
        }
    }

    /// Whether this is one of the floating point types.
    pub open spec fn spec_is_floating(&self) -> bool {
        match self {
            DataType::Float16 | DataType::Float32 | DataType::Float64 => true,
            _ => false,
        }
    }

    /// Whether this is a fixed size list of floating point items, the type of
    /// a vector column, and has `dim` items where a `dim` is given.
    pub open spec fn spec_is_vector(&self, dim: Option<int>) -> bool {
        match self {
            DataType::FixedSizeList(item, size) => item.spec_is_floating() && (dim matches Some(
                d,
            ) ==> *size == d),
            _ => false,
        }
    }

    /// The number of items per row of a fixed size list.
    pub open spec fn spec_list_size(&self) -> Option<i32> {
        match self {
            DataType::FixedSizeList(_, size) => Some(*size),
            _ => None,
        }
    }

    /// The text that the type is shown as, with its parameters.
    pub open spec fn spec_label(&self) -> Seq<char>
        decreases self,
    {
        match self {
            DataType::Boolean => "Boolean"@,
            DataType::Int8 => "Int8"@,
            DataType::Int16 => "Int16"@,
            DataType::Int32 => "Int32"@,
            DataType::Int64 => "Int64"@,
            DataType::UInt8 => "UInt8"@,
            DataType::UInt16 => "UInt16"@,
            DataType::UInt32 => "UInt32"@,
            DataType::UInt64 => "UInt64"@,
            DataType::Float16 => "Float16"@,
            DataType::Float32 => "Float32"@,
            DataType::Float64 => "Float64"@,
            DataType::Timestamp(unit) => "Timestamp("@ + unit.spec_label() + ")"@,
            DataType::Date32 => "Date32"@,
            DataType::Date64 => "Date64"@,
            DataType::Time32(unit) => "Time32("@ + unit.spec_label() + ")"@,
            DataType::Time64(unit) => "Time64("@ + unit.spec_label() + ")"@,
            DataType::Utf8 => "Utf8"@,
            DataType::LargeUtf8 => "LargeUtf8"@,
            DataType::FixedSizeList(item, size) => "FixedSizeList("@ + item.spec_label() + ", "@
                + signed_decimal_digits(*size as int) + ")"@,
            DataType::Other(text) => text@,
        }
    }

    /// Whether this is one of the signed or unsigned integer types.
    #[verifier::when_used_as_spec(spec_is_integer)]
    pub fn is_integer(&self) -> (b: bool)
        ensures
            b == self.spec_is_integer(),
    {
        match self {
            DataType::Int8 | DataType::Int16 | DataType::Int32 | DataType::Int64 => true,
            DataType::UInt8 | DataType::UInt16 | DataType::UInt32 | DataType::UInt64 => true,
            _ => false,
        }
    }

    /// Whether this is one of the floating point types.
    #[verifier::when_used_as_spec(spec_is_floating)]
    pub fn is_floating(&self) -> (b: bool)
        ensures
            b == self.spec_is_floating(),
    {
        match self {
            DataType::Float16 | DataType::Float32 | DataType::Float64 => true,
            _ => false,
        }
    }

    /// Whether this is the type of a vector column, with `dim` items where a
    /// `dim` is given.
    pub fn is_vector(&self, dim: Option<i32>) -> (b: bool)
        ensures
            b == self.spec_is_vector(spec_dim(dim)),
    {
        match self {
            DataType::FixedSizeList(item, size) => {
                item.is_floating() && match dim {
                    Some(d) => *size == d,
                    None => true,
                }
            },
            _ => false,
        }
    }

    /// The number of items per row of a fixed size list.
    #[verifier::when_used_as_spec(spec_list_size)]
    pub fn list_size(&self) -> (n: Option<i32>)
        ensures
            n == self.spec_list_size(),
    {
        match self {
            DataType::FixedSizeList(_, size) => Some(*size),
            _ => None,
        }
    }

    /// The text that the type is shown as, with its parameters.
    pub fn label(&self) -> (s: String)
        ensures
            s@ == self.spec_label(),
        decreases self,
    {
        match self {
            DataType::Boolean => String::from_str("Boolean"),
            DataType::Int8 => String::from_str("Int8"),
            DataType::Int16 => String::from_str("Int16"),
            DataType::Int32 => String::from_str("Int32"),
            DataType::Int64 => String::from_str("Int64"),
            DataType::UInt8 => String::from_str("UInt8"),
            DataType::UInt16 => String::from_str("UInt16"),
            DataType::UInt32 => String::from_str("UInt32"),
            DataType::UInt64 => String::from_str("UInt64"),
            DataType::Float16 => String::from_str("Float16"),
            DataType::Float32 => String::from_str("Float32"),
            DataType::Float64 => String::from_str("Float64"),
            DataType::Timestamp(unit) => String::from_str("Timestamp(").concat(
                unit.label(),
            ).concat(")"),
            DataType::Date32 => String::from_str("Date32"),
            DataType::Date64 => String::from_str("Date64"),
            DataType::Time32(unit) => String::from_str("Time32(").concat(unit.label()).concat(")"),
            DataType::Time64(unit) => String::from_str("Time64(").concat(unit.label()).concat(")"),
            DataType::Utf8 => String::from_str("Utf8"),
            DataType::LargeUtf8 => String::from_str("LargeUtf8"),
            DataType::FixedSizeList(item, size) => {
                let inner: &DataType = item;
                let item_label = inner.label();
                let size_label = signed_decimal(*size);
                String::from_str("FixedSizeList(").concat(item_label.as_str()).concat(
                    ", ",
                ).concat(size_label.as_str()).concat(")")
            },
            DataType::Other(text) => text.clone(),
        }
    }
}

/// Whether a scalar index can be built on a column of type `dtype`.
pub open spec fn spec_supported_btree_data_type(dtype: DataType) -> bool {
    dtype.spec_is_integer() || dtype.spec_is_floating() || match dtype {
        DataType::Boolean | DataType::Utf8 => true,
        DataType::Time32(_) | DataType::Time64(_) => true,
        DataType::Date32 | DataType::Date64 => true,
        DataType::Timestamp(_) => true,
        _ => false,
    }
}

/// Whether a scalar index can be built on a column of type `dtype`: on
/// integers, floating point numbers, booleans, strings, dates, times and
/// timestamps.
pub fn supported_btree_data_type(dtype: &DataType) -> (b: bool)
    ensures
        b == spec_supported_btree_data_type(*dtype),
{
    dtype.is_integer() || dtype.is_floating() || match dtype {
        DataType::Boolean | DataType::Utf8 => true,
        DataType::Time32(_) | DataType::Time64(_) => true,
        DataType::Date32 | DataType::Date64 => true,
        DataType::Timestamp(_) => true,
        _ => false,
    }
}

/// A named column of a schema.
#[derive(Debug, PartialEq, Eq)]
pub struct Field {
    pub name: String,
    pub data_type: DataType,
    pub nullable: bool,
}

/// The mathematical value of a [`Field`].
pub struct FieldView {
    pub name: Seq<char>,
    pub data_type: DataType,
    pub nullable: bool,
}

impl View for Field {
    type V = FieldView;

    open spec fn view(&self) -> FieldView {
        FieldView { name: self.name@, data_type: self.data_type, nullable: self.nullable }
    }
}

impl Clone for Field {
    fn clone(&self) -> (r: Field)
        ensures
            r == *self,
    {
        Field {
            name: self.name.clone(),
            data_type: self.data_type.clone(),
            nullable: self.nullable,
        }
    }
}

impl Field {
    /// A column called `name` of type `data_type`.
    pub fn new(name: &str, data_type: DataType, nullable: bool) -> (f: Field)
        ensures
            f@ == (FieldView { name: name@, data_type, nullable }),
    {
        Field { name: String::from_str(name), data_type, nullable }
    }
}

/// The columns of a table, in order.
#[derive(Clone, Debug, PartialEq, Eq)]
pub struct Schema {
    pub fields: Vec<Field>,
}

impl View for Schema {
    type V = Seq<FieldView>;

    open spec fn view(&self) -> Seq<FieldView> {
        Seq::new(self.fields@.len(), |i: int| self.fields@[i]@)
    }
}

/// Whether `i` is the position of the first column called `name`.
pub open spec fn is_first_named(fields: Seq<FieldView>, name: Seq<char>, i: int) -> bool {
    &&& 0 <= i < fields.len()
    &&& fields[i].name == name
    &&& forall|j: int| 0 <= j < i ==> (#[trigger] fields[j]).name != name
}

/// The position of the first column called `name`, if there is one.
pub open spec fn first_named(fields: Seq<FieldView>, name: Seq<char>) -> Option<int> {
    if exists|i: int| is_first_named(fields, name, i) {
        Some(choose|i: int| is_first_named(fields, name, i))
    } else {
        None
    }
}

/// The first column of a name is the only first one.
pub proof fn lemma_first_named(fields: Seq<FieldView>, name: Seq<char>, i: int)
    requires
        is_first_named(fields, name, i),
    ensures
        first_named(fields, name) == Some(i),
{
    let c = choose|c: int| is_first_named(fields, name, c);
    if c < i {
        assert(fields[c].name != name);
    } else if i < c {
        assert(fields[i].name != name);
    }
}

/// Where no column is called `name`, none is the first.
pub proof fn lemma_none_named(fields: Seq<FieldView>, name: Seq<char>)
    requires
        forall|j: int| 0 <= j < fields.len() ==> (#[trigger] fields[j]).name != name,
    ensures
        first_named(fields, name) == None::<int>,
{
}

/// The positions of the vector columns among `fields`, in ascending order:
/// those of fixed size lists of floating point items, with `dim` items where a
/// `dim` is given.
pub open spec fn vector_columns(fields: Seq<FieldView>, dim: Option<int>) -> Seq<int>
    decreases fields.len(),
{
    if fields.len() == 0 {
        Seq::empty()
    } else {
        let rest = vector_columns(fields.drop_last(), dim);
        if fields.last().data_type.spec_is_vector(dim) {
            rest.push(fields.len() - 1)
        } else {
            rest
        }
    }
}

/// The names of the columns at `positions`, each between quotes, with commas
/// between them.
pub open spec fn quoted_names(fields: Seq<FieldView>, positions: Seq<int>) -> Seq<char>
    decreases positions.len(),
{
    if positions.len() == 0 {
        Seq::empty()
    } else if positions.len() == 1 {
        "\""@ + fields[positions[0]].name + "\""@
    } else {
        quoted_names(fields, positions.drop_last()) + ", "@ + "\""@
            + fields[positions.last()].name + "\""@
    }
}

/// What [`default_vector_column`] answers for a schema and a dimension.
pub open spec fn spec_default_vector_column(fields: Seq<FieldView>, dim: Option<int>) -> Result<
    Seq<char>,
    ErrorView,
> {
    let found = vector_columns(fields, dim);
    if found.len() == 0 {
        Err(ErrorView::Store { message: "No vector column found to create index"@ })
    } else if found.len() == 1 {
        Ok(fields[found[0]].name)
    } else {
        Err(
            ErrorView::Store {
                message:
                    "More than one vector columns found, please specify which column to create index: ["@
                    + quoted_names(fields, found) + "]"@,
            },
        )
    }
}

/// `vector_columns` lists exactly the positions of the vector columns, each
/// once and in ascending order.
pub proof fn lemma_vector_columns(fields: Seq<FieldView>, dim: Option<int>)
    ensures
        vector_columns(fields, dim).len() <= fields.len(),
        forall|k: int|
            0 <= k < vector_columns(fields, dim).len() ==> 0 <= #[trigger] vector_columns(
                fields,
                dim,
            )[k] < fields.len() && fields[vector_columns(fields, dim)[k]].data_type.spec_is_vector(
                dim,
            ),
        forall|k: int, l: int|
            0 <= k < l < vector_columns(fields, dim).len() ==> #[trigger] vector_columns(
                fields,
                dim,
            )[k] < #[trigger] vector_columns(fields, dim)[l],
        forall|i: int|
            0 <= i < fields.len() && (#[trigger] fields[i]).data_type.spec_is_vector(dim)
                ==> vector_columns(fields, dim).contains(i),
    decreases fields.len(),
{
    if fields.len() > 0 {
        let front = fields.drop_last();
        lemma_vector_columns(front, dim);
        let rest = vector_columns(front, dim);
        let all = vector_columns(fields, dim);
        assert forall|i: int|
            0 <= i < fields.len() && (#[trigger] fields[i]).data_type.spec_is_vector(
                dim,
            ) implies all.contains(i) by {
            if i < fields.len() - 1 {
                assert(front[i] == fields[i]);
                assert(rest.contains(i));
                let k = choose|k: int| 0 <= k < rest.len() && rest[k] == i;
                assert(all[k] == i);
            } else {
                assert(all[all.len() - 1] == i);
            }
        }
        assert forall|k: int| 0 <= k < all.len() implies 0 <= #[trigger] all[k] < fields.len()
            && fields[all[k]].data_type.spec_is_vector(dim) by {
            if k < rest.len() {
                assert(all[k] == rest[k]);
                assert(front[rest[k]] == fields[rest[k]]);
            }
        }
    }
}

/// Where exactly one column is a vector column, `vector_columns` lists that
/// one alone.
pub proof fn lemma_one_vector_column(fields: Seq<FieldView>, dim: Option<int>, i: int)
    requires
        0 <= i < fields.len(),
        fields[i].data_type.spec_is_vector(dim),
        forall|j: int|
            0 <= j < fields.len() && j != i ==> !(#[trigger] fields[j]).data_type.spec_is_vector(
                dim,
            ),
    ensures
        vector_columns(fields, dim) == seq![i],
{
    let found = vector_columns(fields, dim);
    lemma_vector_columns(fields, dim);
    assert(found.contains(i));
    if found.len() > 1 {
        assert(found[0] < found[1]);
        assert(fields[found[0]].data_type.spec_is_vector(dim));
        assert(fields[found[1]].data_type.spec_is_vector(dim));
    }
    let k = choose|k: int| 0 <= k < found.len() && found[k] == i;
    assert(k == 0);
    assert(found =~= seq![i]);
}

/// Where no column is a vector column, `vector_columns` lists none.
pub proof fn lemma_no_vector_column(fields: Seq<FieldView>, dim: Option<int>)
    requires
        forall|j: int|
            0 <= j < fields.len() ==> !(#[trigger] fields[j]).data_type.spec_is_vector(dim),
    ensures
        vector_columns(fields, dim).len() == 0,
{
    let found = vector_columns(fields, dim);
    lemma_vector_columns(fields, dim);
    if found.len() > 0 {
        assert(fields[found[0]].data_type.spec_is_vector(dim));
    }
}

/// Where two columns are vector columns, `vector_columns` lists more than
/// one.
pub proof fn lemma_two_vector_columns(fields: Seq<FieldView>, dim: Option<int>, i: int, j: int)
    requires
        0 <= i < j < fields.len(),
        fields[i].data_type.spec_is_vector(dim),
        fields[j].data_type.spec_is_vector(dim),
    ensures
        vector_columns(fields, dim).len() > 1,
{
    let found = vector_columns(fields, dim);
    lemma_vector_columns(fields, dim);
    assert(found.contains(i));
    assert(found.contains(j));
    let k = choose|k: int| 0 <= k < found.len() && found[k] == i;
    let l = choose|l: int| 0 <= l < found.len() && found[l] == j;
    assert(k != l);
}

/// The default vector column is the one vector column of the schema: where
/// there is exactly one it is the answer, and where there is none, or more
/// than one, there is no answer but a failure.
pub proof fn lemma_default_vector_column_is_the_only_one(
    fields: Seq<FieldView>,
    dim: Option<int>,
)
    ensures
        forall|i: int|
            (0 <= i < fields.len() && (#[trigger] fields[i]).data_type.spec_is_vector(dim)
                && forall|j: int|
                0 <= j < fields.len() && j != i ==> !(#[trigger] fields[j]).data_type.spec_is_vector(
                    dim,
                )) ==> spec_default_vector_column(fields, dim) == Ok::<Seq<char>, ErrorView>(
                fields[i].name,
            ),
        (forall|j: int|
            0 <= j < fields.len() ==> !(#[trigger] fields[j]).data_type.spec_is_vector(dim))
            ==> spec_default_vector_column(fields, dim) matches Err(ErrorView::Store { .. }),
        (exists|i: int, j: int|
            0 <= i < j < fields.len() && (#[trigger] fields[i]).data_type.spec_is_vector(dim) && (
            #[trigger] fields[j]).data_type.spec_is_vector(dim)) ==> spec_default_vector_column(
            fields,
            dim,
        ) matches Err(ErrorView::Store { .. }),
{
    assert forall|i: int|
        (0 <= i < fields.len() && (#[trigger] fields[i]).data_type.spec_is_vector(dim)
            && forall|j: int|
            0 <= j < fields.len() && j != i ==> !(#[trigger] fields[j]).data_type.spec_is_vector(
                dim,
            )) implies spec_default_vector_column(fields, dim) == Ok::<Seq<char>, ErrorView>(
        fields[i].name,
    ) by {
        lemma_one_vector_column(fields, dim, i);
    }
    if forall|j: int|
        0 <= j < fields.len() ==> !(#[trigger] fields[j]).data_type.spec_is_vector(dim) {
        lemma_no_vector_column(fields, dim);
    }
    if exists|i: int, j: int|
        0 <= i < j < fields.len() && (#[trigger] fields[i]).data_type.spec_is_vector(dim) && (
        #[trigger] fields[j]).data_type.spec_is_vector(dim) {
        let (i, j) = choose|i: int, j: int|
            0 <= i < j < fields.len() && (#[trigger] fields[i]).data_type.spec_is_vector(dim) && (
            #[trigger] fields[j]).data_type.spec_is_vector(dim);
        lemma_two_vector_columns(fields, dim, i, j);
    }
}

impl Schema {
    /// A schema of the given columns.
    pub fn new(fields: Vec<Field>) -> (s: Schema)
        ensures
            s.fields == fields,
    {
        Schema { fields }
    }

    /// The position of the first column called `name`.
    pub fn index_of(&self, name: &str) -> (r: Option<usize>)
        ensures
            match r {
                Some(i) => first_named(self@, name@) == Some(i as int) && is_first_named(
                    self@,
                    name@,
                    i as int,
                ),
                None => first_named(self@, name@) == None::<int> && forall|j: int|
                    0 <= j < self@.len() ==> (#[trigger] self@[j]).name != name@,
            },
    {
        let mut i: usize = 0;
        while i < self.fields.len()
            invariant
                i <= self.fields.len(),
                forall|j: int| 0 <= j < i ==> (#[trigger] self@[j]).name != name@,
            decreases self.fields.len() - i,
        {
            if same_text(self.fields[i].name.as_str(), name) {
                proof {
                    lemma_first_named(self@, name@, i as int);
                }
                return Some(i);
            }
            i += 1;
        }
        proof {
            lemma_none_named(self@, name@);
        }
        None
    }

    /// The number of columns.
    pub fn len(&self) -> (n: usize)
        ensures
            n == self@.len(),
    {
        self.fields.len()
    }

    /// The column at `position`.
    pub fn field(&self, position: usize) -> (f: &Field)
        requires
            position < self@.len(),
        ensures
            f@ == self@[position as int],
    {
        &self.fields[position]
    }

    /// The positions of the vector columns, in ascending order.
    pub fn find_vector_columns(&self, dim: Option<i32>) -> (found: Vec<usize>)
        ensures
            found@.len() == vector_columns(self@, spec_dim(dim)).len(),
            forall|k: int|
                0 <= k < found@.len() ==> found@[k] == vector_columns(self@, spec_dim(dim))[k],
    {
        let mut found: Vec<usize> = Vec::new();
        let mut i: usize = 0;
        while i < self.fields.len()
            invariant
                i <= self.fields.len(),
                found@.len() == vector_columns(self@.take(i as int), spec_dim(dim)).len(),
                forall|k: int|
                    0 <= k < found@.len() ==> found@[k] == vector_columns(
                        self@.take(i as int),
                        spec_dim(dim),
                    )[k],
            decreases self.fields.len() - i,
        {
            proof {
                assert(self@.take(i + 1).drop_last() =~= self@.take(i as int));
                assert(self@.take(i + 1).last() == self@[i as int]);
            }
            if self.fields[i].data_type.is_vector(dim) {
                found.push(i);
            }
            i += 1;
        }
        proof {
            assert(self@.take(i as int) =~= self@);
        }
        found
    }
}

/// Writes the names of the columns at `positions`, each between quotes, with
/// commas between them.
pub fn write_quoted_names(schema: &Schema, positions: &Vec<usize>) -> (out: String)
    requires
        forall|k: int| 0 <= k < positions@.len() ==> positions@[k] < schema@.len(),
    ensures
        out@ == quoted_names(schema@, positions@.map_values(|p: usize| p as int)),
{
    let ghost all = positions@.map_values(|p: usize| p as int);
    let mut out = String::new();
    let mut k: usize = 0;
    while k < positions.len()
        invariant
            k <= positions@.len(),
            all == positions@.map_values(|p: usize| p as int),
            forall|k: int| 0 <= k < positions@.len() ==> positions@[k] < schema@.len(),
            out@ == quoted_names(schema@, all.take(k as int)),
        decreases positions@.len() - k,
    {
        proof {
            assert(all.take(k + 1).drop_last() =~= all.take(k as int));
            assert(all.take(k + 1).last() == positions@[k as int] as int);
            assert(all.take(k + 1)[0] == all[0]);
        }
        let ghost before = out@;
        let name = schema.fields[positions[k]].name.as_str();
        if k > 0 {
            out.append(", ");
        }
        out.append("\"");
        out.append(name);
        out.append("\"");
        proof {
            if k > 0 {
                assert(out@ =~= before + ", "@ + "\""@ + name@ + "\""@);
            } else {
                assert(before =~= Seq::<char>::empty());
                assert(out@ =~= "\""@ + name@ + "\""@);
            }
        }
        k += 1;
    }
    proof {
        assert(all.take(k as int) =~= all);
    }
    out
}

/// The one vector column of `schema`: the one column that is a fixed size list
/// of floating point items, with `dim` items where a `dim` is given. Fails
/// where there is none, or more than one.
pub fn default_vector_column(schema: &Schema, dim: Option<i32>) -> (r: Result<String, Error>)
    ensures
        view_result(r) == spec_default_vector_column(schema@, spec_dim(dim)),
{
    let found = schema.find_vector_columns(dim);
    proof {
        lemma_vector_columns(schema@, spec_dim(dim));
        assert(found@.map_values(|p: usize| p as int) =~= vector_columns(
            schema@,
            spec_dim(dim),
        ));
    }
    if found.len() == 0 {
        Err(Error::Store { message: String::from_str("No vector column found to create index") })
    } else if found.len() == 1 {
        Ok(schema.fields[found[0]].name.clone())
    } else {
        let names = write_quoted_names(schema, &found);
        let message = String::from_str(
            "More than one vector columns found, please specify which column to create index: [",
        ).concat(names.as_str()).concat("]");
        Err(Error::Store { message })
    }
}

} // verus!
