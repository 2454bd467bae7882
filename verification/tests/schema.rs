use arrow_schema::DataType as ArrowType;
use arrow_schema::Field as ArrowField;
use arrow_schema::TimeUnit as ArrowUnit;
use lancedb::error::Error;
use lancedb::schema::{
    default_vector_column, supported_btree_data_type, DataType, Field, Schema, TimeUnit,
};
use std::sync::Arc;

fn unit(u: &ArrowUnit) -> TimeUnit {
    match u {
        ArrowUnit::Second => TimeUnit::Second,
        ArrowUnit::Millisecond => TimeUnit::Millisecond,
        ArrowUnit::Microsecond => TimeUnit::Microsecond,
        ArrowUnit::Nanosecond => TimeUnit::Nanosecond,
    }
}

fn model(data_type: &ArrowType) -> DataType {
    match data_type {
        ArrowType::Boolean => DataType::Boolean,
        ArrowType::Int8 => DataType::Int8,
        ArrowType::Int16 => DataType::Int16,
        ArrowType::Int32 => DataType::Int32,
        ArrowType::Int64 => DataType::Int64,
        ArrowType::UInt8 => DataType::UInt8,
        ArrowType::UInt16 => DataType::UInt16,
        ArrowType::UInt32 => DataType::UInt32,
        ArrowType::UInt64 => DataType::UInt64,
        ArrowType::Float16 => DataType::Float16,
        ArrowType::Float32 => DataType::Float32,
        ArrowType::Float64 => DataType::Float64,
        ArrowType::Timestamp(u, _) => DataType::Timestamp(unit(u)),
        ArrowType::Date32 => DataType::Date32,
        ArrowType::Date64 => DataType::Date64,
        ArrowType::Time32(u) => DataType::Time32(unit(u)),
        ArrowType::Time64(u) => DataType::Time64(unit(u)),
        ArrowType::Utf8 => DataType::Utf8,
        ArrowType::LargeUtf8 => DataType::LargeUtf8,
        ArrowType::FixedSizeList(item, size) => {
            DataType::FixedSizeList(Box::new(model(item.data_type())), *size)
        }
        other => DataType::Other(other.to_string()),
    }
}

fn arrow_list(item: ArrowType, size: i32) -> ArrowType {
    ArrowType::FixedSizeList(Arc::new(ArrowField::new("item", item, true)), size)
}

fn arrow_types() -> Vec<ArrowType> {
    vec![
        ArrowType::Null,
        ArrowType::Boolean,
        ArrowType::Int8,
        ArrowType::Int16,
        ArrowType::Int32,
        ArrowType::Int64,
        ArrowType::UInt8,
        ArrowType::UInt16,
        ArrowType::UInt32,
        ArrowType::UInt64,
        ArrowType::Float16,
        ArrowType::Float32,
        ArrowType::Float64,
        ArrowType::Timestamp(ArrowUnit::Nanosecond, None),
        ArrowType::Timestamp(ArrowUnit::Millisecond, Some("UTC".into())),
        ArrowType::Date32,
        ArrowType::Date64,
        ArrowType::Time32(ArrowUnit::Second),
        ArrowType::Time64(ArrowUnit::Microsecond),
        ArrowType::Duration(ArrowUnit::Second),
        ArrowType::Binary,
        ArrowType::LargeBinary,
        ArrowType::FixedSizeBinary(4),
        ArrowType::Utf8,
        ArrowType::LargeUtf8,
        ArrowType::Decimal128(10, 2),
        ArrowType::Decimal256(20, 4),
        ArrowType::List(Arc::new(ArrowField::new("item", ArrowType::Float32, true))),
        arrow_list(ArrowType::Float32, 2),
        arrow_list(ArrowType::Float64, 2),
        arrow_list(ArrowType::Int32, 2),
    ]
}

#[test]
fn integer_and_floating_types_are_those_of_arrow() {
    for arrow in arrow_types() {
        let own = model(&arrow);
        assert_eq!(own.is_integer(), arrow.is_integer(), "{:?}", arrow);
        assert_eq!(own.is_floating(), arrow.is_floating(), "{:?}", arrow);
    }
}

#[test]
fn vector_types_are_fixed_size_lists_of_floating_items() {
    for arrow in arrow_types() {
        let expected = match &arrow {
            ArrowType::FixedSizeList(item, _) => item.data_type().is_floating(),
            _ => false,
        };
        assert_eq!(model(&arrow).is_vector(None), expected, "{:?}", arrow);
    }
    let vector = model(&arrow_list(ArrowType::Float32, 4));
    assert!(vector.is_vector(Some(4)));
    assert!(!vector.is_vector(Some(5)));
    assert_eq!(vector.list_size(), Some(4));
    assert_eq!(DataType::Int32.list_size(), None);
}

#[test]
fn btree_types_are_the_ordered_scalars() {
    for arrow in arrow_types() {
        let expected = arrow.is_integer()
            || arrow.is_floating()
            || matches!(
                arrow,
                ArrowType::Boolean
                    | ArrowType::Utf8
                    | ArrowType::Time32(_)
                    | ArrowType::Time64(_)
                    | ArrowType::Date32
                    | ArrowType::Date64
                    | ArrowType::Timestamp(_, _)
            );
        assert_eq!(supported_btree_data_type(&model(&arrow)), expected, "{:?}", arrow);
    }
}

#[test]
fn types_have_labels() {
    assert_eq!(DataType::Int32.label(), "Int32");
    assert_eq!(DataType::Timestamp(TimeUnit::Second).label(), "Timestamp(Second)");
    assert_eq!(DataType::Time32(TimeUnit::Millisecond).label(), "Time32(Millisecond)");
    assert_eq!(DataType::Time64(TimeUnit::Nanosecond).label(), "Time64(Nanosecond)");
    assert_eq!(
        DataType::FixedSizeList(Box::new(DataType::Float32), 3).label(),
        "FixedSizeList(Float32, 3)"
    );
    assert_eq!(
        DataType::FixedSizeList(Box::new(DataType::Time32(TimeUnit::Microsecond)), -2).label(),
        "FixedSizeList(Time32(Microsecond), -2)"
    );
    assert_eq!(DataType::Other("Decimal128(10, 2)".to_string()).label(), "Decimal128(10, 2)");
    assert_eq!(model(&ArrowType::Decimal128(10, 2)).label(), ArrowType::Decimal128(10, 2).to_string());
    assert_eq!(model(&ArrowType::LargeBinary).label(), "LargeBinary");
}

#[test]
fn types_and_fields_clone_to_equal_values() {
    let nested = DataType::FixedSizeList(
        Box::new(DataType::FixedSizeList(Box::new(DataType::Float16), 2)),
        3,
    );
    assert_eq!(nested.clone(), nested);
    let field = Field::new("v", nested, true);
    assert_eq!(field.clone(), field);
}

fn vectors(dims: &[(&str, i32)]) -> Schema {
    let mut fields = vec![Field::new("key", DataType::Int32, false)];
    for (name, dim) in dims {
        fields.push(Field::new(name, DataType::FixedSizeList(Box::new(DataType::Float32), *dim), true));
    }
    fields.push(Field::new("uri", DataType::Utf8, true));
    Schema::new(fields)
}

#[test]
fn columns_are_found_by_name() {
    let schema = vectors(&[("vector", 128), ("vector", 4)]);
    assert_eq!(schema.len(), 4);
    assert_eq!(schema.index_of("key"), Some(0));
    assert_eq!(schema.index_of("vector"), Some(1));
    assert_eq!(schema.index_of("uri"), Some(3));
    assert_eq!(schema.index_of("Vector"), None);
    assert_eq!(schema.field(3).name, "uri");
    assert_eq!(schema.find_vector_columns(None), vec![1, 2]);
    assert_eq!(schema.find_vector_columns(Some(4)), vec![2]);
    assert_eq!(schema.find_vector_columns(Some(5)), Vec::<usize>::new());
}

#[test]
fn the_one_vector_column_is_the_default() {
    let schema = vectors(&[("vector", 128)]);
    assert_eq!(default_vector_column(&schema, None), Ok("vector".to_string()));
    assert_eq!(default_vector_column(&schema, Some(128)), Ok("vector".to_string()));
}

#[test]
fn no_vector_column_is_no_default() {
    let expected = Err(Error::Store { message: "No vector column found to create index".to_string() });
    assert_eq!(default_vector_column(&vectors(&[]), None), expected);
    assert_eq!(default_vector_column(&vectors(&[("vector", 128)]), Some(64)), expected);
    assert_eq!(default_vector_column(&Schema::new(vec![]), None), expected);
}

#[test]
fn several_vector_columns_are_no_default() {
    let schema = vectors(&[("a", 8), ("b", 16), ("c", 8)]);
    assert_eq!(
        default_vector_column(&schema, None),
        Err(Error::Store {
            message: "More than one vector columns found, please specify which column to create index: [\"a\", \"b\", \"c\"]".to_string()
        })
    );
    assert_eq!(
        default_vector_column(&schema, Some(8)),
        Err(Error::Store {
            message: "More than one vector columns found, please specify which column to create index: [\"a\", \"c\"]".to_string()
        })
    );
    assert_eq!(default_vector_column(&schema, Some(16)), Ok("b".to_string()));
}
