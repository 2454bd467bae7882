use lancedb::error::Error;
use lancedb::index::IndexBuilder;
use lancedb::query::Query;
use lancedb::remote::table::RemoteTable;
use lancedb::table::merge::MergeInsertBuilder;
use lancedb::table::{
    count_rows, create_error, get_table_name, open_error, parse_add_mode, table_name_from_stem,
    AddDataBuilder, AddDataMode, CountPlan, DatasetError, NativeTable, Table, WriteMode,
    WriteOptions, WriteParamsChoice,
};
use std::path::Path as StdPath;

#[test]
fn test_object_store_path() {
    let p = StdPath::new("s3://bucket/path/to/file");
    let c = p.join("subfile");
    assert_eq!(c.to_str().unwrap(), "s3://bucket/path/to/file/subfile");
    assert_eq!(get_table_name(c.to_str().unwrap()).unwrap(), "subfile");
}

#[test]
fn the_table_name_is_the_file_stem() {
    assert_eq!(get_table_name("/tmp/data/test.lance"), Ok("test".to_string()));
    assert_eq!(get_table_name("s3://bucket/path/my_table.lance"), Ok("my_table".to_string()));
    assert_eq!(get_table_name("memory://foo"), Ok("foo".to_string()));
    assert_eq!(get_table_name("plain"), Ok("plain".to_string()));
    assert_eq!(get_table_name("/tmp/data/archive.tar.gz"), Ok("archive.tar".to_string()));
}

#[test]
fn a_uri_without_a_file_stem_is_an_invalid_name() {
    assert_eq!(get_table_name("/"), Err(Error::InvalidTableName { name: "/".to_string() }));
    assert_eq!(get_table_name(""), Err(Error::InvalidTableName { name: "".to_string() }));
    assert_eq!(get_table_name(".."), Err(Error::InvalidTableName { name: "..".to_string() }));
    assert_eq!(
        get_table_name("/tmp/.."),
        Err(Error::InvalidTableName { name: "/tmp/..".to_string() })
    );
}

#[test]
fn a_table_is_called_by_the_file_stem_of_its_uri() {
    let table = NativeTable::at("/tmp/data/test.lance", Some(7)).unwrap();
    assert_eq!(table, NativeTable::new("/tmp/data/test.lance", "test", Some(7)));
    assert_eq!(
        NativeTable::at("/", None),
        Err(Error::InvalidTableName { name: "/".to_string() })
    );
}

#[test]
fn a_stem_that_is_no_text_is_an_invalid_name() {
    assert_eq!(
        table_name_from_stem("/tmp/x", Some(None)),
        Err(Error::InvalidTableName { name: "/tmp/x".to_string() })
    );
    assert_eq!(
        table_name_from_stem("/tmp/x", None),
        Err(Error::InvalidTableName { name: "/tmp/x".to_string() })
    );
    assert_eq!(table_name_from_stem("/tmp/x", Some(Some("x".to_string()))), Ok("x".to_string()));
}

#[test]
fn opening_a_missing_dataset_finds_no_table() {
    let missing = DatasetError::DatasetNotFound { message: "no manifest".to_string() };
    assert_eq!(open_error("test", missing), Error::TableNotFound { name: "test".to_string() });
    let other = DatasetError::Other { message: "disk on fire".to_string() };
    assert_eq!(open_error("test", other), Error::Lance { message: "disk on fire".to_string() });
    let exists = DatasetError::DatasetAlreadyExists { message: "there".to_string() };
    assert_eq!(open_error("test", exists), Error::Lance { message: "there".to_string() });
}

#[test]
fn creating_over_a_dataset_finds_the_table_there() {
    let exists = DatasetError::DatasetAlreadyExists { message: "there".to_string() };
    assert_eq!(create_error("test", exists), Error::TableAlreadyExists { name: "test".to_string() });
    let missing = DatasetError::DatasetNotFound { message: "no manifest".to_string() };
    assert_eq!(create_error("test", missing), Error::Lance { message: "no manifest".to_string() });
    let other = DatasetError::Other { message: "quota".to_string() };
    assert_eq!(other.clone().into_error(), Error::Lance { message: "quota".to_string() });
    assert_eq!(create_error("test", other), Error::Lance { message: "quota".to_string() });
}

#[test]
fn rows_are_counted_directly_or_through_a_filter() {
    assert_eq!(count_rows(None), CountPlan::Total);
    assert_eq!(count_rows(Some("i >= 5".to_string())), CountPlan::Filtered("i >= 5".to_string()));
}

#[test]
fn counting_and_querying_run_the_same_filter() {
    let filter = "age = 3";
    let schema = lancedb::schema::Schema::new(vec![]);
    let plan = Query::new().filter(filter).plan(&schema).unwrap();
    assert_eq!(count_rows(plan.filter.clone()), CountPlan::Filtered(filter.to_string()));
    assert_eq!(plan.limit, None);
    assert_eq!(plan.nearest, None);
}

#[test]
fn adding_appends_by_default() {
    let table: Table<()> = Table::Native(NativeTable::new("/tmp/test", "test", None));
    let builder: AddDataBuilder<Vec<i32>, ()> = table.add((100..110).collect());
    assert_eq!(builder.mode, AddDataMode::Append);
    assert_eq!(builder.write_options, WriteOptions::default());
    let request = builder.into_request();
    assert_eq!(request.data, (100..110).collect::<Vec<i32>>());
    assert_eq!(request.params, WriteParamsChoice::Default { mode: WriteMode::Append });
    assert_eq!(AddDataMode::default(), AddDataMode::Append);
}

#[test]
fn adding_overwrites_on_request() {
    let builder: AddDataBuilder<Vec<i32>, ()> = AddDataBuilder::new(vec![1, 2]);
    let request = builder.mode(AddDataMode::Overwrite).into_request();
    assert_eq!(request.params, WriteParamsChoice::Default { mode: WriteMode::Overwrite });
    assert_eq!(AddDataMode::Overwrite.write_mode(), WriteMode::Overwrite);
    assert_eq!(AddDataMode::Append.write_mode(), WriteMode::Append);
}

#[test]
fn appending_adds_rows_and_overwriting_replaces_them() {
    assert_eq!(AddDataMode::Append.write_mode().rows_after(10, 10), Some(20));
    assert_eq!(AddDataMode::Overwrite.write_mode().rows_after(10, 10), Some(10));
    assert_eq!(AddDataMode::Append.write_mode().rows_after(0, 1), Some(1));
    assert_eq!(WriteMode::Create.rows_after(0, 512), Some(512));
    assert_eq!(WriteMode::Append.rows_after(usize::MAX, 1), None);
    assert_eq!(WriteMode::Overwrite.rows_after(usize::MAX, 1), Some(1));
}

#[test]
fn explicit_write_parameters_take_precedence_over_the_mode() {
    let builder = AddDataBuilder::new(vec![1, 2])
        .write_options(WriteOptions { lance_write_params: Some("overwrite, 1024 rows") })
        .mode(AddDataMode::Append);
    let request = builder.into_request();
    assert_eq!(request.params, WriteParamsChoice::Explicit("overwrite, 1024 rows"));
    assert_eq!(request.data, vec![1, 2]);
}

#[test]
fn add_modes_are_parsed_by_name() {
    assert_eq!(parse_add_mode("append"), Ok(AddDataMode::Append));
    assert_eq!(parse_add_mode("overwrite"), Ok(AddDataMode::Overwrite));
    assert_eq!(
        parse_add_mode("upsert"),
        Err(Error::InvalidInput { message: "Invalid mode: upsert".to_string() })
    );
}

#[test]
fn a_table_is_native_or_remote() {
    let native: Table<u8> = Table::Native(NativeTable::new("/tmp/db/test.lance", "test", Some(5)));
    assert_eq!(native.name(), "test");
    let inner = native.as_native().unwrap();
    assert_eq!(inner.uri, "/tmp/db/test.lance");
    assert_eq!(inner.name(), "test");
    assert_eq!(inner.read_consistency_interval, Some(5));

    let remote: Table<u8> = Table::Remote(RemoteTable::new(7, "far".to_string()));
    assert_eq!(remote.name(), "far");
    assert_eq!(remote.as_native(), None);
}

#[test]
fn a_table_hands_out_fresh_builders() {
    let table: Table<()> = Table::Native(NativeTable::new("/tmp/db/test.lance", "test", None));
    assert_eq!(table.create_index(), IndexBuilder::new());
    assert_eq!(table.query(), Query::new());
    assert_eq!(
        table.merge_insert(&["i", "j"]),
        MergeInsertBuilder::new(vec!["i".to_string(), "j".to_string()])
    );
}

#[test]
fn an_update_with_a_predicate_changes_the_rows_it_holds_of() {
    let table = NativeTable::new("/tmp/db/my_table.lance", "my_table", Some(0));
    let request = table.update(Some("id > 5"), vec![("name", "'foo'")]);
    assert_eq!(request.predicate, Some("id > 5".to_string()));
    assert_eq!(request.updates, vec![("name".to_string(), "'foo'".to_string())]);
    let letters = ["a", "b", "c", "d", "e", "f", "g", "h", "i", "j"];
    for id in 0..10usize {
        let name = if request.changes_row(id > 5) { "foo" } else { letters[id] };
        if id > 5 {
            assert_eq!(name, "foo");
        } else {
            assert_eq!(name, letters[id]);
        }
    }
}

#[test]
fn an_update_without_a_predicate_changes_every_row() {
    let table = NativeTable::new("/tmp/db/my_table.lance", "my_table", None);
    let request = table.update(None, vec![("string", "'foo'"), ("int32", "1"), ("bool", "true")]);
    assert_eq!(request.predicate, None);
    assert_eq!(
        request.updates,
        vec![
            ("string".to_string(), "'foo'".to_string()),
            ("int32".to_string(), "1".to_string()),
            ("bool".to_string(), "true".to_string())
        ]
    );
    assert!(request.changes_row(true));
    assert!(request.changes_row(false));
}

#[test]
fn a_remote_table_has_a_name() {
    let table = RemoteTable::new((), "orders".to_string());
    assert_eq!(table.name(), "orders");
    assert_eq!(table.describe(), "RemoteTable(orders)");
}

#[test]
fn a_remote_table_refuses_what_it_cannot_do() {
    let table = RemoteTable::new((), "orders".to_string());
    assert_eq!(
        table.not_supported("add"),
        Error::Store { message: "add is not yet supported on remote table orders".to_string() }
    );
}
