use lancedb::binding::{BuilderWrapper, IndexBuilder, Table};
use lancedb::error::Error;
use lancedb::index::DistanceType;
use lancedb::table::{AddDataBuilder, AddDataMode};

fn consumed(name: &str) -> Error {
    Error::InvalidInput { message: format!("Builder {} has already been consumed", name) }
}

#[test]
fn a_closed_table_keeps_its_name() {
    let mut table = Table::new("test".to_string(), 42);
    assert!(table.is_open());
    assert_eq!(table.name(), "test");
    assert_eq!(table.inner_ref(), Ok(&42));
    assert_eq!(table.closed_repr(), None);
    table.close();
    assert!(!table.is_open());
    assert_eq!(table.name(), "test");
    assert_eq!(
        table.inner_ref(),
        Err(Error::InvalidInput { message: "Table test is closed".to_string() })
    );
    assert_eq!(table.closed_repr(), Some("ClosedTable(test)".to_string()));
    table.close();
    assert!(!table.is_open());
}

#[test]
fn a_builder_is_used_once() {
    let mut wrapper = BuilderWrapper::new("IndexBuilder", 7);
    assert_eq!(wrapper.consume(), Ok(7));
    assert_eq!(wrapper.consume(), Err(consumed("IndexBuilder")));
    assert_eq!(wrapper.consume(), Err(consumed("IndexBuilder")));
}

#[test]
fn an_index_builder_hands_out_one_kind_of_index() {
    let mut root = IndexBuilder::new(lancedb::index::IndexBuilder::new().column("v"));
    let mut scalar = root.scalar().unwrap();
    assert_eq!(root.vector().unwrap_err(), consumed("IndexBuilder"));
    assert_eq!(root.scalar().unwrap_err(), consumed("IndexBuilder"));
    let btree = scalar.btree().unwrap();
    assert_eq!(btree.common.columns, Some(vec!["v".to_string()]));
    assert!(btree.common.replace);
    assert_eq!(scalar.btree().unwrap_err(), consumed("ScalarIndexBuilder"));
}

#[test]
fn a_vector_index_takes_the_parameters_that_are_given() {
    let table = Table::new("t".to_string(), ());
    let mut vector = table.create_index(Some("vector"), Some(false)).unwrap().vector().unwrap();
    let ivf_pq = vector.ivf_pq(Some("cosine"), Some(256), None, Some(9), None).unwrap();
    assert_eq!(ivf_pq.common.columns, Some(vec!["vector".to_string()]));
    assert!(!ivf_pq.common.replace);
    assert_eq!(ivf_pq.distance_type, DistanceType::Cosine);
    assert_eq!(ivf_pq.num_partitions, Some(256));
    assert_eq!(ivf_pq.num_sub_vectors, None);
    assert_eq!(ivf_pq.max_iterations, 9);
    assert_eq!(ivf_pq.sample_rate, 256);
    assert_eq!(
        vector.ivf_pq(None, None, None, None, None).unwrap_err(),
        consumed("VectorIndexBuilder")
    );
}

#[test]
fn a_vector_index_has_defaults() {
    let table = Table::new("t".to_string(), ());
    let mut vector = table.create_index(None, None).unwrap().vector().unwrap();
    let ivf_pq = vector.ivf_pq(None, None, None, None, None).unwrap();
    assert_eq!(ivf_pq, lancedb::index::IndexBuilder::new().vector().ivf_pq());
    let mut other = table.create_index(None, None).unwrap().vector().unwrap();
    let set = other.ivf_pq(Some("dot"), Some(4), Some(2), Some(9), Some(64)).unwrap();
    assert_eq!(set.distance_type, DistanceType::Dot);
    assert_eq!(set.num_partitions, Some(4));
    assert_eq!(set.num_sub_vectors, Some(2));
    assert_eq!(set.max_iterations, 9);
    assert_eq!(set.sample_rate, 64);
}

#[test]
fn an_unknown_distance_uses_the_builder_up() {
    let table = Table::new("t".to_string(), ());
    let mut vector = table.create_index(None, None).unwrap().vector().unwrap();
    assert_eq!(
        vector.ivf_pq(Some("manhattan"), None, None, None, None).unwrap_err(),
        Error::InvalidInput {
            message: "Invalid distance type 'manhattan'.  Must be one of l2, cosine, or dot"
                .to_string()
        }
    );
    assert_eq!(
        vector.ivf_pq(Some("l2"), None, None, None, None).unwrap_err(),
        consumed("VectorIndexBuilder")
    );
}

#[test]
fn rows_are_added_in_the_mode_that_is_named() {
    let table = Table::new("t".to_string(), ());
    let append: AddDataBuilder<Vec<i32>, ()> = table.add(vec![1], "append").unwrap();
    assert_eq!(append.mode, AddDataMode::Append);
    assert_eq!(append.data, vec![1]);
    let overwrite: AddDataBuilder<Vec<i32>, ()> = table.add(vec![2], "overwrite").unwrap();
    assert_eq!(overwrite.mode, AddDataMode::Overwrite);
    let invalid: Result<AddDataBuilder<Vec<i32>, ()>, Error> = table.add(vec![3], "upsert");
    assert_eq!(invalid, Err(Error::InvalidInput { message: "Invalid mode: upsert".to_string() }));
}

#[test]
fn a_closed_table_hands_out_nothing() {
    let mut table = Table::new("gone".to_string(), ());
    table.close();
    let closed = Error::InvalidInput { message: "Table gone is closed".to_string() };
    let added: Result<AddDataBuilder<Vec<i32>, ()>, Error> = table.add(vec![1], "append");
    assert_eq!(added, Err(closed.clone()));
    let also: Result<AddDataBuilder<Vec<i32>, ()>, Error> = table.add(vec![1], "upsert");
    assert_eq!(also, Err(closed.clone()));
    assert_eq!(table.create_index(Some("v"), None).unwrap_err(), closed);
}
