use lance_graph::schema::{Column, ColumnType, GraphSchema};
use lance_graph::source::{SchemaSource, SimpleTableSource};

#[test]
fn empty_source_reports_zero_columns() {
    let source = SimpleTableSource::empty();
    assert_eq!(source.schema().len(), 0);
    assert_eq!(source.schema(), &GraphSchema::empty());
}

#[test]
fn explicit_source_reports_exactly_its_schema() {
    let columns = vec![
        Column { name: "id".to_string(), column_type: ColumnType::Int64, nullable: false },
        Column { name: "name".to_string(), column_type: ColumnType::Utf8, nullable: true },
        Column { name: "active".to_string(), column_type: ColumnType::Boolean, nullable: false },
    ];
    let source = SimpleTableSource::new(GraphSchema::new(columns.clone()));
    let reported = source.schema();
    assert_eq!(reported.len(), 3);
    assert_eq!(reported.column(0), &columns[0]);
    assert_eq!(reported.column(1), &columns[1]);
    assert_eq!(reported.column(2), &columns[2]);
    // Repeated calls report the same schema, unchanged.
    assert_eq!(source.schema(), source.schema());
    assert_eq!(source.schema(), &GraphSchema::new(columns));
}

#[test]
fn schema_preserves_column_order() {
    let columns = vec![
        Column { name: "b".to_string(), column_type: ColumnType::Date32, nullable: true },
        Column { name: "a".to_string(), column_type: ColumnType::Binary, nullable: false },
        Column { name: "c".to_string(), column_type: ColumnType::Int32, nullable: false },
    ];
    let schema = GraphSchema::new(columns);
    assert_eq!(schema.column(0).name, "b");
    assert_eq!(schema.column(1).name, "a");
    assert_eq!(schema.column(2).name, "c");
    assert_eq!(schema.column(2).column_type, ColumnType::Int32);
}

#[test]
fn empty_schema_has_no_columns() {
    let schema = GraphSchema::empty();
    assert_eq!(schema.len(), 0);
    assert_eq!(schema, GraphSchema::new(Vec::new()));
}
