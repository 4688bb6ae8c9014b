use mysql_dialect::batch::{
    convert_column, query, ColumnArray, ColumnHeader, ColumnarBatch, Field, RowMaterializer, Title,
};
use mysql_dialect::catalog::{group_columns, ColumnRow, Metadata};
use mysql_dialect::error::{DialectError, ROW_SHAPE};
use mysql_dialect::logical::{LogicalType, NativeColumnType};
use mysql_dialect::value::{CanonicalValue, FloatCell};

fn bytes(text: &str) -> CanonicalValue {
    CanonicalValue::Bytes(text.as_bytes().to_vec())
}

fn column(name: &str, column_type: NativeColumnType) -> ColumnHeader {
    ColumnHeader { name: name.to_string(), column_type }
}

fn listing(rows: &[(&str, &str, &str, &str)]) -> Vec<ColumnRow> {
    rows.iter()
        .map(|r| ColumnRow {
            table_schema: r.0.to_string(),
            table_name: r.1.to_string(),
            column_name: r.2.to_string(),
            column_type: r.3.to_string(),
        })
        .collect()
}

fn pairs(columns: &[(&str, &str)]) -> Vec<(String, String)> {
    columns.iter().map(|c| (c.0.to_string(), c.1.to_string())).collect()
}

fn assert_consistent(batch: &ColumnarBatch) {
    assert_eq!(batch.schema.len(), batch.arrays.len());
    assert_eq!(batch.arrays.len(), batch.titles.len());
    for (field, array) in batch.schema.iter().zip(batch.arrays.iter()) {
        assert_eq!(array.len(), batch.total);
        assert_eq!(array.data_type(), field.data_type);
    }
}

#[test]
fn test_query() {
    let header = vec![column("id", NativeColumnType::MYSQL_TYPE_LONGLONG)];
    let rows = vec![vec![bytes("1")], vec![bytes("2")]];
    let batch = query(header, rows, "select id from t").unwrap();
    assert_eq!(batch.total, 2);
    assert_eq!(batch.arrays, vec![ColumnArray::Integer64(vec![Some(1), Some(2)])]);
    assert_eq!(batch.sql, "select id from t");
}

#[test]
fn batch_keeps_values_and_nulls_in_place() {
    let header = vec![
        column("id", NativeColumnType::MYSQL_TYPE_LONG),
        column("name", NativeColumnType::MYSQL_TYPE_VAR_STRING),
    ];
    let rows = vec![
        vec![bytes("1"), bytes("ada")],
        vec![CanonicalValue::Null, bytes("grace")],
        vec![bytes("3"), CanonicalValue::Null],
    ];
    let batch = query(header, rows, "select id, name from people").unwrap();
    assert_eq!(
        batch.arrays,
        vec![
            ColumnArray::Integer64(vec![Some(1), None, Some(3)]),
            ColumnArray::Text(vec![Some("ada".to_string()), Some("grace".to_string()), None]),
        ]
    );
    assert_eq!(batch.total, 3);
    assert_consistent(&batch);
}

#[test]
fn batch_announces_its_columns() {
    let header = vec![
        column("id", NativeColumnType::MYSQL_TYPE_LONG),
        column("price", NativeColumnType::MYSQL_TYPE_NEWDECIMAL),
        column("name", NativeColumnType::MYSQL_TYPE_VAR_STRING),
        column("doc", NativeColumnType::MYSQL_TYPE_JSON),
    ];
    let batch = query(header, Vec::new(), "select * from items").unwrap();
    assert_eq!(
        batch.schema,
        vec![
            Field { name: "id".to_string(), data_type: LogicalType::Integer64, nullable: true },
            Field { name: "price".to_string(), data_type: LogicalType::Float64, nullable: true },
            Field { name: "name".to_string(), data_type: LogicalType::Text, nullable: true },
            Field { name: "doc".to_string(), data_type: LogicalType::Binary, nullable: true },
        ]
    );
    assert_eq!(
        batch.titles,
        vec![
            Title { name: "id".to_string(), type_label: "LONG".to_string() },
            Title { name: "price".to_string(), type_label: "NEWDECIMAL".to_string() },
            Title { name: "name".to_string(), type_label: "VAR_STRING".to_string() },
            Title { name: "doc".to_string(), type_label: "JSON".to_string() },
        ]
    );
    assert_eq!(
        batch.arrays,
        vec![
            ColumnArray::Integer64(Vec::new()),
            ColumnArray::Float64(Vec::new()),
            ColumnArray::Text(Vec::new()),
            ColumnArray::Binary(Vec::new()),
        ]
    );
    assert_eq!(batch.total, 0);
    assert_eq!(batch.num_rows(), 0);
    assert_eq!(batch.num_columns(), 4);
    assert_consistent(&batch);
}

#[test]
fn batch_of_every_logical_type() {
    let header = vec![
        column("n", NativeColumnType::MYSQL_TYPE_TINY),
        column("x", NativeColumnType::MYSQL_TYPE_DOUBLE),
        column("s", NativeColumnType::MYSQL_TYPE_BLOB),
        column("t", NativeColumnType::MYSQL_TYPE_TIMESTAMP),
    ];
    let half = 0.5f64.to_bits();
    let rows = vec![
        vec![CanonicalValue::SignedInt(1), CanonicalValue::Float64(half), bytes("a"), bytes("b")],
        vec![
            CanonicalValue::UnsignedInt(2),
            bytes("1e3"),
            CanonicalValue::Bytes(vec![0xff]),
            CanonicalValue::SignedInt(5),
        ],
    ];
    let batch = query(header, rows, "q").unwrap();
    assert_eq!(
        batch.arrays,
        vec![
            ColumnArray::Integer64(vec![Some(1), Some(2)]),
            ColumnArray::Float64(vec![
                Some(FloatCell::Double(half)),
                Some(FloatCell::Text(b"1e3".to_vec())),
            ]),
            ColumnArray::Text(vec![Some("a".to_string()), None]),
            ColumnArray::Binary(vec![Some("b".to_string()), None]),
        ]
    );
    assert_consistent(&batch);
}

#[test]
fn batch_without_columns() {
    let batch = query(Vec::new(), Vec::new(), "do 1").unwrap();
    assert!(batch.schema.is_empty());
    assert!(batch.arrays.is_empty());
    assert!(batch.titles.is_empty());
    assert_eq!(batch.total, 0);
    let counted = query(Vec::new(), vec![Vec::new(), Vec::new()], "do 1").unwrap();
    assert_eq!(counted.total, 2);
    assert_consistent(&counted);
}

#[test]
fn short_row_fails_the_query() {
    let header = vec![
        column("a", NativeColumnType::MYSQL_TYPE_LONG),
        column("b", NativeColumnType::MYSQL_TYPE_LONG),
    ];
    let rows = vec![vec![bytes("1"), bytes("2")], vec![bytes("3")]];
    assert_eq!(
        query(header, rows, "call p()"),
        Err(DialectError::QueryExecution {
            sql: "call p()".to_string(),
            message: ROW_SHAPE.to_string(),
        })
    );
}

#[test]
fn long_row_fails_the_query() {
    let header = vec![column("a", NativeColumnType::MYSQL_TYPE_LONG)];
    let rows = vec![vec![bytes("1"), bytes("2")]];
    let failure = query(header, rows, "call p()").unwrap_err();
    assert!(matches!(failure, DialectError::QueryExecution { .. }));
    assert_eq!(failure.describe(), "a row does not hold one value per column: call p()");
}

#[test]
fn materializer_takes_rows_one_by_one() {
    let header = vec![
        column("a", NativeColumnType::MYSQL_TYPE_LONG),
        column("b", NativeColumnType::MYSQL_TYPE_STRING),
    ];
    let mut m = RowMaterializer::new(header, "select a, b from t");
    assert_eq!(m.width(), 2);
    assert_eq!(m.row_count(), 0);
    assert_eq!(m.push_row(vec![bytes("1"), bytes("x")]), Ok(()));
    assert_eq!(m.push_row(vec![bytes("2"), bytes("y")]), Ok(()));
    assert_eq!(m.row_count(), 2);
    let batch = m.finish();
    assert_eq!(
        batch.arrays,
        vec![
            ColumnArray::Integer64(vec![Some(1), Some(2)]),
            ColumnArray::Text(vec![Some("x".to_string()), Some("y".to_string())]),
        ]
    );
    assert_eq!(batch.total, 2);
    assert_eq!(batch.sql, "select a, b from t");
}

#[test]
fn materializer_leaves_out_a_row_of_wrong_width() {
    let header = vec![
        column("a", NativeColumnType::MYSQL_TYPE_LONG),
        column("b", NativeColumnType::MYSQL_TYPE_LONG),
    ];
    let mut m = RowMaterializer::new(header, "q");
    let refused = Err(DialectError::QueryExecution {
        sql: "q".to_string(),
        message: ROW_SHAPE.to_string(),
    });
    assert_eq!(m.push_row(vec![bytes("1"), bytes("2")]), Ok(()));
    assert_eq!(m.push_row(vec![bytes("3")]), refused);
    assert_eq!(m.push_row(vec![bytes("3"), bytes("4"), bytes("5")]), refused);
    assert_eq!(m.push_row(Vec::new()), refused);
    assert_eq!(m.row_count(), 1);
    assert_eq!(m.push_row(vec![bytes("6"), bytes("7")]), Ok(()));
    let batch = m.finish();
    assert_eq!(
        batch.arrays,
        vec![
            ColumnArray::Integer64(vec![Some(1), Some(6)]),
            ColumnArray::Integer64(vec![Some(2), Some(7)]),
        ]
    );
    assert_consistent(&batch);
}

#[test]
fn convert_column_follows_the_logical_type() {
    let cells = vec![bytes("10"), CanonicalValue::Null];
    assert_eq!(
        convert_column(LogicalType::Integer64, &cells),
        ColumnArray::Integer64(vec![Some(10), None])
    );
    assert_eq!(
        convert_column(LogicalType::Float64, &cells),
        ColumnArray::Float64(vec![Some(FloatCell::Text(b"10".to_vec())), None])
    );
    assert_eq!(
        convert_column(LogicalType::Text, &cells),
        ColumnArray::Text(vec![Some("10".to_string()), None])
    );
    assert_eq!(
        convert_column(LogicalType::Binary, &cells),
        ColumnArray::Binary(vec![Some("10".to_string()), None])
    );
}

#[test]
fn columns_are_grouped_by_table() {
    let rows = listing(&[
        ("db1", "t1", "a", "int"),
        ("db1", "t1", "b", "text"),
        ("db1", "t2", "c", "int"),
    ]);
    let groups = group_columns(rows);
    assert_eq!(groups.len(), 2);
    let t1 = groups.iter().find(|m| m.database == "db1" && m.table == "t1").unwrap();
    let t2 = groups.iter().find(|m| m.database == "db1" && m.table == "t2").unwrap();
    assert_eq!(t1.columns, pairs(&[("a", "int"), ("b", "text")]));
    assert_eq!(t2.columns, pairs(&[("c", "int")]));
}

#[test]
fn groups_stand_in_order_of_first_occurrence() {
    let rows = listing(&[
        ("db2", "t", "x", "int"),
        ("db1", "t", "y", "int"),
        ("db2", "t", "z", "text"),
        ("db1", "u", "w", "date"),
        ("db1", "t", "v", "int"),
    ]);
    assert_eq!(
        group_columns(rows),
        vec![
            Metadata {
                database: "db2".to_string(),
                table: "t".to_string(),
                columns: pairs(&[("x", "int"), ("z", "text")]),
            },
            Metadata {
                database: "db1".to_string(),
                table: "t".to_string(),
                columns: pairs(&[("y", "int"), ("v", "int")]),
            },
            Metadata {
                database: "db1".to_string(),
                table: "u".to_string(),
                columns: pairs(&[("w", "date")]),
            },
        ]
    );
}

#[test]
fn tables_of_one_name_in_two_schemas_are_kept_apart() {
    let rows = listing(&[("a", "t", "x", "int"), ("b", "t", "x", "int"), ("a", "u", "x", "int")]);
    let groups = group_columns(rows);
    assert_eq!(groups.len(), 3);
    for m in groups.iter() {
        assert_eq!(m.columns, pairs(&[("x", "int")]));
    }
}

#[test]
fn grouping_of_no_rows_is_empty() {
    assert!(group_columns(Vec::new()).is_empty());
}
