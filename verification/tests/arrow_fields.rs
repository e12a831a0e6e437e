use arrow::datatypes::{DataType, Field, Schema, TimeUnit};
use mysql_dump::line_parser::{ColumnDef, ColumnType, TableSchema};

#[test]
fn arrow_fields_follow_the_schema() {
    let schema = TableSchema(vec![
        ColumnDef { column_name: "ID".into(), nullable: false, column_type: ColumnType::Integer },
        ColumnDef { column_name: "shortName".into(), nullable: true, column_type: ColumnType::String },
        ColumnDef { column_name: "Score".into(), nullable: true, column_type: ColumnType::Float },
        ColumnDef { column_name: "ÉTÉ".into(), nullable: false, column_type: ColumnType::Timestamp },
    ]);
    let arrow_schema = schema.to_arrow_schema();
    assert!(arrow_schema.metadata().is_empty());
    let fields = arrow_schema.fields();
    assert_eq!(fields.len(), 4);
    assert_eq!(fields[0].name(), "id");
    assert_eq!(fields[0].data_type(), &DataType::Int64);
    assert!(!fields[0].is_nullable());
    assert_eq!(fields[1].name(), "shortname");
    assert_eq!(fields[1].data_type(), &DataType::Utf8);
    assert!(fields[1].is_nullable());
    assert_eq!(fields[2].name(), "score");
    assert_eq!(fields[2].data_type(), &DataType::Float64);
    assert_eq!(fields[3].name(), "été");
    assert_eq!(fields[3].data_type(), &DataType::Timestamp(TimeUnit::Second, None));
}

#[test]
fn arrow_schema_equals_the_expected_schema() {
    let schema = TableSchema(vec![
        ColumnDef { column_name: "shortName".into(), nullable: false, column_type: ColumnType::String },
        ColumnDef { column_name: "ID".into(), nullable: true, column_type: ColumnType::Integer },
        ColumnDef { column_name: "score".into(), nullable: true, column_type: ColumnType::Float },
        ColumnDef {
            column_name: "premiumExpirationDate".into(),
            nullable: true,
            column_type: ColumnType::Timestamp,
        },
    ]);
    assert_eq!(
        schema.to_arrow_schema(),
        Schema::new(vec![
            Field::new("shortname", DataType::Utf8, false),
            Field::new("id", DataType::Int64, true),
            Field::new("score", DataType::Float64, true),
            Field::new("premiumexpirationdate", DataType::Timestamp(TimeUnit::Second, None), true),
        ])
    );
}

#[test]
fn empty_schema_has_no_fields() {
    let arrow_schema = TableSchema(vec![]).to_arrow_schema();
    assert_eq!(arrow_schema.fields().len(), 0);
}
