use mysql_dump::line_parser::{
    line_from_statement, parse_line, ColumnDef, ColumnType, ColumnValue, Line, LineError, TableSchema,
};
use mysql_dump::sql::{SqlColumn, SqlColumnOption, SqlDataType, SqlExpr, SqlQuery, SqlStatement, SqlValue};

#[test]
fn parse_insert_into() {
    let stmt="INSERT INTO `user` VALUES (1, 'foobar', NULL, '2012-01-02 12:55:22', 0),(1, 'foobar', NULL, '2012-01-02 12:55:22', 0),(1, 'foobar', NULL, '2012-01-02 12:55:22', 0),(1, 'foobar', NULL, '2012-01-02 12:55:22', -123);";
    let line = parse_line(stmt).unwrap();
    if let Line::InsertInto(table_name, columns_values) = line {
        assert_eq!("user", table_name);
        assert_eq!(
            columns_values,
            vec![
                vec![
                    ColumnValue::Integer(1),
                    ColumnValue::String("foobar".into()),
                    ColumnValue::Null,
                    ColumnValue::String("2012-01-02 12:55:22".into()),
                    ColumnValue::Integer(0)
                ],
                vec![
                    ColumnValue::Integer(1),
                    ColumnValue::String("foobar".into()),
                    ColumnValue::Null,
                    ColumnValue::String("2012-01-02 12:55:22".into()),
                    ColumnValue::Integer(0)
                ],
                vec![
                    ColumnValue::Integer(1),
                    ColumnValue::String("foobar".into()),
                    ColumnValue::Null,
                    ColumnValue::String("2012-01-02 12:55:22".into()),
                    ColumnValue::Integer(0)
                ],
                vec![
                    ColumnValue::Integer(1),
                    ColumnValue::String("foobar".into()),
                    ColumnValue::Null,
                    ColumnValue::String("2012-01-02 12:55:22".into()),
                    ColumnValue::Integer(-123)
                ]
            ]
        );
    } else {
        panic!("{line:?} is not insert into!");
    }
}

#[test]
fn parse_create_table() {
    let stmt = r#"CREATE TABLE `user` (
            `id` bigint NOT NULL,
            `shortName` varchar(255) CHARACTER SET utf8mb3 COLLATE utf8mb3_bin NOT NULL,
            `avatarUuid` varchar(36) CHARACTER SET utf8mb3 COLLATE utf8mb3_bin DEFAULT NULL,
            `registrationDate` timestamp NOT NULL DEFAULT CURRENT_TIMESTAMP,
            `premiumExpirationDate` timestamp NULL DEFAULT NULL,
            `excluded` tinyint(1) NOT NULL DEFAULT '0',
            `company_lid` bigint DEFAULT NULL,
            PRIMARY KEY (`lid`),
            UNIQUE KEY `email_index` (`email`),
            UNIQUE KEY `tel_key` (`tel`),
            KEY `authKey_index` (`authKey`),
            KEY `name_index` (`shortName`),
            KEY `registrationDate_index` (`registrationDate`),
            KEY `country_index` (`country`),
            KEY `company_lid` (`company_lid`),
            KEY `premiumExpirationDate` (`premiumExpirationDate`),
            CONSTRAINT `user_ibfk_1` FOREIGN KEY (`company_lid`) REFERENCES `company` (`lid`)
          ) ENGINE=InnoDB DEFAULT CHARSET=utf8mb3 COLLATE=utf8mb3_bin;"#;
    let line = parse_line(stmt).unwrap();
    if let Line::CreateTable(name, schema) = line {
        assert_eq!("user", name);
        assert_eq!(
            schema.0,
            vec![
                ColumnDef {
                    column_name: "id".into(),
                    nullable: false,
                    column_type: ColumnType::Integer,
                },
                ColumnDef {
                    column_name: "shortName".into(),
                    nullable: false,
                    column_type: ColumnType::String,
                },
                ColumnDef {
                    column_name: "avatarUuid".into(),
                    nullable: true,
                    column_type: ColumnType::String,
                },
                ColumnDef {
                    column_name: "registrationDate".into(),
                    nullable: false,
                    column_type: ColumnType::Timestamp,
                },
                ColumnDef {
                    column_name: "premiumExpirationDate".into(),
                    nullable: true,
                    column_type: ColumnType::Timestamp,
                },
                ColumnDef {
                    column_name: "excluded".into(),
                    nullable: false,
                    column_type: ColumnType::Integer,
                },
                ColumnDef {
                    column_name: "company_lid".into(),
                    nullable: true,
                    column_type: ColumnType::Integer,
                },
            ]
        )
    } else {
        panic!("{line:?} is not create table!");
    }
}

#[test]
fn empty_text_is_nop() {
    assert_eq!(parse_line("").unwrap(), Line::NOP);
}

#[test]
fn other_statements_are_nop() {
    assert_eq!(parse_line("DROP TABLE `t`;").unwrap(), Line::NOP);
}

#[test]
fn syntax_errors_are_reported() {
    assert!(matches!(parse_line("INSERT INTO"), Err(LineError::Sql(_))));
}

#[test]
fn two_statements_are_refused() {
    assert_eq!(parse_line("SELECT 1; SELECT 2;"), Err(LineError::TooManyStatements));
}

#[test]
fn numbers_and_literals() {
    let line = parse_line("INSERT INTO t VALUES (1.5, -2.25, -7, TRUE, 'x', NULL, 9223372036854775807);").unwrap();
    assert_eq!(
        line,
        Line::InsertInto(
            "t".into(),
            vec![vec![
                ColumnValue::Float("1.5".into()),
                ColumnValue::Float("-2.25".into()),
                ColumnValue::Integer(-7),
                ColumnValue::Boolean(true),
                ColumnValue::String("x".into()),
                ColumnValue::Null,
                ColumnValue::Integer(i64::MAX),
            ]]
        )
    );
}

#[test]
fn out_of_range_integer_is_an_error() {
    assert_eq!(
        parse_line("INSERT INTO t VALUES (9223372036854775808);"),
        Err(LineError::InvalidInteger("9223372036854775808".into()))
    );
    assert_eq!(
        parse_line("INSERT INTO t VALUES (-9223372036854775808);"),
        Err(LineError::InvalidInteger("9223372036854775808".into()))
    );
}

#[test]
fn unsupported_values_are_errors() {
    assert!(matches!(parse_line("INSERT INTO t VALUES (\"dq\");"), Err(LineError::UnsupportedValue(_))));
    assert!(matches!(parse_line("INSERT INTO t VALUES (1 + 2);"), Err(LineError::UnsupportedValue(_))));
    assert_eq!(parse_line("INSERT INTO t VALUES (-'a');"), Err(LineError::UnsupportedNegation));
}

#[test]
fn insert_from_select_has_no_values() {
    assert_eq!(parse_line("INSERT INTO t SELECT * FROM u;"), Err(LineError::NoValues));
}

#[test]
fn column_types_and_nullability() {
    let line = parse_line(
        "CREATE TABLE t (a longtext, b mediumtext, c double NULL, d date PRIMARY KEY, e boolean UNIQUE, f text NULL NOT NULL);",
    )
    .unwrap();
    assert_eq!(
        line,
        Line::CreateTable(
            "t".into(),
            TableSchema(vec![
                ColumnDef { column_name: "a".into(), nullable: true, column_type: ColumnType::String },
                ColumnDef { column_name: "b".into(), nullable: true, column_type: ColumnType::String },
                ColumnDef { column_name: "c".into(), nullable: true, column_type: ColumnType::Float },
                ColumnDef { column_name: "d".into(), nullable: false, column_type: ColumnType::Timestamp },
                ColumnDef { column_name: "e".into(), nullable: true, column_type: ColumnType::Boolean },
                ColumnDef { column_name: "f".into(), nullable: true, column_type: ColumnType::String },
            ])
        )
    );
}

#[test]
fn unsupported_custom_type_is_an_error() {
    assert_eq!(
        parse_line("CREATE TABLE t (a geometry);"),
        Err(LineError::UnsupportedDataType("geometry".into()))
    );
    assert!(matches!(parse_line("CREATE TABLE t (a json);"), Err(LineError::UnsupportedDataType(_))));
}

#[test]
fn translation_of_a_statement_value() {
    let st = SqlStatement::Insert {
        table_name: vec!["db".into(), "t".into()],
        source: Some(SqlQuery::Values(vec![vec![
            SqlExpr::Negated(SqlValue::Number("3".into())),
            SqlExpr::Value(SqlValue::Number("+4".into())),
        ]])),
    };
    assert_eq!(
        line_from_statement(&st),
        Ok(Line::InsertInto("db".into(), vec![vec![ColumnValue::Integer(-3), ColumnValue::Integer(4)]]))
    );
    let missing = SqlStatement::Insert { table_name: vec![], source: None };
    assert_eq!(line_from_statement(&missing), Err(LineError::MissingTableName));
    let no_source = SqlStatement::Insert { table_name: vec!["t".into()], source: None };
    assert_eq!(line_from_statement(&no_source), Err(LineError::MissingSource));
}

#[test]
fn first_failing_column_decides() {
    let st = SqlStatement::CreateTable {
        name: vec!["t".into()],
        columns: vec![
            SqlColumn { name: "a".into(), data_type: SqlDataType::Other("X".into()), options: vec![] },
            SqlColumn {
                name: "b".into(),
                data_type: SqlDataType::Custom(vec!["y".into()]),
                options: vec![SqlColumnOption::NotNull],
            },
        ],
    };
    assert_eq!(line_from_statement(&st), Err(LineError::UnsupportedDataType("X".into())));
}
