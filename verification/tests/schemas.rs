//! Columns of tables, and loading the schema table.

use limbo_util::ast::{Expr, Id, Literal, Name, Select, Type};
use limbo_util::error::LimboError;
use limbo_util::loader::{
    parse_schema_rows, Phase, SchemaAction, SchemaEvent, SchemaLoader, SchemaRow,
    PRIMARY_KEY_AUTOMATIC_INDEX_NAME_PREFIX,
};
use limbo_util::schema;
use limbo_util::schema::{
    affinity_of, columns_from_create_table_body, Column, ColumnConstraint, ColumnDefinition,
    CreateTableBody,
};

fn definition(
    name: &str,
    ty: Option<&str>,
    constraints: Vec<ColumnConstraint>,
) -> (Name, ColumnDefinition) {
    (
        Name(name.to_string()),
        ColumnDefinition {
            col_type: ty.map(|t| Type {
                name: t.to_string(),
                size: None,
            }),
            constraints,
        },
    )
}

fn columns(defs: Vec<(Name, ColumnDefinition)>) -> Vec<Column> {
    let body = CreateTableBody::ColumnsAndConstraints { columns: defs };
    columns_from_create_table_body(body).unwrap()
}

fn type_of(declared: &str) -> schema::Type {
    columns(vec![definition("c", Some(declared), vec![])])[0].ty
}

#[test]
fn declared_types_have_an_affinity() {
    assert_eq!(type_of("BIGINT"), schema::Type::Integer);
    assert_eq!(type_of("varchar"), schema::Type::Text);
    assert_eq!(type_of("Clob"), schema::Type::Text);
    assert_eq!(type_of("TinyText"), schema::Type::Text);
    assert_eq!(type_of("blob"), schema::Type::Blob);
    assert_eq!(type_of(""), schema::Type::Blob);
    assert_eq!(type_of("real"), schema::Type::Real);
    assert_eq!(type_of("FLOAT"), schema::Type::Real);
    assert_eq!(type_of("double precision"), schema::Type::Real);
    assert_eq!(type_of("decimal"), schema::Type::Numeric);
}

#[test]
fn the_first_affinity_that_fits_counts() {
    assert_eq!(type_of("CHARINT"), schema::Type::Integer);
    assert_eq!(type_of("floating point"), schema::Type::Integer);
    assert_eq!(type_of("BLOBTEXT"), schema::Type::Text);
    assert_eq!(type_of("REALBLOB"), schema::Type::Blob);
    assert_eq!(affinity_of("INT"), schema::Type::Integer);
    assert_eq!(affinity_of("int"), schema::Type::Numeric);
}

#[test]
fn letters_outside_ascii_have_an_upper_case() {
    assert_eq!(type_of("\u{fb02}oat"), schema::Type::Real);
    assert_eq!(type_of("\u{17f}tring"), schema::Type::Numeric);
    assert_eq!(type_of("é int"), schema::Type::Integer);
}

#[test]
fn a_column_is_what_its_definition_says() {
    let defs = vec![
        definition(
            "Id",
            Some("integer"),
            vec![ColumnConstraint::PrimaryKey, ColumnConstraint::Other],
        ),
        definition("v", None, vec![]),
        definition(
            "w",
            Some("Text"),
            vec![
                ColumnConstraint::Default(Expr::Literal(Literal::Null)),
                ColumnConstraint::NotNull,
                ColumnConstraint::Default(Expr::Id(Id("later".to_string()))),
            ],
        ),
    ];
    let cs = columns(defs);
    assert_eq!(cs.len(), 3);
    assert_eq!(cs[0].name, Some("Id".to_string()));
    assert_eq!(cs[0].ty_str, "integer");
    assert!(cs[0].primary_key);
    assert!(!cs[0].notnull);
    assert!(cs[0].default.is_none());
    assert!(!cs[0].is_rowid_alias);
    assert_eq!(cs[1].ty, schema::Type::Null);
    assert_eq!(cs[1].ty_str, "");
    assert!(!cs[1].primary_key);
    assert!(cs[2].notnull);
    assert!(matches!(cs[2].default, Some(Expr::Literal(Literal::Null))));
    assert_eq!(cs[2].ty, schema::Type::Text);
    assert_eq!(cs[2].ty_str, "Text");
}

#[test]
fn hidden_columns_are_left_out() {
    let cs = columns(vec![
        definition("a", Some("INT HIDDEN"), vec![]),
        definition("b", Some("int hidden"), vec![]),
        definition("c", Some("HIDDENTEXT"), vec![]),
        definition("d", None, vec![]),
    ]);
    let names: Vec<Option<String>> = cs.into_iter().map(|c| c.name).collect();
    assert_eq!(names, vec![Some("b".to_string()), Some("d".to_string())]);
}

#[test]
fn a_select_defines_no_columns() {
    assert!(columns_from_create_table_body(CreateTableBody::AsSelect(Select(0))).is_err());
    assert_eq!(columns(vec![]).len(), 0);
}

fn row(ty: &str, name: &str, table: &str, page: i64, sql: Option<&str>) -> SchemaEvent {
    SchemaEvent::Row(SchemaRow {
        ty: Ok(ty.to_string()),
        name: Ok(name.to_string()),
        table_name: Ok(table.to_string()),
        root_page: Ok(page),
        sql: match sql {
            Some(text) => Ok(text.to_string()),
            None => Err(LimboError::Engine("null".to_string())),
        },
    })
}

#[test]
fn without_a_statement_nothing_is_loaded() {
    let (loader, action) = SchemaLoader::start(false);
    assert!(matches!(action, SchemaAction::Finish(Ok(()))));
    assert_eq!(loader.phase(), Phase::Finished);
}

#[test]
fn rows_are_added_and_automatic_indexes_come_last() {
    assert_eq!(PRIMARY_KEY_AUTOMATIC_INDEX_NAME_PREFIX, "sqlite_autoindex_");
    let (mut l, action) = SchemaLoader::start(true);
    assert!(matches!(action, SchemaAction::Step));
    let next = parse_schema_rows(&mut l, row("index", "sqlite_autoindex_foo_1", "foo", 3, None));
    assert!(matches!(next, SchemaAction::Step));
    assert_eq!(l.phase(), Phase::Stepping);
    match parse_schema_rows(&mut l, row("table", "foo", "foo", 2, Some("CREATE TABLE foo (a)"))) {
        SchemaAction::AddTable { sql, root_page } => {
            assert_eq!(sql, "CREATE TABLE foo (a)");
            assert_eq!(root_page, 2);
        }
        other => panic!("{:?}", other),
    }
    assert_eq!(l.phase(), Phase::Applying);
    assert!(matches!(parse_schema_rows(&mut l, SchemaEvent::Applied), SchemaAction::Step));
    match parse_schema_rows(&mut l, row("index", "i", "foo", 4, Some("CREATE INDEX i"))) {
        SchemaAction::AddIndex { sql, root_page } => {
            assert_eq!(sql, "CREATE INDEX i");
            assert_eq!(root_page, 4);
        }
        other => panic!("{:?}", other),
    }
    assert!(matches!(parse_schema_rows(&mut l, SchemaEvent::Applied), SchemaAction::Step));
    assert!(matches!(
        parse_schema_rows(&mut l, row("view", "v", "v", 0, Some("CREATE VIEW v"))),
        SchemaAction::Step
    ));
    assert!(matches!(
        parse_schema_rows(&mut l, row("index", "sqlite_autoindex_bar_1", "bar", 5, None)),
        SchemaAction::Step
    ));
    assert!(matches!(parse_schema_rows(&mut l, SchemaEvent::IO), SchemaAction::RunIo));
    assert!(matches!(parse_schema_rows(&mut l, SchemaEvent::Applied), SchemaAction::Step));
    for (end, index, table, page) in [
        (SchemaEvent::Done, "sqlite_autoindex_foo_1", "foo", 3usize),
        (SchemaEvent::Applied, "sqlite_autoindex_bar_1", "bar", 5),
    ] {
        match parse_schema_rows(&mut l, end) {
            SchemaAction::AddAutomaticIndex {
                index_name,
                table_name,
                root_page,
            } => {
                assert_eq!(index_name, index);
                assert_eq!(table_name, table);
                assert_eq!(root_page, page);
            }
            other => panic!("{:?}", other),
        }
        assert_eq!(l.phase(), Phase::Draining);
    }
    assert!(matches!(
        parse_schema_rows(&mut l, SchemaEvent::Applied),
        SchemaAction::Finish(Ok(()))
    ));
    assert_eq!(l.phase(), Phase::Finished);
}

#[test]
fn being_busy_or_interrupted_ends_the_rows() {
    for end in [SchemaEvent::Busy, SchemaEvent::Interrupt] {
        let (mut l, _) = SchemaLoader::start(true);
        assert!(matches!(parse_schema_rows(&mut l, end), SchemaAction::Finish(Ok(()))));
    }
}

#[test]
fn a_failure_ends_the_loading() {
    let (mut l, _) = SchemaLoader::start(true);
    let failed = SchemaEvent::Failed(LimboError::Engine("corrupt".to_string()));
    match parse_schema_rows(&mut l, failed) {
        SchemaAction::Finish(Err(LimboError::Engine(text))) => assert_eq!(text, "corrupt"),
        other => panic!("{:?}", other),
    }
    assert_eq!(l.phase(), Phase::Finished);
}

#[test]
fn columns_that_cannot_be_read_end_the_loading() {
    let broken = |ty: Result<String, LimboError>, page: Result<i64, LimboError>| {
        SchemaEvent::Row(SchemaRow {
            ty,
            name: Err(LimboError::Engine("name".to_string())),
            table_name: Err(LimboError::Engine("table".to_string())),
            root_page: page,
            sql: Err(LimboError::Engine("sql".to_string())),
        })
    };
    let page_error = || Err(LimboError::Engine("page".to_string()));
    let cases = [
        (broken(Err(LimboError::Engine("type".to_string())), Ok(1)), "type"),
        (broken(Ok("table".to_string()), page_error()), "page"),
        (broken(Ok("table".to_string()), Ok(1)), "sql"),
        (broken(Ok("index".to_string()), page_error()), "page"),
        (broken(Ok("index".to_string()), Ok(1)), "name"),
    ];
    for (event, wanted) in cases {
        let (mut l, _) = SchemaLoader::start(true);
        match parse_schema_rows(&mut l, event) {
            SchemaAction::Finish(Err(LimboError::Engine(text))) => assert_eq!(text, wanted),
            other => panic!("{:?}", other),
        }
    }
    let (mut l, _) = SchemaLoader::start(true);
    let passed_over = broken(Ok("trigger".to_string()), page_error());
    assert!(matches!(parse_schema_rows(&mut l, passed_over), SchemaAction::Step));
}
