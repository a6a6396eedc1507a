use sql_helper::ansi::ast::common::{
    ColumnDefinition, DropBehavior, LocalOrSchemaQualifier, LocalQualifier, SchemaName, TableName,
};
use sql_helper::ansi::ast::create_schema::{CreateSchema, SchemaNameClause};
use sql_helper::ansi::ast::create_table::{TableContentsSource, TableElement, TableScope};
use sql_helper::ansi::ast::data_types::{CharacterLength, DataType, WithOrWithoutTimeZone};
use sql_helper::ansi::ast::drop_schema::DropSchema;
use sql_helper::ansi::ast::drop_table::DropTable;
use sql_helper::ansi::parser::data_types::data_type;
use sql_helper::ansi::parser::parse_statement;
use sql_helper::ansi::Statement;
use sql_helper::common::{ErrorKind, Ident};

/// Parses the statement and checks that it renders back to the input.
fn verified_stmt(input: &str) -> Statement {
    let (_, stmt) = parse_statement(input.as_bytes()).unwrap();
    assert_eq!(input, stmt.to_string());
    stmt
}

fn parse_create_schema(input: &str) -> CreateSchema {
    match parse_statement(input.as_bytes()).unwrap().1 {
        Statement::CreateSchema(create_schema) => create_schema,
        _ => unreachable!(),
    }
}

fn parse_drop_schema(input: &str) -> DropSchema {
    match parse_statement(input.as_bytes()).unwrap().1 {
        Statement::DropSchema(drop_schema) => drop_schema,
        _ => unreachable!(),
    }
}

fn parse_drop_table(input: &str) -> DropTable {
    match verified_stmt(input) {
        Statement::DropTable(drop_table) => drop_table,
        _ => unreachable!(),
    }
}

#[test]
fn test_create_schema() {
    verified_stmt("CREATE SCHEMA schema_name;");
    verified_stmt("CREATE SCHEMA catalog_name.schema_name;");
    verified_stmt("CREATE SCHEMA AUTHORIZATION authorization_name;");
    verified_stmt("CREATE SCHEMA schema_name AUTHORIZATION authorization_name;");
    verified_stmt("CREATE SCHEMA catalog_name.schema_name AUTHORIZATION authorization_name;");
}

#[test]
fn test_create_schema_structure() {
    let parsed_1 = parse_create_schema("CREATE SCHEMA schema_name;");
    let expected_1 = CreateSchema::new(SchemaNameClause::Simple(SchemaName::new(
        None,
        &Ident::new(b"schema_name"),
    )));
    assert_eq!(expected_1, parsed_1);

    let parsed_2 = parse_create_schema("CREATE SCHEMA catalog_name.schema_name;");
    let expected_2 = CreateSchema::new(SchemaNameClause::Simple(SchemaName::new(
        Some(&Ident::new(b"catalog_name")),
        &Ident::new(b"schema_name"),
    )));
    assert_eq!(expected_2, parsed_2);

    let parsed_3 = parse_create_schema("CREATE SCHEMA AUTHORIZATION authorization_name;");
    let expected_3 =
        CreateSchema::new(SchemaNameClause::Authorization(Ident::new(b"authorization_name")));
    assert_eq!(expected_3, parsed_3);

    let parsed_4 =
        parse_create_schema("CREATE SCHEMA schema_name AUTHORIZATION authorization_name;");
    let expected_4 = CreateSchema::new(SchemaNameClause::NamedAuthorization(
        SchemaName::new(None, &Ident::new(b"schema_name")),
        Ident::new(b"authorization_name"),
    ));
    assert_eq!(expected_4, parsed_4);

    let parsed_5 = parse_create_schema(
        "CREATE SCHEMA catalog_name.schema_name AUTHORIZATION authorization_name;",
    );
    let expected_5 = CreateSchema::new(SchemaNameClause::NamedAuthorization(
        SchemaName::new(Some(&Ident::new(b"catalog_name")), &Ident::new(b"schema_name")),
        Ident::new(b"authorization_name"),
    ));
    assert_eq!(expected_5, parsed_5);
}

#[test]
fn ansii_drop_schema_test_drop_schema() {
    verified_stmt("DROP SCHEMA schema_name CASCADE;");
    verified_stmt("DROP SCHEMA schema_name RESTRICT;");
    verified_stmt("DROP SCHEMA catalog_name.schema_name CASCADE;");
    verified_stmt("DROP SCHEMA catalog_name.schema_name RESTRICT;");
}

#[test]
fn test_drop_schema_structure() {
    let parsed_1 = parse_drop_schema("DROP SCHEMA schema_name CASCADE;");
    let expected_1 = DropSchema::new(
        &SchemaName::new(None, &Ident::new(b"schema_name")),
        DropBehavior::Cascade,
    );
    assert_eq!(expected_1, parsed_1);

    let parsed_2 = parse_drop_schema("DROP SCHEMA schema_name RESTRICT;");
    let expected_2 = DropSchema::new(
        &SchemaName::new(None, &Ident::new(b"schema_name")),
        DropBehavior::Restrict,
    );
    assert_eq!(expected_2, parsed_2);

    let parsed_3 = parse_drop_schema("DROP SCHEMA catalog_name.schema_name CASCADE;");
    let expected_3 = DropSchema::new(
        &SchemaName::new(Some(&Ident::new(b"catalog_name")), &Ident::new(b"schema_name")),
        DropBehavior::Cascade,
    );
    assert_eq!(expected_3, parsed_3);

    let parsed_4 = parse_drop_schema("DROP SCHEMA catalog_name.schema_name RESTRICT;");
    let expected_4 = DropSchema::new(
        &SchemaName::new(Some(&Ident::new(b"catalog_name")), &Ident::new(b"schema_name")),
        DropBehavior::Restrict,
    );
    assert_eq!(expected_4, parsed_4);
}

#[test]
fn ansii_drop_table_test_drop_schema() {
    let drop_table = parse_drop_table("DROP TABLE table_name CASCADE");
    assert_eq!(drop_table.table_name(), &TableName::new(&Ident::new(b"table_name")));
    assert_eq!(drop_table.drop_behavior(), DropBehavior::Cascade);

    let drop_table = parse_drop_table("DROP TABLE table_name RESTRICT");
    assert_eq!(drop_table.table_name(), &TableName::new(&Ident::new(b"table_name")));
    assert_eq!(drop_table.drop_behavior(), DropBehavior::Restrict);

    let drop_table = parse_drop_table("DROP TABLE MODULE.table_name CASCADE");
    let expected_tb = TableName::new(&Ident::new(b"table_name"))
        .with_local_or_schema(LocalOrSchemaQualifier::LocalQualifier(LocalQualifier::Module));
    assert_eq!(drop_table.table_name(), &expected_tb);
    assert_eq!(drop_table.drop_behavior(), DropBehavior::Cascade);

    let drop_table = parse_drop_table("DROP TABLE schema_name.table_name CASCADE");
    let expected_tb = TableName::new(&Ident::new(b"table_name")).with_local_or_schema(
        LocalOrSchemaQualifier::Schema(SchemaName::new(None, &Ident::new(b"schema_name"))),
    );
    assert_eq!(drop_table.table_name(), &expected_tb);
    assert_eq!(drop_table.drop_behavior(), DropBehavior::Cascade);

    let drop_table = parse_drop_table("DROP TABLE catalog_name.schema_name.table_name CASCADE");
    let expected_tb = TableName::new(&Ident::new(b"table_name")).with_local_or_schema(
        LocalOrSchemaQualifier::Schema(SchemaName::new(
            Some(&Ident::new(b"catalog_name")),
            &Ident::new(b"schema_name"),
        )),
    );
    assert_eq!(drop_table.table_name(), &expected_tb);
    assert_eq!(drop_table.drop_behavior(), DropBehavior::Cascade);
}

#[test]
fn test_create_table() {
    verified_stmt("CREATE TABLE table_name (id INT)");
    verified_stmt("CREATE GLOBAL TEMPORARY TABLE table_name (id INT)");
    verified_stmt("CREATE LOCAL TEMPORARY TABLE table_name (id INT, name VARCHAR(20))");
}

#[test]
fn test_create_table_should_fail() {
    for input in [
        "CREATE TABLE (id INT)",
        "CREATE TABLE GLOBAL tb (id INT)",
        "CREATE TABLE LOCAL tb (id INT)",
        "CREATE TABLE tb ()",
    ] {
        assert!(parse_statement(input.as_bytes()).is_err(), "{input}");
    }
}

#[test]
fn create_schema_simple_name() {
    let stmt = verified_stmt("CREATE SCHEMA schema_name;");
    let expected = CreateSchema::new(SchemaNameClause::Simple(SchemaName::new(
        None,
        &Ident::new(b"schema_name"),
    )));
    assert_eq!(stmt, Statement::CreateSchema(expected));
}

#[test]
fn drop_schema_catalog_qualified() {
    let stmt = verified_stmt("DROP SCHEMA catalog_name.schema_name RESTRICT;");
    let expected = DropSchema::new(
        &SchemaName::new(Some(&Ident::new(b"catalog_name")), &Ident::new(b"schema_name")),
        DropBehavior::Restrict,
    );
    assert_eq!(stmt, Statement::DropSchema(expected));
}

#[test]
fn create_table_two_columns() {
    let stmt = parse_statement(b"CREATE TABLE t (id INT, name VARCHAR(20))").unwrap().1;
    let create_table = match stmt {
        Statement::CreateTable(create_table) => create_table,
        _ => unreachable!(),
    };
    assert_eq!(create_table.opt_table_scope(), None);
    assert_eq!(create_table.table_name(), &TableName::new(&Ident::new(b"t")));
    let TableContentsSource::TableElementList(list) = create_table.table_contents_source();
    let elements = list.element_list();
    assert_eq!(elements.len(), 2);
    assert_eq!(
        elements[0],
        TableElement::ColumnDefinition(
            ColumnDefinition::new(&Ident::new(b"id")).with_data_type(DataType::Int)
        )
    );
    assert_eq!(
        elements[1],
        TableElement::ColumnDefinition(
            ColumnDefinition::new(&Ident::new(b"name"))
                .with_data_type(DataType::Varchar(Some(CharacterLength::new(20))))
        )
    );
}

#[test]
fn create_table_missing_name_fails() {
    let err = parse_statement(b"CREATE TABLE (id INT)").unwrap_err();
    assert_eq!(err.kind, ErrorKind::StructuralMismatch);
    assert_eq!(err.offset, 13);
}

#[test]
fn create_table_empty_list_fails() {
    let err = parse_statement(b"CREATE TABLE t ()").unwrap_err();
    assert_eq!(err.kind, ErrorKind::EmptyListViolation);
    assert_eq!(err.offset, 16);
}

#[test]
fn time_precision_with_time_zone() {
    let (rest, parsed) = data_type(b"TIME(20) WITH TIME ZONE").unwrap();
    assert!(rest.is_empty());
    assert_eq!(parsed, DataType::Time(Some(20), WithOrWithoutTimeZone::WithTimeZone));
    assert_eq!(parsed.to_sql(), b"TIME(20) WITH TIME ZONE".to_vec());
}

#[test]
fn unrecognized_statement_exhausts_alternatives() {
    let err = parse_statement(b"SELECT 1").unwrap_err();
    assert_eq!(err.kind, ErrorKind::ExhaustedAlternatives);
    assert_eq!(err.offset, 0);
}

#[test]
fn create_schema_without_name_is_structural() {
    let err = parse_statement(b"CREATE SCHEMA ;").unwrap_err();
    assert_eq!(err.kind, ErrorKind::StructuralMismatch);
    assert_eq!(err.offset, 14);
}

#[test]
fn statements_follow_each_other() {
    let input = b"DROP TABLE a CASCADE;\nDROP SCHEMA b RESTRICT;";
    let (rest, first) = parse_statement(input).unwrap();
    assert!(matches!(first, Statement::DropTable(_)));
    assert_eq!(rest, b"DROP SCHEMA b RESTRICT;");
    let (rest, second) = parse_statement(rest).unwrap();
    assert!(matches!(second, Statement::DropSchema(_)));
    assert!(rest.is_empty());
}

#[test]
fn statements_separated_by_a_line_break() {
    let input = b"DROP TABLE a CASCADE\nDROP TABLE b RESTRICT";
    let (rest, _) = parse_statement(input).unwrap();
    assert_eq!(rest, b"DROP TABLE b RESTRICT");
}

#[test]
fn overlong_schema_chain_is_rejected() {
    let err = parse_statement(b"DROP SCHEMA a.b.c CASCADE;").unwrap_err();
    assert_eq!(err.kind, ErrorKind::StructuralMismatch);
}

#[test]
fn keywords_are_case_insensitive() {
    let stmt = parse_statement(b"create table t (x varchar(3 octets))").unwrap().1;
    assert_eq!(stmt.to_sql(), b"CREATE TABLE t (x VARCHAR(3 OCTETS))".to_vec());
}

#[test]
fn whitespace_runs_are_collapsed() {
    let stmt = parse_statement(b"CREATE   TABLE  t  ( a INT ,  b  DEC( 30 , 2 ) )  ;").unwrap().1;
    assert_eq!(stmt.to_sql(), b"CREATE TABLE t (a INT, b DEC(30, 2))".to_vec());
}

#[test]
fn create_table_with_local_scope() {
    let stmt = verified_stmt("CREATE LOCAL TEMPORARY TABLE t (c)");
    match stmt {
        Statement::CreateTable(c) => assert_eq!(c.opt_table_scope(), Some(TableScope::Local)),
        _ => unreachable!(),
    }
}

#[test]
fn reparsing_the_rendering_gives_the_same_statement() {
    for input in [
        "create   table  t ( a  int , b varchar( 3 octets ) , c )",
        "drop table  MODULE.t   restrict ;",
        "create schema \"Cat\".s authorization \"Owner\"",
        "CREATE GLOBAL TEMPORARY TABLE c.s.t (x TIMESTAMP(3) WITHOUT TIME ZONE, y CLOB(2M OCTETS))",
    ] {
        let (_, first) = parse_statement(input.as_bytes()).unwrap();
        let rendered = first.to_sql();
        let (rest, second) = parse_statement(&rendered).unwrap();
        assert!(rest.is_empty(), "{input}");
        assert_eq!(first, second, "{input}");
    }
}

#[test]
fn reparsing_a_rendered_data_type_gives_the_same_type() {
    let inputs = [
        "time ( 7 ) with time zone",
        "dec ( 5 ,2 )",
        "character large object(9g)",
        "blob (4)",
    ];
    for input in inputs {
        let (_, first) = data_type(input.as_bytes()).unwrap();
        let rendered = first.to_sql();
        let (rest, second) = data_type(&rendered).unwrap();
        assert!(rest.is_empty(), "{input}");
        assert_eq!(first, second, "{input}");
    }
}

#[test]
fn quoted_identifiers_render_in_statements() {
    verified_stmt("DROP SCHEMA \"Cat\".\"Schema_1\" CASCADE;");
}
