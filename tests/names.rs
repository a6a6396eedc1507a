use sql_helper::ansi::ast::common::{
    ColumnDefinition, LocalOrSchemaQualifier, LocalQualifier, SchemaName, TableName,
};
use sql_helper::ansi::ast::data_types::{DataType, WithOrWithoutTimeZone};
use sql_helper::ansi::parser::common::{
    column_definition, column_name_list, delete_rule, match_type, referenced_period_specification,
    referential_action, referential_triggered_action, schema_for_qualified_table_name,
    schema_name, table_name, update_rule,
};
use sql_helper::ansi::parser::data_types::data_type;
use sql_helper::common::parsers::{ident, statement_terminator, whitespace0, whitespace1};
use sql_helper::common::tokens::{is_sql_identifier, is_whitespace};
use sql_helper::common::{Ident, QuoteStyle};

fn text(v: Vec<u8>) -> String {
    String::from_utf8(v).unwrap()
}

#[test]
fn test_parse_ident() {
    let cases: [(&[u8], Ident); 5] = [
        (b"name_1", Ident::new(b"name_1")),
        (b"name1", Ident::new(b"name1")),
        (b"spaced name", Ident::new(b"spaced")),
        (b"\"name_1\"", Ident::new_quoted(b"name_1", QuoteStyle::DoubleQuote)),
        (b"\"1\"", Ident::new_quoted(b"1", QuoteStyle::DoubleQuote)),
    ];
    for (input, expected) in cases {
        let (_, parsed) = ident(input).unwrap();
        assert_eq!(parsed, expected);
    }
}

#[test]
fn test_parse_invalid_ident() {
    let result = ident(b"1");
    assert!(result.is_err());
}

#[test]
fn ident_skips_leading_whitespace() {
    let (rest, parsed) = ident(b"  name@x rest").unwrap();
    assert_eq!(parsed.value(), b"name@x");
    assert_eq!(rest, b" rest");
}

#[test]
fn quoted_ident_renders_with_quotes() {
    let (_, parsed) = ident(b"\"Mixed_1\"").unwrap();
    assert_eq!(parsed.to_sql(), b"\"Mixed_1\"".to_vec());
    assert_eq!(parsed.quote_style(), &QuoteStyle::DoubleQuote);
}

#[test]
fn parse_column_definition_ast() {
    let (_, column_def_1) = column_definition(b"name VARCHAR").unwrap();
    assert_eq!(
        column_def_1,
        ColumnDefinition::new(&Ident::new(b"name")).with_data_type(DataType::Varchar(None))
    );
    let (_, column_def_2) = column_definition(b"name").unwrap();
    assert_eq!(column_def_2, ColumnDefinition::new(&Ident::new(b"name")));
}

#[test]
fn parse_column_definition_serialisation() {
    for input in ["name", "name VARCHAR"] {
        assert_eq!(input, text(column_definition(input.as_bytes()).unwrap().1.to_sql()));
    }
}

#[test]
fn parse_referential_action() {
    for input in ["CASCADE", "SET NULL", "SET DEFAULT", "RESTRICT", "NO ACTION"] {
        let mut out = Vec::new();
        referential_action(input.as_bytes()).unwrap().1.write_sql(&mut out);
        assert_eq!(input, text(out));
    }
}

#[test]
fn parse_delete_rule() {
    for input in [
        "ON DELETE CASCADE",
        "ON DELETE SET NULL",
        "ON DELETE SET DEFAULT",
        "ON DELETE RESTRICT",
        "ON DELETE NO ACTION",
    ] {
        let mut out = Vec::new();
        delete_rule(input.as_bytes()).unwrap().1.write_sql(&mut out);
        assert_eq!(input, text(out));
    }
}

#[test]
fn parse_update_rule() {
    for input in [
        "ON UPDATE CASCADE",
        "ON UPDATE SET NULL",
        "ON UPDATE SET DEFAULT",
        "ON UPDATE RESTRICT",
        "ON UPDATE NO ACTION",
    ] {
        let mut out = Vec::new();
        update_rule(input.as_bytes()).unwrap().1.write_sql(&mut out);
        assert_eq!(input, text(out));
    }
}

#[test]
fn parse_referential_triggered_action() {
    for input in [
        "ON UPDATE CASCADE",
        "ON DELETE CASCADE",
        "ON UPDATE CASCADE ON DELETE CASCADE",
        "ON DELETE CASCADE ON UPDATE CASCADE",
    ] {
        let mut out = Vec::new();
        referential_triggered_action(input.as_bytes()).unwrap().1.write_sql(&mut out);
        assert_eq!(input, text(out));
    }
}

#[test]
fn parse_match_type() {
    for input in ["FULL", "PARTIAL", "SIMPLE"] {
        let mut out = Vec::new();
        match_type(input.as_bytes()).unwrap().1.write_sql(&mut out);
        assert_eq!(input, text(out));
    }
}

#[test]
fn parse_column_name_list() {
    for input in ["name", "name_1, name_2", "name_1, name_2, name_3, name_4"] {
        let mut out = Vec::new();
        column_name_list(input.as_bytes()).unwrap().1.write_sql(&mut out);
        assert_eq!(input, text(out));
    }
}

#[test]
fn parse_empty_column_name_list() {
    assert!(column_name_list(b"").is_err());
}

#[test]
fn parse_referenced_period_specification() {
    let input = "PERIOD name_1";
    let mut out = Vec::new();
    referenced_period_specification(input.as_bytes()).unwrap().1.write_sql(&mut out);
    assert_eq!(input, text(out));
}

#[test]
fn schema_qualified_table_name() {
    let (rest, parsed) = table_name(b"schema_name.table_name").unwrap();
    assert!(rest.is_empty());
    let expected = TableName::new(&Ident::new(b"table_name")).with_local_or_schema(
        LocalOrSchemaQualifier::Schema(SchemaName::new(None, &Ident::new(b"schema_name"))),
    );
    assert_eq!(parsed, expected);
}

#[test]
fn catalog_qualified_table_name() {
    let (rest, parsed) = table_name(b"catalog_name.schema_name.table_name").unwrap();
    assert!(rest.is_empty());
    let expected = TableName::new(&Ident::new(b"table_name")).with_local_or_schema(
        LocalOrSchemaQualifier::Schema(SchemaName::new(
            Some(&Ident::new(b"catalog_name")),
            &Ident::new(b"schema_name"),
        )),
    );
    assert_eq!(parsed, expected);
}

#[test]
fn module_qualified_table_name() {
    let (rest, parsed) = table_name(b"MODULE.table_name").unwrap();
    assert!(rest.is_empty());
    let expected = TableName::new(&Ident::new(b"table_name"))
        .with_local_or_schema(LocalOrSchemaQualifier::LocalQualifier(LocalQualifier::Module));
    assert_eq!(parsed, expected);
}

#[test]
fn schema_lookahead_leaves_table_part() {
    let (rest, parsed) = schema_for_qualified_table_name(b"n1.n2.n3.n4").unwrap();
    assert_eq!(parsed, SchemaName::new(Some(&Ident::new(b"n1")), &Ident::new(b"n2")));
    assert_eq!(rest, b".n3.n4");
    assert!(schema_for_qualified_table_name(b"alone").is_err());
}

#[test]
fn schema_name_stops_after_two_parts() {
    let (rest, parsed) = schema_name(b"a.b.c").unwrap();
    assert_eq!(parsed, SchemaName::new(Some(&Ident::new(b"a")), &Ident::new(b"b")));
    assert_eq!(rest, b".c");
}

#[test]
fn trailing_dot_in_table_name_is_left() {
    let (rest, parsed) = table_name(b"t.").unwrap();
    assert_eq!(parsed, TableName::new(&Ident::new(b"t")));
    assert_eq!(rest, b".");
}

#[test]
fn char_keyword_prefixes_resolve_to_longest() {
    assert_eq!(data_type(b"CHAR").unwrap().1, DataType::Char(None));
    assert_eq!(data_type(b"CHAR VARYING").unwrap().1, DataType::CharVarying(None));
    assert_eq!(data_type(b"CHAR LARGE OBJECT").unwrap().1, DataType::CharLargeObject(None));
    assert_eq!(data_type(b"DECFLOAT").unwrap().1, DataType::DecFloat(None));
    assert_eq!(
        data_type(b"TIMESTAMP").unwrap().1,
        DataType::Timestamp(None, WithOrWithoutTimeZone::Unspecified)
    );
}

#[test]
fn unknown_type_keyword_is_not_found() {
    assert!(data_type(b"TEXT").is_err());
}

#[test]
fn large_integer_overflow_is_rejected() {
    let (rest, parsed) = data_type(b"BINARY(4294967296)").unwrap();
    assert_eq!(parsed, DataType::Binary(None));
    assert_eq!(rest, b"(4294967296)");
    let (_, parsed) = data_type(b"BINARY(4294967295)").unwrap();
    assert_eq!(parsed, DataType::Binary(Some(4294967295)));
}

#[test]
fn whitespace_helpers() {
    assert_eq!(whitespace0(b" \t\n\r     21c"), (&b"21c"[..], &b" \t\n\r     "[..]));
    assert_eq!(whitespace0(b"Z21c"), (&b"Z21c"[..], &b""[..]));
    assert_eq!(whitespace1(b" Z21c").unwrap(), (&b"Z21c"[..], &b" "[..]));
    assert!(whitespace1(b"Z21c").is_err());
    for c in [0x09u32, 0x0A, 0x0B, 0x0C, 0x0D, 0x20, 0x85, 0xA0] {
        assert!(is_whitespace(char::from_u32(c).unwrap()));
    }
    assert!(!is_whitespace('x'));
    assert!(is_sql_identifier(b'_') && is_sql_identifier(b'@') && !is_sql_identifier(b'-'));
}

#[test]
fn statement_terminator_forms() {
    assert_eq!(statement_terminator(b"  ;  next").unwrap().0, b"next");
    assert_eq!(statement_terminator(b" \r\nnext").unwrap().0, b"next");
    assert!(statement_terminator(b"").unwrap().0.is_empty());
    assert!(statement_terminator(b" x").is_err());
}

#[test]
fn lexical_mismatch_points_at_the_start() {
    let err = ident(b"1abc").unwrap_err();
    assert_eq!(err.kind, sql_helper::common::ErrorKind::LexicalMismatch);
    assert_eq!(err.offset, 0);
    let err = data_type(b"TEXT").unwrap_err();
    assert_eq!(err.kind, sql_helper::common::ErrorKind::LexicalMismatch);
}
