use sql_helper::ansi::ast::data_types::{
    CharLengthUnits, CharacterLargeObjectLength, CharacterLength, DataType, ExactNumberInfo,
    LargeObjectLength, Multiplier, WithOrWithoutTimeZone,
};
use sql_helper::ansi::parser::data_types::data_type;

fn assert_expected_data_type(input: &str, expected: DataType) {
    let (remaining, parsed) = data_type(input.as_bytes()).unwrap();
    assert_eq!(expected, parsed);
    assert_eq!(input, parsed.to_string());
    assert!(remaining.is_empty());
}

#[test]
fn parse_character_string() {
        assert_expected_data_type("CHARACTER VARYING", DataType::CharacterVarying(None));

        assert_expected_data_type(
            "CHARACTER VARYING(20)",
            DataType::CharacterVarying(Some(CharacterLength::new(20)))
        );

        assert_expected_data_type(
            "CHARACTER VARYING(20 OCTETS)",
            DataType::CharacterVarying(Some(
                CharacterLength::new(20).with_units(CharLengthUnits::Octets)
            ))
        );

        assert_expected_data_type(
            "CHARACTER VARYING(20 CHARACTERS)",
            DataType::CharacterVarying(Some(
                CharacterLength::new(20).with_units(CharLengthUnits::Characters)
            ))
        );

        assert_expected_data_type("CHAR VARYING", DataType::CharVarying(None));

        assert_expected_data_type(
            "CHAR VARYING(20)",
            DataType::CharVarying(Some(CharacterLength::new(20)))
        );

        assert_expected_data_type(
            "CHAR VARYING(20 OCTETS)",
            DataType::CharVarying(Some(
                CharacterLength::new(20).with_units(CharLengthUnits::Octets)
            ))
        );

        assert_expected_data_type(
            "CHAR VARYING(20 CHARACTERS)",
            DataType::CharVarying(Some(
                CharacterLength::new(20).with_units(CharLengthUnits::Characters)
            ))
        );

        assert_expected_data_type("CHARACTER", DataType::Character(None));

        assert_expected_data_type(
            "CHARACTER(20)",
            DataType::Character(Some(CharacterLength::new(20)))
        );

        assert_expected_data_type(
            "CHARACTER(20 OCTETS)",
            DataType::Character(Some(
                CharacterLength::new(20).with_units(CharLengthUnits::Octets)
            ))
        );

        assert_expected_data_type(
            "CHARACTER(20 CHARACTERS)",
            DataType::Character(Some(
                CharacterLength::new(20).with_units(CharLengthUnits::Characters)
            ))
        );

        assert_expected_data_type("VARCHAR", DataType::Varchar(None));

        assert_expected_data_type(
            "VARCHAR(20)",
            DataType::Varchar(Some(CharacterLength::new(20)))
        );

        assert_expected_data_type(
            "VARCHAR(20 OCTETS)",
            DataType::Varchar(Some(
                CharacterLength::new(20).with_units(CharLengthUnits::Octets)
            ))
        );

        assert_expected_data_type(
            "VARCHAR(20 CHARACTERS)",
            DataType::Varchar(Some(
                CharacterLength::new(20).with_units(CharLengthUnits::Characters)
            ))
        );

        assert_expected_data_type("CHAR", DataType::Char(None));

        assert_expected_data_type(
            "CHAR(20)",
            DataType::Char(Some(CharacterLength::new(20)))
        );

        assert_expected_data_type(
            "CHAR(20 OCTETS)",
            DataType::Char(Some(
                CharacterLength::new(20).with_units(CharLengthUnits::Octets)
            ))
        );

        assert_expected_data_type(
            "CHAR(20 CHARACTERS)",
            DataType::Char(Some(
                CharacterLength::new(20).with_units(CharLengthUnits::Characters)
            ))
        );
}

#[test]
fn parse_exact_numeric_type() {
        assert_expected_data_type("NUMERIC", DataType::Numeric(ExactNumberInfo::Unspecified));
        assert_expected_data_type(
            "NUMERIC(20)",
            DataType::Numeric(ExactNumberInfo::Precision(20))
        );
        assert_expected_data_type(
            "NUMERIC(30, 2)",
            DataType::Numeric(ExactNumberInfo::PrecisionAndScale(30, 2))
        );
        assert_expected_data_type("DECIMAL", DataType::Decimal(ExactNumberInfo::Unspecified));
        assert_expected_data_type(
            "DECIMAL(20)",
            DataType::Decimal(ExactNumberInfo::Precision(20))
        );
        assert_expected_data_type(
            "DECIMAL(30, 2)",
            DataType::Decimal(ExactNumberInfo::PrecisionAndScale(30, 2))
        );
        assert_expected_data_type("DEC", DataType::Dec(ExactNumberInfo::Unspecified));
        assert_expected_data_type("DEC(20)", DataType::Dec(ExactNumberInfo::Precision(20)));
        assert_expected_data_type(
            "DEC(30, 2)",
            DataType::Dec(ExactNumberInfo::PrecisionAndScale(30, 2))
        );
        assert_expected_data_type("SMALLINT", DataType::Smallint);
        assert_expected_data_type("INTEGER", DataType::Integer);
        assert_expected_data_type("INT", DataType::Int);
        assert_expected_data_type("BIGINT", DataType::Bigint);
}

#[test]
fn parse_approximate_numeric_type() {
        assert_expected_data_type("FLOAT", DataType::Float);
        assert_expected_data_type("REAL", DataType::Real);
        assert_expected_data_type("DOUBLE PRECISION", DataType::DoublePrecision);
}

#[test]
fn parser_parse_decimal_floating_point_type() {
        assert_expected_data_type("DECFLOAT", DataType::DecFloat(None));
        assert_expected_data_type("DECFLOAT(120)", DataType::DecFloat(Some(120)));
}

#[test]
fn parser_parse_boolean_type() {
        assert_expected_data_type("BOOLEAN", DataType::Boolean);
}

#[test]
fn parse_datetime() {
        assert_expected_data_type("DATE", DataType::Date);

        assert_expected_data_type("TIME", DataType::Time(None, WithOrWithoutTimeZone::Unspecified));

        assert_expected_data_type(
            "TIME WITH TIME ZONE",
            DataType::Time(None, WithOrWithoutTimeZone::WithTimeZone)
        );

        assert_expected_data_type(
            "TIME WITHOUT TIME ZONE",
            DataType::Time(None, WithOrWithoutTimeZone::WithoutTimeZone)
        );

        assert_expected_data_type(
            "TIME(20)",
            DataType::Time(Some(20), WithOrWithoutTimeZone::Unspecified)
        );

        assert_expected_data_type(
            "TIME(20) WITH TIME ZONE",
            DataType::Time(Some(20), WithOrWithoutTimeZone::WithTimeZone)
        );

        assert_expected_data_type(
            "TIME(20) WITHOUT TIME ZONE",
            DataType::Time(Some(20), WithOrWithoutTimeZone::WithoutTimeZone)
        );

        assert_expected_data_type(
            "TIMESTAMP",
            DataType::Timestamp(None, WithOrWithoutTimeZone::Unspecified)
        );

        assert_expected_data_type(
            "TIMESTAMP WITH TIME ZONE",
            DataType::Timestamp(None, WithOrWithoutTimeZone::WithTimeZone)
        );

        assert_expected_data_type(
            "TIMESTAMP",
            DataType::Timestamp(None, WithOrWithoutTimeZone::Unspecified)
        );

        assert_expected_data_type(
            "TIMESTAMP(20)",
            DataType::Timestamp(Some(20), WithOrWithoutTimeZone::Unspecified)
        );

        assert_expected_data_type(
            "TIMESTAMP(20) WITH TIME ZONE",
            DataType::Timestamp(Some(20), WithOrWithoutTimeZone::WithTimeZone)
        );

        assert_expected_data_type(
            "TIMESTAMP(20) WITHOUT TIME ZONE",
            DataType::Timestamp(Some(20), WithOrWithoutTimeZone::WithoutTimeZone)
        );
}

#[test]
fn parse_character_varying() {
        assert_expected_data_type("CHARACTER VARYING", DataType::CharacterVarying(None));

        assert_expected_data_type(
            "CHARACTER VARYING(20)",
            DataType::CharacterVarying(Some(CharacterLength::new(20)))
        );

        assert_expected_data_type(
            "CHARACTER VARYING(20 OCTETS)",
            DataType::CharacterVarying(Some(
                CharacterLength::new(20).with_units(CharLengthUnits::Octets)
            ))
        );

        assert_expected_data_type(
            "CHARACTER VARYING(20 CHARACTERS)",
            DataType::CharacterVarying(Some(
                CharacterLength::new(20).with_units(CharLengthUnits::Characters)
            ))
        );
}

#[test]
fn parse_char_varying() {
        assert_expected_data_type("CHAR VARYING", DataType::CharVarying(None));

        assert_expected_data_type(
            "CHAR VARYING(20)",
            DataType::CharVarying(Some(CharacterLength::new(20)))
        );

        assert_expected_data_type(
            "CHAR VARYING(20 OCTETS)",
            DataType::CharVarying(Some(
                CharacterLength::new(20).with_units(CharLengthUnits::Octets)
            ))
        );

        assert_expected_data_type(
            "CHAR VARYING(20 CHARACTERS)",
            DataType::CharVarying(Some(
                CharacterLength::new(20).with_units(CharLengthUnits::Characters)
            ))
        );
}

#[test]
fn parse_character() {
        assert_expected_data_type("CHARACTER", DataType::Character(None));

        assert_expected_data_type(
            "CHARACTER(20)",
            DataType::Character(Some(CharacterLength::new(20)))
        );

        assert_expected_data_type(
            "CHARACTER(20 OCTETS)",
            DataType::Character(Some(
                CharacterLength::new(20).with_units(CharLengthUnits::Octets)
            ))
        );

        assert_expected_data_type(
            "CHARACTER(20 CHARACTERS)",
            DataType::Character(Some(
                CharacterLength::new(20).with_units(CharLengthUnits::Characters)
            ))
        );
}

#[test]
fn parse_varchar() {
        assert_expected_data_type("VARCHAR", DataType::Varchar(None));

        assert_expected_data_type(
            "VARCHAR(20)",
            DataType::Varchar(Some(CharacterLength::new(20)))
        );

        assert_expected_data_type(
            "VARCHAR(20 OCTETS)",
            DataType::Varchar(Some(
                CharacterLength::new(20).with_units(CharLengthUnits::Octets)
            ))
        );

        assert_expected_data_type(
            "VARCHAR(20 CHARACTERS)",
            DataType::Varchar(Some(
                CharacterLength::new(20).with_units(CharLengthUnits::Characters)
            ))
        );
}

#[test]
fn parse_char() {
        assert_expected_data_type("CHAR", DataType::Char(None));

        assert_expected_data_type("CHAR(20)", DataType::Char(Some(CharacterLength::new(20))));

        assert_expected_data_type(
            "CHAR(20 OCTETS)",
            DataType::Char(Some(
                CharacterLength::new(20).with_units(CharLengthUnits::Octets)
            ))
        );

        assert_expected_data_type(
            "CHAR(20 CHARACTERS)",
            DataType::Char(Some(
                CharacterLength::new(20).with_units(CharLengthUnits::Characters)
            ))
        );
}

#[test]
fn parse_character_large_object() {
        assert_expected_data_type(
            "CHARACTER LARGE OBJECT",
            DataType::CharacterLargeObject(None)
        );

        assert_expected_data_type(
            "CHARACTER LARGE OBJECT(20)",
            DataType::CharacterLargeObject(Some(CharacterLargeObjectLength::new(
                LargeObjectLength::new(20)
            )))
        );

        assert_expected_data_type(
            "CHARACTER LARGE OBJECT(20 CHARACTERS)",
            DataType::CharacterLargeObject(Some(
                CharacterLargeObjectLength::new(LargeObjectLength::new(20))
                    .with_units(CharLengthUnits::Characters)
            ))
        );

        assert_expected_data_type(
            "CHARACTER LARGE OBJECT(20K)",
            DataType::CharacterLargeObject(Some(CharacterLargeObjectLength::new(
                LargeObjectLength::new(20).with_multiplier(Multiplier::K)
            )))
        );

        assert_expected_data_type(
            "CHARACTER LARGE OBJECT(20K CHARACTERS)",
            DataType::CharacterLargeObject(Some(
                CharacterLargeObjectLength::new(
                    LargeObjectLength::new(20).with_multiplier(Multiplier::K)
                )
                .with_units(CharLengthUnits::Characters)
            ))
        );
}

#[test]
fn parse_character_large_object_types_char_large_object() {
        assert_expected_data_type("CHAR LARGE OBJECT", DataType::CharLargeObject(None));

        assert_expected_data_type(
            "CHAR LARGE OBJECT(20)",
            DataType::CharLargeObject(Some(CharacterLargeObjectLength::new(
                LargeObjectLength::new(20)
            )))
        );

        assert_expected_data_type(
            "CHAR LARGE OBJECT(20 CHARACTERS)",
            DataType::CharLargeObject(Some(
                CharacterLargeObjectLength::new(LargeObjectLength::new(20))
                    .with_units(CharLengthUnits::Characters)
            ))
        );

        assert_expected_data_type(
            "CHAR LARGE OBJECT(20K)",
            DataType::CharLargeObject(Some(CharacterLargeObjectLength::new(
                LargeObjectLength::new(20).with_multiplier(Multiplier::K)
            )))
        );

        assert_expected_data_type(
            "CHAR LARGE OBJECT(20K CHARACTERS)",
            DataType::CharLargeObject(Some(
                CharacterLargeObjectLength::new(
                    LargeObjectLength::new(20).with_multiplier(Multiplier::K)
                )
                .with_units(CharLengthUnits::Characters)
            ))
        );
}

#[test]
fn parse_character_large_object_types_clob() {
        assert_expected_data_type("CLOB", DataType::Clob(None));

        assert_expected_data_type(
            "CLOB(20)",
            DataType::Clob(Some(CharacterLargeObjectLength::new(
                LargeObjectLength::new(20)
            )))
        );

        assert_expected_data_type(
            "CLOB(20 CHARACTERS)",
            DataType::Clob(Some(
                CharacterLargeObjectLength::new(LargeObjectLength::new(20))
                    .with_units(CharLengthUnits::Characters)
            ))
        );

        assert_expected_data_type(
            "CLOB(20K)",
            DataType::Clob(Some(CharacterLargeObjectLength::new(
                LargeObjectLength::new(20).with_multiplier(Multiplier::K)
            )))
        );

        assert_expected_data_type(
            "CLOB(20K CHARACTERS)",
            DataType::Clob(Some(
                CharacterLargeObjectLength::new(
                    LargeObjectLength::new(20).with_multiplier(Multiplier::K)
                )
                .with_units(CharLengthUnits::Characters)
            ))
        );
}

#[test]
fn parse_binary() {
        assert_expected_data_type("BINARY", DataType::Binary(None));
        assert_expected_data_type("BINARY(20)", DataType::Binary(Some(20)));
}

#[test]
fn parse_binary_varying() {
        assert_expected_data_type("BINARY VARYING", DataType::BinaryVarying(None));
        assert_expected_data_type("BINARY VARYING(20)", DataType::BinaryVarying(Some(20)));
}

#[test]
fn parse_varbinary() {
        assert_expected_data_type("VARBINARY", DataType::Varbinary(None));
        assert_expected_data_type("VARBINARY(20)", DataType::Varbinary(Some(20)));
}

#[test]
fn parse_binary_large_object() {
        assert_expected_data_type("BINARY LARGE OBJECT", DataType::BinaryLargeObject(None));
        assert_expected_data_type(
            "BINARY LARGE OBJECT(20)",
            DataType::BinaryLargeObject(Some(LargeObjectLength::new(20)))
        );
        assert_expected_data_type(
            "BINARY LARGE OBJECT(20K)",
            DataType::BinaryLargeObject(Some(
                LargeObjectLength::new(20).with_multiplier(Multiplier::K)
            ))
        );
}

#[test]
fn parse_blob() {
        assert_expected_data_type("BLOB", DataType::Blob(None));
        assert_expected_data_type("BLOB(20)", DataType::Blob(Some(LargeObjectLength::new(20))));
        assert_expected_data_type(
            "BLOB(20K)",
            DataType::Blob(Some(
                LargeObjectLength::new(20).with_multiplier(Multiplier::K)
            ))
        );
}

#[test]
fn parse_numeric() {
        assert_expected_data_type("NUMERIC", DataType::Numeric(ExactNumberInfo::Unspecified));
        assert_expected_data_type(
            "NUMERIC(20)",
            DataType::Numeric(ExactNumberInfo::Precision(20))
        );
        assert_expected_data_type(
            "NUMERIC(30, 2)",
            DataType::Numeric(ExactNumberInfo::PrecisionAndScale(30, 2))
        );
}

#[test]
fn parse_decimal() {
        assert_expected_data_type("DECIMAL", DataType::Decimal(ExactNumberInfo::Unspecified));
        assert_expected_data_type(
            "DECIMAL(20)",
            DataType::Decimal(ExactNumberInfo::Precision(20))
        );
        assert_expected_data_type(
            "DECIMAL(30, 2)",
            DataType::Decimal(ExactNumberInfo::PrecisionAndScale(30, 2))
        );
}

#[test]
fn parse_dec() {
        assert_expected_data_type("DEC", DataType::Dec(ExactNumberInfo::Unspecified));
        assert_expected_data_type("DEC(20)", DataType::Dec(ExactNumberInfo::Precision(20)));
        assert_expected_data_type(
            "DEC(30, 2)",
            DataType::Dec(ExactNumberInfo::PrecisionAndScale(30, 2))
        );
        assert_expected_data_type("SMALLINT", DataType::Smallint);
        assert_expected_data_type("INTEGER", DataType::Integer);
        assert_expected_data_type("INT", DataType::Int);
        assert_expected_data_type("BIGINT", DataType::Bigint);
}

#[test]
fn parse_smallint() {
        assert_expected_data_type("SMALLINT", DataType::Smallint);
}

#[test]
fn parse_integer() {
        assert_expected_data_type("INTEGER", DataType::Integer);
        assert_expected_data_type("INT", DataType::Int);
        assert_expected_data_type("BIGINT", DataType::Bigint);
}

#[test]
fn parse_int() {
        assert_expected_data_type("INT", DataType::Int);
        assert_expected_data_type("BIGINT", DataType::Bigint);
}

#[test]
fn parse_bigint() {
        assert_expected_data_type("BIGINT", DataType::Bigint);
}

#[test]
fn parse_float() {
        assert_expected_data_type("FLOAT", DataType::Float);
}

#[test]
fn parse_real() {
        assert_expected_data_type("REAL", DataType::Real);
}

#[test]
fn parse_double_precision() {
        assert_expected_data_type("DOUBLE PRECISION", DataType::DoublePrecision);
}

#[test]
fn data_types_parse_decimal_floating_point_type() {
        assert_expected_data_type("DECFLOAT", DataType::DecFloat(None));
        assert_expected_data_type("DECFLOAT(120)", DataType::DecFloat(Some(120)));
}

#[test]
fn data_types_parse_boolean_type() {
        assert_expected_data_type("BOOLEAN", DataType::Boolean);
}

#[test]
fn parse_date() {
        assert_expected_data_type("DATE", DataType::Date);
}

#[test]
fn parse_time() {
        assert_expected_data_type("TIME", DataType::Time(None, WithOrWithoutTimeZone::Unspecified));

        assert_expected_data_type(
            "TIME WITH TIME ZONE",
            DataType::Time(None, WithOrWithoutTimeZone::WithTimeZone)
        );

        assert_expected_data_type(
            "TIME WITHOUT TIME ZONE",
            DataType::Time(None, WithOrWithoutTimeZone::WithoutTimeZone)
        );

        assert_expected_data_type(
            "TIME(20)",
            DataType::Time(Some(20), WithOrWithoutTimeZone::Unspecified)
        );

        assert_expected_data_type(
            "TIME(20) WITH TIME ZONE",
            DataType::Time(Some(20), WithOrWithoutTimeZone::WithTimeZone)
        );

        assert_expected_data_type(
            "TIME(20) WITHOUT TIME ZONE",
            DataType::Time(Some(20), WithOrWithoutTimeZone::WithoutTimeZone)
        );
}

#[test]
fn parse_timestamp() {
        assert_expected_data_type(
            "TIMESTAMP",
            DataType::Timestamp(None, WithOrWithoutTimeZone::Unspecified)
        );

        assert_expected_data_type(
            "TIMESTAMP WITH TIME ZONE",
            DataType::Timestamp(None, WithOrWithoutTimeZone::WithTimeZone)
        );

        assert_expected_data_type(
            "TIMESTAMP",
            DataType::Timestamp(None, WithOrWithoutTimeZone::Unspecified)
        );

        assert_expected_data_type(
            "TIMESTAMP(20)",
            DataType::Timestamp(Some(20), WithOrWithoutTimeZone::Unspecified)
        );

        assert_expected_data_type(
            "TIMESTAMP(20) WITH TIME ZONE",
            DataType::Timestamp(Some(20), WithOrWithoutTimeZone::WithTimeZone)
        );

        assert_expected_data_type(
            "TIMESTAMP(20) WITHOUT TIME ZONE",
            DataType::Timestamp(Some(20), WithOrWithoutTimeZone::WithoutTimeZone)
        );
}

#[test]
fn test_parse_boolean() {
    let (remaining, parsed) = data_type(b"BOOLEAN").unwrap();
    assert!(remaining.is_empty());
    assert_eq!(DataType::Boolean, parsed);
    assert_eq!("BOOLEAN", String::from_utf8(parsed.to_sql()).unwrap());
}

#[test]
fn lowercase_keywords_render_upper_case() {
    let (remaining, parsed) = data_type(b"clob(20k characters)").unwrap();
    assert!(remaining.is_empty());
    assert_eq!(
        parsed,
        DataType::Clob(Some(
            CharacterLargeObjectLength::new(
                LargeObjectLength::new(20).with_multiplier(Multiplier::K)
            )
            .with_units(CharLengthUnits::Characters)
        ))
    );
    assert_eq!(parsed.to_sql(), b"CLOB(20K CHARACTERS)".to_vec());
}

#[test]
fn every_multiplier_renders() {
    let multipliers = [
        ("K", Multiplier::K),
        ("M", Multiplier::M),
        ("G", Multiplier::G),
        ("T", Multiplier::T),
        ("P", Multiplier::P),
    ];
    for (text, m) in multipliers {
        let input = format!("BLOB(7{text})");
        let (_, parsed) = data_type(input.as_bytes()).unwrap();
        assert_eq!(parsed, DataType::Blob(Some(LargeObjectLength::new(7).with_multiplier(m))));
        assert_eq!(parsed.to_sql(), input.into_bytes());
    }
}

#[test]
fn largest_precision_round_trips() {
    let (_, parsed) = data_type(b"NUMERIC(4294967295, 0)").unwrap();
    assert_eq!(parsed, DataType::Numeric(ExactNumberInfo::PrecisionAndScale(4294967295, 0)));
    assert_eq!(parsed.to_sql(), b"NUMERIC(4294967295, 0)".to_vec());
}

#[test]
fn keyword_prefix_without_boundary() {
    let (rest, parsed) = data_type(b"CHARX").unwrap();
    assert_eq!(parsed, DataType::Char(None));
    assert_eq!(rest, b"X");
}

#[test]
fn getters_return_parts() {
    let l = CharacterLength::new(5).with_units(CharLengthUnits::Octets);
    assert_eq!(l.length(), 5);
    assert_eq!(l.opt_units(), Some(CharLengthUnits::Octets));
    let lob = LargeObjectLength::new(3).with_multiplier(Multiplier::G);
    assert_eq!(lob.length(), 3);
    assert_eq!(lob.opt_multiplier(), Some(Multiplier::G));
    let clob = CharacterLargeObjectLength::new(lob);
    assert_eq!(clob.length(), lob);
    assert_eq!(clob.opt_units(), None);
    let _ = WithOrWithoutTimeZone::Unspecified;
}
