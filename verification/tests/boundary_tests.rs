use sql_boundary::boundary::CompileResult;
use sql_boundary::catalog::{
    build_plan, plan_databases, plan_document, plan_parsed, Conversion, Next, Plan,
};
use sql_boundary::error::{Argument, CompileError};
use sql_boundary::options::{ExcludeNamespaces, SchemaChecking, TranslationConfig};
use sql_boundary::request::{decode, prepare};
use sql_boundary::text::{find_nul, push_decimal};

const SCHEMA: &str =
    r#"{"s":{"c":{"bsonType":"object","properties":{"a":{"bsonType":"string"}}}}}"#;

fn names(plan: &Plan) -> Vec<(String, String)> {
    plan.entries
        .iter()
        .map(|e| (e.namespace.database.clone(), e.namespace.collection.clone()))
        .collect()
}

fn pair(a: &str, b: &str) -> (String, String) {
    (a.to_string(), b.to_string())
}

fn exactly_one(r: &CompileResult) -> bool {
    r.result.is_some() != r.error.is_some()
}

#[test]
fn null_sql_is_reported_by_name() {
    let r = prepare(None, Some(SCHEMA.as_bytes()));
    match r {
        Err(CompileError::NullArgument { argument }) => assert_eq!(argument, Argument::Sql),
        _ => panic!("expected a null-argument error"),
    }
    let out = CompileResult::from_outcome(Err(CompileError::NullArgument {
        argument: Argument::Sql,
    }));
    assert_eq!(out.error.as_deref(), Some("SQL string is null"));
    assert!(out.result.is_none());
}

#[test]
fn null_sql_comes_before_null_schema() {
    match prepare(None, None) {
        Err(CompileError::NullArgument { argument }) => assert_eq!(argument, Argument::Sql),
        _ => panic!("expected a null-argument error"),
    }
}

#[test]
fn null_schema_is_reported_by_name() {
    let r = prepare(Some(b"SELECT 1"), None);
    match r {
        Err(e @ CompileError::NullArgument { argument: Argument::Schema }) => {
            assert_eq!(e.message(), "Schema JSON is null");
        }
        _ => panic!("expected a null-argument error"),
    }
}

#[test]
fn invalid_utf8_in_sql_is_an_encoding_error() {
    let bad: [u8; 3] = [b'a', 0xff, b'b'];
    match prepare(Some(&bad), Some(SCHEMA.as_bytes())) {
        Err(e @ CompileError::Encoding { argument: Argument::Sql, .. }) => {
            let expected = format!(
                "Failed to convert SQL string: {}",
                std::str::from_utf8(&bad).unwrap_err()
            );
            assert_eq!(e.message(), expected);
        }
        _ => panic!("expected an encoding error for the query"),
    }
}

#[test]
fn invalid_utf8_in_schema_is_an_encoding_error() {
    let bad: [u8; 2] = [0xc3, 0x28];
    match prepare(Some(b"SELECT 1"), Some(&bad)) {
        Err(e @ CompileError::Encoding { argument: Argument::Schema, .. }) => {
            let expected = format!(
                "Failed to convert schema string: {}",
                std::str::from_utf8(&bad).unwrap_err()
            );
            assert_eq!(e.message(), expected);
        }
        _ => panic!("expected an encoding error for the schema"),
    }
}

#[test]
fn sql_encoding_is_checked_before_schema_encoding() {
    let bad: [u8; 1] = [0xff];
    match prepare(Some(&bad), Some(&bad)) {
        Err(CompileError::Encoding { argument, .. }) => assert_eq!(argument, Argument::Sql),
        _ => panic!("expected an encoding error"),
    }
}

#[test]
fn decode_reads_multibyte_text() {
    let text = "héllo wörld";
    match decode(Argument::Sql, text.as_bytes()) {
        Ok(t) => assert_eq!(t, text),
        Err(_) => panic!("valid text was refused"),
    }
}

#[test]
fn malformed_json_is_reported_with_the_parser_message() {
    let text = "{not json";
    let parser = serde_json::from_str::<serde_json::Value>(text).unwrap_err();
    match build_plan(text) {
        Err(e @ CompileError::MalformedJson { .. }) => {
            assert_eq!(e.message(), format!("Failed to parse schema JSON: {}", parser));
        }
        _ => panic!("expected a malformed-JSON error"),
    }
}

#[test]
fn empty_schema_text_is_malformed() {
    assert!(matches!(build_plan(""), Err(CompileError::MalformedJson { .. })));
}

#[test]
fn root_that_is_no_object_is_a_shape_error() {
    for text in ["[1,2]", "3", "\"s\"", "null", "true"] {
        match build_plan(text) {
            Err(e @ CompileError::RootShape) => {
                assert_eq!(e.message(), "Schema JSON is not an object");
            }
            _ => panic!("expected a shape error for {}", text),
        }
    }
}

#[test]
fn database_that_is_no_object_blocks_the_plan() {
    let plan = build_plan(r#"{"db": 5}"#).unwrap();
    assert!(plan.entries.is_empty());
    assert_eq!(plan.blocked.as_deref(), Some("db"));
    match plan.start() {
        Next::Fail { error: e @ CompileError::DatabaseShape { .. } } => {
            assert_eq!(e.message(), "Collections for database db is not an object");
        }
        _ => panic!("expected a shape error naming the database"),
    }
}

#[test]
fn empty_document_goes_straight_to_translation() {
    let plan = build_plan("{}").unwrap();
    assert!(plan.entries.is_empty());
    assert!(plan.blocked.is_none());
    assert!(matches!(plan.start(), Next::Translate));
}

#[test]
fn database_without_collections_gives_no_entries() {
    let plan = build_plan(r#"{"a":{}}"#).unwrap();
    assert!(plan.entries.is_empty());
    assert!(matches!(plan.start(), Next::Translate));
}

#[test]
fn entries_cover_every_namespace_in_key_order() {
    let plan = build_plan(r#"{"b":{"y":{}},"a":{"x":{"k":1},"w":[]}}"#).unwrap();
    assert_eq!(names(&plan), vec![pair("a", "w"), pair("a", "x"), pair("b", "y")]);
    assert!(plan.blocked.is_none());
    let x = serde_json::from_str::<serde_json::Value>(r#"{"k":1}"#).unwrap();
    assert_eq!(plan.entries[1].document, x);
    assert_eq!(plan.entries[0].document, serde_json::Value::Array(Vec::new()));
}

#[test]
fn repeated_key_keeps_the_last_document() {
    let plan = build_plan(r#"{"a":{"x":1,"x":2}}"#).unwrap();
    assert_eq!(names(&plan), vec![pair("a", "x")]);
    assert_eq!(plan.entries[0].document, serde_json::Value::from(2));
}

#[test]
fn entries_before_a_bad_database_are_kept() {
    let plan = build_plan(r#"{"a":{"x":{}},"b":3,"c":{"z":{}}}"#).unwrap();
    assert_eq!(names(&plan), vec![pair("a", "x")]);
    assert_eq!(plan.blocked.as_deref(), Some("b"));
    assert!(matches!(plan.start(), Next::Convert { index: 0 }));
    match plan.advance(0, Conversion::Converted) {
        Next::Fail { error: CompileError::DatabaseShape { database } } => {
            assert_eq!(database, "b");
        }
        _ => panic!("expected the shape error once the entries are converted"),
    }
}

#[test]
fn failed_conversion_comes_before_a_later_shape_error() {
    let plan = build_plan(r#"{"a":{"x":{}},"b":3}"#).unwrap();
    match plan.advance(0, Conversion::NoCounterpart { cause: "bad".to_string() }) {
        Next::Fail { error: e @ CompileError::SchemaConversion { .. } } => {
            assert_eq!(e.message(), "Failed to convert schema for a.x: bad");
        }
        _ => panic!("expected a conversion error"),
    }
}

#[test]
fn plan_document_takes_a_parsed_value() {
    let root = serde_json::from_str::<serde_json::Value>(SCHEMA).unwrap();
    let plan = plan_document(&root).unwrap();
    assert_eq!(names(&plan), vec![pair("s", "c")]);
    assert_eq!(plan.entries[0].document, root["s"]["c"]);
    let not_object = serde_json::Value::Bool(true);
    assert!(matches!(plan_document(&not_object), Err(CompileError::RootShape)));
}

#[test]
fn conversion_failure_names_database_and_collection() {
    let plan = build_plan(SCHEMA).unwrap();
    match plan.advance(0, Conversion::NoCounterpart { cause: "boom".to_string() }) {
        Next::Fail { error } => {
            let message = error.message();
            assert_eq!(message, "Failed to convert schema for s.c: boom");
            assert!(message.contains("s"));
            assert!(message.contains("c"));
        }
        _ => panic!("expected a failure"),
    }
}

#[test]
fn schema_parse_failure_names_database_and_collection() {
    let plan = build_plan(SCHEMA).unwrap();
    match plan.advance(0, Conversion::NotASchema { cause: "boom".to_string() }) {
        Next::Fail { error: e @ CompileError::SchemaParse { .. } } => {
            assert_eq!(e.message(), "Failed to parse schema for s.c: boom");
        }
        _ => panic!("expected a failure"),
    }
}

#[test]
fn conversions_walk_the_entries_in_order() {
    let plan = build_plan(r#"{"a":{"x":{},"y":{}}}"#).unwrap();
    assert!(matches!(plan.start(), Next::Convert { index: 0 }));
    assert!(matches!(plan.advance(0, Conversion::Converted), Next::Convert { index: 1 }));
    assert!(matches!(plan.advance(1, Conversion::Converted), Next::Translate));
}

#[test]
fn prepare_hands_back_query_and_entries() {
    let request = prepare(Some(b"SELECT a FROM s.c"), Some(SCHEMA.as_bytes())).unwrap();
    assert_eq!(request.sql, "SELECT a FROM s.c");
    assert_eq!(names(&request.plan), vec![pair("s", "c")]);
    assert!(request.plan.blocked.is_none());
}

#[test]
fn prepare_twice_gives_the_same_request() {
    let a = prepare(Some(b"SELECT a FROM s.c"), Some(SCHEMA.as_bytes())).unwrap();
    let b = prepare(Some(b"SELECT a FROM s.c"), Some(SCHEMA.as_bytes())).unwrap();
    assert_eq!(a.sql, b.sql);
    assert_eq!(names(&a.plan), names(&b.plan));
    assert_eq!(a.plan.entries[0].document, b.plan.entries[0].document);
}

#[test]
fn prepare_reports_malformed_schema() {
    assert!(matches!(
        prepare(Some(b"SELECT 1"), Some(b"{")),
        Err(CompileError::MalformedJson { .. })
    ));
}

#[test]
fn payload_goes_out_unchanged() {
    let payload = r#"[{"$project":{"a":"$a"}}]"#.to_string();
    let out = CompileResult::from_outcome(Ok(payload.clone()));
    assert_eq!(out.result, Some(payload));
    assert!(out.error.is_none());
    assert!(exactly_one(&out));
}

#[test]
fn same_payload_twice_gives_the_same_result() {
    let a = CompileResult::from_outcome(Ok("[]".to_string()));
    let b = CompileResult::from_outcome(Ok("[]".to_string()));
    assert_eq!(a.result, b.result);
    assert_eq!(a.error, b.error);
}

#[test]
fn payload_with_a_zero_byte_becomes_a_diagnostic() {
    let out = CompileResult::from_outcome(Ok("ab\0cd".to_string()));
    assert!(out.result.is_none());
    assert_eq!(
        out.error.as_deref(),
        Some("Failed to create C string: nul byte found in provided data at position: 2")
    );
    assert!(exactly_one(&out));
}

#[test]
fn zero_byte_position_counts_bytes() {
    let out = CompileResult::from_outcome(Ok("ééééé12\0".to_string()));
    assert_eq!(
        out.error.as_deref(),
        Some("Failed to create C string: nul byte found in provided data at position: 12")
    );
}

#[test]
fn diagnostic_with_a_zero_byte_is_replaced() {
    let out = CompileResult::with_error("x\0");
    assert!(out.result.is_none());
    assert_eq!(
        out.error.as_deref(),
        Some("Failed to create C string: nul byte found in provided data at position: 1")
    );
}

#[test]
fn error_outcome_with_a_zero_byte_in_a_name_still_gives_one_text() {
    let plan = build_plan(r#"{"a\u0000b": 1}"#).unwrap();
    let error = match plan.start() {
        Next::Fail { error } => error,
        _ => panic!("expected a failure"),
    };
    let out = CompileResult::from_outcome(Err(error));
    assert!(exactly_one(&out));
    assert_eq!(
        out.error.as_deref(),
        Some("Failed to create C string: nul byte found in provided data at position: 26")
    );
}

#[test]
fn with_error_keeps_the_message() {
    let out = CompileResult::with_error("Schema JSON is not an object");
    assert_eq!(out.error.as_deref(), Some("Schema JSON is not an object"));
    assert!(out.result.is_none());
}

#[test]
fn new_result_is_empty() {
    let out = CompileResult::new();
    assert!(out.result.is_none());
    assert!(out.error.is_none());
}

#[test]
fn every_outcome_gives_exactly_one_text() {
    let outcomes: Vec<Result<String, CompileError>> = vec![
        Ok(String::new()),
        Ok("\0".to_string()),
        Err(CompileError::RootShape),
        Err(CompileError::Translation { cause: "no such \0 thing".to_string() }),
        Err(CompileError::StringConstruction { position: 0 }),
    ];
    for outcome in outcomes {
        let out = CompileResult::from_outcome(outcome);
        assert!(exactly_one(&out));
        let text = out.result.or(out.error).unwrap();
        assert!(!text.as_bytes().contains(&0u8));
    }
}

#[test]
fn each_error_has_its_message() {
    let s = |t: &str| t.to_string();
    assert_eq!(
        CompileError::Translation { cause: s("unknown namespace s.missing") }.message(),
        "Failed to translate SQL: unknown namespace s.missing"
    );
    assert_eq!(
        CompileError::Serialization { cause: s("x") }.message(),
        "Failed to serialize pipeline: x"
    );
    assert_eq!(
        CompileError::MalformedJson { cause: s("eof") }.message(),
        "Failed to parse schema JSON: eof"
    );
    assert_eq!(
        CompileError::Encoding { argument: Argument::Schema, cause: s("bad") }.message(),
        "Failed to convert schema string: bad"
    );
    assert_eq!(
        CompileError::DatabaseShape { database: s("") }.message(),
        "Collections for database  is not an object"
    );
    assert_eq!(
        CompileError::StringConstruction { position: 0 }.message(),
        "Failed to create C string: nul byte found in provided data at position: 0"
    );
    assert_eq!(
        CompileError::StringConstruction { position: 9070 }.message(),
        "Failed to create C string: nul byte found in provided data at position: 9070"
    );
}

#[test]
fn find_nul_gives_the_first_zero_byte() {
    assert_eq!(find_nul(b""), None);
    assert_eq!(find_nul(b"abc"), None);
    assert_eq!(find_nul(b"\0"), Some(0));
    assert_eq!(find_nul(b"ab\0c\0"), Some(2));
}

#[test]
fn push_decimal_writes_numerals() {
    for n in [0usize, 7, 9, 10, 11, 99, 100, 12345, usize::MAX] {
        let mut out = String::from("n=");
        push_decimal(&mut out, n);
        assert_eq!(out, format!("n={}", n));
    }
}

#[test]
fn standard_configuration_is_fixed() {
    let config = TranslationConfig::standard();
    assert_eq!(config.default_database, "default_db");
    assert_eq!(config.exclude_namespaces, ExcludeNamespaces::Include);
    assert_eq!(config.schema_checking, SchemaChecking::Relaxed);
}

#[test]
fn plan_databases_walks_pairs_in_the_given_order() {
    let one = serde_json::from_str::<serde_json::Value>(r#"{"p":1,"q":[2]}"#).unwrap();
    let two = serde_json::from_str::<serde_json::Value>(r#"{"r":null}"#).unwrap();
    let bad = serde_json::Value::from("text");
    let (z, a, m, n) = ("z".to_string(), "a".to_string(), "m".to_string(), "n".to_string());
    let plan = plan_databases(&vec![(&z, &one), (&a, &two), (&m, &bad), (&n, &two)]);
    assert_eq!(names(&plan), vec![pair("z", "p"), pair("z", "q"), pair("a", "r")]);
    assert_eq!(plan.blocked.as_deref(), Some("m"));
    assert_eq!(plan.entries[0].document, serde_json::Value::from(1));
    assert_eq!(plan.entries[2].document, serde_json::Value::Null);
    let plan = plan_databases(&Vec::new());
    assert!(plan.entries.is_empty());
    assert!(plan.blocked.is_none());
}

#[test]
fn plan_parsed_takes_the_parser_outcome() {
    let failed = serde_json::from_str::<serde_json::Value>("]");
    let text = failed.as_ref().unwrap_err().to_string();
    match plan_parsed(failed) {
        Err(CompileError::MalformedJson { cause }) => assert_eq!(cause, text),
        _ => panic!("expected a malformed-JSON error"),
    }
    let parsed = serde_json::from_str::<serde_json::Value>(r#"{"d":{"c":true}}"#);
    let plan = plan_parsed(parsed).unwrap();
    assert_eq!(names(&plan), vec![pair("d", "c")]);
    assert_eq!(plan.entries[0].document, serde_json::Value::Bool(true));
}

#[test]
fn namespaces_of_a_plan_differ_pairwise() {
    let plan = build_plan(r#"{"a":{"x":1,"y":2,"x":3},"b":{"x":4},"a":{"x":5,"z":6}}"#).unwrap();
    let all = names(&plan);
    assert_eq!(all, vec![pair("a", "x"), pair("a", "z"), pair("b", "x")]);
    for i in 0..all.len() {
        for j in (i + 1)..all.len() {
            assert_ne!(all[i], all[j]);
        }
    }
}
