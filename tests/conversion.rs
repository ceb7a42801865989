use json2toml::{
    check_toml_document, contains_null, convert_json_to_toml, convert_toml_to_json,
    format_for_extension, read_json, read_toml, select_format, write_json, write_toml,
    ConvertError, DocValue, Format, SerializeError,
};

fn json_of(text: &str) -> serde_json::Value {
    serde_json::from_str(text).unwrap()
}

#[test]
fn test_simple_toml_to_json_conversion() {
    let toml_content = "name = \"test\"\nversion = \"1.0.0\"\ndebug = true";
    let input = format!("{}\n", toml_content);
    let result = convert_toml_to_json(&input, false);
    assert!(result.is_ok());
}

#[test]
fn test_nested_toml_to_json_conversion() {
    let toml_content = "[package]\nname = \"test-package\"\nversion = \"1.0.0\"\nauthors = [\"author1\", \"author2\"]\n\n[dependencies]\nserde = \"1.0\"\ntokio = \"1.0\"";
    let input = format!("{}\n", toml_content);
    let result = convert_toml_to_json(&input, false);
    assert!(result.is_ok());
}

#[test]
fn test_pretty_json_output() {
    let toml_content = "name = \"test\"\nversion = \"1.0.0\"";
    let input = format!("{}\n", toml_content);
    let result = convert_toml_to_json(&input, true);
    assert!(result.is_ok());
}

#[test]
fn test_simple_json_to_toml_conversion() {
    let json_content = "{\"name\": \"test\", \"version\": \"1.0.0\", \"debug\": true}";
    let input = format!("{}\n", json_content);
    let result = convert_json_to_toml(&input, false);
    assert!(result.is_ok());
}

#[test]
fn test_nested_json_to_toml_conversion() {
    let json_content = r#"{
            "package": {
                "name": "test-package",
                "version": "1.0.0",
                "authors": ["author1", "author2"]
            },
            "dependencies": {
                "serde": "1.0",
                "tokio": "1.0"
            }
        }"#;
    let input = format!("{}\n", json_content);
    let result = convert_json_to_toml(&input, false);
    assert!(result.is_ok());
}

#[test]
fn json_to_toml_writes_each_pair() {
    let out = convert_json_to_toml("{\"name\":\"test\",\"version\":\"1.0.0\",\"debug\":true}", false).unwrap();
    assert!(out.contains("name = \"test\""));
    assert!(out.contains("version = \"1.0.0\""));
    assert!(out.contains("debug = true"));
}

#[test]
fn json_to_toml_ignores_pretty_flag() {
    let text = "{\"a\": 1, \"b\": {\"c\": [1, 2]}}";
    assert_eq!(convert_json_to_toml(text, true), convert_json_to_toml(text, false));
}

const PACKAGE_TOML: &str = "[package]\nname = \"test-package\"\nversion = \"1.0.0\"\nauthors = [\"author1\", \"author2\"]\n";

#[test]
fn toml_to_compact_json() {
    let out = convert_toml_to_json(PACKAGE_TOML, false).unwrap();
    assert!(!out.contains('\n'));
    assert_eq!(
        json_of(&out),
        json_of("{\"package\":{\"name\":\"test-package\",\"version\":\"1.0.0\",\"authors\":[\"author1\",\"author2\"]}}")
    );
    assert_eq!(
        out,
        "{\"package\":{\"authors\":[\"author1\",\"author2\"],\"name\":\"test-package\",\"version\":\"1.0.0\"}}"
    );
}

#[test]
fn toml_to_pretty_json() {
    let pretty = convert_toml_to_json(PACKAGE_TOML, true).unwrap();
    let compact = convert_toml_to_json(PACKAGE_TOML, false).unwrap();
    assert!(pretty.lines().count() > 1);
    assert!(pretty.contains("\n  \"package\": {"));
    assert_eq!(json_of(&pretty), json_of(&compact));
}

#[test]
fn yaml_path_is_unsupported() {
    assert_eq!(select_format("config.yaml"), Err(ConvertError::UnsupportedFormat));
}

#[test]
fn path_without_extension_is_unsupported() {
    assert_eq!(select_format("Makefile"), Err(ConvertError::UnsupportedFormat));
    assert_eq!(select_format("dir.json/config"), Err(ConvertError::UnsupportedFormat));
    assert_eq!(select_format(".json"), Err(ConvertError::UnsupportedFormat));
}

#[test]
fn extension_selects_direction() {
    assert_eq!(select_format("config.json"), Ok(Format::Json));
    assert_eq!(select_format("dir/Cargo.toml"), Ok(Format::Toml));
    assert_eq!(select_format("CONFIG.JSON"), Ok(Format::Json));
    assert_eq!(select_format("a.b.Toml"), Ok(Format::Toml));
}

#[test]
fn extension_names_compare_exactly() {
    assert_eq!(format_for_extension("json"), Ok(Format::Json));
    assert_eq!(format_for_extension("toml"), Ok(Format::Toml));
    assert_eq!(format_for_extension("JSON"), Err(ConvertError::UnsupportedFormat));
    assert_eq!(format_for_extension(""), Err(ConvertError::UnsupportedFormat));
    assert_eq!(format_for_extension("jso"), Err(ConvertError::UnsupportedFormat));
}

#[test]
fn null_value_is_refused() {
    assert_eq!(
        convert_json_to_toml("{\"a\": null}", false),
        Err(ConvertError::Serialize(SerializeError::NullValue))
    );
}

#[test]
fn nested_null_is_refused() {
    assert_eq!(
        convert_json_to_toml("{\"a\": {\"b\": [1, null]}}", false),
        Err(ConvertError::Serialize(SerializeError::NullValue))
    );
}

#[test]
fn array_root_is_refused() {
    assert_eq!(
        convert_json_to_toml("[1,2,3]", false),
        Err(ConvertError::Serialize(SerializeError::NonTableRoot))
    );
}

#[test]
fn scalar_root_is_refused() {
    assert_eq!(
        convert_json_to_toml("\"hello\"", false),
        Err(ConvertError::Serialize(SerializeError::NonTableRoot))
    );
    assert_eq!(
        convert_json_to_toml("null", false),
        Err(ConvertError::Serialize(SerializeError::NonTableRoot))
    );
}

#[test]
fn malformed_json_is_a_parse_error() {
    assert!(matches!(convert_json_to_toml("{\"a\": ", false), Err(ConvertError::Parse(_))));
    assert!(matches!(convert_json_to_toml("{} trailing", false), Err(ConvertError::Parse(_))));
}

#[test]
fn malformed_toml_is_a_parse_error() {
    assert!(matches!(convert_toml_to_json("name = \"open", false), Err(ConvertError::Parse(_))));
    assert!(matches!(convert_toml_to_json("a = 1\na = 2\n", true), Err(ConvertError::Parse(_))));
}

#[test]
fn integer_out_of_toml_range_is_a_codec_error() {
    assert!(matches!(
        convert_json_to_toml("{\"big\": 18446744073709551615}", false),
        Err(ConvertError::Serialize(SerializeError::Codec(_)))
    ));
}

#[test]
fn json_toml_json_round_trip() {
    let original = "{\"name\":\"x\",\"n\":-42,\"f\":1.5,\"ok\":false,\"list\":[1,2,3],\"mixed\":[\"a\",{\"k\":\"v\"}],\"t\":{\"inner\":{\"deep\":\"y\"}}}";
    let toml_text = convert_json_to_toml(original, false).unwrap();
    let back = convert_toml_to_json(&toml_text, false).unwrap();
    assert_eq!(json_of(&back), json_of(original));
}

#[test]
fn writing_twice_gives_identical_text() {
    let doc = read_json("{\"b\": [1, 2], \"a\": {\"c\": \"d\"}}").unwrap();
    assert_eq!(write_toml(&doc).unwrap(), write_toml(&doc).unwrap());
    assert_eq!(write_json(&doc, true).unwrap(), write_json(&doc, true).unwrap());
    assert_eq!(write_json(&doc, false).unwrap(), write_json(&doc, false).unwrap());
}

#[test]
fn read_json_builds_the_tree() {
    let doc = read_json("{\"a\": [true, \"s\"]}").unwrap();
    match doc {
        DocValue::Table(entries) => {
            assert_eq!(entries.len(), 1);
            assert_eq!(entries[0].0, "a");
            match &entries[0].1 {
                DocValue::Array(items) => {
                    assert!(matches!(items[0], DocValue::Boolean(true)));
                    assert!(matches!(&items[1], DocValue::String(s) if s == "s"));
                }
                other => panic!("expected an array, got {:?}", other),
            }
        }
        other => panic!("expected a table, got {:?}", other),
    }
}

#[test]
fn read_toml_gives_a_table() {
    let doc = read_toml("x = 1\n").unwrap();
    assert!(matches!(doc, DocValue::Table(_)));
    let empty = read_toml("").unwrap();
    assert!(matches!(empty, DocValue::Table(ref e) if e.is_empty()));
}

#[test]
fn write_json_renders_hand_built_tree() {
    let doc = DocValue::Table(vec![
        ("k".to_string(), DocValue::Number(serde_json::Number::from(7))),
        ("l".to_string(), DocValue::Array(vec![DocValue::Null, DocValue::Boolean(true)])),
    ]);
    assert_eq!(write_json(&doc, false).unwrap(), "{\"k\":7,\"l\":[null,true]}");
    assert_eq!(write_toml(&doc), Err(ConvertError::Serialize(SerializeError::NullValue)));
}

#[test]
fn write_toml_renders_hand_built_tree() {
    let doc = DocValue::Table(vec![("k".to_string(), DocValue::String("v".to_string()))]);
    assert_eq!(write_toml(&doc).unwrap(), "k = \"v\"\n");
}

#[test]
fn null_detection_reaches_every_level() {
    let clean = DocValue::Table(vec![(
        "a".to_string(),
        DocValue::Array(vec![DocValue::Table(vec![("b".to_string(), DocValue::Boolean(false))])]),
    )]);
    assert!(!contains_null(&clean));
    assert_eq!(check_toml_document(&clean), Ok(()));
    let dirty = DocValue::Table(vec![(
        "a".to_string(),
        DocValue::Array(vec![DocValue::Table(vec![("b".to_string(), DocValue::Null)])]),
    )]);
    assert!(contains_null(&dirty));
    assert_eq!(check_toml_document(&dirty), Err(SerializeError::NullValue));
    assert!(contains_null(&DocValue::Null));
    assert_eq!(check_toml_document(&DocValue::Null), Err(SerializeError::NonTableRoot));
    assert_eq!(check_toml_document(&DocValue::Array(vec![])), Err(SerializeError::NonTableRoot));
}
