use table_export::calendar::CivilTime;
use table_export::category::{classify, TypeCategory};
use table_export::cell::{decode, recover, serialize_cell, serialize_value, RawValue};
use table_export::text::{chars_of, fold_char, folded_chars, render_i64, same_text};

fn moment(year: i32, month: u32, day: u32, hour: u32, minute: u32, second: u32, micro: u32) -> CivilTime {
    CivilTime { year, month, day, hour, minute, second, micro }
}

/// The family that a tag has when it is lowered with the full Unicode case
/// mapping and compared with the lists of names.
fn family_by_unicode_lowering(tag: &str) -> TypeCategory {
    match tag.to_lowercase().as_str() {
        "int" | "integer" | "bigint" | "smallint" => TypeCategory::Integer,
        "float" | "double" | "decimal" => TypeCategory::Float,
        "bool" | "boolean" => TypeCategory::Boolean,
        "text" | "varchar" | "char" | "longtext" => TypeCategory::Text,
        "json" => TypeCategory::Json,
        "datetime" | "timestamp" => TypeCategory::DateTime,
        _ => TypeCategory::Unsupported,
    }
}

#[test]
fn integers_render_as_decimal_numerals() {
    assert_eq!(render_i64(0), "0");
    assert_eq!(render_i64(7), "7");
    assert_eq!(render_i64(10), "10");
    assert_eq!(render_i64(42), "42");
    assert_eq!(render_i64(-1), "-1");
    assert_eq!(render_i64(-120), "-120");
    assert_eq!(render_i64(1_000_000), "1000000");
}

#[test]
fn integer_limits_render_in_full() {
    assert_eq!(render_i64(i64::MAX), "9223372036854775807");
    assert_eq!(render_i64(i64::MIN), "-9223372036854775808");
}

#[test]
fn integers_render_as_std_does() {
    let samples: [i64; 9] = [0, 1, -1, 9, 99, -100, 123456789, i64::MAX - 1, i64::MIN + 1];
    for v in samples {
        assert_eq!(render_i64(v), v.to_string());
    }
}

#[test]
fn folding_touches_ascii_capitals_only() {
    assert_eq!(fold_char('A'), 'a');
    assert_eq!(fold_char('Z'), 'z');
    assert_eq!(fold_char('m'), 'm');
    assert_eq!(fold_char('@'), '@');
    assert_eq!(fold_char('['), '[');
    assert_eq!(fold_char('\u{c9}'), '\u{c9}');
    assert_eq!(folded_chars("VarChar(8)"), vec!['v', 'a', 'r', 'c', 'h', 'a', 'r', '(', '8', ')']);
}

#[test]
fn characters_are_read_in_order() {
    assert_eq!(chars_of(""), Vec::<char>::new());
    assert_eq!(chars_of("a\u{e9}z"), vec!['a', '\u{e9}', 'z']);
    assert!(same_text(&vec!['i', 'n', 't'], "int"));
    assert!(!same_text(&vec!['i', 'n', 't'], "in"));
    assert!(!same_text(&vec!['i', 'n'], "int"));
    assert!(!same_text(&vec!['i', 'n', 'T'], "int"));
    assert!(same_text(&Vec::new(), ""));
}

#[test]
fn every_known_tag_has_its_family() {
    for tag in ["int", "integer", "bigint", "smallint"] {
        assert_eq!(classify(tag), TypeCategory::Integer);
    }
    for tag in ["float", "double", "decimal"] {
        assert_eq!(classify(tag), TypeCategory::Float);
    }
    for tag in ["bool", "boolean"] {
        assert_eq!(classify(tag), TypeCategory::Boolean);
    }
    for tag in ["text", "varchar", "char", "longtext"] {
        assert_eq!(classify(tag), TypeCategory::Text);
    }
    assert_eq!(classify("json"), TypeCategory::Json);
    for tag in ["datetime", "timestamp"] {
        assert_eq!(classify(tag), TypeCategory::DateTime);
    }
}

#[test]
fn tags_are_matched_without_regard_to_case() {
    assert_eq!(classify("INT"), TypeCategory::Integer);
    assert_eq!(classify("BigInt"), TypeCategory::Integer);
    assert_eq!(classify("DOUBLE"), TypeCategory::Float);
    assert_eq!(classify("Boolean"), TypeCategory::Boolean);
    assert_eq!(classify("VARCHAR"), TypeCategory::Text);
    assert_eq!(classify("Json"), TypeCategory::Json);
    assert_eq!(classify("DATETIME"), TypeCategory::DateTime);
    assert_eq!(classify("TimeStamp"), TypeCategory::DateTime);
}

#[test]
fn other_tags_are_unsupported() {
    for tag in ["geometry", "GEOMETRY", "", " int", "int ", "int(11)", "TINYINT", "INT UNSIGNED", "blob", "date", "jsonb"] {
        assert_eq!(classify(tag), TypeCategory::Unsupported);
    }
}

#[test]
fn families_agree_with_unicode_lowering() {
    let tags = [
        "int", "INTEGER", "BigInt", "smallINT", "Float", "DOUBLE", "decimal", "BOOL", "Boolean",
        "TEXT", "VarChar", "CHAR", "LongText", "JSON", "DateTime", "TIMESTAMP", "geometry",
        "\u{130}nt", "b\u{130}g\u{130}nt", "\u{17f}mallint", "te\u{212a}t", "\u{c9}t\u{e9}", "",
        "In\u{1e6}", "JSON\u{0}", "\u{ff29}nt",
    ];
    for tag in tags {
        assert_eq!(classify(tag), family_by_unicode_lowering(tag), "tag {:?}", tag);
    }
}

#[test]
fn integer_cell_is_its_numeral() {
    assert_eq!(serialize_cell("int", &RawValue::Integer(42)), "42");
    assert_eq!(serialize_cell("BIGINT", &RawValue::Integer(-9000000000)), "-9000000000");
    assert_eq!(serialize_cell("smallint", &RawValue::Integer(0)), "0");
}

#[test]
fn boolean_cell_is_true_or_false() {
    assert_eq!(serialize_cell("boolean", &RawValue::Boolean(true)), "true");
    assert_eq!(serialize_cell("bool", &RawValue::Boolean(false)), "false");
}

#[test]
fn text_cell_passes_through() {
    assert_eq!(serialize_cell("varchar", &RawValue::Text(String::from("hello, world"))), "hello, world");
    assert_eq!(serialize_cell("text", &RawValue::Text(String::new())), "");
    assert_eq!(serialize_cell("LONGTEXT", &RawValue::Text(String::from("  \u{e9}\n"))), "  \u{e9}\n");
}

#[test]
fn float_cell_shows_the_default_form() {
    assert_eq!(serialize_cell("double", &RawValue::Float(1.5f64.to_string())), "1.5");
    assert_eq!(serialize_cell("float", &RawValue::Float(3f64.to_string())), "3");
    assert_eq!(serialize_cell("DECIMAL", &RawValue::Float((-0.25f64).to_string())), "-0.25");
}

#[test]
fn json_cell_is_compact_and_canonical() {
    let source = String::from("{ \"b\" : 1,\n  \"a\" : [ true, null, \"x\" ] }");
    assert_eq!(serialize_cell("json", &RawValue::Json(source)), "{\"a\":[true,null,\"x\"],\"b\":1}");
    assert_eq!(serialize_cell("JSON", &RawValue::Json(String::from(" 12 "))), "12");
    assert_eq!(serialize_cell("json", &RawValue::Json(String::from("\"\\u0041\""))), "\"A\"");
}

#[test]
fn json_cell_agrees_with_serde_json() {
    let source = "{\"k\": {\"z\": [1, 2.5, -3], \"y\": \"t\\n\"}, \"e\": {}}";
    let value: serde_json::Value = serde_json::from_str(source).unwrap();
    assert_eq!(serialize_cell("json", &RawValue::Json(String::from(source))), value.to_string());
}

#[test]
fn malformed_json_leaves_the_cell_empty() {
    assert_eq!(serialize_cell("json", &RawValue::Json(String::from("{\"a\": "))), "");
    assert_eq!(serialize_cell("json", &RawValue::Json(String::new())), "");
    assert_eq!(serialize_cell("json", &RawValue::Json(String::from("1 2"))), "");
}

#[test]
fn datetime_cell_has_the_fixed_form() {
    let t = moment(2024, 3, 5, 7, 8, 9, 0);
    assert_eq!(serialize_cell("datetime", &RawValue::DateTime(t)), "2024-03-05 07:08:09");
    let t = moment(2015, 6, 30, 23, 59, 59, 500_000);
    assert_eq!(serialize_cell("TIMESTAMP", &RawValue::DateTime(t)), "2015-06-30 23:59:59.500");
    let t = moment(1999, 12, 31, 0, 0, 0, 123_456);
    assert_eq!(serialize_cell("timestamp", &RawValue::DateTime(t)), "1999-12-31 00:00:00.123456");
}

#[test]
fn datetime_cell_agrees_with_chrono() {
    let expected = chrono::NaiveDate::from_ymd_opt(2000, 2, 29)
        .unwrap()
        .and_hms_micro_opt(13, 4, 5, 10)
        .unwrap()
        .to_string();
    let t = moment(2000, 2, 29, 13, 4, 5, 10);
    assert_eq!(serialize_cell("datetime", &RawValue::DateTime(t)), expected);
}

#[test]
fn impossible_datetime_leaves_the_cell_empty() {
    assert_eq!(serialize_cell("datetime", &RawValue::DateTime(moment(2023, 2, 30, 0, 0, 0, 0))), "");
    assert_eq!(serialize_cell("datetime", &RawValue::DateTime(moment(2023, 13, 1, 0, 0, 0, 0))), "");
    assert_eq!(serialize_cell("datetime", &RawValue::DateTime(moment(2023, 1, 1, 24, 0, 0, 0))), "");
    assert_eq!(serialize_cell("datetime", &RawValue::DateTime(moment(2023, 1, 1, 0, 60, 0, 0))), "");
    assert_eq!(serialize_cell("datetime", &RawValue::DateTime(moment(2023, 1, 1, 0, 0, 0, 2_000_000))), "");
    assert_eq!(serialize_cell("datetime", &RawValue::DateTime(moment(0, 0, 0, 0, 0, 0, 0))), "");
}

#[test]
fn failed_decode_leaves_the_cell_empty() {
    assert_eq!(serialize_cell("int", &RawValue::Null), "");
    assert_eq!(serialize_cell("int", &RawValue::Text(String::from("12"))), "");
    assert_eq!(serialize_cell("bool", &RawValue::Integer(1)), "");
    assert_eq!(serialize_cell("text", &RawValue::Integer(1)), "");
    assert_eq!(serialize_cell("float", &RawValue::Integer(1)), "");
    assert_eq!(serialize_cell("json", &RawValue::Text(String::from("{}"))), "");
    assert_eq!(serialize_cell("datetime", &RawValue::Text(String::from("2024-01-01 00:00:00"))), "");
    assert_eq!(serialize_cell("varchar", &RawValue::Null), "");
}

#[test]
fn unsupported_tag_renders_the_marker() {
    assert_eq!(serialize_cell("geometry", &RawValue::Null), "[unsupported]");
    assert_eq!(serialize_cell("geometry", &RawValue::Integer(5)), "[unsupported]");
    assert_eq!(serialize_cell("GEOMETRY", &RawValue::Text(String::from("POINT(1 1)"))), "[unsupported]");
    assert_eq!(serialize_cell("", &RawValue::Boolean(true)), "[unsupported]");
    assert_eq!(serialize_value(TypeCategory::Unsupported, &RawValue::Json(String::from("{}"))), "[unsupported]");
}

#[test]
fn decode_tells_success_from_failure() {
    assert_eq!(decode(TypeCategory::Integer, &RawValue::Integer(3)), Some(String::from("3")));
    assert_eq!(decode(TypeCategory::Integer, &RawValue::Boolean(true)), None);
    assert_eq!(decode(TypeCategory::Text, &RawValue::Text(String::new())), Some(String::new()));
    assert_eq!(decode(TypeCategory::Json, &RawValue::Json(String::from("[1, 2]"))), Some(String::from("[1,2]")));
    assert_eq!(decode(TypeCategory::Json, &RawValue::Json(String::from("[1, 2"))), None);
    assert_eq!(decode(TypeCategory::Unsupported, &RawValue::Integer(3)), None);
}

#[test]
fn recover_gives_the_text_or_nothing() {
    assert_eq!(recover(Some(String::from("x"))), "x");
    assert_eq!(recover(Some(String::new())), "");
    assert_eq!(recover(None), "");
}
