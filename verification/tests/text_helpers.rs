use whitebox_runner::dialog::file_dialog_filters;
use whitebox_runner::json::{member_text, JsonValue};
use whitebox_runner::numeric::{is_float_literal, is_usize_literal};
use whitebox_runner::parameter::ParameterFileType;
use whitebox_runner::text::{contains_char, is_blank, remove_char, split_on, str_eq, trim};

#[test]
fn trim_removes_unicode_whitespace() {
    assert_eq!(trim("  a b \t\n"), "a b");
    assert_eq!(trim("\u{3000}x\u{a0}"), "x");
    assert_eq!(trim(""), "");
    assert!(is_blank(" \u{2028}\r"));
    assert!(!is_blank(" . "));
}

#[test]
fn splitting_and_removing() {
    assert_eq!(split_on("a:b::c", ':'), vec!["a", "b", "", "c"]);
    assert_eq!(split_on("", ':'), vec![""]);
    assert_eq!(remove_char("4%5%", '%'), "45");
    assert!(contains_char("ab%", '%'));
    assert!(!contains_char("ab", '%'));
    assert!(str_eq("abc", "abc"));
    assert!(!str_eq("abc", "abd"));
}

#[test]
fn usize_literals() {
    assert!(is_usize_literal("0"));
    assert!(is_usize_literal("+12"));
    assert!(is_usize_literal("007"));
    assert!(!is_usize_literal(""));
    assert!(!is_usize_literal("+"));
    assert!(!is_usize_literal("-1"));
    assert!(!is_usize_literal("1 "));
    assert!(!is_usize_literal("18446744073709551616"));
    for s in ["0", "+12", "007", "", "+", "-1", "1 ", "18446744073709551616", "18446744073709551615", "1a"] {
        assert_eq!(is_usize_literal(s), s.parse::<usize>().is_ok(), "{}", s);
    }
}

#[test]
fn float_literals() {
    for s in [
        "1", "1.", ".5", "1.5e10", "1E-3", "+2", "-0.0", "inf", "-Infinity", "NaN", "nAn", "e5", ".", "1e", "1e+",
        "1.2.3", "--1", "", " 1", "infinit", "1_0", "0x10", "+.e1", "5.e2", "1e5.0",
    ] {
        assert_eq!(is_float_literal(s), s.parse::<f32>().is_ok(), "{}", s);
    }
}

#[test]
fn json_member_text() {
    let v = JsonValue::Object(vec![
        ("a".to_string(), JsonValue::Text("x".to_string())),
        ("a".to_string(), JsonValue::Text("y".to_string())),
        ("b".to_string(), JsonValue::Bool(true)),
    ]);
    assert_eq!(member_text(&v, "a"), "x");
    assert_eq!(member_text(&v, "b"), "");
    assert_eq!(member_text(&v, "c"), "");
    assert!(v.has_non_null("b"));
    assert!(!v.has_non_null("c"));
}

#[test]
fn dialog_filters() {
    let lidar = file_dialog_filters(ParameterFileType::Lidar);
    assert_eq!(lidar.len(), 4);
    assert_eq!(lidar[3].name, "Lidar Files");
    assert_eq!(lidar[3].extensions, vec!["las", "laz", "zLidar"]);
    let raster = file_dialog_filters(ParameterFileType::RasterAndVector);
    assert_eq!(raster[0].extensions.len(), 14);
    assert_eq!(raster[1].name, "Vector Files");
    assert_eq!(file_dialog_filters(ParameterFileType::Text)[0].name, "Test Files");
    assert!(file_dialog_filters(ParameterFileType::Any).is_empty());
}
