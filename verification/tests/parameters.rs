use whitebox_runner::json::JsonValue;
use whitebox_runner::parameter::{
    file_type_from_name, geometry_type_from_name, parameter_type_from_name, parse_parameter,
    parse_parameters, ParameterFileType, ParameterType, ToolParameter, VectorGeometryType,
};

fn text(s: &str) -> JsonValue {
    JsonValue::Text(s.to_string())
}

fn obj(entries: Vec<(&str, JsonValue)>) -> JsonValue {
    JsonValue::Object(entries.into_iter().map(|(k, v)| (k.to_string(), v)).collect())
}

fn arr(items: Vec<JsonValue>) -> JsonValue {
    JsonValue::Array(items)
}

fn param(name: &str, flags: &[&str], pt: JsonValue, default: Option<&str>, optional: bool) -> JsonValue {
    let mut entries = vec![
        ("name", text(name)),
        ("flags", arr(flags.iter().map(|f| text(f)).collect())),
        ("description", text("A description.")),
        ("parameter_type", pt),
    ];
    match default {
        Some(d) => entries.push(("default_value", text(d))),
        None => entries.push(("default_value", JsonValue::Null)),
    }
    entries.push(("optional", JsonValue::Bool(optional)));
    obj(entries)
}

#[test]
fn reads_name_flags_description_and_optional() {
    let p = parse_parameter(&param("Input DEM", &["-i", "--dem"], obj(vec![("ExistingFile", text("Raster"))]), None, true));
    assert_eq!(p.name, "Input DEM");
    assert_eq!(p.flags, vec!["-i".to_string(), "--dem".to_string()]);
    assert_eq!(p.description, "A description.");
    assert_eq!(p.parameter_type, ParameterType::ExistingFile);
    assert_eq!(p.default_value, None);
    assert!(p.optional);
    assert_eq!(p.file_type(), ParameterFileType::Raster);
    assert_eq!(p.geometry_type(), VectorGeometryType::Any);
    assert_eq!(p.str_value, "");
    assert_eq!(p.int_value, 0);
}

#[test]
fn missing_entries_give_defaults() {
    let p = parse_parameter(&obj(vec![]));
    assert_eq!(p.name, "");
    assert!(p.flags.is_empty());
    assert_eq!(p.parameter_type, ParameterType::String);
    assert!(!p.optional);
    let q = parse_parameter(&JsonValue::Number("3".to_string()));
    assert_eq!(q.parameter_type, ParameterType::String);
    assert_eq!(q.name, "");
}

#[test]
fn type_names_are_read_in_any_case() {
    let p = parse_parameter(&param("Flag", &["--flag"], text("Boolean"), Some(" TRUE "), false));
    assert_eq!(p.parameter_type, ParameterType::Boolean);
    assert!(p.bool_value);
    assert_eq!(p.str_value, "");
    let q = parse_parameter(&param("Flag", &["--flag"], text("BOOLEAN"), Some("false"), false));
    assert_eq!(q.parameter_type, ParameterType::Boolean);
    assert!(!q.bool_value);
    let r = parse_parameter(&param("Flag", &["--flag"], text("Boolean"), Some("yes"), false));
    assert!(!r.bool_value);
}

#[test]
fn number_defaults_are_trimmed_and_strings_kept() {
    let f = parse_parameter(&param("Z", &["--z"], text("Float"), Some(" 2.5 "), true));
    assert_eq!(f.parameter_type, ParameterType::Float);
    assert_eq!(f.str_value, "2.5");
    let i = parse_parameter(&param("N", &["--n"], text("Integer"), Some("\t10\n"), true));
    assert_eq!(i.parameter_type, ParameterType::Integer);
    assert_eq!(i.str_value, "10");
    let s = parse_parameter(&param("S", &["--s"], text("String"), Some(" x "), true));
    assert_eq!(s.parameter_type, ParameterType::String);
    assert_eq!(s.str_value, " x ");
    assert_eq!(s.default_value, Some(" x ".to_string()));
    let d = parse_parameter(&param("D", &["--d"], text("Directory"), Some("/tmp"), true));
    assert_eq!(d.parameter_type, ParameterType::Directory);
    assert_eq!(d.str_value, "/tmp");
    let n = parse_parameter(&param("V", &["--v"], text("StringOrNumber"), Some("5"), true));
    assert_eq!(n.parameter_type, ParameterType::StringOrNumber);
    assert_eq!(n.str_value, "5");
}

#[test]
fn unknown_type_name_is_a_string_without_its_default() {
    let p = parse_parameter(&param("X", &["--x"], text("Something"), Some("abc"), true));
    assert_eq!(p.parameter_type, ParameterType::String);
    assert_eq!(p.str_value, "");
    assert_eq!(p.default_value, Some("abc".to_string()));
}

#[test]
fn file_kinds_from_objects() {
    let a = parse_parameter(&param("A", &["-a"], obj(vec![("ExistingFile", obj(vec![("Vector", text(" Polygon "))]))]), None, false));
    assert_eq!(a.parameter_type, ParameterType::ExistingFile);
    assert_eq!(a.file_type(), ParameterFileType::Vector);
    assert_eq!(a.geometry_type(), VectorGeometryType::Polygon);
    let b = parse_parameter(&param("B", &["-b"], obj(vec![("NewFile", obj(vec![("RasterAndVector", text("LineOrPolygon"))]))]), None, false));
    assert_eq!(b.parameter_type, ParameterType::NewFile);
    assert_eq!(b.file_type(), ParameterFileType::RasterAndVector);
    assert_eq!(b.geometry_type(), VectorGeometryType::LineOrPolygon);
    let c = parse_parameter(&param("C", &["-c"], obj(vec![("FileList", text("Lidar"))]), None, false));
    assert_eq!(c.parameter_type, ParameterType::FileList);
    assert_eq!(c.file_type(), ParameterFileType::Lidar);
    let d = parse_parameter(&param("D", &["-d"], obj(vec![("ExistingFileOrFloat", text("csv"))]), Some("3"), false));
    assert_eq!(d.parameter_type, ParameterType::ExistingFileOrFloat);
    assert_eq!(d.file_type(), ParameterFileType::Csv);
    assert_eq!(d.str_value, "");
    let e = parse_parameter(&param("E", &["-e"], obj(vec![("NewFile", text("shapefile"))]), None, false));
    assert_eq!(e.file_type(), ParameterFileType::Any);
    let f = parse_parameter(&param("F", &["-f"], obj(vec![("ExistingFile", obj(vec![("Vector", JsonValue::Bool(true)), ("RasterAndVector", text("point"))]))]), None, false));
    assert_eq!(f.file_type(), ParameterFileType::Any);
    assert_eq!(f.geometry_type(), VectorGeometryType::Any);
}

#[test]
fn null_entries_are_skipped_when_choosing_the_kind() {
    let p = parse_parameter(&param("A", &["-a"], obj(vec![("ExistingFile", JsonValue::Null), ("VectorAttributeField", text("Number"))]), None, false));
    assert_eq!(p.parameter_type, ParameterType::VectorAttributeField);
    let q = parse_parameter(&param("B", &["-b"], obj(vec![("Other", text("x"))]), None, false));
    assert_eq!(q.parameter_type, ParameterType::String);
}

#[test]
fn option_lists_keep_their_options_and_default() {
    let p = parse_parameter(&param(
        "Method",
        &["--method"],
        obj(vec![("OptionList", arr(vec![text("mean"), text("max"), JsonValue::Bool(false)]))]),
        Some("max"),
        true,
    ));
    assert_eq!(p.parameter_type, ParameterType::OptionList);
    assert_eq!(p.str_vec_value, vec!["mean".to_string(), "max".to_string(), "".to_string()]);
    assert_eq!(p.str_value, "max");
    assert_eq!(p.int_value, 0);
}

#[test]
fn parameters_come_in_order_one_per_entry() {
    let description = obj(vec![(
        "parameters",
        arr(vec![
            param("One", &["--one"], text("String"), None, false),
            param("Two", &["--two"], text("Integer"), None, true),
        ]),
    )]);
    let params = parse_parameters(&description);
    assert_eq!(params.len(), 2);
    assert_eq!(params[0].name, "One");
    assert_eq!(params[1].name, "Two");
    assert_eq!(params[1].parameter_type, ParameterType::Integer);
    assert!(parse_parameters(&obj(vec![])).is_empty());
    assert!(parse_parameters(&obj(vec![("parameters", text("none"))])).is_empty());
}

#[test]
fn kind_names() {
    assert_eq!(parameter_type_from_name("stringornumber"), ParameterType::StringOrNumber);
    assert_eq!(parameter_type_from_name("Float"), ParameterType::String);
    assert_eq!(file_type_from_name("html"), ParameterFileType::Html);
    assert_eq!(file_type_from_name("dat"), ParameterFileType::Dat);
    assert_eq!(file_type_from_name("text"), ParameterFileType::Text);
    assert_eq!(file_type_from_name("other"), ParameterFileType::Any);
    assert_eq!(geometry_type_from_name("line"), VectorGeometryType::Line);
    assert_eq!(geometry_type_from_name("point"), VectorGeometryType::Point);
    assert_eq!(geometry_type_from_name("points"), VectorGeometryType::Any);
}

#[test]
fn default_parameter() {
    let p = ToolParameter::default();
    assert_eq!(p.parameter_type, ParameterType::String);
    assert_eq!(p.file_type(), ParameterFileType::Any);
    assert_eq!(ParameterType::default(), ParameterType::String);
    assert_eq!(ParameterFileType::default(), ParameterFileType::Any);
    assert_eq!(VectorGeometryType::default(), VectorGeometryType::Any);
}

#[test]
fn labels_and_hover_text() {
    let mut p = ToolParameter::default();
    p.name = "Input File".to_string();
    p.description = "The input.".to_string();
    assert_eq!(p.label(), "Input File");
    assert_eq!(p.hover_text(), "Input File:  The input.");
    p.optional = true;
    assert_eq!(p.label(), "Input File*");
    assert_eq!(p.display_name(), "Input File [Optional]");
    p.name = "A very long parameter name here".to_string();
    assert!(p.label_is_defined());
    assert_eq!(p.label(), "A very long parameter...*");
    p.optional = false;
    assert_eq!(p.label(), "A very long parameter ...");
    p.name = "abcdefghijklmnopqrstuvwxy".to_string();
    assert_eq!(p.label(), "abcdefghijklmnopqrstuv...");
    p.name = "abcdefghijklmnopqrstuvwx".to_string();
    assert_eq!(p.label(), "abcdefghijklmnopqrstuvwx");
    p.name = "aaaaaaaaaaaaaaaaaaaaaé long".to_string();
    assert!(!p.label_is_defined());
    let v = parse_parameter(&param("Lines", &["-l"], obj(vec![("ExistingFile", obj(vec![("Vector", text("Line"))]))]), None, false));
    assert_eq!(v.hover_text(), "Lines:  A description. (Geometry Type=Line)");
}

#[test]
fn file_list_entries_are_appended_on_lines() {
    let mut p = ToolParameter::default();
    p.add_file_list_entry("/data/a.tif");
    p.add_file_list_entry("/data/b.tif");
    assert_eq!(p.str_value, "/data/a.tif\n/data/b.tif\n");
}
