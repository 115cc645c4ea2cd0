use whitebox_runner::json::JsonValue;
use whitebox_runner::parameter::{
    file_list_argument, file_list_entries, Argument, ParameterType, PathProbe, RunError,
    ToolParameter,
};
use whitebox_runner::tool::{RunStatus, ToolInfo};

fn text(s: &str) -> JsonValue {
    JsonValue::Text(s.to_string())
}

fn obj(entries: Vec<(&str, JsonValue)>) -> JsonValue {
    JsonValue::Object(entries.into_iter().map(|(k, v)| (k.to_string(), v)).collect())
}

fn param(name: &str, flag: &str, pt: JsonValue, default: Option<&str>, optional: bool) -> JsonValue {
    let mut entries = vec![
        ("name", text(name)),
        ("flags", JsonValue::Array(vec![text(flag)])),
        ("description", text("d")),
        ("parameter_type", pt),
        ("optional", JsonValue::Bool(optional)),
    ];
    if let Some(d) = default {
        entries.push(("default_value", text(d)));
    }
    obj(entries)
}

fn description(params: Vec<JsonValue>) -> JsonValue {
    obj(vec![("parameters", JsonValue::Array(params))])
}

fn no_paths(n: usize) -> Vec<PathProbe> {
    (0..n)
        .map(|_| PathProbe { value_exists: false, value_exists_in_working_dir: false, entries_exist: vec![] })
        .collect()
}

fn typed(pt: ParameterType, flag: &str, value: &str, optional: bool) -> ToolParameter {
    let mut p = ToolParameter::default();
    p.name = "P".to_string();
    p.flags = vec!["-p".to_string(), flag.to_string()];
    p.parameter_type = pt;
    p.str_value = value.to_string();
    p.optional = optional;
    p
}

fn included(a: Argument) -> (String, String) {
    match a {
        Argument::Included { arg, shown } => (arg, shown),
        other => panic!("not included: {:?}", matches!(other, Argument::Omitted)),
    }
}

fn rejected(a: Argument) -> RunError {
    match a {
        Argument::Rejected(e) => e,
        _ => panic!("not rejected"),
    }
}

#[test]
fn run_builds_the_command_line() {
    let tool = ToolInfo::new(
        "Slope",
        description(vec![
            param("Input", "--dem", text("String"), Some("dem.tif"), false),
            param("Z factor", "--zfactor", text("Float"), Some("1.0"), true),
            param("Units", "--units", obj(vec![("OptionList", JsonValue::Array(vec![text("degrees"), text("radians")]))]), Some("degrees"), true),
            param("Fill", "--fill", text("Boolean"), Some("true"), true),
            param("Skip", "--skip", text("Boolean"), Some("false"), true),
            param("Note", "--note", text("String"), None, true),
        ]),
    );
    let mut tool = tool;
    tool.update_exe_path("/opt/wbt/whitebox_tools");
    tool.update_working_dir("/data");
    tool.update_verbose_mode(true);
    let mut status = RunStatus::new();
    let probes = no_paths(tool.parameters.len());
    assert!(tool.run_is_defined(&probes));
    let args = tool.run(&mut status, &probes).unwrap();
    assert_eq!(
        args,
        vec![
            "-r=Slope".to_string(),
            "--wd=/data".to_string(),
            "--dem='dem.tif'".to_string(),
            "--zfactor=1.0".to_string(),
            "--units='degrees'".to_string(),
            "--fill".to_string(),
            "-v=true".to_string(),
            "--compress_rasters=false".to_string(),
        ]
    );
    assert!(status.is_running());
    assert_eq!(status.output(), "");
}

#[test]
fn run_echoes_the_command_when_asked() {
    let mut tool = ToolInfo::new("Slope", description(vec![param("Input", "--dem", text("String"), Some("dem.tif"), false)]));
    tool.update_exe_path("wbt");
    tool.update_working_dir("/w");
    tool.update_output_command(true);
    tool.update_compress_rasters(true);
    let mut status = RunStatus::new();
    let args = tool.run(&mut status, &no_paths(1)).unwrap();
    assert_eq!(args[args.len() - 1], "--compress_rasters=true");
    assert_eq!(args[args.len() - 2], "-v=false");
    assert_eq!(
        status.output(),
        "wbt -r=Slope --wd=\"/w\"  --dem='dem.tif' -v=false --compress_rasters=true\n"
    );
}

#[test]
fn blank_executable_stops_the_run() {
    let tool = ToolInfo::new("Slope", description(vec![]));
    let mut status = RunStatus::new();
    status.request_cancel();
    let e = tool.run(&mut status, &no_paths(0)).unwrap_err();
    assert!(matches!(e, RunError::MissingExecutable));
    assert_eq!(e.title(), "Error Running Tool");
    assert_eq!(e.message(), "The WhiteboxTools executable path does not appear to be set.");
    assert!(!status.cancel_requested());
    assert!(!status.is_running());
}

#[test]
fn required_blank_parameter_stops_the_run() {
    let mut tool = ToolInfo::new(
        "Slope",
        description(vec![
            param("Input", "--dem", text("String"), Some("   "), false),
            param("Other", "--other", text("Integer"), Some("x"), false),
        ]),
    );
    tool.update_exe_path("wbt");
    let mut status = RunStatus::new();
    let e = tool.run(&mut status, &no_paths(2)).unwrap_err();
    assert_eq!(e.title(), "Error Parsing Parameter");
    assert_eq!(e.message(), "Unspecified non-optional parameter Input.");
    assert!(!status.is_running());
}

#[test]
fn numbers_are_checked() {
    let probe = PathProbe { value_exists: false, value_exists_in_working_dir: false, entries_exist: vec![] };
    assert_eq!(included(typed(ParameterType::Integer, "--n", " 42 ", false).command_argument(&probe)).0, "--n= 42 ");
    assert_eq!(included(typed(ParameterType::Integer, "--n", "+7", false).command_argument(&probe)).1, " --n=+7");
    let e = rejected(typed(ParameterType::Integer, "--n", "-7", false).command_argument(&probe));
    assert_eq!(e.message(), "Error parsing a non-optional parameter P.");
    assert!(matches!(rejected(typed(ParameterType::Integer, "--n", "1.5", true).command_argument(&probe)), RunError::InvalidNumber(_)));
    assert!(matches!(rejected(typed(ParameterType::Integer, "--n", "99999999999999999999999", true).command_argument(&probe)), RunError::InvalidNumber(_)));
    assert_eq!(included(typed(ParameterType::Float, "--z", "1e-3", false).command_argument(&probe)).0, "--z=1e-3");
    assert_eq!(included(typed(ParameterType::Float, "--z", "-Inf", false).command_argument(&probe)).0, "--z=-Inf");
    assert_eq!(included(typed(ParameterType::Float, "--z", ".5", false).command_argument(&probe)).0, "--z=.5");
    assert!(matches!(rejected(typed(ParameterType::Float, "--z", "abc", false).command_argument(&probe)), RunError::InvalidNumber(_)));
    assert!(matches!(typed(ParameterType::Float, "--z", " ", true).command_argument(&probe), Argument::Omitted));
}

#[test]
fn existing_files_must_be_found() {
    let p = typed(ParameterType::ExistingFile, "--input", " dem.tif ", false);
    let none = PathProbe { value_exists: false, value_exists_in_working_dir: false, entries_exist: vec![] };
    let e = rejected(p.command_argument(&none));
    assert_eq!(e.message(), "The specified file path does not exist. (P).");
    let in_wd = PathProbe { value_exists: false, value_exists_in_working_dir: true, entries_exist: vec![] };
    let (arg, shown) = included(p.command_argument(&in_wd));
    assert_eq!(arg, "--input=' dem.tif '");
    assert_eq!(shown, " --input='dem.tif'");
    let n = typed(ParameterType::NewFile, "--output", " out.tif", false);
    let (arg, shown) = included(n.command_argument(&none));
    assert_eq!(arg, "--output=' out.tif'");
    assert_eq!(shown, " --output='out.tif'");
}

#[test]
fn directories_must_be_found() {
    let mut p = typed(ParameterType::Directory, "--dir", "/data", false);
    p.name = " Out dir ".to_string();
    let none = PathProbe { value_exists: false, value_exists_in_working_dir: true, entries_exist: vec![] };
    let e = rejected(p.command_argument(&none));
    assert_eq!(e.message(), "The specified directory does not exist. (Out dir).");
    let found = PathProbe { value_exists: true, value_exists_in_working_dir: false, entries_exist: vec![] };
    assert_eq!(included(p.command_argument(&found)).0, "--dir='/data'");
}

#[test]
fn file_lists_keep_existing_entries() {
    let entries = file_list_entries(" a.las \n\nb.las\n");
    assert_eq!(entries, vec!["a.las".to_string(), "".to_string(), "b.las".to_string(), "".to_string()]);
    assert_eq!(file_list_argument(&entries, &vec![true, true, true, true]), "['a.las','b.las']");
    assert_eq!(file_list_argument(&entries, &vec![false, true, true, true]), "[,'b.las']");
    assert_eq!(file_list_argument(&entries, &vec![]), "[]");
    let p = typed(ParameterType::FileList, "--inputs", " a.las \n\nb.las\n", false);
    let probe = PathProbe { value_exists: false, value_exists_in_working_dir: false, entries_exist: vec![true, false, false, false] };
    assert_eq!(included(p.command_argument(&probe)).0, "--inputs=['a.las']");
}

#[test]
fn other_kinds_quote_their_value() {
    let probe = PathProbe { value_exists: false, value_exists_in_working_dir: false, entries_exist: vec![] };
    for pt in [ParameterType::String, ParameterType::VectorAttributeField, ParameterType::StringOrNumber, ParameterType::ExistingFileOrFloat] {
        let (arg, shown) = included(typed(pt, "--f", " v ", false).command_argument(&probe));
        assert_eq!(arg, "--f=' v '");
        assert_eq!(shown, " --f=' v '");
        assert!(matches!(typed(pt, "--f", "", true).command_argument(&probe), Argument::Omitted));
    }
    let mut b = typed(ParameterType::Boolean, "--b", "", false);
    assert!(matches!(b.command_argument(&probe), Argument::Omitted));
    b.bool_value = true;
    assert_eq!(included(b.command_argument(&probe)), ("--b".to_string(), " --b".to_string()));
    let mut o = typed(ParameterType::OptionList, "--o", "", false);
    o.str_vec_value = vec!["x".to_string(), "y".to_string()];
    o.int_value = 1;
    assert!(o.argument_defined());
    assert_eq!(included(o.command_argument(&probe)).0, "--o='y'");
    o.int_value = 2;
    assert!(!o.argument_defined());
}

#[test]
fn undefined_parameters_are_reported_only_when_reached() {
    let mut tool = ToolInfo::new(
        "T",
        description(vec![
            param("A", "--a", text("String"), None, false),
            obj(vec![("name", text("B")), ("parameter_type", text("String"))]),
        ]),
    );
    assert!(tool.run_is_defined(&no_paths(2)));
    tool.update_exe_path("wbt");
    assert!(tool.run_is_defined(&no_paths(2)));
    tool.parameters[0].str_value = "x".to_string();
    assert!(!tool.run_is_defined(&no_paths(2)));
    assert!(!tool.run_is_defined(&no_paths(1)));
}

#[test]
fn reset_restores_parameters_and_clears_the_status() {
    let mut tool = ToolInfo::new("T", description(vec![param("A", "--a", text("String"), Some("orig"), false)]));
    tool.parameters[0].str_value = "edited".to_string();
    tool.update_exe_path("wbt");
    let mut status = RunStatus::new();
    status.request_cancel();
    status.record_output("some output\n");
    tool.reset(&mut status);
    assert_eq!(tool.parameters[0].str_value, "orig");
    assert_eq!(tool.exe_path(), "wbt");
    assert!(!status.cancel_requested());
    assert_eq!(status.output(), "");
    assert_eq!(status.progress_label(), "Progress");
}

#[test]
fn status_follows_the_tool_output() {
    let mut status = RunStatus::new();
    assert_eq!(status.progress_label(), "Progress:");
    assert_eq!(status.record_output("Reading data...\n"), None);
    assert_eq!(status.record_output("Progress: 45%\n"), Some("45".to_string()));
    assert_eq!(status.progress_label(), "Progress");
    assert_eq!(status.record_output("Filling: 1%0%:x"), Some("10".to_string()));
    assert_eq!(status.progress_label(), "Filling");
    assert_eq!(status.output(), "Reading data...\nProgress: 45%\nFilling: 1%0%:x");
    status.clear_output();
    assert_eq!(status.output(), "");
    status.set_output("help".to_string());
    assert_eq!(status.output(), "help");
}

#[test]
fn cancelling_a_run() {
    let tool = ToolInfo::new("T", description(vec![]));
    let mut status = RunStatus::new();
    tool.cancel(&mut status);
    assert!(status.cancel_requested());
    status.begin_cancel();
    status.end_cancel();
    assert!(!status.cancel_requested());
    assert_eq!(status.output(), "\nCancelling process...\n\nProcess cancelled\n");
    status.finish();
    assert!(!status.is_running());
    assert_eq!(status.progress_label(), "Progress");
}

#[test]
fn help_argument_names_the_tool() {
    let tool = ToolInfo::new("Slope", description(vec![]));
    assert_eq!(tool.tool_help_argument(), "--toolhelp=Slope");
    assert_eq!(tool.working_dir(), "");
}

#[test]
fn probes_matter_only_for_path_parameters() {
    let p = typed(ParameterType::String, "--s", "v", false);
    let a = PathProbe { value_exists: false, value_exists_in_working_dir: false, entries_exist: vec![] };
    let b = PathProbe { value_exists: true, value_exists_in_working_dir: true, entries_exist: vec![true] };
    assert_eq!(included(p.command_argument(&a)), included(p.command_argument(&b)));
}

#[test]
fn blank_executable_is_reported_before_parameters() {
    let tool = ToolInfo::new("T", description(vec![param("A", "--a", text("String"), None, false)]));
    let mut status = RunStatus::new();
    assert!(matches!(tool.run(&mut status, &no_paths(1)), Err(RunError::MissingExecutable)));
}

#[test]
fn parameters_after_a_stop_change_nothing() {
    let mut first = ToolInfo::new(
        "T",
        description(vec![
            param("A", "--a", text("Integer"), Some("x"), false),
            param("B", "--b", text("String"), None, false),
        ]),
    );
    let mut second = ToolInfo::new(
        "T",
        description(vec![
            param("A", "--a", text("Integer"), Some("x"), false),
            param("C", "--c", text("Float"), Some("1"), true),
            param("D", "--d", text("String"), Some("y"), true),
        ]),
    );
    first.update_exe_path("wbt");
    second.update_exe_path("wbt");
    let mut status = RunStatus::new();
    let e1 = first.run(&mut status, &no_paths(2)).unwrap_err();
    let e2 = second.run(&mut status, &no_paths(3)).unwrap_err();
    assert_eq!(e1.message(), "Error parsing a non-optional parameter A.");
    assert_eq!(e1.message(), e2.message());
}
