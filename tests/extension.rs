use flutter_debug::{
    adapter_command, ExtensionError, FlutterExtension, JsonValue, LaunchCommand, RequestKind,
};

fn s(t: &str) -> String {
    t.to_string()
}

fn text(t: &str) -> JsonValue {
    JsonValue::Str(s(t))
}

fn strings(items: &[&str]) -> JsonValue {
    JsonValue::Array(items.iter().map(|t| text(t)).collect())
}

fn object(entries: Vec<(&str, JsonValue)>) -> JsonValue {
    JsonValue::Object(entries.into_iter().map(|(k, v)| (s(k), v)).collect())
}

fn launch_arguments(program: &str, args: JsonValue, tool_args: JsonValue) -> JsonValue {
    object(vec![
        ("program", text(program)),
        ("args", args),
        ("toolArgs", tool_args),
        ("noDebug", JsonValue::Bool(false)),
    ])
}

#[test]
fn program_and_args_without_tool_args() {
    let config = object(vec![
        ("program", text("lib/main.dart")),
        ("args", strings(&["--flavor", "dev"])),
    ]);
    let scenario = FlutterExtension::new().dap_config_to_scenario(config).unwrap();
    assert_eq!(scenario.label, "flutter");
    assert!(scenario.env.is_empty());
    assert_eq!(
        scenario.arguments,
        launch_arguments("lib/main.dart", strings(&["--flavor", "dev"]), strings(&[]))
    );
}

#[test]
fn tool_args_are_carried_over() {
    let config = object(vec![
        ("toolArgs", strings(&["-d", "iphone15"])),
        ("program", text("lib/main.dart")),
        ("other", JsonValue::Number(s("3"))),
    ]);
    let scenario = FlutterExtension::new().dap_config_to_scenario(config).unwrap();
    assert_eq!(
        scenario.arguments,
        launch_arguments("lib/main.dart", strings(&[]), strings(&["-d", "iphone15"]))
    );
}

#[test]
fn array_items_of_any_kind_are_kept() {
    let args = JsonValue::Array(vec![
        JsonValue::Number(s("1")),
        JsonValue::Null,
        object(vec![("k", JsonValue::Bool(true))]),
    ]);
    let config = object(vec![("program", text("a.dart")), ("args", args)]);
    let scenario = FlutterExtension::new().dap_config_to_scenario(config).unwrap();
    let expected_args = JsonValue::Array(vec![
        JsonValue::Number(s("1")),
        JsonValue::Null,
        object(vec![("k", JsonValue::Bool(true))]),
    ]);
    assert_eq!(scenario.arguments, launch_arguments("a.dart", expected_args, strings(&[])));
}

#[test]
fn missing_program_fails() {
    let config = object(vec![("args", strings(&["--flavor", "dev"]))]);
    let r = FlutterExtension::new().dap_config_to_scenario(config);
    assert_eq!(r, Err(ExtensionError::MissingField));
}

#[test]
fn non_string_program_fails() {
    let config = object(vec![("program", strings(&["lib/main.dart"]))]);
    let r = FlutterExtension::new().dap_config_to_scenario(config);
    assert_eq!(r, Err(ExtensionError::MissingField));
}

#[test]
fn config_that_is_not_an_object_fails() {
    let r = FlutterExtension::new().dap_config_to_scenario(text("lib/main.dart"));
    assert_eq!(r, Err(ExtensionError::MissingField));
    let r = FlutterExtension::new().dap_config_to_scenario(object(vec![]));
    assert_eq!(r, Err(ExtensionError::MissingField));
}

#[test]
fn non_array_args_become_empty() {
    let config = object(vec![
        ("program", text("lib/main.dart")),
        ("args", text("--flavor dev")),
        ("toolArgs", JsonValue::Bool(true)),
    ]);
    let scenario = FlutterExtension::new().dap_config_to_scenario(config).unwrap();
    assert_eq!(
        scenario.arguments,
        launch_arguments("lib/main.dart", strings(&[]), strings(&[]))
    );
}

#[test]
fn first_of_repeated_keys_wins() {
    let config = object(vec![
        ("program", text("first.dart")),
        ("program", text("second.dart")),
    ]);
    let scenario = FlutterExtension::new().dap_config_to_scenario(config).unwrap();
    assert_eq!(
        scenario.arguments,
        launch_arguments("first.dart", strings(&[]), strings(&[]))
    );
}

#[test]
fn request_kind_is_always_launch() {
    let ext = FlutterExtension::new();
    assert_eq!(ext.dap_request_kind(s("flutter"), object(vec![])), RequestKind::Launch);
    assert_eq!(
        ext.dap_request_kind(s("flutter"), object(vec![("request", text("attach"))])),
        RequestKind::Launch
    );
    assert_eq!(ext.dap_request_kind(s(""), JsonValue::Null), RequestKind::Launch);
}

#[test]
fn flutter_not_on_path_fails() {
    let r = FlutterExtension::new().get_dap_binary(s("flutter"), object(vec![]), None, None);
    assert_eq!(r, Err(ExtensionError::ToolNotFound));
    let r = FlutterExtension::new().get_dap_binary(
        s("flutter"),
        object(vec![]),
        Some(s("/opt/flutter/bin/flutter")),
        None,
    );
    assert_eq!(r, Err(ExtensionError::ToolNotFound));
}

#[test]
fn command_runs_debug_adapter() {
    let config = object(vec![
        ("program", text("lib/main.dart")),
        ("args", strings(&["--flavor", "dev"])),
    ]);
    let r = FlutterExtension::new().get_dap_binary(
        s("flutter"),
        config,
        None,
        Some(s("/usr/local/bin/flutter")),
    );
    assert_eq!(
        r,
        Ok(LaunchCommand {
            command: s("/usr/local/bin/flutter"),
            args: vec![s("debug_adapter")],
            env: vec![],
        })
    );
}

#[test]
fn adapter_command_has_one_argument() {
    let c = adapter_command(s("flutter"));
    assert_eq!(c.command, "flutter");
    assert_eq!(c.args, vec![s("debug_adapter")]);
    assert!(c.env.is_empty());
}

#[test]
fn error_messages() {
    assert_eq!(ExtensionError::ToolNotFound.message(), "Flutter executable not found in PATH.");
    assert_eq!(
        ExtensionError::MissingField.message(),
        "The 'program' field is required (e.g., lib/main.dart)"
    );
}
