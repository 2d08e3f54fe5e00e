use crate::json::{items_of, lookup, take_field, text_of, JsonValue};
use vstd::prelude::*;
use vstd::string::StringExecFns;

verus! {

/// Why the extension could not do what the editor asked.
#[derive(Debug, Clone, Copy, PartialEq, Eq)]
pub enum ExtensionError {
    /// No `flutter` executable on the worktree's search path.
    ToolNotFound,
    /// The configuration has no `program` string.
    MissingField,
}

impl ExtensionError {
    /// The text shown to the user.
    pub fn message(&self) -> (r: String)
        ensures
            *self == ExtensionError::ToolNotFound ==> r@ == "Flutter executable not found in PATH."@,
            *self == ExtensionError::MissingField ==> r@
                == "The 'program' field is required (e.g., lib/main.dart)"@,
    {
        match self {
            ExtensionError::ToolNotFound => String::from_str("Flutter executable not found in PATH."),
            ExtensionError::MissingField => String::from_str(
                "The 'program' field is required (e.g., lib/main.dart)",
            ),
        }
    }
}

/// Whether a debug session starts a new program or attaches to a running one.
#[derive(Debug, Clone, Copy, PartialEq, Eq)]
pub enum RequestKind {
    Launch,
    Attach,
}

/// A process for the editor to start: executable, arguments, extra environment.
#[derive(Debug, PartialEq)]
pub struct LaunchCommand {
    pub command: String,
    pub args: Vec<String>,
    pub env: Vec<(String, String)>,
}

/// A debug scenario: a label, the launch arguments handed to the debug
/// adapter, and extra environment.
#[derive(Debug, PartialEq)]
pub struct DebugScenario {
    pub label: String,
    pub arguments: JsonValue,
    pub env: Vec<(String, String)>,
}

/// The command that starts Flutter's debug adapter from the tool at `path`.
pub open spec fn is_adapter_command(c: LaunchCommand, path: Seq<char>) -> bool {
    &&& c.command@ == path
    &&& c.args@.len() == 1
    &&& c.args@[0]@ == "debug_adapter"@
    &&& c.env@.len() == 0
}

/// The launch arguments that Flutter's debug adapter expects, in this order:
/// `program`, `args`, `toolArgs`, and `noDebug` set to false.
pub open spec fn is_launch_arguments(
    v: JsonValue,
    program: Seq<char>,
    args: Seq<JsonValue>,
    tool_args: Seq<JsonValue>,
) -> bool {
    match v {
        JsonValue::Object(fields) => {
            &&& fields@.len() == 4
            &&& fields@[0].0@ == "program"@
            &&& text_of(Some(fields@[0].1)) == Some(program)
            &&& fields@[1].0@ == "args"@
            &&& fields@[1].1 matches JsonValue::Array(a) && a@ == args
            &&& fields@[2].0@ == "toolArgs"@
            &&& fields@[2].1 matches JsonValue::Array(t) && t@ == tool_args
            &&& fields@[3].0@ == "noDebug"@
            &&& fields@[3].1 == JsonValue::Bool(false)
        },
        _ => false,
    }
}

/// `s` is the scenario for `config`; there is none where `config` names no
/// `program` string.
pub open spec fn scenario_for(config: JsonValue, s: DebugScenario) -> bool {
    &&& text_of(config.field("program"@)) is Some
    &&& s.label@ == "flutter"@
    &&& s.env@.len() == 0
    &&& is_launch_arguments(
        s.arguments,
        text_of(config.field("program"@))->0,
        items_of(config.field("args"@)),
        items_of(config.field("toolArgs"@)),
    )
}

/// A configuration whose `args` or `toolArgs` is missing or is not an array
/// yields a scenario whose corresponding array is empty, not a failure.
pub proof fn lemma_non_array_lists_become_empty(config: JsonValue, s: DebugScenario)
    requires
        scenario_for(config, s),
    ensures
        !(config.field("args"@) matches Some(JsonValue::Array(_))) ==> (s.arguments matches JsonValue::Object(
            f,
        ) && f@[1].1 matches JsonValue::Array(a) && a@.len() == 0),
        !(config.field("toolArgs"@) matches Some(JsonValue::Array(_))) ==> (s.arguments matches JsonValue::Object(
            f,
        ) && f@[2].1 matches JsonValue::Array(t) && t@.len() == 0),
{
}

/// No scenario exists for a configuration without a `program` string.
pub proof fn lemma_missing_program_has_no_scenario(config: JsonValue, s: DebugScenario)
    requires
        text_of(config.field("program"@)) is None,
    ensures
        !scenario_for(config, s),
{
}

/// Builds the command `<path> debug_adapter`.
pub fn adapter_command(path: String) -> (r: LaunchCommand)
    ensures
        is_adapter_command(r, path@),
{
    let mut args: Vec<String> = Vec::new();
    args.push(String::from_str("debug_adapter"));
    LaunchCommand { command: path, args, env: Vec::new() }
}

/// The items of an array value, or none for anything else.
fn array_items(v: Option<JsonValue>) -> (r: Vec<JsonValue>)
    ensures
        r@ == items_of(v),
{
    match v {
        Some(JsonValue::Array(a)) => a,
        _ => Vec::new(),
    }
}

/// The Flutter debug-adapter extension. It holds no state.
pub struct FlutterExtension {}

impl FlutterExtension {
    pub fn new() -> (r: FlutterExtension) {
        FlutterExtension {  }
    }

    /// The command that starts the debug adapter, given where the worktree's
    /// search path finds `flutter` (`None` where it finds nothing).
    ///
    /// Neither the adapter name, the configuration nor a path that the user
    /// gave changes the result.
    pub fn get_dap_binary(
        &self,
        _adapter_name: String,
        _config: JsonValue,
        _user_provided_debug_adapter_path: Option<String>,
        flutter_on_path: Option<String>,
    ) -> (r: Result<LaunchCommand, ExtensionError>)
        ensures
            match flutter_on_path {
                None => r == Err::<LaunchCommand, ExtensionError>(ExtensionError::ToolNotFound),
                Some(p) => r matches Ok(c) && is_adapter_command(c, p@),
            },
    {
        match flutter_on_path {
            None => Err(ExtensionError::ToolNotFound),
            Some(p) => Ok(adapter_command(p)),
        }
    }

    /// Sessions are always launched.
    pub fn dap_request_kind(&self, _adapter_name: String, _config: JsonValue) -> (r: RequestKind)
        ensures
            r == RequestKind::Launch,
    {
        RequestKind::Launch
    }

    /// Translates a task configuration into the scenario that Flutter's debug
    /// adapter is launched with.
    ///
    /// `program` must be a string; `args` and `toolArgs` are carried over
    /// where they are arrays and are empty otherwise.
    pub fn dap_config_to_scenario(&self, config: JsonValue) -> (r: Result<
        DebugScenario,
        ExtensionError,
    >)
        ensures
            match r {
                Ok(s) => scenario_for(config, s),
                Err(e) => e == ExtensionError::MissingField && text_of(
                    config.field("program"@),
                ) is None,
            },
    {
        let ghost given = config;
        let mut entries = match config {
            JsonValue::Object(entries) => entries,
            _ => Vec::new(),
        };
        proof {
            assert forall|k: Seq<char>| lookup(entries@, k) == given.field(k) by {
                if !(given is Object) {
                    assert(lookup(entries@, k) is None);
                }
            }
        }
        proof {
            reveal_strlit("program");
            reveal_strlit("args");
            reveal_strlit("toolArgs");
            assert("program"@.len() == 7 && "args"@.len() == 4 && "toolArgs"@.len() == 8);
        }
        let program = match take_field(&mut entries, &String::from_str("program")) {
            Some(JsonValue::Str(s)) => s,
            _ => return Err(ExtensionError::MissingField),
        };
        let args = array_items(take_field(&mut entries, &String::from_str("args")));
        let tool_args = array_items(take_field(&mut entries, &String::from_str("toolArgs")));
        let mut fields: Vec<(String, JsonValue)> = Vec::new();
        fields.push((String::from_str("program"), JsonValue::Str(program)));
        fields.push((String::from_str("args"), JsonValue::Array(args)));
        fields.push((String::from_str("toolArgs"), JsonValue::Array(tool_args)));
        fields.push((String::from_str("noDebug"), JsonValue::Bool(false)));
        Ok(
            DebugScenario {
                label: String::from_str("flutter"),
                arguments: JsonValue::Object(fields),
                env: Vec::new(),
            },
        )
    }
}

} // verus!
