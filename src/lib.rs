//! Debug-adapter support for Flutter: finding the `flutter` tool, the command
//! that starts its debug adapter, and the launch arguments that adapter expects.

pub mod extension;
pub mod json;

pub use extension::{
    adapter_command, DebugScenario, ExtensionError, FlutterExtension, LaunchCommand, RequestKind,
};
pub use json::JsonValue;
