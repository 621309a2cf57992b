use scene_core::commands::{
    classify_command, success_ack, CommandKind, ToolCall, ToolCallFunction, ToolCommand,
};
use scene_core::document::SceneDocument;
use scene_core::gpu::GpuInitOutcome;
use scene_core::session::EditorSession;

#[test]
fn known_command_names_are_classified() {
    assert_eq!(classify_command("transformObject"), CommandKind::TransformObject);
    assert_eq!(classify_command("configureWater"), CommandKind::ConfigureWater);
}

#[test]
fn unknown_command_names_are_explicitly_unknown() {
    assert_eq!(classify_command("deleteEverything"), CommandKind::Unknown);
    assert_eq!(classify_command(""), CommandKind::Unknown);
    assert_eq!(classify_command("transformobject"), CommandKind::Unknown);
}

#[test]
fn tool_call_function_reports_its_kind() {
    let call = ToolCall {
        id: "call-1".to_string(),
        call_type: "function".to_string(),
        function: ToolCallFunction {
            name: "configureWater".to_string(),
            arguments: "{}".to_string(),
        },
    };
    assert_eq!(call.function.kind(), CommandKind::ConfigureWater);
    let copy = call.clone();
    assert_eq!(copy.id, "call-1");
    assert_eq!(copy.function.name, "configureWater");
}

#[test]
fn success_envelope_is_fixed() {
    assert_eq!(success_ack(), "{\"success\": true}");
}

#[test]
fn unhandled_command_is_acknowledged_and_changes_nothing() {
    let mut s = EditorSession::initialize(
        SceneDocument::empty(),
        640,
        480,
        "session-1".to_string(),
        true,
        GpuInitOutcome::DeviceAcquired,
    )
    .unwrap();
    let ack = s.execute_tool_call(&ToolCommand::Unhandled);
    assert_eq!(ack, "{\"success\": true}");
    assert_eq!(s.warnings.len(), 0);
    assert_eq!(s.current_document_snapshot().component_total(), 0);
}
