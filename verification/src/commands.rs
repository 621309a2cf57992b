//! The mutation command protocol: tool calls arriving from the chat agent,
//! the closed set of command kinds the editor understands, the typed
//! command payloads, and the fixed success acknowledgement every routed
//! command is answered with.

use vstd::prelude::*;

use crate::transform::TransformPatch;
use crate::water::WaterPatch;

verus! {

/// One externally issued tool call: a named command with a raw argument
/// payload. The payload is decoded at the session boundary into a
/// [`ToolCommand`] before it reaches the executor.
#[derive(Debug)]
pub struct ToolCall {
    pub id: String,
    pub call_type: String,
    pub function: ToolCallFunction,
}

/// The function part of a tool call: the command name and its arguments as
/// an undecoded string.
#[derive(Debug)]
pub struct ToolCallFunction {
    pub name: String,
    pub arguments: String,
}

impl Clone for ToolCallFunction {
    /// Clones the function record; the copy equals the original.
    fn clone(&self) -> (r: Self)
        ensures
            r == *self,
    {
        ToolCallFunction { name: self.name.clone(), arguments: self.arguments.clone() }
    }
}

impl Clone for ToolCall {
    /// Clones the tool call; the copy equals the original.
    fn clone(&self) -> (r: Self)
        ensures
            r == *self,
    {
        ToolCall {
            id: self.id.clone(),
            call_type: self.call_type.clone(),
            function: self.function.clone(),
        }
    }
}

/// The closed set of command names the editor understands; anything else is
/// explicitly unknown rather than silently dropped.
#[derive(Clone, Copy, Debug, PartialEq, Eq, Structural)]
pub enum CommandKind {
    TransformObject,
    ConfigureWater,
    Unknown,
}

/// Sorts a command name into the closed set of known kinds.
pub fn classify_command(name: &str) -> (k: CommandKind)
    ensures
        k is TransformObject <==> name@ == "transformObject"@,
        k is ConfigureWater <==> name@ == "configureWater"@,
{
    proof {
        reveal_strlit("transformObject");
        reveal_strlit("configureWater");
        assert("transformObject"@.len() == 15);
        assert("configureWater"@.len() == 14);
    }
    let key: String = name.to_owned();
    if key == "transformObject".to_owned() {
        CommandKind::TransformObject
    } else if key == "configureWater".to_owned() {
        CommandKind::ConfigureWater
    } else {
        CommandKind::Unknown
    }
}

impl ToolCallFunction {
    /// The command kind this tool call names.
    pub fn kind(&self) -> (k: CommandKind)
        ensures
            k is TransformObject <==> self.name@ == "transformObject"@,
            k is ConfigureWater <==> self.name@ == "configureWater"@,
    {
        classify_command(self.name.as_str())
    }
}

/// A decoded mutation command, ready for the executor.
#[derive(Debug)]
pub enum ToolCommand {
    /// Overwrite the named placement fields of one component.
    TransformObject { component_id: String, patch: TransformPatch },
    /// Merge the named shader fields into the active water surface.
    ConfigureWater(WaterPatch),
    /// A command name outside the known set: acknowledged as a successful
    /// no-op to keep the calling agent's flow unblocked.
    Unhandled,
}

/// A condition the editor logs without failing the command or the frame
/// loop.
#[derive(Debug)]
pub enum Warning {
    /// A mutation named a component id that no document component carries;
    /// the mutation was dropped.
    UnknownComponentId { id: String },
    /// The surface was temporarily unavailable; the tick was skipped and
    /// the next tick retries.
    SurfaceAcquireTransient,
}

/// An error surfaced to the caller.
#[derive(Clone, Copy, Debug, PartialEq, Eq, Structural)]
pub enum EditorError {
    /// No compatible GPU adapter or device is available; fatal, the session
    /// cannot proceed.
    GpuInitFailure,
    /// A command payload failed to decode into its expected shape; rejected
    /// before reaching the executor.
    MalformedCommandPayload,
}

/// The fixed success envelope every routed command is answered with,
/// whether or not any field matched an existing target.
pub open spec fn spec_success_ack() -> Seq<char> {
    "{\"success\": true}"@
}

/// Builds the fixed success envelope.
pub fn success_ack() -> (s: String)
    ensures
        s@ == spec_success_ack(),
{
    "{\"success\": true}".to_owned()
}

} // verus!
