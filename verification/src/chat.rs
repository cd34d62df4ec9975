//! The records of a conversation: messages, tool calls and permission
//! requests, with times as milliseconds since the Unix epoch.

use vstd::prelude::*;
use crate::events::PermissionDenial;
use crate::json::Json;

verus! {

/// Who wrote a message.
#[derive(Debug, Clone, Copy, PartialEq, Eq, Structural)]
pub enum MessageRole {
    User,
    Assistant,
    System,
}

/// How far a tool call has come.
#[derive(Debug, Clone, Copy, PartialEq, Eq, Structural)]
pub enum ToolStatus {
    Pending,
    Running,
    Completed,
    Failed,
}

/// One call of a tool: what went in, what came out, and when.
#[derive(Debug, PartialEq)]
pub struct ToolCall {
    pub id: String,
    pub name: String,
    pub status: ToolStatus,
    pub input: Option<Json>,
    pub output: Option<String>,
    pub started_at: i64,
    pub completed_at: Option<i64>,
}

/// One message of a conversation.
#[derive(Debug, PartialEq)]
pub struct Message {
    pub id: String,
    pub role: MessageRole,
    pub content: String,
    pub timestamp: i64,
    pub tool_calls: Vec<ToolCall>,
}

/// A request to allow the tool calls that were refused.
#[derive(Debug, PartialEq)]
pub struct PermissionRequest {
    pub id: String,
    pub session_id: String,
    pub denials: Vec<PermissionDenial>,
    pub created_at: i64,
}

/// A new random id for a record.
///
/// Trusted: `uuid::Uuid::new_v4`, printed as `Uuid`'s `Display` prints
/// it: in the hyphenated form, which has 36 characters. The id is
/// random, so nothing else is claimed of it. The call fails only where
/// the host's source of random bytes does.
#[verifier::external_body]
pub(crate) fn fresh_id() -> (id: String)
    ensures
        id@.len() == 36,
{
    uuid::Uuid::new_v4().to_string()
}

/// The time now, in milliseconds since the Unix epoch.
///
/// Trusted: `chrono::Utc::now` and `DateTime::timestamp_millis`. The
/// time is the host's, so nothing is claimed of it. The call fails only
/// where the host's clock stands before the epoch.
#[verifier::external_body]
pub(crate) fn now_millis() -> (millis: i64) {
    chrono::Utc::now().timestamp_millis()
}

impl ToolCall {
    /// A pending call of the tool `name`, started now, under a new id.
    pub fn new(name: String, input: Option<Json>) -> (call: ToolCall)
        ensures
            call.name == name,
            call.input == input,
            call.status == ToolStatus::Pending,
            call.output is None,
            call.completed_at is None,
            call.id@.len() == 36,
    {
        ToolCall {
            id: fresh_id(),
            name,
            status: ToolStatus::Pending,
            input,
            output: None,
            started_at: now_millis(),
            completed_at: None,
        }
    }

    /// Marks the call as completed now, with its output.
    pub fn complete(&mut self, output: String)
        ensures
            final(self).status == ToolStatus::Completed,
            final(self).output == Some(output),
            final(self).completed_at is Some,
            final(self).id == old(self).id,
            final(self).name == old(self).name,
            final(self).input == old(self).input,
            final(self).started_at == old(self).started_at,
    {
        self.status = ToolStatus::Completed;
        self.output = Some(output);
        self.completed_at = Some(now_millis());
    }

    /// Marks the call as failed now, with the error as its output.
    pub fn fail(&mut self, error: String)
        ensures
            final(self).status == ToolStatus::Failed,
            final(self).output == Some(error),
            final(self).completed_at is Some,
            final(self).id == old(self).id,
            final(self).name == old(self).name,
            final(self).input == old(self).input,
            final(self).started_at == old(self).started_at,
    {
        self.status = ToolStatus::Failed;
        self.output = Some(error);
        self.completed_at = Some(now_millis());
    }
}

impl Message {
    /// A message written now, under a new id, without tool calls.
    pub fn new(role: MessageRole, content: String) -> (message: Message)
        ensures
            message.role == role,
            message.content == content,
            message.tool_calls@.len() == 0,
            message.id@.len() == 36,
    {
        Message { id: fresh_id(), role, content, timestamp: now_millis(), tool_calls: Vec::new() }
    }

    /// A message of the user.
    pub fn user(content: String) -> (message: Message)
        ensures
            message.role == MessageRole::User,
            message.content == content,
            message.tool_calls@.len() == 0,
            message.id@.len() == 36,
    {
        Message::new(MessageRole::User, content)
    }

    /// A message of the assistant.
    pub fn assistant(content: String) -> (message: Message)
        ensures
            message.role == MessageRole::Assistant,
            message.content == content,
            message.tool_calls@.len() == 0,
            message.id@.len() == 36,
    {
        Message::new(MessageRole::Assistant, content)
    }

    /// A message of the system.
    pub fn system(content: String) -> (message: Message)
        ensures
            message.role == MessageRole::System,
            message.content == content,
            message.tool_calls@.len() == 0,
            message.id@.len() == 36,
    {
        Message::new(MessageRole::System, content)
    }
}

impl PermissionRequest {
    /// A request made now, under a new id, for the denials of a session.
    pub fn new(session_id: String, denials: Vec<PermissionDenial>) -> (request: PermissionRequest)
        ensures
            request.session_id == session_id,
            request.denials == denials,
            request.id@.len() == 36,
    {
        PermissionRequest { id: fresh_id(), session_id, denials, created_at: now_millis() }
    }
}

} // verus!
