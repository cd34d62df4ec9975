use session_supervisor::chat::{Message, MessageRole, PermissionRequest, ToolCall, ToolStatus};
use session_supervisor::events::PermissionDenial;
use session_supervisor::json::Json;
use session_supervisor::session::{Session, SessionSummary};

#[test]
fn messages() {
    let user = Message::user("hi".to_string());
    assert_eq!(user.role, MessageRole::User);
    assert_eq!(user.content, "hi");
    assert!(user.tool_calls.is_empty());
    assert_eq!(user.id.len(), 36);
    assert!(user.timestamp > 0);
    assert_eq!(Message::assistant("a".to_string()).role, MessageRole::Assistant);
    assert_eq!(Message::system("s".to_string()).role, MessageRole::System);
    assert_eq!(Message::new(MessageRole::System, "s".to_string()).content, "s");
    assert_ne!(Message::user("x".to_string()).id, Message::user("x".to_string()).id);
}

#[test]
fn tool_call_completes() {
    let mut call = ToolCall::new("Read".to_string(), Some(Json::Text("a.txt".to_string())));
    assert_eq!(call.name, "Read");
    assert_eq!(call.status, ToolStatus::Pending);
    assert_eq!(call.input, Some(Json::Text("a.txt".to_string())));
    assert_eq!(call.output, None);
    assert_eq!(call.completed_at, None);
    let id = call.id.clone();
    call.complete("done".to_string());
    assert_eq!(call.status, ToolStatus::Completed);
    assert_eq!(call.output, Some("done".to_string()));
    assert!(call.completed_at.unwrap() >= call.started_at);
    assert_eq!(call.id, id);
}

#[test]
fn tool_call_fails() {
    let mut call = ToolCall::new("Bash".to_string(), None);
    call.fail("boom".to_string());
    assert_eq!(call.status, ToolStatus::Failed);
    assert_eq!(call.output, Some("boom".to_string()));
    assert!(call.completed_at.is_some());
}

#[test]
fn permission_request() {
    let denial = PermissionDenial {
        tool_name: "Bash".to_string(),
        reason: "no".to_string(),
        extra: vec![],
    };
    let request = PermissionRequest::new("S1".to_string(), vec![denial]);
    assert_eq!(request.session_id, "S1");
    assert_eq!(request.denials.len(), 1);
    assert_eq!(request.denials[0].tool_name, "Bash");
    assert_eq!(request.id.len(), 36);
}

#[test]
fn session_grows() {
    let mut session = Session::new("title".to_string());
    assert_eq!(session.title, "title");
    assert_eq!(session.created_at, session.updated_at);
    assert_eq!(session.claude_session_id, None);
    assert!(!session.archived);
    assert!(session.last_message().is_none());
    session.add_message(Message::user("one".to_string()));
    session.add_message(Message::assistant("two".to_string()));
    assert_eq!(session.messages.len(), 2);
    assert_eq!(session.last_message().map(|m| m.content.clone()), Some("two".to_string()));
    let summary = SessionSummary::from(&session);
    assert_eq!(summary.id, session.id);
    assert_eq!(summary.title, "title");
    assert_eq!(summary.message_count, 2);
    assert_eq!(summary.created_at, session.created_at);
    assert_eq!(summary.updated_at, session.updated_at);
    assert!(!summary.archived);
}

#[test]
fn native_id_is_set_once() {
    let mut session = Session::new("t".to_string());
    assert!(session.adopt_native_id("S1".to_string()));
    assert_eq!(session.claude_session_id, Some("S1".to_string()));
    assert!(!session.adopt_native_id("S2".to_string()));
    assert_eq!(session.claude_session_id, Some("S1".to_string()));
}
