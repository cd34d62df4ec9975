//! The failures that operations of the library report.

use vstd::prelude::*;
use vstd::string::StringExecFns;

verus! {

/// A failure of an operation, with the detail it carries as text.
#[derive(Debug, Clone, PartialEq, Eq)]
pub enum AppError {
    /// The command-line tool was not found at the given place.
    ClaudeNotFound(String),
    /// A child process could not be started or stopped.
    ProcessError(String),
    /// A text could not be parsed.
    ParseError(String),
    /// An input or output operation failed.
    IoError(String),
    /// A value could not be written out or read back.
    SerializationError(String),
    /// The configuration is unusable.
    ConfigError(String),
    /// No process is registered for the session id.
    SessionNotFound(String),
    /// A permission was refused.
    PermissionDenied(String),
    /// A path does not name what the operation needs.
    InvalidPath(String),
    /// The operation took too long.
    Timeout,
    /// Any other failure.
    Unknown(String),
}

/// The message shown to the user for an error.
pub open spec fn message_of(error: AppError) -> Seq<char> {
    match error {
        AppError::ClaudeNotFound(_) => "CLI 未安装或不在 PATH 中"@,
        AppError::ProcessError(e) => "进程错误: "@ + e@,
        AppError::ParseError(e) => "解析错误: "@ + e@,
        AppError::IoError(e) => "IO 错误: "@ + e@,
        AppError::SerializationError(e) => "序列化错误: "@ + e@,
        AppError::ConfigError(e) => "配置错误: "@ + e@,
        AppError::SessionNotFound(id) => "会话不存在: "@ + id@,
        AppError::PermissionDenied(e) => "权限被拒绝: "@ + e@,
        AppError::InvalidPath(path) => "无效路径: "@ + path@,
        AppError::Timeout => "操作超时"@,
        AppError::Unknown(e) => "未知错误: "@ + e@,
    }
}

/// The one-line description of an error.
pub open spec fn description_of(error: AppError) -> Seq<char> {
    match error {
        AppError::ClaudeNotFound(path) => "CLI not found at: "@ + path@,
        AppError::ProcessError(e) => "Process error: "@ + e@,
        AppError::ParseError(e) => "Failed to parse JSON: "@ + e@,
        AppError::IoError(e) => "IO error: "@ + e@,
        AppError::SerializationError(e) => "Serialization error: "@ + e@,
        AppError::ConfigError(e) => "Configuration error: "@ + e@,
        AppError::SessionNotFound(id) => "Session not found: "@ + id@,
        AppError::PermissionDenied(e) => "Permission denied: "@ + e@,
        AppError::InvalidPath(path) => "Invalid path: "@ + path@,
        AppError::Timeout => "Operation timed out"@,
        AppError::Unknown(e) => "Unknown error: "@ + e@,
    }
}

/// `prefix` followed by `detail`.
pub fn labelled(prefix: &str, detail: &str) -> (text: String)
    ensures
        text@ == prefix@ + detail@,
{
    String::from_str(prefix).concat(detail)
}

impl AppError {
    /// The message shown to the user.
    pub fn to_message(&self) -> (message: String)
        ensures
            message@ == message_of(*self),
    {
        match self {
            AppError::ClaudeNotFound(_) => String::from_str("CLI 未安装或不在 PATH 中"),
            AppError::ProcessError(e) => labelled("进程错误: ", e.as_str()),
            AppError::ParseError(e) => labelled("解析错误: ", e.as_str()),
            AppError::IoError(e) => labelled("IO 错误: ", e.as_str()),
            AppError::SerializationError(e) => labelled("序列化错误: ", e.as_str()),
            AppError::ConfigError(e) => labelled("配置错误: ", e.as_str()),
            AppError::SessionNotFound(id) => labelled("会话不存在: ", id.as_str()),
            AppError::PermissionDenied(e) => labelled("权限被拒绝: ", e.as_str()),
            AppError::InvalidPath(path) => labelled("无效路径: ", path.as_str()),
            AppError::Timeout => String::from_str("操作超时"),
            AppError::Unknown(e) => labelled("未知错误: ", e.as_str()),
        }
    }

    /// The one-line description of the error.
    pub fn describe(&self) -> (text: String)
        ensures
            text@ == description_of(*self),
    {
        match self {
            AppError::ClaudeNotFound(path) => labelled("CLI not found at: ", path.as_str()),
            AppError::ProcessError(e) => labelled("Process error: ", e.as_str()),
            AppError::ParseError(e) => labelled("Failed to parse JSON: ", e.as_str()),
            AppError::IoError(e) => labelled("IO error: ", e.as_str()),
            AppError::SerializationError(e) => labelled("Serialization error: ", e.as_str()),
            AppError::ConfigError(e) => labelled("Configuration error: ", e.as_str()),
            AppError::SessionNotFound(id) => labelled("Session not found: ", id.as_str()),
            AppError::PermissionDenied(e) => labelled("Permission denied: ", e.as_str()),
            AppError::InvalidPath(path) => labelled("Invalid path: ", path.as_str()),
            AppError::Timeout => String::from_str("Operation timed out"),
            AppError::Unknown(e) => labelled("Unknown error: ", e.as_str()),
        }
    }
}

} // verus!
