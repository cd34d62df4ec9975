//! What a probe of the command-line tool says: its version, and whether
//! a path to it is usable.

use vstd::prelude::*;
use crate::config::ConfigStore;
use crate::error::labelled;
use crate::text::{first_line, first_line_of, optional_text};

verus! {

/// How running the tool with `--version` went.
#[derive(Debug, Clone, PartialEq, Eq)]
pub enum ProbeOutcome {
    /// The tool ran to its end.
    Ran { success: bool, stdout: String, stderr: String },
    /// The tool could not be run.
    Failed { reason: String },
}

/// Whether a path names a usable tool, and why not or which version.
#[derive(Debug, Clone, PartialEq, Eq)]
pub struct PathValidationResult {
    pub valid: bool,
    pub error: Option<String>,
    pub version: Option<String>,
}

/// The version that a probe reports: the first line that the tool
/// printed, where it ended well.
pub open spec fn version_in(outcome: ProbeOutcome) -> Option<Seq<char>> {
    match outcome {
        ProbeOutcome::Ran { success, stdout, stderr } => if success {
            first_line_of(stdout@)
        } else {
            None
        },
        ProbeOutcome::Failed { reason } => None,
    }
}

/// Why a path is not usable, or nothing where it is.
pub open spec fn fault_in(present: bool, outcome: ProbeOutcome) -> Option<Seq<char>> {
    if !present {
        Some("文件不存在"@)
    } else {
        match outcome {
            ProbeOutcome::Ran { success, stdout, stderr } => if success {
                None
            } else {
                Some("执行失败: "@ + stderr@)
            },
            ProbeOutcome::Failed { reason } => Some("无法执行: "@ + reason@),
        }
    }
}

impl ConfigStore {
    /// The version that a probe of the tool reports.
    pub fn detect_claude(outcome: &ProbeOutcome) -> (version: Option<String>)
        ensures
            optional_text(version) == version_in(*outcome),
    {
        match outcome {
            ProbeOutcome::Ran { success, stdout, stderr } => {
                if *success {
                    first_line(stdout.as_str())
                } else {
                    None
                }
            },
            ProbeOutcome::Failed { reason } => None,
        }
    }

    /// The verdict on a path: usable exactly when it is there and the tool
    /// ran well from it; then with the version, else with the reason.
    pub fn validate_claude_path(present: bool, outcome: &ProbeOutcome) -> (verdict:
        PathValidationResult)
        ensures
            optional_text(verdict.error) == fault_in(present, *outcome),
            verdict.valid == fault_in(present, *outcome) is None,
            optional_text(verdict.version) == if verdict.valid {
                version_in(*outcome)
            } else {
                None
            },
    {
        if !present {
            return PathValidationResult {
                valid: false,
                error: Some("文件不存在".to_owned()),
                version: None,
            };
        }
        match outcome {
            ProbeOutcome::Ran { success, stdout, stderr } => {
                if *success {
                    PathValidationResult {
                        valid: true,
                        error: None,
                        version: ConfigStore::detect_claude(outcome),
                    }
                } else {
                    PathValidationResult {
                        valid: false,
                        error: Some(labelled("执行失败: ", stderr.as_str())),
                        version: None,
                    }
                }
            },
            ProbeOutcome::Failed { reason } => PathValidationResult {
                valid: false,
                error: Some(labelled("无法执行: ", reason.as_str())),
                version: None,
            },
        }
    }
}

} // verus!
