//! Data carried by the web API.
use vstd::prelude::*;

verus! {

/// A chat message.
#[derive(Clone, Debug, PartialEq, Eq)]
pub struct Message {
    pub id: String,
    pub session_id: String,
    pub sender: String,
    pub content: String,
    pub timestamp: String,
    pub is_user: bool,
}

/// A request to scan a bot, or every bot when none is named.
#[derive(Clone, Debug, PartialEq, Eq)]
pub struct ScanRequest {
    pub bot_id: Option<String>,
    pub include_info: bool,
}

/// One issue found by a scan.
#[derive(Clone, Debug, PartialEq, Eq)]
pub struct IssueResponse {
    pub id: String,
    pub severity: String,
    pub issue_type: String,
    pub title: String,
    pub description: String,
    pub file_path: String,
    pub line_number: Option<usize>,
    pub code_snippet: Option<String>,
    pub remediation: String,
    pub category: String,
}

} // verus!
