//! The version descriptor published with each release.

use vstd::prelude::*;
use vstd::string::StringExecFns;

verus! {

/// The latest version as the descriptor gives it.
#[derive(Debug)]
pub struct VersionInfo {
    pub version: String,
    pub download_url: String,
    pub updated_at: String,
}

/// Why the descriptor could not be had.
#[derive(Debug)]
pub enum GitHubError {
    /// The request failed; the text is the reason.
    NetworkError(String),
    /// The answer was not a descriptor; the text is the reason.
    ParseError(String),
}

impl GitHubError {
    /// The error as the text shown to the user.
    pub open spec fn text(&self) -> Seq<char> {
        match self {
            GitHubError::NetworkError(reason) => "网络错误: "@ + reason@,
            GitHubError::ParseError(reason) => "解析错误: "@ + reason@,
        }
    }

    /// The error as the text shown to the user.
    pub fn message(&self) -> (out: String)
        ensures
            out@ == self.text(),
    {
        match self {
            GitHubError::NetworkError(reason) => {
                let mut out = String::from_str("网络错误: ");
                out.append(reason.as_str());
                out
            },
            GitHubError::ParseError(reason) => {
                let mut out = String::from_str("解析错误: ");
                out.append(reason.as_str());
                out
            },
        }
    }

    /// The error for an answer with a failure status, `status` being the
    /// status in words.
    pub fn bad_status(status: &str) -> (error: Self)
        ensures
            error matches GitHubError::ParseError(reason) && reason@ == "获取版本信息失败: "@
                + status@,
    {
        let mut reason = String::from_str("获取版本信息失败: ");
        reason.append(status);
        GitHubError::ParseError(reason)
    }

    /// The error for an answer that does not parse, `reason` being the
    /// parser's words.
    pub fn bad_descriptor(reason: &str) -> (error: Self)
        ensures
            error matches GitHubError::ParseError(text) && text@ == "版本信息解析失败: "@ + reason@,
    {
        let mut text = String::from_str("版本信息解析失败: ");
        text.append(reason);
        GitHubError::ParseError(text)
    }
}

} // verus!
