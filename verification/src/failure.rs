//! Classified failures and the message each one shows to the caller.

use vstd::prelude::*;
use vstd::string::StringExecFns;

verus! {

/// The stage of an invocation that failed.
#[derive(Clone, Copy, Debug, PartialEq, Eq, Structural)]
pub enum FailureKind {
    /// The transport client could not be built; no request was made.
    Configuration,
    /// The round trip did not finish within the configured bound.
    Timeout,
    /// The request failed for any reason other than the timeout.
    Transport,
    /// The endpoint answered with a status outside the successful range.
    RemoteStatus,
    /// The body of a successful response was not a JSON document.
    Decode,
}

impl FailureKind {
    /// The text that opens every message of this kind.
    pub open spec fn prefix_text(self) -> Seq<char> {
        match self {
            FailureKind::Configuration => "创建 HTTP 客户端失败: "@,
            FailureKind::Timeout => "请求 Relay-Pulse API 超时: "@,
            FailureKind::Transport => "请求 Relay-Pulse API 失败: "@,
            FailureKind::RemoteStatus => "Relay-Pulse API 返回非成功状态: "@,
            FailureKind::Decode => "解析 Relay-Pulse 响应失败: "@,
        }
    }

    /// The text that opens every message of this kind.
    pub fn prefix(self) -> (text: &'static str)
        ensures
            text@ == self.prefix_text(),
    {
        match self {
            FailureKind::Configuration => "创建 HTTP 客户端失败: ",
            FailureKind::Timeout => "请求 Relay-Pulse API 超时: ",
            FailureKind::Transport => "请求 Relay-Pulse API 失败: ",
            FailureKind::RemoteStatus => "Relay-Pulse API 返回非成功状态: ",
            FailureKind::Decode => "解析 Relay-Pulse 响应失败: ",
        }
    }
}

/// A failure as contracts speak of it: its kind and the diagnostic text.
pub struct Failure {
    pub kind: FailureKind,
    pub detail: Seq<char>,
}

impl Failure {
    /// The single string the caller is shown: the prefix of the kind, then
    /// the diagnostic.
    pub open spec fn message(self) -> Seq<char> {
        self.kind.prefix_text() + self.detail
    }
}

/// A failed invocation: which stage failed, and the diagnostic text that the
/// failing stage reported.
#[derive(Debug, PartialEq, Eq)]
pub struct ClassifiedError {
    pub kind: FailureKind,
    pub detail: String,
}

impl View for ClassifiedError {
    type V = Failure;

    open spec fn view(&self) -> Failure {
        Failure { kind: self.kind, detail: self.detail@ }
    }
}

impl ClassifiedError {
    pub fn new(kind: FailureKind, detail: String) -> (error: ClassifiedError)
        ensures
            error@ == (Failure { kind, detail: detail@ }),
    {
        ClassifiedError { kind, detail }
    }

    pub fn kind(&self) -> (kind: FailureKind)
        ensures
            kind == self@.kind,
    {
        self.kind
    }

    pub fn detail(&self) -> (detail: &str)
        ensures
            detail@ == self@.detail,
    {
        self.detail.as_str()
    }

    /// The string handed to the caller in place of the classified error.
    pub fn message(&self) -> (text: String)
        ensures
            text@ == self@.message(),
    {
        let mut text = String::from_str(self.kind.prefix());
        text.append(self.detail.as_str());
        text
    }
}

/// A result as contracts speak of it: a failure is taken by its view, a
/// success as it is.
pub open spec fn outcome_view<T>(outcome: Result<T, ClassifiedError>) -> Result<T, Failure> {
    match outcome {
        Ok(value) => Ok(value),
        Err(error) => Err(error@),
    }
}

/// No two failures share a message: the message alone tells the kind of a
/// failure and its diagnostic text.
pub proof fn lemma_message_tells_failure(a: Failure, b: Failure)
    requires
        a.message() == b.message(),
    ensures
        a == b,
{
    reveal_strlit("创建 HTTP 客户端失败: ");
    reveal_strlit("请求 Relay-Pulse API 超时: ");
    reveal_strlit("请求 Relay-Pulse API 失败: ");
    reveal_strlit("Relay-Pulse API 返回非成功状态: ");
    reveal_strlit("解析 Relay-Pulse 响应失败: ");
    let text = a.message();
    let a_prefix = a.kind.prefix_text();
    let b_prefix = b.kind.prefix_text();
    assert(text[0] == a_prefix[0] && text[0] == b_prefix[0]);
    if a.kind == FailureKind::Timeout || a.kind == FailureKind::Transport {
        assert(text[19] == a_prefix[19] && text[19] == b_prefix[19]);
    }
    assert(a.kind == b.kind);
    assert(a.detail =~= text.subrange(a_prefix.len() as int, text.len() as int));
    assert(b.detail =~= text.subrange(a_prefix.len() as int, text.len() as int));
}

} // verus!
