//! The assistant that proposes effect settings: its credentials, and the
//! header and endpoints its requests use. The requests themselves are made
//! by the caller.
use vstd::prelude::*;
use crate::text::{trim_quotes, trim_quotes_spec};

verus! {

/// regex's `Error`, as `Regex::new` returns it for a pattern that does not
/// compile.
#[verifier::external_type_specification]
#[verifier::external_body]
pub struct ExRegexError(regex::Error);

/// Markup wrapped around the JSON of a reply: escaped newlines, stray
/// backslashes and code fences.
pub const REPLY_MARKUP: &'static str = "\\\\n|\\\\|```json|```";

/// What is left of `text` once every match of the regular expression
/// `pattern` is removed.
pub uninterp spec fn pattern_removed(pattern: Seq<char>, text: Seq<char>) -> Seq<char>;

/// Whether regex compiles `pattern` (it depends on the pattern alone).
pub uninterp spec fn regex_accepts(pattern: Seq<char>) -> bool;

/// Relies on regex's `Regex::new`, which succeeds exactly on the patterns
/// it accepts, and `Regex::replace_all` with an empty replacement: the
/// non-overlapping matches of the pattern are removed. A pattern that does
/// not compile gives regex's error.
#[verifier::external_body]
fn remove_pattern(pattern: &str, text: &str) -> (r: Result<String, regex::Error>)
    ensures
        r is Ok <==> regex_accepts(pattern@),
        r is Ok ==> r->Ok_0@ == pattern_removed(pattern@, text@),
{
    regex::Regex::new(pattern).map(|re| re.replace_all(text, "").into_owned())
}

/// Why a reply could not be cleaned.
#[derive(Clone, Debug, PartialEq, Eq)]
pub enum ReplyError {
    /// The markup pattern did not compile.
    InvalidPattern,
}

/// The JSON text of a reply: markup removed, then the quotes around it.
pub fn clean_reply(raw: &str) -> (r: Result<String, ReplyError>)
    ensures
        r is Ok <==> regex_accepts(REPLY_MARKUP@),
        r is Ok ==> r->Ok_0@ == trim_quotes_spec(pattern_removed(REPLY_MARKUP@, raw@)),
{
    match remove_pattern(REPLY_MARKUP, raw) {
        Ok(stripped) => Ok(trim_quotes(stripped.as_str())),
        Err(_) => Err(ReplyError::InvalidPattern),
    }
}

/// Base of every thread endpoint.
pub const THREADS_URL: &'static str = "https://api.openai.com/v1/threads";

/// Credentials and the conversation thread in use.
#[derive(Clone, Debug)]
pub struct Assistant {
    pub api_key: Option<String>,
    pub thread_id: Option<String>,
}

impl Assistant {
    /// An assistant with no key and no thread yet.
    pub fn new() -> (a: Assistant)
        ensures
            a.api_key is None,
            a.thread_id is None,
    {
        Assistant { api_key: None, thread_id: None }
    }

    /// The `Authorization` header value, once a key is known.
    pub fn authorization(&self) -> (r: Option<String>)
        ensures
            match self.api_key {
                None => r is None,
                Some(k) => r is Some && r->0@ == "Bearer "@ + k@,
            },
    {
        match &self.api_key {
            None => None,
            Some(k) => Some(String::from_str("Bearer ").concat(k.as_str())),
        }
    }

    /// `<threads>/<thread>/<tail>`, once a thread is known.
    fn thread_url(&self, tail: &str) -> (r: Option<String>)
        ensures
            match self.thread_id {
                None => r is None,
                Some(t) => r is Some && r->0@ == THREADS_URL@ + "/"@ + t@ + "/"@ + tail@,
            },
    {
        match &self.thread_id {
            None => None,
            Some(t) => Some(
                String::from_str(THREADS_URL).concat("/").concat(t.as_str()).concat("/").concat(tail),
            ),
        }
    }

    /// Where the thread's messages are read and posted.
    pub fn messages_url(&self) -> (r: Option<String>)
        ensures
            match self.thread_id {
                None => r is None,
                Some(t) => r is Some && r->0@ == THREADS_URL@ + "/"@ + t@ + "/"@ + "messages"@,
            },
    {
        self.thread_url("messages")
    }

    /// Where runs of the assistant on the thread are created.
    pub fn runs_url(&self) -> (r: Option<String>)
        ensures
            match self.thread_id {
                None => r is None,
                Some(t) => r is Some && r->0@ == THREADS_URL@ + "/"@ + t@ + "/"@ + "runs"@,
            },
    {
        self.thread_url("runs")
    }

    /// Where the status of one run is read.
    pub fn run_status_url(&self, run_id: &str) -> (r: Option<String>)
        ensures
            match self.thread_id {
                None => r is None,
                Some(t) => r is Some && r->0@ == THREADS_URL@ + "/"@ + t@ + "/"@ + "runs"@ + "/"@ + run_id@,
            },
    {
        match self.runs_url() {
            None => None,
            Some(u) => Some(u.concat("/").concat(run_id)),
        }
    }
}

} // verus!
