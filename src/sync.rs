//! The push and pull protocol with the remote document: which requests are
//! made, how answers are read, and how the state and its sync status move.
//!
//! The network calls themselves are made by the caller, which hands the
//! answers back to the functions here.
use vstd::prelude::*;
use crate::encoding::{ascii_string, deobfuscated, hex_digit};
use crate::state::{AppState, SerializableState};
use crate::sync_mode::{SyncMode, SyncEvent, next_mode};
use crate::task::{ParseError, opt_text};

verus! {

/// Address of the remote documents, to which the document id is appended.
pub const GIST_API_URL: &'static str = "https://api.github.com/gists/";

/// The `User-Agent` of every request.
pub const USER_AGENT: &'static str = "StayAhead";

/// Why a push or a pull failed.
#[derive(Debug)]
pub enum SyncError {
    /// The token, the document id or the file name is missing or empty.
    IncompleteConfig,
    /// The request did not reach the remote end.
    Transport(String),
    /// The remote end answered with a status outside 200 to 299.
    Remote { status: u16, body: String, rate_limit_reset: Option<String> },
    /// The answer holds no document of the expected shape.
    MalformedDocument,
    /// The pulled document could not be read.
    Parse(ParseError),
}

/// What a push or a pull is made against.
#[derive(Debug)]
pub struct SyncTarget {
    pub token: String,
    pub gist_id: String,
    pub file_name: String,
}

#[derive(Clone, Copy, Debug, PartialEq, Eq, Structural)]
pub enum HttpMethod {
    Get,
    Patch,
}

/// A request to the remote end.
#[derive(Debug)]
pub struct HttpRequest {
    pub method: HttpMethod,
    pub url: String,
    /// Value of the `Authorization` header.
    pub authorization: String,
    /// Value of the `User-Agent` header.
    pub user_agent: String,
    pub body: Option<String>,
}

/// The text is present and not empty.
pub open spec fn present(t: Option<String>) -> bool {
    t is Some && t->0@.len() > 0
}

/// Token, document id and file name are all present and not empty.
pub open spec fn config_complete(st: AppState) -> bool {
    present(st.github_pat) && present(st.gist_id) && present(st.gist_file_name)
}

fn is_present(t: &Option<String>) -> (r: bool)
    ensures
        r == present(*t),
{
    match t {
        Some(s) => s.as_str().unicode_len() > 0,
        None => false,
    }
}

impl AppState {
    /// Token, document id and file name are all present and not empty.
    pub fn sync_config_complete(&self) -> (r: bool)
        ensures
            r == config_complete(*self),
    {
        is_present(&self.github_pat) && is_present(&self.gist_id) && is_present(&self.gist_file_name)
    }

    /// Forces the status to `NotSynced` where the configuration is
    /// incomplete; returns whether it is complete.
    pub fn check_sync_config(&mut self) -> (r: bool)
        ensures
            r == config_complete(*old(self)),
            final(self).sync_mode == (if r {
                old(self).sync_mode
            } else {
                next_mode(old(self).sync_mode, SyncEvent::ConfigIncomplete)
            }),
            final(self).same_data(*old(self)),
            final(self).tasks == old(self).tasks,
    {
        let complete = self.sync_config_complete();
        if !complete {
            self.sync_mode = self.sync_mode.next(SyncEvent::ConfigIncomplete);
        }
        complete
    }

    /// Starts a push or a pull: fails with `IncompleteConfig`, and the status
    /// becomes `NotSynced`, where the configuration is incomplete; else the
    /// status becomes `Pushing` or `Pulling` and the target is returned. The
    /// tasks and credentials are left as they are.
    pub fn begin_sync(&mut self, pull: bool) -> (r: Result<SyncTarget, SyncError>)
        ensures
            final(self).same_data(*old(self)),
            final(self).tasks == old(self).tasks,
            !config_complete(*old(self)) ==> r is Err && r->Err_0 is IncompleteConfig
                && final(self).sync_mode == SyncMode::NotSynced,
            config_complete(*old(self)) ==> r is Ok && final(self).sync_mode == (if pull {
                SyncMode::Pulling
            } else {
                SyncMode::Pushing
            }) && r->Ok_0.token@ == old(self).github_pat->0@ && r->Ok_0.gist_id@
                == old(self).gist_id->0@ && r->Ok_0.file_name@ == old(self).gist_file_name->0@,
    {
        if !self.check_sync_config() {
            return Err(SyncError::IncompleteConfig);
        }
        let token = match &self.github_pat {
            Some(t) => t.clone(),
            None => String::new(),
        };
        let gist_id = match &self.gist_id {
            Some(t) => t.clone(),
            None => String::new(),
        };
        let file_name = match &self.gist_file_name {
            Some(t) => t.clone(),
            None => String::new(),
        };
        self.sync_mode = if pull {
            self.sync_mode.next(SyncEvent::PullStarted)
        } else {
            self.sync_mode.next(SyncEvent::PushStarted)
        };
        Ok(SyncTarget { token, gist_id, file_name })
    }
}

/// How a character stands in a JSON string literal: quote and backslash
/// escaped by a backslash, the control characters below 0x20 by their short
/// escape or as `\u00XX` with lowercase hex digits, any other as itself.
pub open spec fn json_escaped_char(c: char) -> Seq<char> {
    let u = c as u32;
    if u == 0x22 {
        "\\\""@
    } else if u == 0x5C {
        "\\\\"@
    } else if u == 8 {
        "\\b"@
    } else if u == 9 {
        "\\t"@
    } else if u == 10 {
        "\\n"@
    } else if u == 12 {
        "\\f"@
    } else if u == 13 {
        "\\r"@
    } else if u < 0x20 {
        "\\u00"@ + seq![hex_digit(u as int / 16) as char, hex_digit(u as int % 16) as char]
    } else {
        seq![c]
    }
}

/// The characters of a text, each as it stands in a JSON string literal.
pub open spec fn json_escaped(s: Seq<char>) -> Seq<char>
    decreases s.len(),
{
    if s.len() == 0 {
        Seq::empty()
    } else {
        json_escaped(s.drop_last()) + json_escaped_char(s.last())
    }
}

/// The JSON string literal of a text, with its quotes.
pub open spec fn json_string_literal(s: Seq<char>) -> Seq<char> {
    "\""@ + json_escaped(s) + "\""@
}

/// Relies on `serde_json::to_string` on a `str`, which writes the text in
/// quotes with the escapes of its `ESCAPE` table, and cannot fail on one.
#[verifier::external_body]
fn json_quote(s: &str) -> (r: String)
    ensures
        r@ == json_string_literal(s@),
{
    serde_json::to_string(s).unwrap_or_default()
}

/// The address of a document.
pub open spec fn gist_url(gist_id: Seq<char>) -> Seq<char> {
    GIST_API_URL@ + gist_id
}

/// The `Authorization` header of a token.
pub open spec fn bearer(token: Seq<char>) -> Seq<char> {
    "Bearer "@ + token
}

/// The body of a push: `{"files":{<file>:{"content":<document>}}}`, the
/// file name and the document as JSON string literals.
pub open spec fn patch_body(file_name: Seq<char>, document: Seq<char>) -> Seq<char> {
    "{\"files\":{"@ + json_string_literal(file_name) + ":{\"content\":"@ + json_string_literal(
        document,
    ) + "}}}"@
}

fn request(method: HttpMethod, target: &SyncTarget, body: Option<String>) -> (r: HttpRequest)
    ensures
        r.method == method,
        r.url@ == gist_url(target.gist_id@),
        r.authorization@ == bearer(target.token@),
        r.user_agent@ == USER_AGENT@,
        r.body == body,
{
    let mut url = String::from_str(GIST_API_URL);
    url.append(target.gist_id.as_str());
    let mut authorization = String::from_str("Bearer ");
    authorization.append(target.token.as_str());
    HttpRequest { method, url, authorization, user_agent: String::from_str(USER_AGENT), body }
}

/// The request that fetches the document.
pub fn pull_request(target: &SyncTarget) -> (r: HttpRequest)
    ensures
        r.method == HttpMethod::Get,
        r.url@ == gist_url(target.gist_id@),
        r.authorization@ == bearer(target.token@),
        r.user_agent@ == USER_AGENT@,
        r.body is None,
{
    request(HttpMethod::Get, target, None)
}

/// The request that replaces the content of the target file with
/// `document`.
pub fn push_request(target: &SyncTarget, document: &str) -> (r: HttpRequest)
    ensures
        r.method == HttpMethod::Patch,
        r.url@ == gist_url(target.gist_id@),
        r.authorization@ == bearer(target.token@),
        r.user_agent@ == USER_AGENT@,
        r.body is Some && r.body->0@ == patch_body(target.file_name@, document@),
{
    let mut body = String::from_str("{\"files\":{");
    body.append(json_quote(target.file_name.as_str()).as_str());
    body.append(":{\"content\":");
    body.append(json_quote(document).as_str());
    body.append("}}}");
    request(HttpMethod::Patch, target, Some(body))
}

/// The status is a success.
pub open spec fn success_status(status: u16) -> bool {
    200 <= status <= 299
}

/// Reads the answer to a push.
pub fn push_outcome(status: u16, body: String, rate_limit_reset: Option<String>) -> (r: Result<(), SyncError>)
    ensures
        success_status(status) ==> r is Ok,
        !success_status(status) ==> r is Err && (match r->Err_0 {
            SyncError::Remote { status: s, body: b, rate_limit_reset: reset } => s == status && b
                == body && reset == rate_limit_reset,
            _ => false,
        }),
{
    if 200 <= status && status <= 299 {
        Ok(())
    } else {
        Err(SyncError::Remote { status, body, rate_limit_reset })
    }
}

/// The string found in the JSON text `body` by following the object keys
/// of `path` from the top, where the text is JSON and there is a string
/// at the end of that path.
pub uninterp spec fn json_text_at(body: Seq<char>, path: Seq<Seq<char>>) -> Option<Seq<char>>;

/// Relies on `serde_json::from_str` into a `serde_json::Value`, and on the
/// value's `get` and `as_str`, to read the string under the keys `first`,
/// `second` and `third`.
#[verifier::external_body]
fn json_text_at3(body: &str, first: &str, second: &str, third: &str) -> (r: Option<String>)
    ensures
        opt_text(r) == json_text_at(body@, seq![first@, second@, third@]),
{
    let doc = serde_json::from_str::<serde_json::Value>(body).ok()?;
    doc.get(first)?.get(second)?.get(third)?.as_str().map(String::from)
}

/// The content of file `file_name` of the document in the answer `body`:
/// the string at `files.<file_name>.content`.
pub open spec fn gist_file_content(body: Seq<char>, file_name: Seq<char>) -> Option<Seq<char>> {
    json_text_at(body, seq!["files"@, file_name, "content"@])
}

/// Reads the answer to a pull: the content of the target file.
pub fn pull_outcome(status: u16, body: String, rate_limit_reset: Option<String>, file_name: &str) -> (r:
    Result<String, SyncError>)
    ensures
        !success_status(status) ==> r is Err && (match r->Err_0 {
            SyncError::Remote { status: s, body: b, rate_limit_reset: reset } => s == status && b
                == body && reset == rate_limit_reset,
            _ => false,
        }),
        success_status(status) ==> match gist_file_content(body@, file_name@) {
            Some(c) => r is Ok && r->Ok_0@ == c,
            None => r is Err && r->Err_0 is MalformedDocument,
        },
{
    if !(200 <= status && status <= 299) {
        return Err(SyncError::Remote { status, body, rate_limit_reset });
    }
    match json_text_at3(body.as_str(), "files", file_name, "content") {
        Some(c) => Ok(c),
        None => Err(SyncError::MalformedDocument),
    }
}

impl AppState {
    /// Ends a push: the status becomes `InSync` on success and `NotSynced`
    /// on failure. The tasks and credentials are left as they are.
    pub fn finish_push(&mut self, outcome: &Result<(), SyncError>)
        ensures
            final(self).same_data(*old(self)),
            final(self).tasks == old(self).tasks,
            final(self).sync_mode == next_mode(
                old(self).sync_mode,
                if outcome is Ok {
                    SyncEvent::Succeeded
                } else {
                    SyncEvent::PushFailed
                },
            ),
    {
        self.sync_mode = match outcome {
            Ok(_) => self.sync_mode.next(SyncEvent::Succeeded),
            Err(_) => self.sync_mode.next(SyncEvent::PushFailed),
        };
    }

    /// Ends a pull with the stored form that was read from the remote
    /// document, whose token is obfuscated. Where it can be read, it replaces
    /// the whole state and the status becomes `InSync`; else the state is
    /// left as it is, the status becomes `Failed`, and the error is returned.
    pub fn finish_pull(&mut self, pulled: Result<SerializableState, SyncError>) -> (r: Result<(), SyncError>)
        ensures
            r is Ok ==> pulled is Ok && final(self).sync_mode == SyncMode::InSync
                && final(self).tasks_read_from(pulled->Ok_0) && match pulled->Ok_0.github_pat {
                Some(p) => opt_text(final(self).github_pat) == deobfuscated(p@),
                None => final(self).github_pat is None,
            },
            r is Err ==> final(self).sync_mode == SyncMode::Failed && final(self).same_data(*old(self))
                && final(self).tasks == old(self).tasks,
            pulled is Err ==> r is Err,
            r is Ok <==> pulled is Ok && AppState::token_readable(pulled->Ok_0) && AppState::all_readable(
                pulled->Ok_0,
            ),
            pulled is Ok && r is Err ==> r->Err_0 is Parse,
    {
        let s = match pulled {
            Ok(s) => s,
            Err(e) => {
                self.sync_mode = self.sync_mode.next(SyncEvent::PullFailed);
                return Err(e);
            },
        };
        match AppState::from_storage(s) {
            Ok(st) => {
                self.tasks = st.tasks;
                self.github_pat = st.github_pat;
                self.gist_id = st.gist_id;
                self.gist_file_name = st.gist_file_name;
                self.sync_mode = self.sync_mode.next(SyncEvent::Succeeded);
                Ok(())
            },
            Err(e) => {
                self.sync_mode = self.sync_mode.next(SyncEvent::PullFailed);
                Err(SyncError::Parse(e))
            },
        }
    }
}

/// The decimal digits of `n`.
pub open spec fn decimal(n: nat) -> Seq<char>
    decreases n,
{
    if n < 10 {
        seq![((48 + n) as u8) as char]
    } else {
        decimal(n / 10) + seq![((48 + n % 10) as u8) as char]
    }
}

/// The decimal digits of `n`.
pub fn decimal_text(n: u64) -> (r: String)
    ensures
        r@ == decimal(n as nat),
    decreases n,
{
    if n < 10 {
        let r = ascii_string(vec![48 + n as u8]);
        assert(r@ =~= decimal(n as nat));
        r
    } else {
        let mut r = decimal_text(n / 10);
        let last = ascii_string(vec![48 + (n % 10) as u8]);
        r.append(last.as_str());
        assert(r@ =~= decimal(n as nat));
        r
    }
}

/// The message that tells the user why a sync failed.
pub open spec fn sync_message(e: SyncError) -> Seq<char> {
    match e {
        SyncError::IncompleteConfig => "sync settings are incomplete: token, document id and file name are all needed"@,
        SyncError::Transport(m) => "network failure: "@ + m@,
        SyncError::Remote { status, body, rate_limit_reset } => "remote answered with status "@
            + decimal(status as nat) + ": "@ + body@ + match rate_limit_reset {
            Some(t) => " (rate limit resets at "@ + t@ + ")"@,
            None => Seq::empty(),
        },
        SyncError::MalformedDocument => "the remote answer holds no content for the file"@,
        SyncError::Parse(_) => "the remote document could not be read"@,
    }
}

impl SyncError {
    /// The message that tells the user why the sync failed; a failure that
    /// the remote end reported names its status, its answer and, where it
    /// gave one, when its rate limit resets.
    pub fn message(&self) -> (r: String)
        ensures
            r@ == sync_message(*self),
    {
        match self {
            SyncError::IncompleteConfig => String::from_str(
                "sync settings are incomplete: token, document id and file name are all needed",
            ),
            SyncError::Transport(m) => {
                let mut r = String::from_str("network failure: ");
                r.append(m.as_str());
                r
            },
            SyncError::Remote { status, body, rate_limit_reset } => {
                let mut r = String::from_str("remote answered with status ");
                r.append(decimal_text(*status as u64).as_str());
                r.append(": ");
                r.append(body.as_str());
                match rate_limit_reset {
                    Some(t) => {
                        r.append(" (rate limit resets at ");
                        r.append(t.as_str());
                        r.append(")");
                    },
                    None => {},
                }
                assert(r@ =~= sync_message(*self));
                r
            },
            SyncError::MalformedDocument => String::from_str(
                "the remote answer holds no content for the file",
            ),
            SyncError::Parse(_) => String::from_str("the remote document could not be read"),
        }
    }
}

} // verus!
