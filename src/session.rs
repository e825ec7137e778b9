//! Session lifecycle decisions: input checks, the agent's command line, the
//! registration of a spawned process, and cancellation.
use vstd::prelude::*;
use crate::models::{ModelAliases, normalize_model_name, resolve};
use crate::registry::ProcessRegistry;

verus! {

/// Why a project path is refused.
#[derive(Debug, Clone, PartialEq, Eq)]
pub enum PathProblem {
    NotAbsolute,
    Missing(String),
    Unresolvable(String),
}

/// The failures of the session operations.
#[derive(Debug, Clone, PartialEq, Eq)]
pub enum SessionError {
    InvalidPath(PathProblem),
    CliNotInstalled,
    SpawnFailed(String),
    StdoutUnavailable,
    NotRunning,
    KillFailed(String),
}

fn joined(prefix: &str, detail: &str) -> (r: String)
    ensures
        r@ == prefix@ + detail@,
{
    let mut s = String::from_str(prefix);
    s.append(detail);
    s
}

pub open spec fn error_message(e: SessionError) -> Seq<char> {
    match e {
        SessionError::InvalidPath(PathProblem::NotAbsolute) => "Project path must be absolute"@,
        SessionError::InvalidPath(PathProblem::Missing(p)) => "Project path does not exist: "@ + p@,
        SessionError::InvalidPath(PathProblem::Unresolvable(d)) => "Failed to canonicalize path: "@ + d@,
        SessionError::CliNotInstalled => "The agent CLI is not installed. Please install it first."@,
        SessionError::SpawnFailed(d) => "Failed to spawn the agent CLI: "@ + d@,
        SessionError::StdoutUnavailable => "Failed to get stdout"@,
        SessionError::NotRunning => "Session is not running"@,
        SessionError::KillFailed(d) => "Failed to kill process: "@ + d@,
    }
}

impl SessionError {
    /// The user-facing text of the error.
    pub fn message(&self) -> (r: String)
        ensures
            r@ == error_message(*self),
    {
        match self {
            SessionError::InvalidPath(PathProblem::NotAbsolute) => String::from_str(
                "Project path must be absolute",
            ),
            SessionError::InvalidPath(PathProblem::Missing(p)) => joined(
                "Project path does not exist: ",
                p.as_str(),
            ),
            SessionError::InvalidPath(PathProblem::Unresolvable(d)) => joined(
                "Failed to canonicalize path: ",
                d.as_str(),
            ),
            SessionError::CliNotInstalled => String::from_str(
                "The agent CLI is not installed. Please install it first.",
            ),
            SessionError::SpawnFailed(d) => joined("Failed to spawn the agent CLI: ", d.as_str()),
            SessionError::StdoutUnavailable => String::from_str("Failed to get stdout"),
            SessionError::NotRunning => String::from_str("Session is not running"),
            SessionError::KillFailed(d) => joined("Failed to kill process: ", d.as_str()),
        }
    }
}

/// A path is absolute when it starts at the root.
pub open spec fn is_absolute(p: Seq<char>) -> bool {
    p.len() > 0 && p[0] == '/'
}

/// Checks a project path given what the file system said of it: whether it
/// exists, and its canonical form or why that could not be had.
pub fn validate_project_path(path: &str, exists: bool, canonical: Result<String, String>) -> (r:
    Result<String, SessionError>)
    ensures
        !is_absolute(path@) ==> r matches Err(SessionError::InvalidPath(PathProblem::NotAbsolute)),
        is_absolute(path@) && !exists ==> (r matches Err(
            SessionError::InvalidPath(PathProblem::Missing(p)),
        ) && p@ == path@),
        is_absolute(path@) && exists ==> match canonical {
            Ok(c) => r matches Ok(d) && d@ == c@,
            Err(e) => r matches Err(SessionError::InvalidPath(PathProblem::Unresolvable(d)))
                && d@ == e@,
        },
        match path_check(path@, exists, canonical) {
            Ok(dir) => r matches Ok(d) && d@ == dir,
            Err(msg) => r matches Err(f) && f is InvalidPath && error_message(f) == msg,
        },
{
    if path.is_empty() || path.get_char(0) != '/' {
        return Err(SessionError::InvalidPath(PathProblem::NotAbsolute));
    }
    if !exists {
        return Err(SessionError::InvalidPath(PathProblem::Missing(String::from_str(path))));
    }
    match canonical {
        Ok(c) => Ok(c),
        Err(e) => Err(SessionError::InvalidPath(PathProblem::Unresolvable(e))),
    }
}

/// The agent's command line: program, arguments and working directory.
#[derive(Debug, Clone, PartialEq, Eq)]
pub struct CliInvocation {
    pub program: String,
    pub args: Vec<String>,
    pub cwd: String,
}

pub open spec fn args_view(args: Seq<String>) -> Seq<Seq<char>> {
    args.map_values(|a: String| a@)
}

/// Print mode, verbose stream-json output with partial messages, the model,
/// then the message.
pub open spec fn create_args(message: Seq<char>, model: Seq<char>) -> Seq<Seq<char>> {
    seq![
        "-p"@,
        "--verbose"@,
        "--output-format"@,
        "stream-json"@,
        "--include-partial-messages"@,
        "--model"@,
        model,
        message,
    ]
}

/// Resume mode against a session, with the same output settings and no model.
pub open spec fn resume_args(session_id: Seq<char>, message: Seq<char>) -> Seq<Seq<char>> {
    seq![
        "--resume"@,
        session_id,
        "-p"@,
        message,
        "--output-format"@,
        "stream-json"@,
        "--include-partial-messages"@,
        "--verbose"@,
    ]
}

fn text(s: &str) -> (r: String)
    ensures
        r@ == s@,
{
    String::from_str(s)
}

/// The invocation of the agent executable `program` that starts a new
/// session in `dir`.
pub fn create_invocation(program: &str, message: &str, model: &str, dir: &str) -> (r: CliInvocation)
    ensures
        r.program@ == program@,
        args_view(r.args@) == create_args(message@, model@),
        r.cwd@ == dir@,
{
    let args = vec![
        text("-p"),
        text("--verbose"),
        text("--output-format"),
        text("stream-json"),
        text("--include-partial-messages"),
        text("--model"),
        text(model),
        text(message),
    ];
    let r = CliInvocation { program: text(program), args, cwd: text(dir) };
    assert(args_view(r.args@) =~= create_args(message@, model@));
    r
}

/// The invocation of the agent executable `program` that resumes
/// `session_id` in `dir`.
pub fn resume_invocation(program: &str, session_id: &str, message: &str, dir: &str) -> (r:
    CliInvocation)
    ensures
        r.program@ == program@,
        args_view(r.args@) == resume_args(session_id@, message@),
        r.cwd@ == dir@,
{
    let args = vec![
        text("--resume"),
        text(session_id),
        text("-p"),
        text(message),
        text("--output-format"),
        text("stream-json"),
        text("--include-partial-messages"),
        text("--verbose"),
    ];
    let r = CliInvocation { program: text(program), args, cwd: text(dir) };
    assert(args_view(r.args@) =~= resume_args(session_id@, message@));
    r
}

/// Decides how to start a new session with the agent executable `program`:
/// the agent must be installed and the
/// project path valid; the model name is resolved to its full id.
pub fn prepare_create(
    program: &str,
    cli_installed: bool,
    aliases: &ModelAliases,
    message: &str,
    model: &str,
    project_path: &str,
    exists: bool,
    canonical: Result<String, String>,
) -> (r: Result<CliInvocation, SessionError>)
    requires
        aliases.wf(),
    ensures
        !cli_installed ==> r matches Err(SessionError::CliNotInstalled),
        cli_installed ==> match path_check(project_path@, exists, canonical) {
            Ok(dir) => r matches Ok(inv) && inv.program@ == program@ && inv.cwd@ == dir
                && args_view(inv.args@) == create_args(message@, resolve(aliases@, model@)),
            Err(msg) => r matches Err(f) && f is InvalidPath && error_message(f) == msg,
        },
{
    if !cli_installed {
        return Err(SessionError::CliNotInstalled);
    }
    let dir = validate_project_path(project_path, exists, canonical)?;
    let full_model = normalize_model_name(aliases, model);
    Ok(create_invocation(program, message, full_model.as_str(), dir.as_str()))
}

/// Decides how to resume `session_id` with the agent executable `program`:
/// the agent must be installed and the
/// project path valid.
pub fn prepare_resume(
    program: &str,
    cli_installed: bool,
    session_id: &str,
    message: &str,
    project_path: &str,
    exists: bool,
    canonical: Result<String, String>,
) -> (r: Result<CliInvocation, SessionError>)
    ensures
        !cli_installed ==> r matches Err(SessionError::CliNotInstalled),
        cli_installed ==> match path_check(project_path@, exists, canonical) {
            Ok(dir) => r matches Ok(inv) && inv.program@ == program@ && inv.cwd@ == dir
                && args_view(inv.args@) == resume_args(session_id@, message@),
            Err(msg) => r matches Err(f) && f is InvalidPath && error_message(f) == msg,
        },
{
    if !cli_installed {
        return Err(SessionError::CliNotInstalled);
    }
    let dir = validate_project_path(project_path, exists, canonical)?;
    Ok(resume_invocation(program, session_id, message, dir.as_str()))
}

/// The outcome of checking a project path: its canonical form, or the
/// message of the `InvalidPath` error.
pub open spec fn path_check(path: Seq<char>, exists: bool, canonical: Result<String, String>) -> Result<
    Seq<char>,
    Seq<char>,
> {
    if !is_absolute(path) {
        Err("Project path must be absolute"@)
    } else if !exists {
        Err("Project path does not exist: "@ + path)
    } else {
        match canonical {
            Ok(c) => Ok(c@),
            Err(e) => Err("Failed to canonicalize path: "@ + e@),
        }
    }
}

pub open spec fn is_lower_hex(c: char) -> bool {
    ('0' <= c && c <= '9') || ('a' <= c && c <= 'f')
}

pub open spec fn is_hyphen_position(i: int) -> bool {
    i == 8 || i == 13 || i == 18 || i == 23
}

/// The text of a random (version 4, RFC 4122 variant) UUID in hyphenated
/// lowercase form: `xxxxxxxx-xxxx-4xxx-yxxx-xxxxxxxxxxxx`, `y` one of 8, 9, a, b.
pub open spec fn is_uuid_v4_text(s: Seq<char>) -> bool {
    &&& s.len() == 36
    &&& forall|i: int|
        0 <= i < 36 ==> if is_hyphen_position(i) {
            #[trigger] s[i] == '-'
        } else {
            is_lower_hex(s[i])
        }
    &&& s[14] == '4'
    &&& (s[19] == '8' || s[19] == '9' || s[19] == 'a' || s[19] == 'b')
}

/// Relies on uuid::Uuid::new_v4, which sets the version nibble to 4 and the
/// variant bits to 10, and on Uuid's `Display`, which writes the hyphenated
/// lowercase form.
#[verifier::external_body]
pub(crate) fn random_uuid() -> (r: String)
    ensures
        is_uuid_v4_text(r@),
{
    uuid::Uuid::new_v4().to_string()
}

/// The temporary key of a new session whose own id is not known yet.
pub fn temp_session_key(id: &str) -> (r: String)
    ensures
        r@ == "temp-"@ + id@,
{
    joined("temp-", id)
}

/// A fresh temporary key: `temp-` and a random version-4 UUID.
pub fn new_temp_session_key() -> (r: String)
    ensures
        exists|id: Seq<char>| is_uuid_v4_text(id) && r@ == "temp-"@ + id,
{
    let id = random_uuid();
    temp_session_key(id.as_str())
}

/// The channel that a session's events are published on.
pub fn session_channel(key: &str) -> (r: String)
    ensures
        r@ == "session-stream:"@ + key@,
{
    joined("session-stream:", key)
}

/// The channel of a chat conversation's events.
pub fn chat_channel(key: &str) -> (r: String)
    ensures
        r@ == "chat-stream:"@ + key@,
{
    joined("chat-stream:", key)
}

} // verus!
