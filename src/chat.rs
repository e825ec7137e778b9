//! Chat conversations kept by the application: sessions, messages and the
//! options a conversation runs with.
use vstd::prelude::*;
use crate::json::Json;
use crate::session::{random_uuid, is_uuid_v4_text, is_hyphen_position};

verus! {

/// Chat session metadata.
pub struct ChatSession {
    pub id: String,
    pub project_path: String,
    pub title: String,
    pub created_at: u64,
    pub updated_at: u64,
    pub message_count: usize,
}

/// Who wrote a chat message.
#[derive(Debug, Clone, Copy, PartialEq, Eq, Structural)]
pub enum MessageRole {
    User,
    Assistant,
    System,
    Tool,
}

/// A tool call attached to a message.
pub struct ToolUse {
    pub tool_name: String,
    pub input: Json,
    pub output: Option<String>,
}

/// One chat message.
pub struct ChatMessage {
    pub id: String,
    pub session_id: String,
    pub role: MessageRole,
    pub content: String,
    pub timestamp: u64,
    pub tool_use: Option<ToolUse>,
    pub metadata: Option<Json>,
}

/// How the agent asks for permission.
#[derive(Debug, Clone, Copy, PartialEq, Eq, Structural)]
pub enum PermissionMode {
    Default,
    AcceptEdits,
    BypassPermissions,
    Plan,
}

/// Relies on std::time::SystemTime::now and `duration_since`: whole seconds
/// since the Unix epoch, or `None` for a clock set before it.
#[verifier::external_body]
fn now_secs() -> (r: Option<u64>) {
    std::time::SystemTime::now().duration_since(std::time::UNIX_EPOCH).ok().map(|d| d.as_secs())
}

/// The current time in seconds; a clock set before the epoch counts as 0.
fn timestamp_now() -> (r: u64) {
    match now_secs() {
        Some(t) => t,
        None => 0,
    }
}

impl ChatSession {
    /// A new, empty session with a fresh id, created and updated now.
    pub fn new(project_path: String, title: String) -> (r: ChatSession)
        ensures
            is_uuid_v4_text(r.id@),
            r.project_path == project_path,
            r.title == title,
            r.created_at == r.updated_at,
            r.message_count == 0,
    {
        let now = timestamp_now();
        ChatSession {
            id: random_uuid(),
            project_path,
            title,
            created_at: now,
            updated_at: now,
            message_count: 0,
        }
    }
}

impl ChatMessage {
    /// A new message with a fresh id, stamped now, without tool use or metadata.
    pub fn new(session_id: String, role: MessageRole, content: String) -> (r: ChatMessage)
        ensures
            is_uuid_v4_text(r.id@),
            r.session_id == session_id,
            r.role == role,
            r.content == content,
            r.tool_use is None,
            r.metadata is None,
    {
        ChatMessage {
            id: random_uuid(),
            session_id,
            role,
            content,
            timestamp: timestamp_now(),
            tool_use: None,
            metadata: None,
        }
    }
}

pub open spec fn is_hex(c: char) -> bool {
    ('0' <= c && c <= '9') || ('a' <= c && c <= 'f') || ('A' <= c && c <= 'F')
}

/// 32 hex digits.
pub open spec fn is_simple_uuid(s: Seq<char>) -> bool {
    s.len() == 32 && forall|i: int| 0 <= i < 32 ==> is_hex(#[trigger] s[i])
}

/// 32 hex digits in groups of 8, 4, 4, 4 and 12, separated by `-`.
pub open spec fn is_hyphenated_uuid(s: Seq<char>) -> bool {
    s.len() == 36 && forall|i: int|
        0 <= i < 36 ==> if is_hyphen_position(i) {
            #[trigger] s[i] == '-'
        } else {
            is_hex(s[i])
        }
}

/// `urn:uuid:`, letters in either case.
pub open spec fn is_urn_prefix(s: Seq<char>) -> bool {
    &&& s.len() >= 9
    &&& (s[0] == 'u' || s[0] == 'U') && (s[1] == 'r' || s[1] == 'R') && (s[2] == 'n' || s[2] == 'N')
    &&& s[3] == ':'
    &&& (s[4] == 'u' || s[4] == 'U') && (s[5] == 'u' || s[5] == 'U') && (s[6] == 'i' || s[6] == 'I')
    &&& (s[7] == 'd' || s[7] == 'D') && s[8] == ':'
}

/// The texts `uuid::Uuid::parse_str` reads: simple, hyphenated, braced
/// `{...}` hyphenated, or `urn:uuid:` and hyphenated.
pub open spec fn is_uuid_text(s: Seq<char>) -> bool {
    ||| is_simple_uuid(s)
    ||| is_hyphenated_uuid(s)
    ||| (s.len() == 38 && s[0] == '{' && s[37] == '}' && is_hyphenated_uuid(s.subrange(1, 37)))
    ||| (s.len() == 45 && is_urn_prefix(s) && is_hyphenated_uuid(s.subrange(9, 45)))
}

/// Relies on uuid::Uuid::parse_str (its `try_parse`): it accepts exactly
/// these four shapes, with hex digits in either case.
#[verifier::external_body]
fn parses_as_uuid(s: &str) -> (r: bool)
    ensures
        r == is_uuid_text(s@),
{
    uuid::Uuid::parse_str(s).is_ok()
}

/// Whether `s` holds `..`, `/` or `\`, any of which could leave the
/// sessions directory.
pub open spec fn has_traversal(s: Seq<char>) -> bool {
    (exists|i: int| 0 <= i < s.len() - 1 && s[i] == '.' && #[trigger] s[i + 1] == '.')
        || (exists|i: int| 0 <= i < s.len() && (#[trigger] s[i] == '/' || s[i] == '\\'))
}

fn traversal(s: &str) -> (r: bool)
    ensures
        r == has_traversal(s@),
{
    let n = s.unicode_len();
    let mut i: usize = 0;
    while i < n
        invariant
            n == s@.len(),
            i <= n,
            forall|k: int| 0 <= k < i ==> s@[k] != '/' && s@[k] != '\\',
            forall|k: int| 0 <= k < i && k < n - 1 ==> !(s@[k] == '.' && #[trigger] s@[k + 1] == '.'),
        decreases n - i,
    {
        let c = s.get_char(i);
        if c == '/' || c == '\\' {
            return true;
        }
        if c == '.' && i + 1 < n && s.get_char(i + 1) == '.' {
            return true;
        }
        i = i + 1;
    }
    assert(!has_traversal(s@)) by {
        if exists|k: int| 0 <= k < s@.len() - 1 && s@[k] == '.' && #[trigger] s@[k + 1] == '.' {
            let k = choose|k: int| 0 <= k < s@.len() - 1 && s@[k] == '.' && #[trigger] s@[k + 1] == '.';
            assert(!(s@[k] == '.' && s@[k + 1] == '.'));
        }
        if exists|k: int| 0 <= k < s@.len() && (#[trigger] s@[k] == '/' || s@[k] == '\\') {
            let k = choose|k: int| 0 <= k < s@.len() && (#[trigger] s@[k] == '/' || s@[k] == '\\');
            assert(s@[k] != '/' && s@[k] != '\\');
        }
    }
    false
}

/// Checks that a chat session id is safe to use as a file name: no path
/// traversal, and a valid UUID.
pub fn validate_session_id(session_id: &str) -> (r: Result<(), String>)
    ensures
        has_traversal(session_id@) ==> (r matches Err(e)
            && e@ == "Invalid session ID: contains path traversal characters"@),
        !has_traversal(session_id@) && !is_uuid_text(session_id@) ==> (r matches Err(e)
            && e@ == "Invalid session ID: must be a valid UUID"@),
        !has_traversal(session_id@) && is_uuid_text(session_id@) ==> r is Ok,
{
    if traversal(session_id) {
        return Err(String::from_str("Invalid session ID: contains path traversal characters"));
    }
    if !parses_as_uuid(session_id) {
        return Err(String::from_str("Invalid session ID: must be a valid UUID"));
    }
    Ok(())
}

/// The file a chat session is stored in, inside the sessions directory.
pub fn session_file_name(session_id: &str) -> (r: String)
    ensures
        r@ == session_id@ + ".json"@,
{
    let mut s = String::from_str(session_id);
    s.append(".json");
    s
}

pub open spec fn in_project(project_path: Seq<char>) -> spec_fn(ChatSession) -> bool {
    |s: ChatSession| s.project_path@ == project_path
}

pub open spec fn at_time(t: u64) -> spec_fn(ChatSession) -> bool {
    |s: ChatSession| s.updated_at == t
}

proof fn lemma_insert_before_older(a: Seq<ChatSession>, pos: int, x: ChatSession, t: u64)
    requires
        0 <= pos <= a.len(),
        forall|i: int| pos <= i < a.len() ==> (#[trigger] a[i]).updated_at < x.updated_at,
    ensures
        a.insert(pos, x).filter(at_time(t)) == (if x.updated_at == t {
            a.filter(at_time(t)).push(x)
        } else {
            a.filter(at_time(t))
        }),
    decreases a.len(),
{
    reveal(Seq::filter);
    if pos == a.len() {
        assert(a.insert(pos, x) =~= a.push(x));
        assert(a.push(x).drop_last() =~= a);
    } else {
        let d = a.drop_last();
        lemma_insert_before_older(d, pos, x, t);
        assert(a.insert(pos, x) =~= d.insert(pos, x).push(a.last()));
        assert(d.insert(pos, x).push(a.last()).drop_last() =~= d.insert(pos, x));
        assert(a.last() == a[a.len() - 1]);
        if x.updated_at == t {
            assert(a.filter(at_time(t)) == d.filter(at_time(t)));
        }
    }
}

/// The sessions of `project_path`, most recently updated first; sessions
/// updated at the same second keep their order.
pub fn select_project_sessions(sessions: Vec<ChatSession>, project_path: &str) -> (r: Vec<ChatSession>)
    ensures
        r@.to_multiset() == sessions@.filter(in_project(project_path@)).to_multiset(),
        forall|i: int, j: int| 0 <= i < j < r@.len() ==> r@[i].updated_at >= r@[j].updated_at,
        forall|t: u64| #[trigger] r@.filter(at_time(t)) == sessions@.filter(in_project(project_path@)).filter(at_time(t)),
{
    broadcast use vstd::seq_lib::group_to_multiset_ensures;
    let ghost orig = sessions@;
    let mut rest = sessions;
    let mut out: Vec<ChatSession> = Vec::new();
    let ghost mut k: int = 0;
    assert(orig.take(0) =~= Seq::<ChatSession>::empty());
    assert(orig.skip(0) =~= orig);
    while rest.len() > 0
        invariant
            0 <= k <= orig.len(),
            rest@ == orig.skip(k),
            out@.to_multiset() == orig.take(k).filter(in_project(project_path@)).to_multiset(),
            forall|i: int, j: int| 0 <= i < j < out@.len() ==> out@[i].updated_at >= out@[j].updated_at,
            forall|t: u64| #[trigger] out@.filter(at_time(t)) == orig.take(k).filter(in_project(project_path@)).filter(at_time(t)),
        decreases rest@.len(),
    {
        let s = rest.remove(0);
        let ghost prevf = orig.take(k).filter(in_project(project_path@));
        proof {
            assert(orig.skip(k + 1) =~= orig.skip(k).drop_first());
            assert(orig.take(k + 1).drop_last() =~= orig.take(k));
            assert(orig.take(k + 1).last() == s);
            reveal(Seq::filter);
            assert(orig.take(k + 1).filter(in_project(project_path@)) == if s.project_path@
                == project_path@ {
                prevf.push(s)
            } else {
                prevf
            });
            k = k + 1;
        }
        if crate::json::str_eq(s.project_path.as_str(), project_path) {
            let mut pos: usize = 0;
            while pos < out.len() && out[pos].updated_at >= s.updated_at
                invariant
                    pos <= out@.len(),
                    forall|i: int| 0 <= i < pos ==> out@[i].updated_at >= s.updated_at,
                decreases out@.len() - pos,
            {
                pos = pos + 1;
            }
            let ghost before = out@;
            proof {
                vstd::seq_lib::to_multiset_insert(before, pos as int, s);
            }
            out.insert(pos, s);
            proof {
                assert forall|i: int| pos <= i < before.len() implies (#[trigger] before[i]).updated_at
                    < s.updated_at by {
                    assert(before[pos as int].updated_at < s.updated_at);
                    if i > pos {
                        assert(before[pos as int].updated_at >= before[i].updated_at);
                    }
                }
                assert forall|t: u64| #[trigger] out@.filter(at_time(t)) == prevf.push(s).filter(at_time(t)) by {
                    lemma_insert_before_older(before, pos as int, s, t);
                    reveal(Seq::filter);
                    assert(prevf.push(s).drop_last() =~= prevf);
                }
                assert(out@ == before.insert(pos as int, s));
                assert(before.to_multiset() == prevf.to_multiset());
                prevf.to_multiset_ensures();
                assert(prevf.push(s).to_multiset() == prevf.to_multiset().insert(s));
            }
            assert forall|i: int, j: int| 0 <= i < j < out@.len() implies out@[i].updated_at
                >= out@[j].updated_at by {
                if j == pos {
                    assert(out@[i] == before[i]);
                } else if i == pos {
                    assert(out@[j] == before[j - 1]);
                    assert(before[pos as int].updated_at < s.updated_at);
                    assert(before[pos as int].updated_at >= before[j - 1].updated_at || j - 1 == pos);
                } else if i < pos {
                    assert(out@[i] == before[i]);
                    assert(out@[j] == if j < pos { before[j] } else { before[j - 1] });
                } else {
                    assert(out@[i] == before[i - 1]);
                    assert(out@[j] == before[j - 1]);
                }
            }
        }
    }
    assert(orig.skip(k).len() == 0);
    assert(orig.take(k) =~= orig);
    out
}

} // verus!
