//! Path texts: the directory names the agent derives from a project path,
//! the project's own configuration paths, and session ids of file names.
use vstd::prelude::*;

verus! {

/// `s` with every `from` replaced by `to`.
pub open spec fn replace_char(s: Seq<char>, from: char, to: char) -> Seq<char> {
    s.map_values(|c: char| if c == from { to } else { c })
}

fn replace_all(s: &str, from: char, to: &str) -> (r: String)
    requires
        to@.len() == 1,
    ensures
        r@ == replace_char(s@, from, to@[0]),
{
    let n = s.unicode_len();
    let mut out = String::new();
    let mut i: usize = 0;
    while i < n
        invariant
            n == s@.len(),
            i <= n,
            to@.len() == 1,
            out@ == replace_char(s@.take(i as int), from, to@[0]),
        decreases n - i,
    {
        if s.get_char(i) == from {
            out.append(to);
        } else {
            out.append(s.substring_char(i, i + 1));
        }
        assert(replace_char(s@.take(i + 1), from, to@[0]) =~= replace_char(s@.take(i as int), from, to@[0]).push(
            if s@[i as int] == from { to@[0] } else { s@[i as int] },
        ));
        i = i + 1;
    }
    assert(s@.take(n as int) =~= s@);
    out
}

/// The directory name the agent keeps a project's sessions under: every `/`
/// of the project path becomes `-`.
pub fn encode_project_path(path: &str) -> (r: String)
    ensures
        r@ == replace_char(path@, '/', '-'),
{
    proof {
        reveal_strlit("-");
    }
    replace_all(path, '/', "-")
}

/// The same encoding, as the project cleanup names it.
pub fn sanitize_project_path_for_dir(project_path: &str) -> (r: String)
    ensures
        r@ == replace_char(project_path@, '/', '-'),
{
    encode_project_path(project_path)
}

pub open spec fn decoded(encoded: Seq<char>) -> Seq<char> {
    if encoded.len() > 0 && encoded[0] == '-' {
        replace_char(encoded, '-', '/')
    } else {
        encoded
    }
}

/// Reads a project path back from a directory name: in a name that starts
/// with `-`, every `-` becomes `/`; a name without the leading `-` is kept
/// as it is.
pub fn decode_project_path(encoded: &str) -> (r: String)
    ensures
        r@ == decoded(encoded@),
{
    proof {
        reveal_strlit("/");
    }
    let n = encoded.unicode_len();
    if n > 0 && encoded.get_char(0) == '-' {
        replace_all(encoded, '-', "/")
    } else {
        String::from_str(encoded)
    }
}

/// `seg` appended to `base` as a further path component.
pub open spec fn join(base: Seq<char>, seg: Seq<char>) -> Seq<char> {
    if base.len() == 0 || base.last() == '/' {
        base + seg
    } else {
        base + "/"@ + seg
    }
}

/// Appends a relative component to a path.
pub fn join_path(base: &str, seg: &str) -> (r: String)
    ensures
        r@ == join(base@, seg@),
{
    let n = base.unicode_len();
    let mut out = String::from_str(base);
    if n > 0 && base.get_char(n - 1) != '/' {
        out.append("/");
    }
    out.append(seg);
    out
}

/// `PROJECT/<config dir>`, where `config_dir` is the agent's configuration
/// directory name.
pub fn get_project_claude_dir(project_path: &str, config_dir: &str) -> (r: String)
    ensures
        r@ == join(project_path@, config_dir@),
{
    join_path(project_path, config_dir)
}

/// `PROJECT/<config dir>/settings.json`.
pub fn get_project_settings_path(project_path: &str, config_dir: &str) -> (r: String)
    ensures
        r@ == join(join(project_path@, config_dir@), "settings.json"@),
{
    join_path(get_project_claude_dir(project_path, config_dir).as_str(), "settings.json")
}

/// `PROJECT/<config dir>/agents`.
pub fn get_project_agents_dir(project_path: &str, config_dir: &str) -> (r: String)
    ensures
        r@ == join(join(project_path@, config_dir@), "agents"@),
{
    join_path(get_project_claude_dir(project_path, config_dir).as_str(), "agents")
}

/// `PROJECT/<config dir>/commands`.
pub fn get_project_commands_dir(project_path: &str, config_dir: &str) -> (r: String)
    ensures
        r@ == join(join(project_path@, config_dir@), "commands"@),
{
    join_path(get_project_claude_dir(project_path, config_dir).as_str(), "commands")
}

/// `PROJECT/<config dir>/.mcp.json`.
pub fn get_project_mcp_path(project_path: &str, config_dir: &str) -> (r: String)
    ensures
        r@ == join(join(project_path@, config_dir@), ".mcp.json"@),
{
    join_path(get_project_claude_dir(project_path, config_dir).as_str(), ".mcp.json")
}

/// The directory of a project's sessions under a home directory:
/// `HOME/<config dir>/projects/<encoded project path>`.
pub open spec fn sessions_dir_spec(home: Seq<char>, config_dir: Seq<char>, project_path: Seq<char>) -> Seq<
    char,
> {
    join(join(join(home, config_dir), "projects"@), replace_char(project_path, '/', '-'))
}

pub fn project_sessions_dir_in(home: &str, config_dir: &str, project_path: &str) -> (r: String)
    ensures
        r@ == sessions_dir_spec(home@, config_dir@, project_path@),
{
    let base = join_path(join_path(home, config_dir).as_str(), "projects");
    let encoded = encode_project_path(project_path);
    join_path(base.as_str(), encoded.as_str())
}

/// Relies on dirs::home_dir: the current user's home directory, if known,
/// as text.
#[verifier::external_body]
fn home_dir() -> (r: Option<String>) {
    dirs::home_dir().map(|p| p.to_string_lossy().to_string())
}

/// The directory of a project's sessions under the current user's home.
pub fn get_project_sessions_dir(project_path: &str, config_dir: &str) -> (r: Result<String, String>)
    ensures
        match r {
            Ok(d) => exists|home: Seq<char>| d@ == sessions_dir_spec(home, config_dir@, project_path@),
            Err(e) => e@ == "Could not find home directory"@,
        },
{
    match home_dir() {
        Some(home) => Ok(project_sessions_dir_in(home.as_str(), config_dir, project_path)),
        None => Err(String::from_str("Could not find home directory")),
    }
}

/// Whether the path text ends in a separator, or in a `.` component after one.
pub open spec fn ends_in_no_name(s: Seq<char>) -> bool {
    (s.len() > 0 && s.last() == '/') || (s.len() > 1 && s.last() == '.' && s[s.len() - 2] == '/')
}

/// `s` without its trailing separators and `.` components, which name
/// nothing: `a/b/./` ends in `a/b`.
pub open spec fn trim_slashes(s: Seq<char>) -> Seq<char>
    decreases s.len(),
{
    if ends_in_no_name(s) {
        trim_slashes(s.drop_last())
    } else {
        s
    }
}

/// The index of the last `c` in `s`, or -1.
pub open spec fn last_index(s: Seq<char>, c: char) -> int
    decreases s.len(),
{
    if s.len() == 0 {
        -1
    } else if s.last() == c {
        s.len() - 1
    } else {
        last_index(s.drop_last(), c)
    }
}

proof fn lemma_last_index_bounds(s: Seq<char>, c: char)
    ensures
        -1 <= last_index(s, c) < s.len(),
        last_index(s, c) >= 0 ==> s[last_index(s, c)] == c,
    decreases s.len(),
{
    if s.len() > 0 && s.last() != c {
        lemma_last_index_bounds(s.drop_last(), c);
    }
}

/// The final component of a path after trailing separators and `.`
/// components are dropped; `None` for a path without one (empty, the root,
/// `.`, or ending in `..`).
pub open spec fn file_name(p: Seq<char>) -> Option<Seq<char>> {
    let t = trim_slashes(p);
    let name = t.subrange(last_index(t, '/') + 1, t.len() as int);
    if name.len() == 0 || name == seq!['.'] || name == seq!['.', '.'] {
        None
    } else {
        Some(name)
    }
}

/// A file name without its extension: the part before the last `.`, unless
/// that `.` is the first character.
pub open spec fn stem(name: Seq<char>) -> Seq<char> {
    let d = last_index(name, '.');
    if d <= 0 {
        name
    } else {
        name.take(d)
    }
}

fn last_index_of(s: &str, c: char, n: usize) -> (r: Option<usize>)
    requires
        n == s@.len(),
    ensures
        match r {
            Some(k) => k == last_index(s@, c),
            None => last_index(s@, c) == -1,
        },
{
    let mut i: usize = n;
    assert(s@.take(n as int) =~= s@);
    while i > 0
        invariant
            n == s@.len(),
            i <= n,
            last_index(s@, c) == last_index(s@.take(i as int), c),
        decreases i,
    {
        assert(s@.take(i as int).last() == s@[i - 1]);
        if s.get_char(i - 1) == c {
            return Some(i - 1);
        }
        assert(s@.take(i as int).drop_last() =~= s@.take(i - 1));
        i = i - 1;
    }
    None
}

/// The session id a session file's path names: its file name without the
/// extension.
pub fn extract_session_id(file_path: &str) -> (r: Option<String>)
    ensures
        match file_name(file_path@) {
            Some(name) => r is Some && r->0@ == stem(name),
            None => r is None,
        },
{
    let mut end = file_path.unicode_len();
    assert(file_path@.take(end as int) =~= file_path@);
    while end > 0 && (file_path.get_char(end - 1) == '/' || (end > 1 && file_path.get_char(end - 1)
        == '.' && file_path.get_char(end - 2) == '/'))
        invariant
            end <= file_path@.len(),
            trim_slashes(file_path@) == trim_slashes(file_path@.take(end as int)),
        decreases end,
    {
        assert(file_path@.take(end as int).drop_last() =~= file_path@.take(end - 1));
        assert(ends_in_no_name(file_path@.take(end as int)));
        end = end - 1;
    }
    assert(!ends_in_no_name(file_path@.take(end as int)));
    let trimmed = file_path.substring_char(0, end);
    assert(trimmed@ =~= trim_slashes(file_path@));
    let slash = last_index_of(trimmed, '/', end);
    proof {
        lemma_last_index_bounds(trimmed@, '/');
    }
    let start = match slash {
        Some(k) => k + 1,
        None => 0,
    };
    let name = trimmed.substring_char(start, end);
    let len = end - start;
    if len == 0 {
        return None;
    }
    if name.get_char(0) == '.' && (len == 1 || (len == 2 && name.get_char(1) == '.')) {
        assert(len == 1 ==> name@ =~= seq!['.']);
        assert(len == 2 ==> name@ =~= seq!['.', '.']);
        return None;
    }
    assert(name@ != seq!['.'] && name@ != seq!['.', '.']) by {
        if name@ =~= seq!['.'] || name@ =~= seq!['.', '.'] {
            assert(name@[0] == '.');
        }
    }
    let dot = last_index_of(name, '.', len);
    proof {
        lemma_last_index_bounds(name@, '.');
    }
    match dot {
        Some(d) if d > 0 => Some(String::from_str(name.substring_char(0, d))),
        _ => Some(String::from_str(name)),
    }
}

/// A session transcript's file name: a `.jsonl` file with a stem of its own
/// whose name does not start with `agent-` (those belong to sub-agents).
pub open spec fn is_session_file(name: Seq<char>) -> bool {
    &&& name.len() > 6
    &&& name.subrange(name.len() - 6, name.len() as int) == ".jsonl"@
    &&& !(name.len() >= 6 && name.take(6) == "agent-"@)
}

/// Whether a directory entry is a session transcript.
pub fn is_session_file_name(name: &str) -> (r: bool)
    ensures
        r == is_session_file(name@),
{
    proof {
        reveal_strlit(".jsonl");
        reveal_strlit("agent-");
    }
    let n = name.unicode_len();
    if n <= 6 {
        return false;
    }
    let tail = name.substring_char(n - 6, n);
    let head = name.substring_char(0, 6);
    crate::json::str_eq(tail, ".jsonl") && !crate::json::str_eq(head, "agent-")
}

} // verus!
