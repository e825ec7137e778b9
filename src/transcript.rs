//! The agent's own session transcripts: the records of a session file and
//! the metadata a session list shows for them.
use vstd::prelude::*;
use crate::json::{Json, member_str};
use crate::models::{ModelAliases, normalize_model_name, resolve};

verus! {

/// The kind of a transcript record; anything unknown is `Other`.
#[derive(Debug, Clone, Copy, PartialEq, Eq, Structural)]
pub enum MessageType {
    User,
    Assistant,
    Summary,
    Other,
}

/// Token usage of an assistant record.
pub struct Usage {
    pub input_tokens: u32,
    pub output_tokens: u32,
    pub cache_creation_input_tokens: Option<u32>,
    pub cache_read_input_tokens: Option<u32>,
}

/// The message payload of a record: a role, and content that is either a
/// string or an array of content blocks.
pub struct MessageContent {
    pub role: String,
    pub content: Option<Json>,
}

/// One record of a session file.
pub struct SessionMessage {
    pub parent_uuid: Option<String>,
    pub uuid: Option<String>,
    pub session_id: String,
    pub timestamp: String,
    pub msg_type: MessageType,
    pub message: Option<MessageContent>,
    pub cwd: Option<String>,
    pub version: Option<String>,
    pub is_sidechain: Option<bool>,
    pub id: Option<String>,
    pub model: Option<String>,
    pub usage: Option<Usage>,
}

/// What a session list shows of one session.
pub struct Session {
    pub id: String,
    pub project_path: String,
    pub title: String,
    pub created_at: String,
    pub updated_at: String,
    pub message_count: usize,
    pub model: Option<String>,
    pub file_path: String,
}

/// The `text` of each content block that has one, in order.
pub open spec fn block_texts(items: Seq<Json>) -> Seq<Seq<char>>
    decreases items.len(),
{
    if items.len() == 0 {
        Seq::empty()
    } else {
        let prev = block_texts(items.drop_last());
        match member_str(items.last(), "text"@) {
            Some(t) => prev.push(t),
            None => prev,
        }
    }
}

/// Texts joined with a newline between each two.
pub open spec fn joined_lines(ts: Seq<Seq<char>>) -> Seq<char>
    decreases ts.len(),
{
    if ts.len() == 0 {
        Seq::empty()
    } else if ts.len() == 1 {
        ts[0]
    } else {
        joined_lines(ts.drop_last()) + "\n"@ + ts.last()
    }
}

/// The text of a record: string content as it is, or the texts of its
/// content blocks joined by newlines; none without any text.
pub open spec fn text_content(m: SessionMessage) -> Option<Seq<char>> {
    match m.message {
        None => None,
        Some(mc) => match mc.content {
            Some(Json::Str(s)) => Some(s@),
            Some(Json::Array(items)) => if block_texts(items@).len() > 0 {
                Some(joined_lines(block_texts(items@)))
            } else {
                None
            },
            _ => None,
        },
    }
}

impl SessionMessage {
    /// The text of this record, if it has any.
    pub fn get_text_content(&self) -> (r: Option<String>)
        ensures
            match text_content(*self) {
                Some(t) => r is Some && r->0@ == t,
                None => r is None,
            },
    {
        let message = match &self.message {
            Some(m) => m,
            None => return None,
        };
        match &message.content {
            Some(Json::Str(s)) => Some(s.clone()),
            Some(Json::Array(items)) => {
                let mut out = String::new();
                let mut count: usize = 0;
                let mut i: usize = 0;
                assert(items@.take(0) =~= Seq::<Json>::empty());
                while i < items.len()
                    invariant
                        i <= items@.len(),
                        count <= i,
                        count == block_texts(items@.take(i as int)).len(),
                        out@ == joined_lines(block_texts(items@.take(i as int))),
                    decreases items@.len() - i,
                {
                    assert(items@.take(i + 1).drop_last() =~= items@.take(i as int));
                    assert(items@.take(i + 1).last() == items@[i as int]);
                    match items[i].get_str("text") {
                        Some(t) => {
                            let ghost prev = block_texts(items@.take(i as int));
                            if count > 0 {
                                out.append("\n");
                            }
                            out.append(t.as_str());
                            proof {
                                let now = prev.push(t@);
                                assert(now.drop_last() =~= prev);
                                if prev.len() == 0 {
                                    assert(out@ =~= t@);
                                }
                            }
                            count = count + 1;
                        },
                        None => {},
                    }
                    i = i + 1;
                }
                assert(items@.take(i as int) =~= items@);
                if count > 0 {
                    Some(out)
                } else {
                    None
                }
            },
            _ => None,
        }
    }
}

pub open spec fn is_valid(m: SessionMessage) -> bool {
    m.msg_type != MessageType::Other
}

pub open spec fn count_valid(ms: Seq<SessionMessage>) -> int
    decreases ms.len(),
{
    if ms.len() == 0 {
        0
    } else {
        count_valid(ms.drop_last()) + if is_valid(ms.last()) {
            1int
        } else {
            0int
        }
    }
}

/// The first index whose record is valid and, when `kind` is given, of that
/// kind; -1 if there is none.
pub open spec fn first_where(ms: Seq<SessionMessage>, kind: Option<MessageType>) -> int
    decreases ms.len(),
{
    if ms.len() == 0 {
        -1
    } else {
        let r = first_where(ms.drop_last(), kind);
        if r >= 0 {
            r
        } else if kind_matches(ms.last(), kind) {
            ms.len() - 1
        } else {
            -1
        }
    }
}

/// The last index whose record is valid and, when `kind` is given, of that
/// kind; -1 if there is none.
pub open spec fn last_where(ms: Seq<SessionMessage>, kind: Option<MessageType>) -> int
    decreases ms.len(),
{
    if ms.len() == 0 {
        -1
    } else if kind_matches(ms.last(), kind) {
        ms.len() - 1
    } else {
        last_where(ms.drop_last(), kind)
    }
}

pub open spec fn kind_matches(m: SessionMessage, kind: Option<MessageType>) -> bool {
    is_valid(m) && match kind {
        Some(k) => m.msg_type == k,
        None => true,
    }
}

proof fn lemma_where_bounds(ms: Seq<SessionMessage>, kind: Option<MessageType>)
    ensures
        -1 <= first_where(ms, kind) < ms.len(),
        -1 <= last_where(ms, kind) < ms.len(),
        first_where(ms, kind) >= 0 ==> kind_matches(ms[first_where(ms, kind)], kind),
        last_where(ms, kind) >= 0 ==> kind_matches(ms[last_where(ms, kind)], kind),
        first_where(ms, kind) >= 0 <==> last_where(ms, kind) >= 0,
        count_valid(ms) >= 0,
        kind is None ==> (count_valid(ms) > 0 <==> first_where(ms, kind) >= 0),
        count_valid(ms) <= ms.len(),
    decreases ms.len(),
{
    if ms.len() > 0 {
        lemma_where_bounds(ms.drop_last(), kind);
    }
}

/// A title of at most 100 characters: a longer one keeps its first 97 and
/// ends in `...`.
pub open spec fn short_title(t: Seq<char>) -> Seq<char> {
    if t.len() > 100 {
        t.take(97) + "..."@
    } else {
        t
    }
}

/// The title of a session: the text of its first user record, shortened.
pub open spec fn title_of(ms: Seq<SessionMessage>) -> Seq<char> {
    let u = first_where(ms, Some(MessageType::User));
    short_title(
        if u >= 0 && text_content(ms[u]) is Some {
            text_content(ms[u])->0
        } else {
            "Untitled Session"@
        },
    )
}

/// The model of a session: that of its last assistant record, resolved to
/// a full id.
pub open spec fn model_of(aliases: Map<Seq<char>, String>, ms: Seq<SessionMessage>) -> Option<
    Seq<char>,
> {
    let a = last_where(ms, Some(MessageType::Assistant));
    if a >= 0 && ms[a].model is Some {
        Some(resolve(aliases, ms[a].model->0@))
    } else {
        None
    }
}

/// Summarizes a session's records, leaving out those of an unknown kind:
/// id, working directory and start time come from the first remaining
/// record, the end time from the last; the title is the text of the first
/// user record, and the model that of the last assistant record.
pub fn extract_session_metadata(
    messages: &Vec<SessionMessage>,
    file_path: &str,
    aliases: &ModelAliases,
) -> (r: Result<Session, String>)
    requires
        aliases.wf(),
    ensures
        ({
            let ms = messages@;
            let f = first_where(ms, None);
            let l = last_where(ms, None);
            match r {
                Err(e) => count_valid(ms) == 0 && e@ == "Session has no valid messages"@,
                Ok(s) => {
                    &&& count_valid(ms) > 0
                    &&& s.id@ == ms[f].session_id@
                    &&& s.project_path@ == (match ms[f].cwd {
                        Some(c) => c@,
                        None => "Unknown"@,
                    })
                    &&& s.title@ == title_of(ms)
                    &&& s.created_at@ == ms[f].timestamp@
                    &&& s.updated_at@ == ms[l].timestamp@
                    &&& s.message_count == count_valid(ms)
                    &&& match model_of(aliases@, ms) {
                        Some(m) => s.model is Some && s.model->0@ == m,
                        None => s.model is None,
                    }
                    &&& s.file_path@ == file_path@
                },
            }
        }),
{
    let ghost ms = messages@;
    let mut count: usize = 0;
    let mut first: Option<usize> = None;
    let mut last: Option<usize> = None;
    let mut first_user: Option<usize> = None;
    let mut last_assistant: Option<usize> = None;
    let mut i: usize = 0;
    assert(ms.take(0) =~= Seq::<SessionMessage>::empty());
    while i < messages.len()
        invariant
            ms == messages@,
            i <= ms.len(),
            count == count_valid(ms.take(i as int)),
            count <= i,
            (match first {
                Some(k) => k as int,
                None => -1int,
            }) == first_where(ms.take(i as int), None),
            (match last {
                Some(k) => k as int,
                None => -1int,
            }) == last_where(ms.take(i as int), None),
            (match first_user {
                Some(k) => k as int,
                None => -1int,
            }) == first_where(ms.take(i as int), Some(MessageType::User)),
            (match last_assistant {
                Some(k) => k as int,
                None => -1int,
            }) == last_where(ms.take(i as int), Some(MessageType::Assistant)),
        decreases ms.len() - i,
    {
        let t = messages[i].msg_type;
        assert(ms.take(i + 1).drop_last() =~= ms.take(i as int));
        assert(ms.take(i + 1).last() == ms[i as int]);
        if t != MessageType::Other {
            count = count + 1;
            if first.is_none() {
                first = Some(i);
            }
            last = Some(i);
            if t == MessageType::User && first_user.is_none() {
                first_user = Some(i);
            }
            if t == MessageType::Assistant {
                last_assistant = Some(i);
            }
        }
        i = i + 1;
    }
    assert(ms.take(i as int) =~= ms);
    proof {
        lemma_where_bounds(ms, None);
        lemma_where_bounds(ms, Some(MessageType::User));
        lemma_where_bounds(ms, Some(MessageType::Assistant));
    }
    let (f, l) = match (first, last) {
        (Some(f), Some(l)) => (f, l),
        _ => {
            return Err(String::from_str("Session has no valid messages"));
        },
    };
    let text = match first_user {
        Some(u) => messages[u].get_text_content(),
        None => None,
    };
    let full_title = match text {
        Some(t) => t,
        None => String::from_str("Untitled Session"),
    };
    let n = full_title.as_str().unicode_len();
    let title = if n > 100 {
        let mut t = String::from_str(full_title.as_str().substring_char(0, 97));
        t.append("...");
        t
    } else {
        full_title
    };
    let project_path = match &messages[f].cwd {
        Some(c) => c.clone(),
        None => String::from_str("Unknown"),
    };
    let model = match last_assistant {
        Some(a) => match &messages[a].model {
            Some(m) => Some(normalize_model_name(aliases, m.as_str())),
            None => None,
        },
        None => None,
    };
    Ok(
        Session {
            id: messages[f].session_id.clone(),
            project_path,
            title,
            created_at: messages[f].timestamp.clone(),
            updated_at: messages[l].timestamp.clone(),
            message_count: count,
            model,
            file_path: String::from_str(file_path),
        },
    )
}

} // verus!
