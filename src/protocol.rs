//! Normalization of the agent's newline-delimited JSON output into
//! schema-independent stream events, for the wrapped and the verbose schema.
use vstd::prelude::*;
use crate::json::{Json, member, member_str, parse_json, json_parse, str_eq};

verus! {

/// Per-stream scratch data: the message being assembled and its text so far.
#[derive(Debug, Clone, PartialEq, Eq)]
pub struct ParseState {
    pub current_message_id: String,
    pub accumulated_content: String,
}

/// What a `ParseState` holds, as character sequences.
pub struct ParseStateV {
    pub message_id: Seq<char>,
    pub content: Seq<char>,
}

impl View for ParseState {
    type V = ParseStateV;

    open spec fn view(&self) -> ParseStateV {
        ParseStateV { message_id: self.current_message_id@, content: self.accumulated_content@ }
    }
}

impl ParseState {
    /// A state with no message in progress.
    pub fn new() -> (r: ParseState)
        ensures
            r@ == empty_state(),
    {
        ParseState { current_message_id: String::new(), accumulated_content: String::new() }
    }
}

pub open spec fn empty_state() -> ParseStateV {
    ParseStateV { message_id: Seq::empty(), content: Seq::empty() }
}

/// A normalized unit of progress delivered to the consumer.
#[derive(Debug, Clone, PartialEq, Eq)]
pub enum StreamEvent {
    SessionIdUpdated { temp_id: String, real_id: String },
    MessageStart { message_id: String },
    ContentDelta { message_id: String, delta: String },
    MessageComplete { message_id: String, content: String },
    Error { error: String },
}

/// A `StreamEvent` with its texts as character sequences.
pub enum EventV {
    SessionIdUpdated { temp_id: Seq<char>, real_id: Seq<char> },
    MessageStart { message_id: Seq<char> },
    ContentDelta { message_id: Seq<char>, delta: Seq<char> },
    MessageComplete { message_id: Seq<char>, content: Seq<char> },
    Error { error: Seq<char> },
}

impl View for StreamEvent {
    type V = EventV;

    open spec fn view(&self) -> EventV {
        match self {
            StreamEvent::SessionIdUpdated { temp_id, real_id } => EventV::SessionIdUpdated {
                temp_id: temp_id@,
                real_id: real_id@,
            },
            StreamEvent::MessageStart { message_id } => EventV::MessageStart { message_id: message_id@ },
            StreamEvent::ContentDelta { message_id, delta } => EventV::ContentDelta {
                message_id: message_id@,
                delta: delta@,
            },
            StreamEvent::MessageComplete { message_id, content } => EventV::MessageComplete {
                message_id: message_id@,
                content: content@,
            },
            StreamEvent::Error { error } => EventV::Error { error: error@ },
        }
    }
}

pub open spec fn opt_event(r: Option<StreamEvent>) -> Option<EventV> {
    match r {
        Some(e) => Some(e@),
        None => None,
    }
}

// ---- the wrapped schema: {"type":"stream_event","event":{...}} ----

/// The nested `event` object of a wrapped line.
pub open spec fn wrapped_event(j: Json) -> Option<Json> {
    if member_str(j, "type"@) == Some("stream_event"@) {
        member(j, "event"@)
    } else {
        None
    }
}

pub open spec fn wrapped_kind_is(j: Json, kind: Seq<char>) -> bool {
    match wrapped_event(j) {
        Some(ev) => member_str(ev, "type"@) == Some(kind),
        None => false,
    }
}

/// The message id of a well-formed `message_start` line.
pub open spec fn start_id(j: Json) -> Option<Seq<char>> {
    if wrapped_kind_is(j, "message_start"@) {
        match member(wrapped_event(j)->0, "message"@) {
            Some(m) => member_str(m, "id"@),
            None => None,
        }
    } else {
        None
    }
}

/// The text of a well-formed `content_block_delta` line.
pub open spec fn delta_text(j: Json) -> Option<Seq<char>> {
    if wrapped_kind_is(j, "content_block_delta"@) {
        match member(wrapped_event(j)->0, "delta"@) {
            Some(d) => member_str(d, "text"@),
            None => None,
        }
    } else {
        None
    }
}

pub open spec fn is_stop(j: Json) -> bool {
    wrapped_kind_is(j, "message_stop"@)
}

pub open spec fn wrapped_step(j: Json, s: ParseStateV) -> (Option<EventV>, ParseStateV) {
    match start_id(j) {
        Some(id) => (
            Some(EventV::MessageStart { message_id: id }),
            ParseStateV { message_id: id, content: Seq::empty() },
        ),
        None => match delta_text(j) {
            Some(t) => (
                Some(EventV::ContentDelta { message_id: s.message_id, delta: t }),
                ParseStateV { message_id: s.message_id, content: s.content + t },
            ),
            None => if is_stop(j) {
                (Some(EventV::MessageComplete { message_id: s.message_id, content: s.content }), s)
            } else {
                (None, s)
            },
        },
    }
}

// ---- the verbose schema: system / assistant / result / error ----

/// The first `text` of a list of content blocks.
pub open spec fn first_text(items: Seq<Json>) -> Option<Seq<char>>
    decreases items.len(),
{
    if items.len() == 0 {
        None
    } else {
        match member_str(items[0], "text"@) {
            Some(t) => Some(t),
            None => first_text(items.drop_first()),
        }
    }
}

pub open spec fn assistant_text(m: Json) -> Option<Seq<char>> {
    match member(m, "content"@) {
        Some(Json::Array(items)) => first_text(items@),
        _ => None,
    }
}

/// An assistant line starts the message when none is in progress, and carries
/// its first text block as one cumulative delta.
pub open spec fn assistant_step(j: Json, s: ParseStateV) -> (Option<EventV>, ParseStateV) {
    match member(j, "message"@) {
        None => (None, s),
        Some(m) => match member_str(m, "id"@) {
            None => (None, s),
            Some(id) => {
                let started = if s.message_id.len() == 0 {
                    ParseStateV { message_id: id, content: Seq::empty() }
                } else {
                    s
                };
                match assistant_text(m) {
                    Some(t) => (
                        Some(EventV::ContentDelta { message_id: id, delta: t }),
                        ParseStateV { message_id: started.message_id, content: t },
                    ),
                    None => (None, started),
                }
            },
        },
    }
}

pub open spec fn result_step(s: ParseStateV) -> (Option<EventV>, ParseStateV) {
    if s.message_id.len() > 0 {
        (Some(EventV::MessageComplete { message_id: s.message_id, content: s.content }), empty_state())
    } else {
        (None, s)
    }
}

pub open spec fn error_text(j: Json) -> Seq<char> {
    match member_str(j, "error"@) {
        Some(e) => e,
        None => "Unknown error"@,
    }
}

/// The event one parsed line yields, and the parse state after it.
pub open spec fn normalize_spec(j: Json, s: ParseStateV) -> (Option<EventV>, ParseStateV) {
    match member_str(j, "type"@) {
        None => (None, s),
        Some(t) => if t == "stream_event"@ {
            wrapped_step(j, s)
        } else if t == "assistant"@ {
            assistant_step(j, s)
        } else if t == "result"@ {
            result_step(s)
        } else if t == "error"@ {
            (Some(EventV::Error { error: error_text(j) }), s)
        } else {
            (None, s)
        },
    }
}

/// The same for a raw line: one that is not JSON yields nothing.
pub open spec fn line_step(line: Seq<char>, s: ParseStateV) -> (Option<EventV>, ParseStateV) {
    match json_parse(line) {
        Some(j) => normalize_spec(j, s),
        None => (None, s),
    }
}

/// The step of a reader that knows only the wrapped schema.
pub open spec fn wrapped_only_step(j: Json, s: ParseStateV) -> (Option<EventV>, ParseStateV) {
    if member_str(j, "type"@) == Some("stream_event"@) {
        wrapped_step(j, s)
    } else {
        (None, s)
    }
}

/// The completion owed when the stream ends with a message in progress.
pub open spec fn flush_spec(s: ParseStateV) -> Option<EventV> {
    if s.message_id.len() > 0 {
        Some(EventV::MessageComplete { message_id: s.message_id, content: s.content })
    } else {
        None
    }
}

// ---- laws over sequences of lines ----

/// The events that a run of parsed lines yields, in order, and the state after it.
pub open spec fn run(lines: Seq<Json>, s: ParseStateV) -> (Seq<EventV>, ParseStateV)
    decreases lines.len(),
{
    if lines.len() == 0 {
        (Seq::empty(), s)
    } else {
        let prev = run(lines.drop_last(), s);
        let step = normalize_spec(lines.last(), prev.1);
        (
            match step.0 {
                Some(e) => prev.0.push(e),
                None => prev.0,
            },
            step.1,
        )
    }
}

/// The concatenation, in order, of the texts of the `ContentDelta` events.
pub open spec fn deltas(evs: Seq<EventV>) -> Seq<char>
    decreases evs.len(),
{
    if evs.len() == 0 {
        Seq::empty()
    } else {
        deltas(evs.drop_last()) + match evs.last() {
            EventV::ContentDelta { delta, .. } => delta,
            _ => Seq::empty(),
        }
    }
}

/// A wrapped-schema message: `message_start`, any number of
/// `content_block_delta`, then `message_stop`.
pub open spec fn wrapped_message(lines: Seq<Json>) -> bool {
    &&& lines.len() >= 2
    &&& start_id(lines[0]) is Some
    &&& forall|i: int| 0 < i < lines.len() - 1 ==> #[trigger] delta_text(lines[i]) is Some
    &&& is_stop(lines.last())
}

proof fn lemma_wrapped_prefix(lines: Seq<Json>, s: ParseStateV, k: int)
    requires
        wrapped_message(lines),
        1 <= k <= lines.len() - 1,
    ensures
        run(lines.take(k), s).0.len() == k,
        run(lines.take(k), s).1 == (ParseStateV {
            message_id: start_id(lines[0])->0,
            content: deltas(run(lines.take(k), s).0),
        }),
    decreases k,
{
    lemma_wrapped_kinds_distinct();
    let id = start_id(lines[0])->0;
    let r = run(lines.take(k), s);
    if k == 1 {
        assert(lines.take(1).drop_last() =~= Seq::<Json>::empty());
        assert(lines.take(1).last() == lines[0]);
        assert(wrapped_event(lines[0]) is Some);
        assert(member_str(lines[0], "type"@) == Some("stream_event"@));
        assert(normalize_spec(lines[0], s).0 == Some(EventV::MessageStart { message_id: id }));
        assert(run(Seq::<Json>::empty(), s).0 =~= Seq::<EventV>::empty());
        assert(r.0 =~= seq![EventV::MessageStart { message_id: id }]);
        assert(r.0.drop_last() =~= Seq::<EventV>::empty());
        assert(deltas(r.0) =~= Seq::<char>::empty());
    } else {
        lemma_wrapped_prefix(lines, s, k - 1);
        let prev = run(lines.take(k - 1), s);
        assert(lines.take(k).drop_last() =~= lines.take(k - 1));
        assert(lines.take(k).last() == lines[k - 1]);
        assert(delta_text(lines[k - 1]) is Some);
        let t = delta_text(lines[k - 1])->0;
        assert(r.0 == prev.0.push(EventV::ContentDelta { message_id: id, delta: t }));
        assert(r.0.drop_last() =~= prev.0);
    }
}

/// In a wrapped-schema message, the completion carries the start's id and
/// the concatenation, in arrival order, of every delta emitted before it.
pub proof fn lemma_wrapped_completion_concatenates(lines: Seq<Json>, s: ParseStateV)
    requires
        wrapped_message(lines),
    ensures
        run(lines, s).0.len() == lines.len(),
        run(lines, s).0.last() == (EventV::MessageComplete {
            message_id: start_id(lines[0])->0,
            content: deltas(run(lines, s).0),
        }),
{
    lemma_wrapped_kinds_distinct();
    let n = lines.len() as int;
    lemma_wrapped_prefix(lines, s, n - 1);
    assert(lines.drop_last() =~= lines.take(n - 1));
    let prev = run(lines.take(n - 1), s);
    let evs = run(lines, s).0;
    assert(evs == prev.0.push(
        EventV::MessageComplete { message_id: prev.1.message_id, content: prev.1.content },
    ));
    assert(evs.drop_last() =~= prev.0);
}

/// A line of a known kind that carries the fields its kind requires.
pub open spec fn well_formed_line(j: Json) -> bool {
    match member_str(j, "type"@) {
        None => false,
        Some(t) => if t == "stream_event"@ {
            start_id(j) is Some || delta_text(j) is Some || is_stop(j)
        } else if t == "assistant"@ {
            match member(j, "message"@) {
                Some(m) => member_str(m, "id"@) is Some,
                None => false,
            }
        } else {
            t == "result"@ || t == "error"@ || t == "system"@
        },
    }
}

/// A line that is not JSON, lacks a field its kind requires, or has an
/// unknown type yields no event and leaves the parse state untouched.
pub proof fn lemma_malformed_line_ignored(line: Seq<char>, s: ParseStateV)
    requires
        json_parse(line) is None || !well_formed_line(json_parse(line)->0),
    ensures
        line_step(line, s) == (None::<EventV>, s),
{
    lemma_top_types_distinct();
}

/// The event kinds of the wrapped schema are three distinct words.
pub proof fn lemma_wrapped_kinds_distinct()
    ensures
        "message_start"@ != "content_block_delta"@,
        "message_start"@ != "message_stop"@,
        "content_block_delta"@ != "message_stop"@,
{
    reveal_strlit("message_start");
    reveal_strlit("content_block_delta");
    reveal_strlit("message_stop");
    assert("message_start"@.len() == 13);
    assert("content_block_delta"@.len() == 19);
    assert("message_stop"@.len() == 12);
}

/// The top-level types that the normalizer tells apart are distinct words.
pub proof fn lemma_top_types_distinct()
    ensures
        "stream_event"@ != "assistant"@,
        "stream_event"@ != "result"@,
        "stream_event"@ != "error"@,
        "assistant"@ != "result"@,
        "assistant"@ != "error"@,
        "result"@ != "error"@,
{
    reveal_strlit("stream_event");
    reveal_strlit("assistant");
    reveal_strlit("result");
    reveal_strlit("error");
    assert("stream_event"@.len() == 12);
    assert("assistant"@.len() == 9);
    assert("result"@.len() == 6);
    assert("error"@.len() == 5);
}

fn apply_wrapped(json: &Json, state: &mut ParseState) -> (r: Option<StreamEvent>)
    requires
        member_str(*json, "type"@) == Some("stream_event"@),
    ensures
        (opt_event(r), final(state)@) == wrapped_step(*json, old(state)@),
{
    proof {
        lemma_wrapped_kinds_distinct();
    }
    let event = match json.get("event") {
        Some(e) => e,
        None => return None,
    };
    let kind = match event.get_str("type") {
        Some(k) => k,
        None => return None,
    };
    if str_eq(kind.as_str(), "message_start") {
        let id = match event.get("message") {
            Some(m) => match m.get_str("id") {
                Some(id) => id.clone(),
                None => return None,
            },
            None => return None,
        };
        state.current_message_id = id.clone();
        state.accumulated_content = String::new();
        Some(StreamEvent::MessageStart { message_id: id })
    } else if str_eq(kind.as_str(), "content_block_delta") {
        let text = match event.get("delta") {
            Some(d) => match d.get_str("text") {
                Some(t) => t.clone(),
                None => return None,
            },
            None => return None,
        };
        state.accumulated_content.append(text.as_str());
        Some(StreamEvent::ContentDelta { message_id: state.current_message_id.clone(), delta: text })
    } else if str_eq(kind.as_str(), "message_stop") {
        Some(
            StreamEvent::MessageComplete {
                message_id: state.current_message_id.clone(),
                content: state.accumulated_content.clone(),
            },
        )
    } else {
        None
    }
}

/// The first text block of an assistant message's `content` array.
fn content_text(message: &Json) -> (r: Option<&String>)
    ensures
        match r {
            Some(t) => assistant_text(*message) == Some(t@),
            None => assistant_text(*message) is None,
        },
{
    match message.get("content") {
        Some(Json::Array(items)) => {
            let mut i: usize = 0;
            assert(items@.subrange(0, items@.len() as int) =~= items@);
            while i < items.len()
                invariant
                    i <= items@.len(),
                    assistant_text(*message) == first_text(items@),
                    first_text(items@) == first_text(items@.subrange(i as int, items@.len() as int)),
                decreases items@.len() - i,
            {
                let ghost rest = items@.subrange(i as int, items@.len() as int);
                assert(rest[0] == items@[i as int]);
                match items[i].get_str("text") {
                    Some(t) => {
                        return Some(t);
                    },
                    None => {},
                }
                assert(rest.drop_first() =~= items@.subrange(i + 1, items@.len() as int));
                i = i + 1;
            }
            None
        },
        _ => None,
    }
}

fn apply_assistant(json: &Json, state: &mut ParseState) -> (r: Option<StreamEvent>)
    ensures
        (opt_event(r), final(state)@) == assistant_step(*json, old(state)@),
{
    let message = match json.get("message") {
        Some(m) => m,
        None => return None,
    };
    let id = match message.get_str("id") {
        Some(id) => id,
        None => return None,
    };
    if state.current_message_id.as_str().is_empty() {
        state.current_message_id = id.clone();
        state.accumulated_content = String::new();
    }
    match content_text(message) {
        Some(t) => {
            state.accumulated_content = t.clone();
            Some(StreamEvent::ContentDelta { message_id: id.clone(), delta: t.clone() })
        },
        None => None,
    }
}

/// Normalizes one parsed line of either schema, updating the parse state.
pub fn parse_stream_event(json: &Json, state: &mut ParseState) -> (r: Option<StreamEvent>)
    ensures
        (opt_event(r), final(state)@) == normalize_spec(*json, old(state)@),
{
    proof {
        lemma_top_types_distinct();
    }
    let t = match json.get_str("type") {
        Some(t) => t,
        None => return None,
    };
    if str_eq(t.as_str(), "stream_event") {
        apply_wrapped(json, state)
    } else if str_eq(t.as_str(), "assistant") {
        apply_assistant(json, state)
    } else if str_eq(t.as_str(), "result") {
        if !state.current_message_id.as_str().is_empty() {
            let event = StreamEvent::MessageComplete {
                message_id: state.current_message_id.clone(),
                content: state.accumulated_content.clone(),
            };
            state.current_message_id = String::new();
            state.accumulated_content = String::new();
            Some(event)
        } else {
            None
        }
    } else if str_eq(t.as_str(), "error") {
        let error = match json.get_str("error") {
            Some(e) => e.clone(),
            None => String::from_str("Unknown error"),
        };
        Some(StreamEvent::Error { error })
    } else {
        None
    }
}

/// Normalizes a line for a reader of the wrapped schema alone; every other
/// top-level type is skipped.
pub fn parse_claude_message(json: &Json, state: &mut ParseState) -> (r: Option<StreamEvent>)
    ensures
        (opt_event(r), final(state)@) == wrapped_only_step(*json, old(state)@),
{
    match json.get_str("type") {
        Some(t) => if str_eq(t.as_str(), "stream_event") {
            apply_wrapped(json, state)
        } else {
            None
        },
        None => None,
    }
}

/// Normalizes one raw line of agent output. A line that is not JSON yields
/// no event and leaves the state as it was.
pub fn normalize(line: &str, state: &mut ParseState) -> (r: Option<StreamEvent>)
    ensures
        (opt_event(r), final(state)@) == line_step(line@, old(state)@),
{
    match parse_json(line) {
        Some(json) => parse_stream_event(&json, state),
        None => None,
    }
}

/// The completion to synthesize when the output ends: one `MessageComplete`
/// with the accumulated text when a message is in progress.
pub fn flush(state: &ParseState) -> (r: Option<StreamEvent>)
    ensures
        opt_event(r) == flush_spec(state@),
{
    if state.current_message_id.as_str().is_empty() {
        None
    } else {
        Some(
            StreamEvent::MessageComplete {
                message_id: state.current_message_id.clone(),
                content: state.accumulated_content.clone(),
            },
        )
    }
}

} // verus!
