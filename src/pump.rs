//! The per-stream reader: it turns the agent's output lines into events on
//! the session's channel, reconciles a temporary key with the agent's own
//! session id, and releases the registry entry when the output ends.
use vstd::prelude::*;
use crate::json::{Json, member_str, parse_json, json_parse, str_eq};
use crate::protocol::{
    ParseState, ParseStateV, StreamEvent, EventV, normalize_spec, parse_stream_event, flush,
    flush_spec, empty_state,
};
use crate::registry::{ProcessRegistry, rekeyed, cancel_spec};
use crate::session::SessionError;

verus! {

pub open spec fn is_space(c: char) -> bool {
    c == ' ' || c == '\t' || c == '\n' || c == '\r' || c == '\x0B' || c == '\x0C'
}

/// A line with nothing but white space.
pub open spec fn is_blank(s: Seq<char>) -> bool {
    forall|i: int| 0 <= i < s.len() ==> is_space(#[trigger] s[i])
}

pub fn blank(line: &str) -> (r: bool)
    ensures
        r == is_blank(line@),
{
    let n = line.unicode_len();
    let mut i: usize = 0;
    while i < n
        invariant
            n == line@.len(),
            i <= n,
            forall|k: int| 0 <= k < i ==> is_space(#[trigger] line@[k]),
        decreases n - i,
    {
        let c = line.get_char(i);
        if !(c == ' ' || c == '\t' || c == '\n' || c == '\r' || c == '\x0B' || c == '\x0C') {
            return false;
        }
        i = i + 1;
    }
    true
}

/// The session id that a verbose `system` line announces.
pub open spec fn system_session_id(j: Json) -> Option<Seq<char>> {
    if member_str(j, "type"@) == Some("system"@) {
        member_str(j, "session_id"@)
    } else {
        None
    }
}

fn system_id(json: &Json) -> (r: Option<&String>)
    ensures
        match r {
            Some(x) => system_session_id(*json) == Some(x@),
            None => system_session_id(*json) is None,
        },
{
    match json.get_str("type") {
        Some(t) => if str_eq(t.as_str(), "system") {
            json.get_str("session_id")
        } else {
            None
        },
        None => None,
    }
}

/// An event to publish on the channel of a session key.
#[derive(Debug, Clone, PartialEq, Eq)]
pub struct Emission {
    pub key: String,
    pub event: StreamEvent,
}

pub open spec fn emissions(v: Seq<Emission>) -> Seq<(Seq<char>, EventV)> {
    v.map_values(|e: Emission| (e.key@, e.event@))
}

/// The reading side of one agent process.
pub struct StreamPump {
    /// The key the process was registered under.
    pub key: String,
    /// Whether the stream belongs to a new session whose key is temporary.
    pub creating: bool,
    /// The agent's own session id, once announced.
    pub real_key: Option<String>,
    pub state: ParseState,
    /// Whether the output has ended.
    pub finished: bool,
}

pub struct PumpV {
    pub key: Seq<char>,
    pub creating: bool,
    pub real_key: Option<Seq<char>>,
    pub state: ParseStateV,
    pub finished: bool,
}

impl View for StreamPump {
    type V = PumpV;

    open spec fn view(&self) -> PumpV {
        PumpV {
            key: self.key@,
            creating: self.creating,
            real_key: match self.real_key {
                Some(k) => Some(k@),
                None => None,
            },
            state: self.state@,
            finished: self.finished,
        }
    }
}

/// The key events are published under: the agent's id once known.
pub open spec fn active_key(p: PumpV) -> Seq<char> {
    match p.real_key {
        Some(k) => k,
        None => p.key,
    }
}

/// One parsed line: the first `system` line of a new session that carries
/// an id moves the registry entry and announces the id on both channels;
/// then the line's event, if any, goes to the active key.
pub open spec fn pump_json_spec<H>(p: PumpV, reg: Map<Seq<char>, H>, j: Json) -> (
    Seq<(Seq<char>, EventV)>,
    PumpV,
    Map<Seq<char>, H>,
) {
    let reconcile = p.creating && p.real_key is None && system_session_id(j) is Some;
    let x = system_session_id(j)->0;
    let update = EventV::SessionIdUpdated { temp_id: p.key, real_id: x };
    let announced = if reconcile {
        seq![(p.key, update), (x, update)]
    } else {
        Seq::empty()
    };
    let real_key = if reconcile {
        Some(x)
    } else {
        p.real_key
    };
    let reg1 = if reconcile {
        rekeyed(reg, p.key, x)
    } else {
        reg
    };
    let step = normalize_spec(j, p.state);
    let p1 = PumpV {
        key: p.key,
        creating: p.creating,
        real_key,
        state: step.1,
        finished: p.finished,
    };
    let out = match step.0 {
        Some(e) => announced.push((active_key(p1), e)),
        None => announced,
    };
    (out, p1, reg1)
}

/// One raw line; blank lines, lines that are not JSON, and anything after
/// the end of output change nothing.
pub open spec fn pump_line_spec<H>(p: PumpV, reg: Map<Seq<char>, H>, line: Seq<char>) -> (
    Seq<(Seq<char>, EventV)>,
    PumpV,
    Map<Seq<char>, H>,
) {
    if p.finished || is_blank(line) || json_parse(line) is None {
        (Seq::empty(), p, reg)
    } else {
        pump_json_spec(p, reg, json_parse(line)->0)
    }
}

/// The end of output: the completion of a message in progress, and the
/// release of the active key's registry entry; nothing once ended.
pub open spec fn pump_eof_spec<H>(p: PumpV, reg: Map<Seq<char>, H>) -> (
    Seq<(Seq<char>, EventV)>,
    PumpV,
    Map<Seq<char>, H>,
    Option<H>,
) {
    if p.finished {
        (Seq::empty(), p, reg, None)
    } else {
        let k = active_key(p);
        (
            match flush_spec(p.state) {
                Some(e) => seq![(k, e)],
                None => Seq::empty(),
            },
            PumpV {
                key: p.key,
                creating: p.creating,
                real_key: p.real_key,
                state: p.state,
                finished: true,
            },
            reg.remove(k),
            if reg.contains_key(k) {
                Some(reg[k])
            } else {
                None
            },
        )
    }
}

impl StreamPump {
    /// A reader for a process registered under `key`.
    pub fn new(key: String, creating: bool) -> (r: StreamPump)
        ensures
            r@ == (PumpV {
                key: key@,
                creating,
                real_key: None,
                state: empty_state(),
                finished: false,
            }),
    {
        StreamPump { key, creating, real_key: None, state: ParseState::new(), finished: false }
    }

    /// The key events are currently published under.
    pub fn active_key(&self) -> (r: String)
        ensures
            r@ == active_key(self@),
    {
        match &self.real_key {
            Some(k) => k.clone(),
            None => self.key.clone(),
        }
    }

    /// Handles one line of the process's standard output.
    pub fn on_line<H>(&mut self, registry: &mut ProcessRegistry<H>, line: &str) -> (out: Vec<
        Emission,
    >)
        requires
            old(registry).wf(),
        ensures
            final(registry).wf(),
            (emissions(out@), final(self)@, final(registry)@) == pump_line_spec(
                old(self)@,
                old(registry)@,
                line@,
            ),
    {
        let mut out: Vec<Emission> = Vec::new();
        if self.finished || blank(line) {
            assert(emissions(out@) =~= Seq::empty());
            return out;
        }
        let json = match parse_json(line) {
            Some(j) => j,
            None => {
                assert(emissions(out@) =~= Seq::empty());
                return out;
            },
        };
        if self.creating && self.real_key.is_none() {
            match system_id(&json) {
                Some(x) => {
                    registry.rekey(self.key.as_str(), x.clone());
                    self.real_key = Some(x.clone());
                    out.push(
                        Emission {
                            key: self.key.clone(),
                            event: StreamEvent::SessionIdUpdated {
                                temp_id: self.key.clone(),
                                real_id: x.clone(),
                            },
                        },
                    );
                    out.push(
                        Emission {
                            key: x.clone(),
                            event: StreamEvent::SessionIdUpdated {
                                temp_id: self.key.clone(),
                                real_id: x.clone(),
                            },
                        },
                    );
                },
                None => {},
            }
        }
        let ghost announced = emissions(out@);
        let event = parse_stream_event(&json, &mut self.state);
        match event {
            Some(e) => {
                let k = self.active_key();
                out.push(Emission { key: k, event: e });
                assert(emissions(out@) =~= announced.push((k@, e@)));
            },
            None => {},
        }
        proof {
            let spec = pump_json_spec(old(self)@, old(registry)@, json);
            assert(emissions(out@) =~= spec.0);
            assert(self@ == spec.1);
        }
        out
    }

    /// Handles the end of the process's standard output; hands back the
    /// handle taken out of the registry so that it can be reaped.
    pub fn on_eof<H>(&mut self, registry: &mut ProcessRegistry<H>) -> (r: (Vec<Emission>, Option<H>))
        requires
            old(registry).wf(),
        ensures
            final(registry).wf(),
            (emissions(r.0@), final(self)@, final(registry)@, r.1) == pump_eof_spec(
                old(self)@,
                old(registry)@,
            ),
    {
        let mut out: Vec<Emission> = Vec::new();
        if self.finished {
            assert(emissions(out@) =~= Seq::empty());
            return (out, None);
        }
        let k = self.active_key();
        match flush(&self.state) {
            Some(e) => {
                out.push(Emission { key: k.clone(), event: e });
            },
            None => {},
        }
        let handle = registry.remove(k.as_str());
        self.finished = true;
        proof {
            let spec = pump_eof_spec(old(self)@, old(registry)@);
            assert(emissions(out@) =~= spec.0);
        }
        (out, handle)
    }
}

/// Registers a spawned process and starts reading it. Without a readable
/// standard output nothing is registered and the handle comes back to be killed.
pub fn register_process<H>(
    registry: &mut ProcessRegistry<H>,
    key: String,
    handle: H,
    has_stdout: bool,
    creating: bool,
) -> (r: Result<StreamPump, (SessionError, H)>)
    requires
        old(registry).wf(),
    ensures
        final(registry).wf(),
        has_stdout ==> (r matches Ok(p) && p@ == PumpV {
            key: key@,
            creating,
            real_key: None,
            state: empty_state(),
            finished: false,
        }) && final(registry)@ == old(registry)@.insert(key@, handle),
        !has_stdout ==> (r matches Err((e, h)) && e is StdoutUnavailable && h == handle)
            && final(registry)@ == old(registry)@,
{
    if !has_stdout {
        return Err((SessionError::StdoutUnavailable, handle));
    }
    let _displaced = registry.insert(key.clone(), handle);
    Ok(StreamPump::new(key, creating))
}

/// Cancels a session: takes its process out of the registry so that it can
/// be killed, or reports `NotRunning`.
pub fn cancel_session<H>(registry: &mut ProcessRegistry<H>, session_id: &str) -> (r: Result<
    H,
    SessionError,
>)
    requires
        old(registry).wf(),
    ensures
        final(registry).wf(),
        final(registry)@ == cancel_spec(old(registry)@, session_id@).0,
        match cancel_spec(old(registry)@, session_id@).1 {
            Some(h) => r == Ok::<H, SessionError>(h),
            None => r is Err && r->Err_0 is NotRunning,
        },
{
    registry.kill_and_remove(session_id)
}

/// Reconciliation: in a stream opened under a temporary key, a `system` line
/// carrying the agent's session id moves the registry entry, the same handle,
/// to that id; it announces `SessionIdUpdated` first on the temporary key's
/// channel, then on the real one's, and later events go to the real key.
pub proof fn lemma_reconciliation<H>(p: PumpV, reg: Map<Seq<char>, H>, line: Seq<char>)
    requires
        p.creating,
        p.real_key is None,
        !p.finished,
        !is_blank(line),
        json_parse(line) is Some,
        system_session_id(json_parse(line)->0) is Some,
        reg.contains_key(p.key),
    ensures
        ({
            let x = system_session_id(json_parse(line)->0)->0;
            let (out, p2, reg2) = pump_line_spec(p, reg, line);
            let update = EventV::SessionIdUpdated { temp_id: p.key, real_id: x };
            &&& p.key != x ==> !reg2.contains_key(p.key)
            &&& reg2.contains_key(x)
            &&& reg2[x] == reg[p.key]
            &&& forall|k: Seq<char>|
                k != p.key && k != x ==> (#[trigger] reg2.contains_key(k) == reg.contains_key(k)
                    && (reg.contains_key(k) ==> reg2[k] == reg[k]))
            &&& out == seq![(p.key, update), (x, update)]
            &&& active_key(p2) == x
            &&& p2.real_key == Some(x)
        }),
{
    reveal_strlit("system");
    reveal_strlit("stream_event");
    reveal_strlit("assistant");
    reveal_strlit("result");
    reveal_strlit("error");
    assert("system"@.len() == 6 && "system"@[0] == 's');
    assert("result"@.len() == 6 && "result"@[0] == 'r');
    assert("stream_event"@.len() == 12);
    assert("assistant"@.len() == 9);
    assert("error"@.len() == 5);
}

/// Once the agent's id `x` is known, no later line moves a registry entry or
/// changes the active key, and every event of a line, as well as the final
/// completion, is published on `x`'s channel alone.
pub proof fn lemma_after_reconciliation<H>(p: PumpV, reg: Map<Seq<char>, H>, line: Seq<char>, x: Seq<char>)
    requires
        p.real_key == Some(x),
    ensures
        ({
            let (out, p2, reg2) = pump_line_spec(p, reg, line);
            &&& reg2 == reg
            &&& p2.real_key == Some(x)
            &&& forall|i: int| 0 <= i < out.len() ==> (#[trigger] out[i]).0 == x
        }),
        forall|i: int| 0 <= i < pump_eof_spec(p, reg).0.len() ==> (#[trigger] pump_eof_spec(p, reg).0[i]).0 == x,
{
}

/// The end of output with a message in progress emits exactly one
/// `MessageComplete`, carrying the accumulated content, on the active key,
/// and releases that key's entry; after it no line and no second end emits
/// anything.
pub proof fn lemma_end_of_stream_flush<H>(p: PumpV, reg: Map<Seq<char>, H>)
    requires
        !p.finished,
        p.state.message_id.len() > 0,
    ensures
        ({
            let (out, p2, reg2, _) = pump_eof_spec(p, reg);
            &&& out == seq![
                (
                    active_key(p),
                    EventV::MessageComplete {
                        message_id: p.state.message_id,
                        content: p.state.content,
                    },
                ),
            ]
            &&& !reg2.contains_key(active_key(p))
            &&& forall|line: Seq<char>| #[trigger] pump_line_spec(p2, reg2, line).0.len() == 0
            &&& pump_eof_spec(p2, reg2).0.len() == 0
        }),
{
}

} // verus!
