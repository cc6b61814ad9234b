//! Streaming (SSE) interception: a per-connection state machine that
//! buffers tool-call fragments until they are complete, evaluates them, and
//! either flushes them verbatim or replaces them with synthesized block
//! events. Transitions are pure functions of the state and the event.

use vstd::prelude::*;
use crate::interceptor::{
    check_tool_use,
    gem_hits,
    gem_rewritten,
    spec_hit,
    spec_stream_block_message,
    spec_verdict,
    stream_block_message,
    ApiProvider,
    InterceptResult,
    InterceptResultV,
    is_blocking,
};
use crate::json::{
    jget,
    jget_arr,
    jget_str,
    jset,
    json_to_string,
    obj_get,
    obj_get_arr,
    obj_get_str,
    obj_with_field,
    parse_json,
    parsed_json,
    ser_json,
    Json,
    JsonView,
};
use crate::rules::{Rule, RuleV};
use crate::sse::{SseEvent, SseEventV, spec_trim, trim_str};
use crate::text::{concat_strs, dec_u64_or_zero, parse_u64, spec_concat, spec_join, str_eq};

verus! {

/// An accumulated OpenAI streaming tool call.
pub struct OpenAiToolCallAccum {
    /// The call id, once it has arrived.
    pub id: String,
    /// The function name, once it has arrived.
    pub name: String,
    /// The concatenated argument fragments.
    pub arguments: String,
}

/// The mathematical shape of an accumulated tool call.
pub ghost struct OaiAccumV {
    pub id: Seq<char>,
    pub name: Seq<char>,
    pub arguments: Seq<char>,
}

impl View for OpenAiToolCallAccum {
    type V = OaiAccumV;

    open spec fn view(&self) -> OaiAccumV {
        OaiAccumV { id: self.id@, name: self.name@, arguments: self.arguments@ }
    }
}

/// The views of an accumulator list.
pub open spec fn accums_view(s: Seq<(u64, OpenAiToolCallAccum)>) -> Seq<(int, OaiAccumV)> {
    Seq::new(s.len(), |i: int| (s[i].0 as int, s[i].1@))
}

/// The mathematical state of the stream interceptor.
pub ghost struct StreamV {
    pub rules: Seq<RuleV>,
    pub enforce: bool,
    pub provider: Option<ApiProvider>,
    pub buffering_index: Option<Seq<char>>,
    pub buffer: Seq<SseEventV>,
    pub tool_name: Seq<char>,
    pub tool_id: Seq<char>,
    pub input_json_parts: Seq<Seq<char>>,
    pub intercepts: Seq<InterceptResultV>,
    pub openai_tool_calls: Seq<(int, OaiAccumV)>,
    pub openai_buffer: Seq<SseEventV>,
    pub openai_buffering: bool,
    pub openai_chunk_id: Seq<char>,
}

/// The fresh state over a rule set.
pub open spec fn initial_stream(rules: Seq<RuleV>, enforce: bool) -> StreamV {
    StreamV {
        rules,
        enforce,
        provider: None,
        buffering_index: None,
        buffer: Seq::empty(),
        tool_name: Seq::empty(),
        tool_id: Seq::empty(),
        input_json_parts: Seq::empty(),
        intercepts: Seq::empty(),
        openai_tool_calls: Seq::empty(),
        openai_buffer: Seq::empty(),
        openai_buffering: false,
        openai_chunk_id: Seq::empty(),
    }
}

// ------------------------------------------------------------------
// Spec transitions
// ------------------------------------------------------------------

/// Anthropic named SSE events fix the dialect.
pub open spec fn anth_event_name(n: Seq<char>) -> Option<ApiProvider> {
    if n == "message_start"@ || n == "content_block_start"@ || n == "content_block_delta"@ || n
        == "content_block_stop"@ || n == "message_delta"@ || n == "message_stop"@ {
        Some(ApiProvider::Anthropic)
    } else {
        None
    }
}

/// Dialect latching: the first discriminating event fixes the provider.
pub open spec fn detect_step(s: StreamV, ev: SseEventV) -> Option<ApiProvider> {
    if s.provider is Some {
        s.provider
    } else if ev.data == "[DONE]"@ {
        Some(ApiProvider::OpenAI)
    } else {
        match parsed_json(ev.data) {
            Some(v) => if jget(v, "choices"@) is Some {
                Some(ApiProvider::OpenAI)
            } else if jget(v, "candidates"@) is Some {
                Some(ApiProvider::Gemini)
            } else if jget_str(v, "type"@) is Some {
                Some(ApiProvider::Anthropic)
            } else {
                anth_event_name(ev.event_type)
            },
            None => anth_event_name(ev.event_type),
        }
    }
}

/// The raw number text of a field, or `0` when it is not a number.
pub open spec fn num_text(v: JsonView, key: Seq<char>) -> Seq<char> {
    match jget(v, key) {
        Some(JsonView::Num(t)) => t,
        _ => "0"@,
    }
}

/// A nonnegative value clamped to the machine's index range.
pub open spec fn to_index(n: int) -> int {
    if n <= usize::MAX as int {
        n
    } else {
        usize::MAX as int
    }
}

/// A string option, or empty.
pub open spec fn str_or_empty(o: Option<Seq<char>>) -> Seq<char> {
    match o {
        Some(s) => s,
        None => Seq::empty(),
    }
}

/// Two-level field lookup (re-stated here for the stream payloads).
pub open spec fn jget2(v: JsonView, k1: Seq<char>, k2: Seq<char>) -> Option<JsonView> {
    crate::interceptor::jget2(v, k1, k2)
}

/// Two-level string-field lookup.
pub open spec fn jget2_str(v: JsonView, k1: Seq<char>, k2: Seq<char>) -> Option<Seq<char>> {
    crate::interceptor::jget2_str(v, k1, k2)
}

/// A parsed JSON text, or the empty object when it does not parse.
pub open spec fn parse_or_empty(s: Seq<char>) -> JsonView {
    match parsed_json(s) {
        Some(x) => x,
        None => JsonView::Obj(Seq::empty()),
    }
}

/// The state with the Anthropic buffer abandoned.
pub open spec fn anth_reset(s: StreamV) -> StreamV {
    StreamV {
        buffering_index: None,
        buffer: Seq::empty(),
        input_json_parts: Seq::empty(),
        ..s
    }
}

/// A `content_block_start` in idle state: a tool-use block opens buffering,
/// anything else passes through.
pub open spec fn spec_block_start(s: StreamV, ev: SseEventV) -> (StreamV, Seq<SseEventV>) {
    match parsed_json(ev.data) {
        Some(v) => if jget2_str(v, "content_block"@, "type"@) == Some("tool_use"@) {
            (
                StreamV {
                    buffering_index: Some(num_text(v, "index"@)),
                    buffer: seq![ev],
                    tool_name: str_or_empty(jget2_str(v, "content_block"@, "name"@)),
                    tool_id: str_or_empty(jget2_str(v, "content_block"@, "id"@)),
                    input_json_parts: Seq::empty(),
                    ..s
                },
                Seq::empty(),
            )
        } else {
            (s, seq![ev])
        },
        None => (s, seq![ev]),
    }
}

/// A `content_block_delta` while buffering: the JSON fragment accumulates
/// and the event is buffered.
pub open spec fn spec_block_delta(s: StreamV, ev: SseEventV) -> (StreamV, Seq<SseEventV>) {
    let parts = match parsed_json(ev.data) {
        Some(v) => match jget2_str(v, "delta"@, "partial_json"@) {
            Some(pj) => s.input_json_parts.push(pj),
            None => s.input_json_parts,
        },
        None => s.input_json_parts,
    };
    (StreamV { input_json_parts: parts, buffer: s.buffer.push(ev), ..s }, Seq::empty())
}

/// The three synthesized replacement events at a blocked block's index.
pub open spec fn synth_events(idxt: Seq<char>, msg: Seq<char>) -> Seq<SseEventV> {
    seq![
        SseEventV { event_type: "content_block_start"@, data: ser_json(synth_start_obj(idxt)) },
        SseEventV {
            event_type: "content_block_delta"@,
            data: ser_json(synth_delta_obj(idxt, msg)),
        },
        SseEventV { event_type: "content_block_stop"@, data: ser_json(synth_stop_obj(idxt)) },
    ]
}

/// The synthesized `content_block_start` payload: an empty text block.
pub open spec fn synth_start_obj(idxt: Seq<char>) -> JsonView {
    JsonView::Obj(
        seq![
            ("type"@, JsonView::Str("content_block_start"@)),
            ("index"@, JsonView::Num(idxt)),
            (
                "content_block"@,
                JsonView::Obj(
                    seq![
                        ("type"@, JsonView::Str("text"@)),
                        ("text"@, JsonView::Str(Seq::empty())),
                    ],
                ),
            ),
        ],
    )
}

/// The synthesized `content_block_delta` payload carrying the block message.
pub open spec fn synth_delta_obj(idxt: Seq<char>, msg: Seq<char>) -> JsonView {
    JsonView::Obj(
        seq![
            ("type"@, JsonView::Str("content_block_delta"@)),
            ("index"@, JsonView::Num(idxt)),
            (
                "delta"@,
                JsonView::Obj(
                    seq![("type"@, JsonView::Str("text_delta"@)), ("text"@, JsonView::Str(msg))],
                ),
            ),
        ],
    )
}

/// The synthesized `content_block_stop` payload.
pub open spec fn synth_stop_obj(idxt: Seq<char>) -> JsonView {
    JsonView::Obj(
        seq![
            ("type"@, JsonView::Str("content_block_stop"@)),
            ("index"@, JsonView::Num(idxt)),
        ],
    )
}

/// A `content_block_stop` while buffering: the accumulated fragments are
/// joined, parsed (an empty object on failure) and evaluated; a blocked
/// call is replaced by the three synthesized events, anything else flushes
/// verbatim.
pub open spec fn spec_block_stop(s: StreamV, ev: SseEventV) -> (StreamV, Seq<SseEventV>)
    recommends
        s.buffering_index is Some,
{
    let idxt = s.buffering_index.unwrap();
    let full = spec_concat(s.input_json_parts);
    let input = parse_or_empty(full);
    match spec_verdict(s.rules, s.tool_name, input) {
        Some(j) => {
            let hit = spec_hit(s.rules, to_index(dec_u64_or_zero(idxt)), s.tool_name, input);
            let s2 = StreamV { intercepts: s.intercepts.push(hit), ..anth_reset(s) };
            if s.enforce {
                (s2, synth_events(idxt, spec_stream_block_message(hit)))
            } else {
                (s2, s.buffer.push(ev))
            }
        },
        None => (anth_reset(s), s.buffer.push(ev)),
    }
}

/// The Anthropic step. In idle state only a tool-use `content_block_start`
/// changes anything; while buffering, deltas accumulate, the stop
/// evaluates, and any other event is a protocol violation that flushes the
/// buffer and passes through.
pub open spec fn spec_anth_step(s: StreamV, ev: SseEventV) -> (StreamV, Seq<SseEventV>) {
    if s.buffering_index is Some {
        if ev.event_type == "content_block_delta"@ {
            spec_block_delta(s, ev)
        } else if ev.event_type == "content_block_stop"@ {
            spec_block_stop(s, ev)
        } else if ev.event_type == "content_block_start"@ {
            let r = spec_block_start(anth_reset(s), ev);
            (r.0, s.buffer + r.1)
        } else {
            (anth_reset(s), s.buffer.push(ev))
        }
    } else {
        if ev.event_type == "content_block_start"@ {
            spec_block_start(s, ev)
        } else {
            (s, seq![ev])
        }
    }
}

/// The accumulator at an index, if present.
pub open spec fn accum_find(accs: Seq<(int, OaiAccumV)>, idx: int) -> Option<OaiAccumV>
    decreases accs.len(),
{
    if accs.len() == 0 {
        None
    } else if accs.first().0 == idx {
        Some(accs.first().1)
    } else {
        accum_find(accs.drop_first(), idx)
    }
}

/// The accumulator list with an entry set, kept in ascending index order.
pub open spec fn accum_insert(accs: Seq<(int, OaiAccumV)>, idx: int, a: OaiAccumV) -> Seq<
    (int, OaiAccumV),
>
    decreases accs.len(),
{
    if accs.len() == 0 {
        seq![(idx, a)]
    } else if accs.first().0 == idx {
        seq![(idx, a)] + accs.drop_first()
    } else if idx < accs.first().0 {
        seq![(idx, a)] + accs
    } else {
        seq![accs.first()] + accum_insert(accs.drop_first(), idx, a)
    }
}

/// The index a tool-call delta names.
pub open spec fn tc_index(tc: JsonView) -> int {
    dec_u64_or_zero(num_text(tc, "index"@))
}

/// One tool-call delta folded into the accumulators: the id and name arrive
/// once, argument fragments concatenate.
pub open spec fn upd_one(accs: Seq<(int, OaiAccumV)>, tc: JsonView) -> Seq<(int, OaiAccumV)> {
    let idx = tc_index(tc);
    let cur = match accum_find(accs, idx) {
        Some(a) => a,
        None => OaiAccumV { id: Seq::empty(), name: Seq::empty(), arguments: Seq::empty() },
    };
    let a1 = OaiAccumV {
        id: match jget_str(tc, "id"@) {
            Some(s) => s,
            None => cur.id,
        },
        name: match jget2_str(tc, "function"@, "name"@) {
            Some(s) => s,
            None => cur.name,
        },
        arguments: cur.arguments + (match jget2_str(tc, "function"@, "arguments"@) {
            Some(s) => s,
            None => Seq::empty(),
        }),
    };
    accum_insert(accs, idx, a1)
}

/// A whole delta array folded in, in order.
pub open spec fn upd_all(accs: Seq<(int, OaiAccumV)>, tcs: Seq<JsonView>) -> Seq<
    (int, OaiAccumV),
>
    decreases tcs.len(),
{
    if tcs.len() == 0 {
        accs
    } else {
        upd_all(upd_one(accs, tcs.first()), tcs.drop_first())
    }
}

/// The hits over the finalized accumulators, in index order.
pub open spec fn oai_stream_hits(accs: Seq<(int, OaiAccumV)>, rules: Seq<RuleV>) -> Seq<
    InterceptResultV,
>
    decreases accs.len(),
{
    if accs.len() == 0 {
        Seq::empty()
    } else {
        oai_stream_hits(accs.drop_last(), rules) + ({
            let e = accs.last();
            let input = parse_or_empty(e.1.arguments);
            if spec_verdict(rules, e.1.name, input) is Some {
                seq![spec_hit(rules, to_index(e.0), e.1.name, input)]
            } else {
                Seq::empty()
            }
        })
    }
}

/// The stream block messages of the blocking intercepts, in order.
pub open spec fn stream_msgs(ints: Seq<InterceptResultV>) -> Seq<Seq<char>>
    decreases ints.len(),
{
    if ints.len() == 0 {
        Seq::empty()
    } else {
        stream_msgs(ints.drop_last()) + (if is_blocking(ints.last().action) {
            seq![spec_stream_block_message(ints.last())]
        } else {
            Seq::empty()
        })
    }
}

/// The synthesized replacement chunk carrying the joined block messages.
pub open spec fn oai_repl_obj(id: Seq<char>, content: Seq<char>) -> JsonView {
    JsonView::Obj(
        seq![
            ("id"@, JsonView::Str(id)),
            ("object"@, JsonView::Str("chat.completion.chunk"@)),
            (
                "choices"@,
                JsonView::Arr(
                    seq![
                        JsonView::Obj(
                            seq![
                                ("index"@, JsonView::Num("0"@)),
                                (
                                    "delta"@,
                                    JsonView::Obj(seq![("content"@, JsonView::Str(content))]),
                                ),
                                ("finish_reason"@, JsonView::Null),
                            ],
                        ),
                    ],
                ),
            ),
        ],
    )
}

/// The synthesized finish chunk closing the stream after a block.
pub open spec fn oai_finish_obj(id: Seq<char>) -> JsonView {
    JsonView::Obj(
        seq![
            ("id"@, JsonView::Str(id)),
            ("object"@, JsonView::Str("chat.completion.chunk"@)),
            (
                "choices"@,
                JsonView::Arr(
                    seq![
                        JsonView::Obj(
                            seq![
                                ("index"@, JsonView::Num("0"@)),
                                ("delta"@, JsonView::Obj(Seq::empty())),
                                ("finish_reason"@, JsonView::Str("stop"@)),
                            ],
                        ),
                    ],
                ),
            ),
        ],
    )
}

/// Finalization of the accumulated tool calls: with no accumulators the
/// buffered events flush; otherwise each accumulator is parsed and
/// evaluated, and — when enforcing and something blocked — the buffer is
/// discarded in favour of two synthesized chunks.
pub open spec fn oai_finalize(s: StreamV) -> (StreamV, Seq<SseEventV>) {
    if s.openai_tool_calls.len() == 0 {
        (StreamV { openai_buffer: Seq::empty(), ..s }, s.openai_buffer)
    } else {
        let hits = oai_stream_hits(s.openai_tool_calls, s.rules);
        let ints = s.intercepts + hits;
        let s2 = StreamV {
            openai_buffer: Seq::empty(),
            openai_tool_calls: Seq::empty(),
            intercepts: ints,
            ..s
        };
        if hits.len() == 0 || !s.enforce {
            (s2, s.openai_buffer)
        } else {
            (
                s2,
                seq![
                    SseEventV {
                        event_type: "message"@,
                        data: ser_json(
                            oai_repl_obj(
                                s.openai_chunk_id,
                                spec_join(stream_msgs(ints), seq!['\n']),
                            ),
                        ),
                    },
                    SseEventV {
                        event_type: "message"@,
                        data: ser_json(oai_finish_obj(s.openai_chunk_id)),
                    },
                ],
            )
        }
    }
}

/// The tool-call deltas of the first choice, if any.
pub open spec fn oai_delta_tcs(v: JsonView) -> Option<Seq<JsonView>> {
    match jget_arr(v, "choices"@) {
        Some(cs) => if cs.len() > 0 {
            match jget(cs[0], "delta"@) {
                Some(d) => jget_arr(d, "tool_calls"@),
                None => None,
            }
        } else {
            None
        },
        None => None,
    }
}

/// The finish reason of the first choice, if any.
pub open spec fn oai_finish_reason(v: JsonView) -> Option<Seq<char>> {
    match jget_arr(v, "choices"@) {
        Some(cs) => if cs.len() > 0 {
            jget_str(cs[0], "finish_reason"@)
        } else {
            None
        },
        None => None,
    }
}

/// The OpenAI step: `[DONE]` finalizes; tool-call deltas accumulate and are
/// buffered; a `tool_calls` finish reason finalizes; anything else passes
/// through (noting the chunk id).
pub open spec fn spec_oai_step(s: StreamV, ev: SseEventV) -> (StreamV, Seq<SseEventV>) {
    if spec_trim(ev.data) == "[DONE]"@ {
        let r = oai_finalize(s);
        (r.0, r.1.push(ev))
    } else {
        match parsed_json(ev.data) {
            None => (s, seq![ev]),
            Some(v) => {
                let s1 = StreamV {
                    openai_chunk_id: match jget_str(v, "id"@) {
                        Some(x) => x,
                        None => s.openai_chunk_id,
                    },
                    ..s
                };
                match oai_delta_tcs(v) {
                    Some(ts) => (
                        StreamV {
                            openai_buffering: true,
                            openai_tool_calls: upd_all(s1.openai_tool_calls, ts),
                            openai_buffer: s1.openai_buffer.push(ev),
                            ..s1
                        },
                        Seq::empty(),
                    ),
                    None => if oai_finish_reason(v) == Some("tool_calls"@) {
                        oai_finalize(StreamV { openai_buffer: s1.openai_buffer.push(ev), ..s1 })
                    } else {
                        (s1, seq![ev])
                    },
                }
            },
        }
    }
}

/// The Gemini step: each chunk is self-contained; blocked function calls
/// are replaced in place and the chunk re-emitted, otherwise the chunk
/// passes through verbatim.
pub open spec fn spec_gem_step(s: StreamV, ev: SseEventV) -> (StreamV, Seq<SseEventV>) {
    match parsed_json(ev.data) {
        None => (s, seq![ev]),
        Some(v) => match jget_arr(v, "candidates"@) {
            None => (s, seq![ev]),
            Some(cands) => {
                let hits = gem_hits(cands, s.rules);
                let s2 = StreamV { intercepts: s.intercepts + hits, ..s };
                if s.enforce && hits.len() > 0 {
                    (
                        s2,
                        seq![
                            SseEventV {
                                event_type: ev.event_type,
                                data: ser_json(
                                    jset(
                                        v,
                                        "candidates"@,
                                        JsonView::Arr(gem_rewritten(cands, s.rules, true)),
                                    ),
                                ),
                            },
                        ],
                    )
                } else {
                    (s2, seq![ev])
                }
            },
        },
    }
}

/// One step of the stream interceptor: latch the dialect, then take the
/// dialect's transition (events before any latch take the Anthropic path).
pub open spec fn spec_step(s: StreamV, ev: SseEventV) -> (StreamV, Seq<SseEventV>) {
    let prov = detect_step(s, ev);
    let s1 = StreamV { provider: prov, ..s };
    match prov {
        Some(ApiProvider::OpenAI) => spec_oai_step(s1, ev),
        Some(ApiProvider::Gemini) => spec_gem_step(s1, ev),
        _ => spec_anth_step(s1, ev),
    }
}

// ------------------------------------------------------------------
// The executable state machine
// ------------------------------------------------------------------

/// Streaming interceptor: per-connection state over a compiled rule set.
pub struct StreamInterceptor {
    rules: Vec<Rule>,
    enforce: bool,
    provider: Option<ApiProvider>,
    buffering_index: Option<String>,
    buffer: Vec<SseEvent>,
    tool_name: String,
    tool_id: String,
    input_json_parts: Vec<String>,
    /// Collected intercept records, for alerting.
    pub intercepts: Vec<InterceptResult>,
    openai_tool_calls: Vec<(u64, OpenAiToolCallAccum)>,
    openai_buffer: Vec<SseEvent>,
    openai_buffering: bool,
    openai_chunk_id: String,
}

impl View for StreamInterceptor {
    type V = StreamV;

    closed spec fn view(&self) -> StreamV {
        StreamV {
            rules: self.rules.deep_view(),
            enforce: self.enforce,
            provider: self.provider,
            buffering_index: self.buffering_index.deep_view(),
            buffer: self.buffer.deep_view(),
            tool_name: self.tool_name@,
            tool_id: self.tool_id@,
            input_json_parts: self.input_json_parts.deep_view(),
            intercepts: self.intercepts.deep_view(),
            openai_tool_calls: accums_view(self.openai_tool_calls@),
            openai_buffer: self.openai_buffer.deep_view(),
            openai_buffering: self.openai_buffering,
            openai_chunk_id: self.openai_chunk_id@,
        }
    }
}

/// Takes a vector, leaving an empty one behind.
fn take_events(v: &mut Vec<SseEvent>) -> (r: Vec<SseEvent>)
    ensures
        r == *old(v),
        final(v)@.len() == 0,
{
    let mut out: Vec<SseEvent> = Vec::new();
    core::mem::swap(&mut out, v);
    out
}

fn mk_synth_start(idxt: String) -> (r: Json)
    ensures
        r@ == synth_start_obj(idxt@),
{
    let mut inner: Vec<(String, Json)> = Vec::new();
    inner.push((String::from_str("type"), Json::Str(String::from_str("text"))));
    inner.push((String::from_str("text"), Json::Str(String::new())));
    let cb = Json::Obj(inner);
    proof {
        crate::json::lemma_json_view_fields(inner@);
        assert(cb@->Obj_0 =~= synth_start_obj(idxt@)->Obj_0[2].1->Obj_0);
    }
    let mut fields: Vec<(String, Json)> = Vec::new();
    fields.push((String::from_str("type"), Json::Str(String::from_str("content_block_start"))));
    fields.push((String::from_str("index"), Json::Num(idxt)));
    fields.push((String::from_str("content_block"), cb));
    let r = Json::Obj(fields);
    proof {
        crate::json::lemma_json_view_fields(fields@);
        assert(r@->Obj_0 =~= synth_start_obj(fields@[1].1->Num_0@)->Obj_0);
    }
    r
}

fn mk_synth_delta(idxt: String, msg: String) -> (r: Json)
    ensures
        r@ == synth_delta_obj(idxt@, msg@),
{
    let ghost gm = msg@;
    let mut inner: Vec<(String, Json)> = Vec::new();
    inner.push((String::from_str("type"), Json::Str(String::from_str("text_delta"))));
    inner.push((String::from_str("text"), Json::Str(msg)));
    let d = Json::Obj(inner);
    proof {
        crate::json::lemma_json_view_fields(inner@);
        assert(d@->Obj_0 =~= synth_delta_obj(idxt@, gm)->Obj_0[2].1->Obj_0);
    }
    let mut fields: Vec<(String, Json)> = Vec::new();
    fields.push((String::from_str("type"), Json::Str(String::from_str("content_block_delta"))));
    fields.push((String::from_str("index"), Json::Num(idxt)));
    fields.push((String::from_str("delta"), d));
    let r = Json::Obj(fields);
    proof {
        crate::json::lemma_json_view_fields(fields@);
        assert(r@->Obj_0 =~= synth_delta_obj(fields@[1].1->Num_0@, gm)->Obj_0);
    }
    r
}

fn mk_synth_stop(idxt: String) -> (r: Json)
    ensures
        r@ == synth_stop_obj(idxt@),
{
    let mut fields: Vec<(String, Json)> = Vec::new();
    fields.push((String::from_str("type"), Json::Str(String::from_str("content_block_stop"))));
    fields.push((String::from_str("index"), Json::Num(idxt)));
    let r = Json::Obj(fields);
    proof {
        crate::json::lemma_json_view_fields(fields@);
        assert(r@->Obj_0 =~= synth_stop_obj(fields@[1].1->Num_0@)->Obj_0);
    }
    r
}

fn mk_oai_chunk(id: String, content: Option<String>) -> (r: Json)
    ensures
        match content {
            Some(c) => r@ == oai_repl_obj(id@, c@),
            None => r@ == oai_finish_obj(id@),
        },
{
    let ghost gid = id@;
    let ghost gcontent: Option<Seq<char>> = content.deep_view();
    let mut delta_fields: Vec<(String, Json)> = Vec::new();
    let finish: Json = match content {
        Some(c) => {
            delta_fields.push((String::from_str("content"), Json::Str(c)));
            Json::Null
        },
        None => Json::Str(String::from_str("stop")),
    };
    let delta = Json::Obj(delta_fields);
    proof {
        crate::json::lemma_json_view_fields(delta_fields@);
    }
    let mut choice_fields: Vec<(String, Json)> = Vec::new();
    choice_fields.push((String::from_str("index"), Json::Num(String::from_str("0"))));
    choice_fields.push((String::from_str("delta"), delta));
    choice_fields.push((String::from_str("finish_reason"), finish));
    let choice = Json::Obj(choice_fields);
    proof {
        crate::json::lemma_json_view_fields(choice_fields@);
    }
    let mut choices: Vec<Json> = Vec::new();
    choices.push(choice);
    proof {
        crate::json::lemma_json_view_seq(choices@);
    }
    let mut fields: Vec<(String, Json)> = Vec::new();
    fields.push((String::from_str("id"), Json::Str(id)));
    fields.push((String::from_str("object"), Json::Str(String::from_str("chat.completion.chunk"))));
    fields.push((String::from_str("choices"), Json::Arr(choices)));
    let r = Json::Obj(fields);
    proof {
        crate::json::lemma_json_view_fields(fields@);
        match gcontent {
            Some(cv) => {
                assert(delta@->Obj_0 =~= oai_repl_obj(gid, cv)->Obj_0[2].1->Arr_0[0]->Obj_0[1].1
                    ->Obj_0);
                assert(choice@->Obj_0 =~= oai_repl_obj(gid, cv)->Obj_0[2].1->Arr_0[0]->Obj_0);
                assert(r@->Obj_0[2].1->Arr_0 =~= oai_repl_obj(gid, cv)->Obj_0[2].1->Arr_0);
                assert(r@->Obj_0 =~= oai_repl_obj(gid, cv)->Obj_0);
            },
            None => {
                assert(delta@->Obj_0 =~= oai_finish_obj(gid)->Obj_0[2].1->Arr_0[0]->Obj_0[1].1
                    ->Obj_0);
                assert(choice@->Obj_0 =~= oai_finish_obj(gid)->Obj_0[2].1->Arr_0[0]->Obj_0);
                assert(r@->Obj_0[2].1->Arr_0 =~= oai_finish_obj(gid)->Obj_0[2].1->Arr_0);
                assert(r@->Obj_0 =~= oai_finish_obj(gid)->Obj_0);
            },
        }
    }
    r
}

fn accum_find_exec(accs: &Vec<(u64, OpenAiToolCallAccum)>, idx: u64) -> (r: Option<
    OpenAiToolCallAccum,
>)
    ensures
        match r {
            Some(a) => accum_find(accums_view(accs@), idx as int) == Some(a@),
            None => accum_find(accums_view(accs@), idx as int) is None,
        },
{
    let ghost av = accums_view(accs@);
    let mut i: usize = 0;
    while i < accs.len()
        invariant
            av == accums_view(accs@),
            av.len() == accs@.len(),
            i <= accs@.len(),
            forall|j: int| 0 <= j < i ==> av[j].0 != idx as int,
        decreases accs@.len() - i,
    {
        proof {
            assert(av[i as int] == (accs@[i as int].0 as int, accs@[i as int].1@));
        }
        if accs[i].0 == idx {
            let e = &accs[i].1;
            let a = OpenAiToolCallAccum {
                id: e.id.clone(),
                name: e.name.clone(),
                arguments: e.arguments.clone(),
            };
            proof {
                lemma_accum_find_at(av, idx as int, i as int);
            }
            return Some(a);
        }
        i = i + 1;
    }
    proof {
        lemma_accum_find_missing(av, idx as int);
    }
    None
}

proof fn lemma_accum_find_at(accs: Seq<(int, OaiAccumV)>, idx: int, i: int)
    requires
        0 <= i < accs.len(),
        accs[i].0 == idx,
        forall|j: int| 0 <= j < i ==> accs[j].0 != idx,
    ensures
        accum_find(accs, idx) == Some(accs[i].1),
    decreases i,
{
    if i > 0 {
        lemma_accum_find_at(accs.drop_first(), idx, i - 1);
        assert(accs.drop_first()[i - 1] == accs[i]);
    }
}

proof fn lemma_accum_find_missing(accs: Seq<(int, OaiAccumV)>, idx: int)
    requires
        forall|j: int| 0 <= j < accs.len() ==> accs[j].0 != idx,
    ensures
        accum_find(accs, idx) is None,
    decreases accs.len(),
{
    if accs.len() > 0 {
        lemma_accum_find_missing(accs.drop_first(), idx);
    }
}

fn accum_insert_exec(accs: Vec<(u64, OpenAiToolCallAccum)>, idx: u64, a: OpenAiToolCallAccum) -> (r: Vec<
    (u64, OpenAiToolCallAccum),
>)
    ensures
        accums_view(r@) == accum_insert(accums_view(accs@), idx as int, a@),
    decreases accs@.len(),
{
    let ghost av = accums_view(accs@);
    let ghost ga = a@;
    let mut rest = accs;
    if rest.len() == 0 {
        let mut out: Vec<(u64, OpenAiToolCallAccum)> = Vec::new();
        out.push((idx, a));
        proof {
            assert(accums_view(out@) =~= accum_insert(av, idx as int, ga));
        }
        return out;
    }
    let first = rest.remove(0);
    proof {
        assert(av.first() == (first.0 as int, first.1@));
        assert(accums_view(rest@) =~= av.drop_first());
    }
    if first.0 == idx {
        let mut out: Vec<(u64, OpenAiToolCallAccum)> = Vec::new();
        out.push((idx, a));
        let mut tail = rest;
        out.append(&mut tail);
        proof {
            assert(accums_view(out@) =~= accum_insert(av, idx as int, ga));
        }
        out
    } else if idx < first.0 {
        let mut out: Vec<(u64, OpenAiToolCallAccum)> = Vec::new();
        out.push((idx, a));
        out.push(first);
        let mut tail = rest;
        out.append(&mut tail);
        proof {
            assert(accums_view(out@) =~= accum_insert(av, idx as int, ga));
        }
        out
    } else {
        let sub = accum_insert_exec(rest, idx, a);
        let mut out: Vec<(u64, OpenAiToolCallAccum)> = Vec::new();
        out.push(first);
        let mut tail = sub;
        out.append(&mut tail);
        proof {
            assert(accums_view(out@) =~= accum_insert(av, idx as int, ga));
        }
        out
    }
}

/// The index named by a tool-call delta.
fn tc_index_exec(tc: &Json) -> (r: u64)
    ensures
        r as int == tc_index(tc@),
{
    match obj_get(tc, "index") {
        Some(Json::Num(t)) => {
            match parse_u64(t.as_str()) {
                Some(v) => v,
                None => 0,
            }
        },
        _ => {
            proof {
                reveal_strlit("0");
                assert("0"@ =~= seq!['0']);
                assert("0"@.len() == 1);
                assert("0"@.drop_last() =~= Seq::<char>::empty());
                assert(crate::text::digits_val(Seq::<char>::empty()) == 0);
                assert("0"@.last() == '0');
                assert(crate::text::digits_val("0"@) == crate::text::digits_val("0"@.drop_last())
                    * 10 + ("0"@.last() as int - 48));
                assert(crate::text::digits_val("0"@) == 0);
                assert(forall|i: int| 0 <= i < "0"@.len() ==> crate::text::is_digit(
                    #[trigger] "0"@[i],
                ));
                assert(crate::text::spec_dec_u64("0"@) == Some(0int));
            }
            0
        },
    }
}

impl StreamInterceptor {
    /// Every held rule is well formed.
    pub closed spec fn wf(self) -> bool {
        forall|i: int| 0 <= i < self.rules@.len() ==> (#[trigger] self.rules@[i]).wf()
    }

    /// A fresh interceptor over a compiled rule set.
    pub fn new(rules: Vec<Rule>, enforce: bool) -> (r: StreamInterceptor)
        requires
            forall|i: int| 0 <= i < rules@.len() ==> (#[trigger] rules@[i]).wf(),
        ensures
            r.wf(),
            r@ == initial_stream(rules.deep_view(), enforce),
    {
        let r = StreamInterceptor {
            rules,
            enforce,
            provider: None,
            buffering_index: None,
            buffer: Vec::new(),
            tool_name: String::new(),
            tool_id: String::new(),
            input_json_parts: Vec::new(),
            intercepts: Vec::new(),
            openai_tool_calls: Vec::new(),
            openai_buffer: Vec::new(),
            openai_buffering: false,
            openai_chunk_id: String::new(),
        };
        proof {
            assert(r@.buffer =~= Seq::<SseEventV>::empty());
            assert(r@.input_json_parts =~= Seq::<Seq<char>>::empty());
            assert(r@.intercepts =~= Seq::<InterceptResultV>::empty());
            assert(r@.openai_tool_calls =~= Seq::<(int, OaiAccumV)>::empty());
            assert(r@.openai_buffer =~= Seq::<SseEventV>::empty());
        }
        r
    }

    /// A fresh interceptor over the built-in default rules merged with the
    /// self-protection set.
    pub fn with_default_rules(enforce: bool) -> (r: StreamInterceptor)
        ensures
            r.wf(),
            r@ == initial_stream(
                crate::rules::spec_merge(crate::rules::default_rules_v()),
                enforce,
            ),
    {
        let rules = crate::rules::merge_self_protection(crate::rules::default_rules());
        StreamInterceptor::new(rules, enforce)
    }

    fn detect(&mut self, event: &SseEvent)
        ensures
            final(self)@ == (StreamV { provider: detect_step(old(self)@, event@), ..old(self)@ }),
            final(self).wf() == old(self).wf(),
    {
        if self.provider.is_some() {
            return;
        }
        if str_eq(self.data_str(event), "[DONE]") {
            self.provider = Some(ApiProvider::OpenAI);
            return;
        }
        match parse_json(event.data.as_str()) {
            Some(v) => {
                if obj_get(&v, "choices").is_some() {
                    self.provider = Some(ApiProvider::OpenAI);
                    return;
                }
                if obj_get(&v, "candidates").is_some() {
                    self.provider = Some(ApiProvider::Gemini);
                    return;
                }
                if obj_get_str(&v, "type").is_some() {
                    self.provider = Some(ApiProvider::Anthropic);
                    return;
                }
            },
            None => {},
        }
        let et = event.event_type.as_str();
        if str_eq(et, "message_start") || str_eq(et, "content_block_start") || str_eq(
            et,
            "content_block_delta",
        ) || str_eq(et, "content_block_stop") || str_eq(et, "message_delta") || str_eq(
            et,
            "message_stop",
        ) {
            self.provider = Some(ApiProvider::Anthropic);
        }
    }

    fn data_str<'a>(&self, event: &'a SseEvent) -> (r: &'a str)
        ensures
            r@ == event@.data,
    {
        event.data.as_str()
    }

    /// Processes one SSE event; returns the events to send to the client.
    pub fn process_event(&mut self, event: SseEvent) -> (r: Vec<SseEvent>)
        requires
            old(self).wf(),
        ensures
            final(self).wf(),
            final(self)@ == spec_step(old(self)@, event@).0,
            r.deep_view() == spec_step(old(self)@, event@).1,
    {
        self.detect(&event);
        match self.provider {
            Some(ApiProvider::OpenAI) => self.process_openai_event(event),
            Some(ApiProvider::Gemini) => self.process_gemini_event(event),
            _ => self.process_anthropic_event(event),
        }
    }

    fn flush_buffer(&mut self) -> (r: Vec<SseEvent>)
        ensures
            final(self)@ == anth_reset(old(self)@),
            r.deep_view() == old(self)@.buffer,
            final(self).wf() == old(self).wf(),
    {
        self.buffering_index = None;
        self.input_json_parts = Vec::new();
        let out = take_events(&mut self.buffer);
        proof {
            assert(self@.buffer =~= Seq::<SseEventV>::empty());
            assert(self@.input_json_parts =~= Seq::<Seq<char>>::empty());
        }
        out
    }

    fn process_anthropic_event(&mut self, event: SseEvent) -> (r: Vec<SseEvent>)
        requires
            old(self).wf(),
        ensures
            final(self).wf(),
            final(self)@ == spec_anth_step(old(self)@, event@).0,
            r.deep_view() == spec_anth_step(old(self)@, event@).1,
    {
        let et_delta = str_eq(event.event_type.as_str(), "content_block_delta");
        let et_stop = str_eq(event.event_type.as_str(), "content_block_stop");
        let et_start = str_eq(event.event_type.as_str(), "content_block_start");
        if self.buffering_index.is_some() {
            if et_delta {
                self.handle_block_delta(event)
            } else if et_stop {
                self.handle_block_stop(event)
            } else if et_start {
                let ghost s0 = self@;
                let mut out = self.flush_buffer();
                let mut tail = self.handle_block_start(event);
                out.append(&mut tail);
                proof {
                    assert(out.deep_view() =~= spec_anth_step(s0, event@).1);
                }
                out
            } else {
                let mut out = self.flush_buffer();
                let ghost before = out.deep_view();
                out.push(event);
                proof {
                    assert(out.deep_view() =~= before.push(event@));
                }
                out
            }
        } else {
            if et_start {
                self.handle_block_start(event)
            } else {
                let mut out: Vec<SseEvent> = Vec::new();
                out.push(event);
                proof {
                    assert(out.deep_view() =~= seq![out@[0]@]);
                }
                out
            }
        }
    }

    fn handle_block_start(&mut self, event: SseEvent) -> (r: Vec<SseEvent>)
        requires
            old(self)@.buffering_index is None,
        ensures
            final(self)@ == spec_block_start(old(self)@, event@).0,
            r.deep_view() == spec_block_start(old(self)@, event@).1,
            final(self).wf() == old(self).wf(),
    {
        let parsed = parse_json(event.data.as_str());
        match parsed {
            Some(v) => {
                let cb = obj_get(&v, "content_block");
                let is_tu: bool = match cb {
                    Some(cbv) => match obj_get_str(cbv, "type") {
                        Some(t) => str_eq(t.as_str(), "tool_use"),
                        None => false,
                    },
                    None => false,
                };
                if is_tu {
                    let idxt: String = match obj_get(&v, "index") {
                        Some(Json::Num(t)) => t.clone(),
                        _ => String::from_str("0"),
                    };
                    let name: String = match cb {
                        Some(cbv) => match obj_get_str(cbv, "name") {
                            Some(n) => n.clone(),
                            None => String::new(),
                        },
                        None => String::new(),
                    };
                    let tid: String = match cb {
                        Some(cbv) => match obj_get_str(cbv, "id") {
                            Some(n) => n.clone(),
                            None => String::new(),
                        },
                        None => String::new(),
                    };
                    self.buffering_index = Some(idxt);
                    let mut buf: Vec<SseEvent> = Vec::new();
                    buf.push(event);
                    self.buffer = buf;
                    self.tool_name = name;
                    self.tool_id = tid;
                    self.input_json_parts = Vec::new();
                    proof {
                        assert(self@.buffer =~= seq![self.buffer@[0]@]);
                        assert(self@.input_json_parts =~= Seq::<Seq<char>>::empty());
                    }
                    Vec::new()
                } else {
                    let mut out: Vec<SseEvent> = Vec::new();
                    out.push(event);
                    proof {
                        assert(out.deep_view() =~= seq![out@[0]@]);
                    }
                    out
                }
            },
            None => {
                let mut out: Vec<SseEvent> = Vec::new();
                out.push(event);
                proof {
                    assert(out.deep_view() =~= seq![out@[0]@]);
                }
                out
            },
        }
    }

    fn handle_block_delta(&mut self, event: SseEvent) -> (r: Vec<SseEvent>)
        requires
            old(self)@.buffering_index is Some,
        ensures
            final(self)@ == spec_block_delta(old(self)@, event@).0,
            r.deep_view() == spec_block_delta(old(self)@, event@).1,
            final(self).wf() == old(self).wf(),
    {
        let ghost p_before = self.input_json_parts.deep_view();
        match parse_json(event.data.as_str()) {
            Some(v) => {
                let d = obj_get(&v, "delta");
                match d {
                    Some(dv) => match obj_get_str(dv, "partial_json") {
                        Some(pj) => {
                            self.input_json_parts.push(pj.clone());
                            proof {
                                assert(self.input_json_parts.deep_view() =~= p_before.push(
                                    jget2_str(
                                        parsed_json(event@.data).unwrap(),
                                        "delta"@,
                                        "partial_json"@,
                                    ).unwrap(),
                                ));
                            }
                        },
                        None => {},
                    },
                    None => {},
                }
            },
            None => {},
        }
        let ghost b_before = self.buffer.deep_view();
        self.buffer.push(event);
        proof {
            assert(self.buffer.deep_view() =~= b_before.push(event@));
            assert(self.rules == old(self).rules);
        }
        Vec::new()
    }

    fn handle_block_stop(&mut self, event: SseEvent) -> (r: Vec<SseEvent>)
        requires
            old(self).wf(),
            old(self)@.buffering_index is Some,
        ensures
            final(self).wf(),
            final(self)@ == spec_block_stop(old(self)@, event@).0,
            r.deep_view() == spec_block_stop(old(self)@, event@).1,
    {
        let ghost s0 = self@;
        let ghost b_before = self.buffer.deep_view();
        self.buffer.push(event);
        proof {
            assert(self.buffer.deep_view() =~= b_before.push(event@));
        }
        let full = concat_strs(&self.input_json_parts);
        let input: Json = match parse_json(full.as_str()) {
            Some(x) => x,
            None => {
                let e = Json::Obj(Vec::new());
                proof {
                    assert(e@->Obj_0 =~= Seq::<(Seq<char>, JsonView)>::empty());
                }
                e
            },
        };
        let idxt: String = match &self.buffering_index {
            Some(t) => t.clone(),
            None => String::new(),
        };
        let idx_num: u64 = match parse_u64(idxt.as_str()) {
            Some(n) => n,
            None => 0,
        };
        let idx: usize = if idx_num > usize::MAX as u64 {
            usize::MAX
        } else {
            idx_num as usize
        };
        proof {
            assert(idx as int == to_index(dec_u64_or_zero(s0.buffering_index.unwrap())));
        }
        let verdict = check_tool_use(idx, self.tool_name.as_str(), &input, &self.rules);
        match verdict {
            Some(h) => {
                let msg = stream_block_message(&h);
                let ghost i_before = self.intercepts.deep_view();
                self.intercepts.push(h);
                proof {
                    assert(self.intercepts.deep_view() =~= i_before.push(
                        spec_hit(
                            s0.rules,
                            to_index(dec_u64_or_zero(s0.buffering_index.unwrap())),
                            s0.tool_name,
                            parse_or_empty(spec_concat(s0.input_json_parts)),
                        ),
                    ));
                }
                if self.enforce {
                    self.buffering_index = None;
                    self.buffer = Vec::new();
                    self.input_json_parts = Vec::new();
                    let idxt2 = idxt.clone();
                    let idxt3 = idxt.clone();
                    let mut out: Vec<SseEvent> = Vec::new();
                    out.push(
                        SseEvent {
                            event_type: String::from_str("content_block_start"),
                            data: json_to_string(&mk_synth_start(idxt)),
                        },
                    );
                    out.push(
                        SseEvent {
                            event_type: String::from_str("content_block_delta"),
                            data: json_to_string(&mk_synth_delta(idxt2, msg)),
                        },
                    );
                    out.push(
                        SseEvent {
                            event_type: String::from_str("content_block_stop"),
                            data: json_to_string(&mk_synth_stop(idxt3)),
                        },
                    );
                    proof {
                        assert(self@.buffer =~= Seq::<SseEventV>::empty());
                        assert(self@.input_json_parts =~= Seq::<Seq<char>>::empty());
                        assert(out.deep_view() =~= synth_events(
                            s0.buffering_index.unwrap(),
                            spec_stream_block_message(
                                spec_hit(
                                    s0.rules,
                                    to_index(dec_u64_or_zero(s0.buffering_index.unwrap())),
                                    s0.tool_name,
                                    parse_or_empty(spec_concat(s0.input_json_parts)),
                                ),
                            ),
                        ));
                    }
                    out
                } else {
                    let out = self.flush_buffer();
                    out
                }
            },
            None => {
                let out = self.flush_buffer();
                out
            },
        }
    }

    fn process_gemini_event(&mut self, event: SseEvent) -> (r: Vec<SseEvent>)
        requires
            old(self).wf(),
        ensures
            final(self).wf(),
            final(self)@ == spec_gem_step(old(self)@, event@).0,
            r.deep_view() == spec_gem_step(old(self)@, event@).1,
    {
        let ghost s0 = self@;
        let v: Json = match parse_json(event.data.as_str()) {
            Some(v) => v,
            None => {
                let mut out: Vec<SseEvent> = Vec::new();
                out.push(event);
                proof {
                    assert(out.deep_view() =~= seq![out@[0]@]);
                }
                return out;
            },
        };
        let cands: &Vec<Json> = match obj_get_arr(&v, "candidates") {
            Some(cs) => cs,
            None => {
                let mut out: Vec<SseEvent> = Vec::new();
                out.push(event);
                proof {
                    assert(out.deep_view() =~= seq![out@[0]@]);
                }
                return out;
            },
        };
        let ghost gcs = jget_arr(v@, "candidates"@).unwrap();
        let ghost dv = self.rules.deep_view();
        let mut hits: Vec<InterceptResult> = Vec::new();
        let mut rewritten: Vec<Json> = Vec::new();
        let mut ci: usize = 0;
        proof {
            assert(hits.deep_view() =~= gem_hits(gcs.take(0), dv));
            assert(crate::json::json_view_seq(rewritten@) =~= gem_rewritten(
                gcs.take(0),
                dv,
                true,
            ));
        }
        while ci < cands.len()
            invariant
                self.wf(),
                dv == self.rules.deep_view(),
                gcs.len() == cands@.len(),
                forall|j: int| 0 <= j < cands@.len() ==> gcs[j] == cands@[j]@,
                ci <= cands@.len(),
                hits.deep_view() == gem_hits(gcs.take(ci as int), dv),
                crate::json::json_view_seq(rewritten@) == gem_rewritten(
                    gcs.take(ci as int),
                    dv,
                    true,
                ),
            decreases cands@.len() - ci,
        {
            let ghost gc = gcs[ci as int];
            let ghost w_before = rewritten@;
            let cr = crate::interceptor::intercept_gemini_cand(&cands[ci], &self.rules, ci, true);
            let mut ch = cr.0;
            hits.append(&mut ch);
            rewritten.push(cr.1);
            proof {
                assert(gcs.take(ci + 1).drop_last() =~= gcs.take(ci as int));
                assert(gcs.take(ci + 1).last() == gc);
                assert(gcs.take(ci + 1).len() - 1 == ci as int);
                assert(hits.deep_view() =~= gem_hits(gcs.take(ci + 1), dv));
                crate::json::lemma_json_view_seq(rewritten@);
                crate::json::lemma_json_view_seq(w_before);
                assert(crate::json::json_view_seq(rewritten@) =~= gem_rewritten(
                    gcs.take(ci + 1),
                    dv,
                    true,
                ));
            }
            ci = ci + 1;
        }
        proof {
            assert(gcs.take(gcs.len() as int) =~= gcs);
        }
        let any_hits = hits.len() > 0;
        let ghost i_before = self.intercepts.deep_view();
        let ghost gh = hits.deep_view();
        let mut hs = hits;
        self.intercepts.append(&mut hs);
        proof {
            assert(self.intercepts.deep_view() =~= i_before + gh);
        }
        if self.enforce && any_hits {
            let nv = obj_with_field(&v, "candidates", Json::Arr(rewritten));
            let mut out: Vec<SseEvent> = Vec::new();
            out.push(SseEvent { event_type: event.event_type, data: json_to_string(&nv) });
            proof {
                assert(out.deep_view() =~= seq![out@[0]@]);
            }
            out
        } else {
            let mut out: Vec<SseEvent> = Vec::new();
            out.push(event);
            proof {
                assert(out.deep_view() =~= seq![out@[0]@]);
            }
            out
        }
    }

    fn process_openai_event(&mut self, event: SseEvent) -> (r: Vec<SseEvent>)
        requires
            old(self).wf(),
        ensures
            final(self).wf(),
            final(self)@ == spec_oai_step(old(self)@, event@).0,
            r.deep_view() == spec_oai_step(old(self)@, event@).1,
    {
        let trimmed = trim_str(event.data.as_str());
        if str_eq(trimmed.as_str(), "[DONE]") {
            let mut out = self.finalize_openai_tool_calls();
            let ghost before = out.deep_view();
            out.push(event);
            proof {
                assert(out.deep_view() =~= before.push(event@));
            }
            return out;
        }
        let v: Json = match parse_json(event.data.as_str()) {
            Some(v) => v,
            None => {
                let mut out: Vec<SseEvent> = Vec::new();
                out.push(event);
                proof {
                    assert(out.deep_view() =~= seq![out@[0]@]);
                }
                return out;
            },
        };
        match obj_get_str(&v, "id") {
            Some(s) => {
                self.openai_chunk_id = s.clone();
            },
            None => {},
        }
        let ghost s1 = self@;
        let c0: Option<&Json> = match obj_get_arr(&v, "choices") {
            Some(cs) => if cs.len() > 0 {
                proof {
                    let gcs = jget_arr(v@, "choices"@).unwrap();
                    assert(gcs[0] == cs@[0]@);
                }
                Some(&cs[0])
            } else {
                None
            },
            None => None,
        };
        let tcs: Option<&Vec<Json>> = match c0 {
            Some(c) => match obj_get(c, "delta") {
                Some(d) => obj_get_arr(d, "tool_calls"),
                None => None,
            },
            None => None,
        };
        match tcs {
            Some(ts) => {
                let ghost gts = oai_delta_tcs(v@).unwrap();
                proof {
                    assert(gts.len() == ts@.len());
                    assert(forall|j: int| 0 <= j < ts@.len() ==> gts[j] == ts@[j]@);
                }
                self.openai_buffering = true;
                let mut k: usize = 0;
                proof {
                    assert(upd_all(s1.openai_tool_calls, gts.take(0)) =~= s1.openai_tool_calls);
                }
                while k < ts.len()
                    invariant
                        self.wf(),
                        gts.len() == ts@.len(),
                        forall|j: int| 0 <= j < ts@.len() ==> gts[j] == ts@[j]@,
                        k <= ts@.len(),
                        accums_view(self.openai_tool_calls@) == upd_all(
                            s1.openai_tool_calls,
                            gts.take(k as int),
                        ),
                        self@ == (StreamV {
                            openai_buffering: true,
                            openai_tool_calls: accums_view(self.openai_tool_calls@),
                            ..s1
                        }),
                    decreases ts@.len() - k,
                {
                    let tc = &ts[k];
                    let ghost gtc = gts[k as int];
                    let idx = tc_index_exec(tc);
                    let cur: OpenAiToolCallAccum = match accum_find_exec(
                        &self.openai_tool_calls,
                        idx,
                    ) {
                        Some(a) => a,
                        None => OpenAiToolCallAccum {
                            id: String::new(),
                            name: String::new(),
                            arguments: String::new(),
                        },
                    };
                    let new_id: String = match obj_get_str(tc, "id") {
                        Some(s) => s.clone(),
                        None => cur.id,
                    };
                    let f: Option<&Json> = obj_get(tc, "function");
                    let new_name: String = match f {
                        Some(fo) => match obj_get_str(fo, "name") {
                            Some(s) => s.clone(),
                            None => cur.name,
                        },
                        None => cur.name,
                    };
                    let mut new_args: String = cur.arguments;
                    let ghost args_before = new_args@;
                    match f {
                        Some(fo) => match obj_get_str(fo, "arguments") {
                            Some(s) => {
                                new_args.append(s.as_str());
                            },
                            None => {
                                proof {
                                    assert(new_args@ =~= args_before + Seq::<char>::empty());
                                }
                            },
                        },
                        None => {
                            proof {
                                assert(new_args@ =~= args_before + Seq::<char>::empty());
                            }
                        },
                    }
                    let a1 = OpenAiToolCallAccum { id: new_id, name: new_name, arguments: new_args };
                    let ghost acc_before = accums_view(self.openai_tool_calls@);
                    let mut taken: Vec<(u64, OpenAiToolCallAccum)> = Vec::new();
                    core::mem::swap(&mut taken, &mut self.openai_tool_calls);
                    let updated = accum_insert_exec(taken, idx, a1);
                    self.openai_tool_calls = updated;
                    proof {
                        assert(accums_view(self.openai_tool_calls@) =~= upd_one(
                            acc_before,
                            gtc,
                        ));
                        lemma_upd_all_snoc(s1.openai_tool_calls, gts, k as int);
                    }
                    k = k + 1;
                }
                proof {
                    assert(gts.take(gts.len() as int) =~= gts);
                }
                let ghost b_before = self.openai_buffer.deep_view();
                self.openai_buffer.push(event);
                proof {
                    assert(self.openai_buffer.deep_view() =~= b_before.push(event@));
                }
                Vec::new()
            },
            None => {
                let is_finish: bool = match c0 {
                    Some(c) => match obj_get_str(c, "finish_reason") {
                        Some(fr) => str_eq(fr.as_str(), "tool_calls"),
                        None => false,
                    },
                    None => false,
                };
                if is_finish {
                    let ghost b_before = self.openai_buffer.deep_view();
                    self.openai_buffer.push(event);
                    proof {
                        assert(self.openai_buffer.deep_view() =~= b_before.push(event@));
                    }
                    self.finalize_openai_tool_calls()
                } else {
                    let mut out: Vec<SseEvent> = Vec::new();
                    out.push(event);
                    proof {
                        assert(out.deep_view() =~= seq![out@[0]@]);
                    }
                    out
                }
            },
        }
    }

    fn finalize_openai_tool_calls(&mut self) -> (r: Vec<SseEvent>)
        requires
            old(self).wf(),
        ensures
            final(self).wf(),
            final(self)@ == oai_finalize(old(self)@).0,
            r.deep_view() == oai_finalize(old(self)@).1,
    {
        let ghost s0 = self@;
        if self.openai_tool_calls.len() == 0 {
            let out = take_events(&mut self.openai_buffer);
            proof {
                assert(self@.openai_buffer =~= Seq::<SseEventV>::empty());
                assert(out.deep_view() =~= s0.openai_buffer);
            }
            return out;
        }
        let ghost gac = accums_view(self.openai_tool_calls@);
        let mut hits: Vec<InterceptResult> = Vec::new();
        let mut k: usize = 0;
        proof {
            assert(hits.deep_view() =~= oai_stream_hits(gac.take(0), s0.rules));
        }
        while k < self.openai_tool_calls.len()
            invariant
                self.wf(),
                self@ == s0,
                gac == accums_view(self.openai_tool_calls@),
                gac.len() == self.openai_tool_calls@.len(),
                k <= gac.len(),
                hits.deep_view() == oai_stream_hits(gac.take(k as int), s0.rules),
            decreases gac.len() - k,
        {
            proof {
                assert(gac[k as int] == (
                    self.openai_tool_calls@[k as int].0 as int,
                    self.openai_tool_calls@[k as int].1@,
                ));
            }
            let idx_num: u64 = self.openai_tool_calls[k].0;
            let idx: usize = if idx_num > usize::MAX as u64 {
                usize::MAX
            } else {
                idx_num as usize
            };
            let input: Json = match parse_json(self.openai_tool_calls[k].1.arguments.as_str()) {
                Some(x) => x,
                None => {
                    let e = Json::Obj(Vec::new());
                    proof {
                        assert(e@->Obj_0 =~= Seq::<(Seq<char>, JsonView)>::empty());
                    }
                    e
                },
            };
            let ghost h_before = hits.deep_view();
            let verdict = check_tool_use(
                idx,
                self.openai_tool_calls[k].1.name.as_str(),
                &input,
                &self.rules,
            );
            match verdict {
                Some(h) => {
                    hits.push(h);
                    proof {
                        assert(hits.deep_view() =~= h_before.push(
                            spec_hit(
                                s0.rules,
                                to_index(gac[k as int].0),
                                gac[k as int].1.name,
                                parse_or_empty(gac[k as int].1.arguments),
                            ),
                        ));
                    }
                },
                None => {},
            }
            proof {
                assert(gac.take(k + 1).drop_last() =~= gac.take(k as int));
                assert(gac.take(k + 1).last() == gac[k as int]);
                assert(hits.deep_view() =~= oai_stream_hits(gac.take(k + 1), s0.rules));
            }
            k = k + 1;
        }
        proof {
            assert(gac.take(gac.len() as int) =~= gac);
        }
        let any_hits = hits.len() > 0;
        let ghost gh = hits.deep_view();
        let ghost i_before = self.intercepts.deep_view();
        let mut hs = hits;
        self.intercepts.append(&mut hs);
        self.openai_tool_calls = Vec::new();
        let buffered = take_events(&mut self.openai_buffer);
        proof {
            assert(self.intercepts.deep_view() =~= i_before + gh);
            assert(accums_view(self.openai_tool_calls@) =~= Seq::<(int, OaiAccumV)>::empty());
            assert(self@.openai_buffer =~= Seq::<SseEventV>::empty());
            assert(buffered.deep_view() =~= s0.openai_buffer);
        }
        if !any_hits || !self.enforce {
            return buffered;
        }
        let ghost ints = self.intercepts.deep_view();
        let mut msgs: Vec<String> = Vec::new();
        let mut j: usize = 0;
        proof {
            assert(msgs.deep_view() =~= stream_msgs(ints.take(0)));
        }
        while j < self.intercepts.len()
            invariant
                ints == self.intercepts.deep_view(),
                ints.len() == self.intercepts@.len(),
                j <= ints.len(),
                msgs.deep_view() == stream_msgs(ints.take(j as int)),
            decreases ints.len() - j,
        {
            proof {
                assert(ints[j as int] == self.intercepts@[j as int]@);
            }
            let act = self.intercepts[j].action;
            let blocking = match act {
                crate::rules::RuleAction::CriticalAlert => true,
                crate::rules::RuleAction::Block => true,
                crate::rules::RuleAction::PauseAndAsk => true,
                _ => false,
            };
            let ghost m_before = msgs.deep_view();
            if blocking {
                let m = stream_block_message(&self.intercepts[j]);
                msgs.push(m);
                proof {
                    assert(msgs.deep_view() =~= m_before.push(
                        spec_stream_block_message(ints[j as int]),
                    ));
                }
            }
            proof {
                assert(ints.take(j + 1).drop_last() =~= ints.take(j as int));
                assert(ints.take(j + 1).last() == ints[j as int]);
                assert(msgs.deep_view() =~= stream_msgs(ints.take(j + 1)));
            }
            j = j + 1;
        }
        proof {
            assert(ints.take(ints.len() as int) =~= ints);
        }
        let joined = crate::text::join_strs(&msgs, "\n");
        proof {
            reveal_strlit("\n");
            assert("\n"@ =~= seq!['\n']);
        }
        let repl = mk_oai_chunk(self.openai_chunk_id.clone(), Some(joined));
        let fin = mk_oai_chunk(self.openai_chunk_id.clone(), None);
        let mut out: Vec<SseEvent> = Vec::new();
        out.push(SseEvent { event_type: String::from_str("message"), data: json_to_string(&repl) });
        out.push(SseEvent { event_type: String::from_str("message"), data: json_to_string(&fin) });
        proof {
            assert(out.deep_view() =~= seq![out@[0]@, out@[1]@]);
        }
        out
    }
}

proof fn lemma_upd_all_snoc(accs: Seq<(int, OaiAccumV)>, tcs: Seq<JsonView>, k: int)
    requires
        0 <= k < tcs.len(),
    ensures
        upd_all(accs, tcs.take(k + 1)) == upd_one(upd_all(accs, tcs.take(k)), tcs[k]),
    decreases k,
{
    if k == 0 {
        assert(tcs.take(1).first() == tcs[0]);
        assert(tcs.take(1).drop_first() =~= Seq::<JsonView>::empty());
        assert(tcs.take(0) =~= Seq::<JsonView>::empty());
        assert(upd_all(accs, tcs.take(0)) == accs);
        assert(upd_all(upd_one(accs, tcs[0]), Seq::<JsonView>::empty()) == upd_one(accs, tcs[0]));
    } else {
        let t1 = tcs.drop_first();
        assert(tcs.take(k + 1).first() == tcs[0]);
        assert(tcs.take(k + 1).drop_first() =~= t1.take(k));
        assert(tcs.take(k).first() == tcs[0]);
        assert(tcs.take(k).drop_first() =~= t1.take(k - 1));
        lemma_upd_all_snoc(upd_one(accs, tcs[0]), t1, k - 1);
        assert(t1[k - 1] == tcs[k]);
    }
}

} // verus!
