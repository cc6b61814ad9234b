//! The response interceptor: detects the provider dialect of an LLM response
//! body, locates every tool-invocation site, evaluates each against the rule
//! set, and — in enforce mode — rewrites blocked sites in place.

use vstd::prelude::*;
use crate::json::{
    jget,
    jget_arr,
    jget_str,
    jremove,
    jset,
    json_clone,
    json_to_string,
    json_view_seq,
    lemma_json_view_seq,
    obj_get,
    obj_get_arr,
    obj_get_str,
    obj_with_field,
    obj_without_field,
    parse_json,
    parsed_json,
    ser_json,
    Json,
    JsonView,
};
use crate::model::{ActionType, ActionV, AgentAction, AgentType, RiskLevel};
use crate::normalize::{normalize_tool_call, spec_normalize};
use crate::rules::{
    lemma_matches_core,
    spec_rule_matches,
    Rule,
    RuleAction,
    RuleV,
};

verus! {

/// API provider detected from a response body's structure.
#[derive(Debug, Clone, Copy, PartialEq, Eq, Structural)]
pub enum ApiProvider {
    Anthropic,
    OpenAI,
    Gemini,
    Unknown,
}

/// The record of one intercepted tool-invocation site.
pub struct InterceptResult {
    /// Where the site sat (array index; for multi-choice dialects,
    /// `choice * 1000 + index`).
    pub block_index: usize,
    /// The tool the model called.
    pub tool_name: String,
    /// The rule that fired.
    pub rule_name: String,
    /// The fired rule's action.
    pub action: RuleAction,
    /// The fired rule's risk level.
    pub risk_level: RiskLevel,
    /// The fired rule's description.
    pub reason: String,
}

/// The mathematical shape of an intercept record.
pub ghost struct InterceptResultV {
    pub block_index: int,
    pub tool_name: Seq<char>,
    pub rule_name: Seq<char>,
    pub action: RuleAction,
    pub risk_level: RiskLevel,
    pub reason: Seq<char>,
}

impl View for InterceptResult {
    type V = InterceptResultV;

    open spec fn view(&self) -> InterceptResultV {
        InterceptResultV {
            block_index: self.block_index as int,
            tool_name: self.tool_name@,
            rule_name: self.rule_name@,
            action: self.action,
            risk_level: self.risk_level,
            reason: self.reason@,
        }
    }
}

impl DeepView for InterceptResult {
    type V = InterceptResultV;

    open spec fn deep_view(&self) -> InterceptResultV {
        self.view()
    }
}

// ------------------------------------------------------------------
// Dialect detection
// ------------------------------------------------------------------

/// A content entry that encodes a tool call (`type` is `tool_use`).
pub open spec fn tool_use_site(e: JsonView) -> bool {
    jget_str(e, "type"@) == Some("tool_use"@)
}

/// The Anthropic fingerprint: a top-level `type` of `message`, or a
/// `content` array holding a tool-use entry — either alone suffices.
pub open spec fn anthropic_shape(v: JsonView) -> bool {
    ||| jget_str(v, "type"@) == Some("message"@)
    ||| match jget_arr(v, "content"@) {
        Some(es) => exists|i: int| 0 <= i < es.len() && tool_use_site(#[trigger] es[i]),
        None => false,
    }
}

/// The provider a parsed body belongs to, by structural fingerprint:
/// Anthropic, then OpenAI (a `choices` array), then Gemini (a `candidates`
/// array), else unknown.
pub open spec fn spec_detect(v: JsonView) -> ApiProvider {
    if anthropic_shape(v) {
        ApiProvider::Anthropic
    } else if jget_arr(v, "choices"@) is Some {
        ApiProvider::OpenAI
    } else if jget_arr(v, "candidates"@) is Some {
        ApiProvider::Gemini
    } else {
        ApiProvider::Unknown
    }
}

/// Detects the provider of a parsed JSON body.
pub fn detect_provider_from_value(v: &Json) -> (r: ApiProvider)
    ensures
        r == spec_detect(v@),
{
    let is_anthropic: bool = match obj_get_arr(v, "content") {
        Some(es) => {
            let ghost ges = jget_arr(v@, "content"@).unwrap();
            let mut found = false;
            let mut i: usize = 0;
            while i < es.len()
                invariant
                    jget_arr(v@, "content"@) == Some(ges),
                    ges.len() == es@.len(),
                    forall|j: int| 0 <= j < es@.len() ==> ges[j] == es@[j]@,
                    i <= es@.len(),
                    found == exists|j: int| 0 <= j < i && tool_use_site(#[trigger] ges[j]),
                decreases es@.len() - i,
            {
                let ghost was_found = found;
                match obj_get_str(&es[i], "type") {
                    Some(t) => {
                        if crate::text::str_eq(t.as_str(), "tool_use") {
                            found = true;
                        }
                    },
                    None => {},
                }
                proof {
                    if tool_use_site(ges[i as int]) {
                        assert(found);
                        assert(0 <= i < i + 1 && tool_use_site(ges[i as int]));
                    } else {
                        assert(found == was_found);
                        if was_found {
                            let w = choose|j: int| 0 <= j < i && tool_use_site(#[trigger] ges[j]);
                            assert(0 <= w < i + 1 && tool_use_site(ges[w]));
                        } else {
                            assert forall|j: int| !(0 <= j < i + 1 && tool_use_site(
                                #[trigger] ges[j],
                            )) by {
                                if 0 <= j < i {
                                    assert(!tool_use_site(ges[j]));
                                }
                            }
                        }
                    }
                }
                i = i + 1;
            }
            found
        },
        None => false,
    };
    let is_message: bool = match obj_get_str(v, "type") {
        Some(t) => crate::text::str_eq(t.as_str(), "message"),
        None => false,
    };
    if is_message || is_anthropic {
        return ApiProvider::Anthropic;
    }
    if obj_get_arr(v, "choices").is_some() {
        return ApiProvider::OpenAI;
    }
    if obj_get_arr(v, "candidates").is_some() {
        return ApiProvider::Gemini;
    }
    ApiProvider::Unknown
}

/// Detects the provider of a response body; invalid JSON is unknown.
pub fn detect_provider(body: &str) -> (r: ApiProvider)
    ensures
        r == match parsed_json(body@) {
            Some(v) => spec_detect(v),
            None => ApiProvider::Unknown,
        },
{
    match parse_json(body) {
        Some(v) => detect_provider_from_value(&v),
        None => ApiProvider::Unknown,
    }
}

// ------------------------------------------------------------------
// Site verdicts
// ------------------------------------------------------------------

/// A rule action that demands blocking the site.
pub open spec fn is_blocking(a: RuleAction) -> bool {
    a == RuleAction::CriticalAlert || a == RuleAction::Block || a == RuleAction::PauseAndAsk
}

fn is_blocking_exec(a: RuleAction) -> (r: bool)
    ensures
        r == is_blocking(a),
{
    match a {
        RuleAction::CriticalAlert => true,
        RuleAction::Block => true,
        RuleAction::PauseAndAsk => true,
        _ => false,
    }
}

/// An action record carrying only what rule evaluation reads.
pub open spec fn action_of(
    kind: ActionType,
    content: Seq<char>,
    target: Option<Seq<char>>,
) -> ActionV {
    ActionV {
        id: Seq::empty(),
        timestamp: Seq::empty(),
        agent: AgentType::Unknown,
        action_type: kind,
        content,
        target,
        session_id: None,
    }
}

/// The normalized action of one tool-call site.
pub open spec fn site_action(name: Seq<char>, input: JsonView) -> ActionV {
    let n = spec_normalize(name, input);
    action_of(n.0, n.1, n.2)
}

/// The index of the first rule, at or after `k`, that matches the action
/// with a blocking action.
pub open spec fn first_blocking_from(rules: Seq<RuleV>, a: ActionV, k: int) -> Option<int>
    decreases rules.len() + 1 - k,
    when 0 <= k
{
    if k >= rules.len() {
        None
    } else if spec_rule_matches(rules[k], a) && is_blocking(rules[k].action) {
        Some(k)
    } else {
        first_blocking_from(rules, a, k + 1)
    }
}

/// The verdict on one tool-call site: the first rule that matches and
/// demands blocking, if any.
pub open spec fn spec_verdict(rules: Seq<RuleV>, name: Seq<char>, input: JsonView) -> Option<
    int,
> {
    first_blocking_from(rules, site_action(name, input), 0)
}

/// The intercept record of a blocked site.
pub open spec fn spec_hit(
    rules: Seq<RuleV>,
    block_index: int,
    name: Seq<char>,
    input: JsonView,
) -> InterceptResultV {
    let j = spec_verdict(rules, name, input).unwrap();
    InterceptResultV {
        block_index,
        tool_name: name,
        rule_name: rules[j].name,
        action: rules[j].action,
        risk_level: rules[j].risk_level,
        reason: rules[j].description,
    }
}

proof fn lemma_first_blocking_step(rules: Seq<RuleV>, a: ActionV, k: int)
    requires
        0 <= k <= rules.len(),
        forall|j: int| 0 <= j < k ==> !(spec_rule_matches(#[trigger] rules[j], a) && is_blocking(
            rules[j].action,
        )),
    ensures
        first_blocking_from(rules, a, 0) == first_blocking_from(rules, a, k),
    decreases k,
{
    if k > 0 {
        lemma_first_blocking_step(rules, a, k - 1);
    }
}

/// Relies on uuid::Uuid::new_v4 and its string form to label proxy-observed
/// actions; the value is random, so nothing is promised of it. The call
/// aborts the process if the operating system's randomness source fails —
/// an environmental failure outside the library's no-panic guarantee.
#[verifier::external_body]
fn fresh_uuid_string() -> String {
    uuid::Uuid::new_v4().to_string()
}

/// Relies on chrono::Utc::now and RFC 3339 formatting for the observation
/// timestamp; the value depends on the clock, so nothing is promised of it.
/// The call aborts the process if the system clock predates the Unix epoch
/// — an environmental failure outside the library's no-panic guarantee.
#[verifier::external_body]
fn now_rfc3339() -> String {
    chrono::Utc::now().to_rfc3339()
}

/// Checks one tool-call site against the rules. Returns a record exactly
/// when some rule matches the normalized action and demands blocking; the
/// record carries the first such rule.
pub fn check_tool_use(
    block_index: usize,
    name: &str,
    input: &Json,
    rules: &Vec<Rule>,
) -> (r: Option<InterceptResult>)
    requires
        forall|i: int| 0 <= i < rules@.len() ==> (#[trigger] rules@[i]).wf(),
    ensures
        match spec_verdict(rules.deep_view(), name@, input@) {
            Some(j) => r is Some && r.unwrap()@ == spec_hit(
                rules.deep_view(),
                block_index as int,
                name@,
                input@,
            ),
            None => r is None,
        },
{
    let ghost dv = rules.deep_view();
    let ghost av = site_action(name@, input@);
    proof {
        assert forall|i: int| 0 <= i < rules@.len() implies (#[trigger] rules@[i])@ == dv[i] by {
            assert(rules.deep_view()[i] == rules@[i]@);
        }
    }
    let norm = normalize_tool_call(name, input);
    let mut id = String::from_str("proxy-");
    let u = fresh_uuid_string();
    id.append(u.as_str());
    let action = AgentAction {
        id,
        timestamp: now_rfc3339(),
        agent: AgentType::Unknown,
        action_type: norm.0,
        content: norm.1,
        target: norm.2,
        session_id: None,
        metadata: None,
    };
    proof {
        assert(action@.action_type == av.action_type);
        assert(action@.content == av.content);
        assert(action@.target =~= av.target);
    }
    let mut i: usize = 0;
    while i < rules.len()
        invariant
            dv == rules.deep_view(),
            dv.len() == rules@.len(),
            forall|j: int| 0 <= j < rules@.len() ==> (#[trigger] rules@[j]).wf(),
            forall|j: int| 0 <= j < rules@.len() ==> (#[trigger] rules@[j])@ == dv[j],
            av == site_action(name@, input@),
            action@.action_type == av.action_type,
            action@.content == av.content,
            action@.target == av.target,
            i <= dv.len(),
            forall|j: int| 0 <= j < i ==> !(spec_rule_matches(#[trigger] dv[j], av)
                && is_blocking(dv[j].action)),
        decreases dv.len() - i,
    {
        let rule = &rules[i];
        if rule.matches(&action) {
            proof {
                lemma_matches_core(dv[i as int], action@, av);
            }
            if is_blocking_exec(rule.get_action()) {
                proof {
                    lemma_first_blocking_step(dv, av, i as int);
                }
                return Some(
                    InterceptResult {
                        block_index,
                        tool_name: String::from_str(name),
                        rule_name: rule.get_name().clone(),
                        action: rule.get_action(),
                        risk_level: rule.get_risk_level(),
                        reason: rule.get_description().clone(),
                    },
                );
            }
        } else {
            proof {
                lemma_matches_core(dv[i as int], action@, av);
            }
        }
        i = i + 1;
    }
    proof {
        lemma_first_blocking_step(dv, av, dv.len() as int);
    }
    None
}

// ------------------------------------------------------------------
// Block messages
// ------------------------------------------------------------------

/// The text put in place of a blocked unary tool call.
pub open spec fn spec_block_message(h: InterceptResultV) -> Seq<char> {
    "\u{1f6e1}\u{fe0f} OpenClaw Harness blocked this action: ["@ + h.tool_name + "] "@ + h.reason
        + " (rule: "@ + h.rule_name + ")"@
}

/// Formats the message shown in place of a blocked tool call.
pub fn block_message(h: &InterceptResult) -> (r: String)
    ensures
        r@ == spec_block_message(h@),
{
    let mut out = String::from_str("\u{1f6e1}\u{fe0f} OpenClaw Harness blocked this action: [");
    out.append(h.tool_name.as_str());
    out.append("] ");
    out.append(h.reason.as_str());
    out.append(" (rule: ");
    out.append(h.rule_name.as_str());
    out.append(")");
    out
}

/// The text put in place of a blocked tool call in a live stream.
pub open spec fn spec_stream_block_message(h: InterceptResultV) -> Seq<char> {
    "\u{1f6e1}\u{fe0f} MoltBot Harness blocked this action: ["@ + h.tool_name + "] "@ + h.reason
        + " (rule: "@ + h.rule_name + ")"@
}

/// Formats the message put in place of a blocked tool call in a stream.
pub fn stream_block_message(h: &InterceptResult) -> (r: String)
    ensures
        r@ == spec_stream_block_message(h@),
{
    let mut out = String::from_str("\u{1f6e1}\u{fe0f} MoltBot Harness blocked this action: [");
    out.append(h.tool_name.as_str());
    out.append("] ");
    out.append(h.reason.as_str());
    out.append(" (rule: ");
    out.append(h.rule_name.as_str());
    out.append(")");
    out
}

/// The replacement text for a blocked site: the stream flavor names the
/// in-stream guard, the unary flavor the proxy.
pub open spec fn spec_site_message(stream: bool, h: InterceptResultV) -> Seq<char> {
    if stream {
        spec_stream_block_message(h)
    } else {
        spec_block_message(h)
    }
}

/// The Telegram alert text for an intercepted site.
pub open spec fn spec_telegram_alert(h: InterceptResultV) -> Seq<char> {
    let emoji: Seq<char> = if h.action == RuleAction::CriticalAlert {
        "\u{1f6a8}"@
    } else if h.action == RuleAction::PauseAndAsk {
        "\u{26a0}\u{fe0f}"@
    } else {
        "\u{2139}\u{fe0f}"@
    };
    let note: Seq<char> = if h.action == RuleAction::PauseAndAsk {
        "\n\n_Manual override needed to allow this action._"@
    } else {
        ""@
    };
    emoji + " *OpenClaw Harness Proxy Blocked*\n\n*Tool:* `"@ + h.tool_name + "`\n*Risk:* "@
        + crate::model::spec_risk_level_name(h.risk_level) + "\n*Rule:* "@ + h.rule_name
        + "\n*Reason:* "@ + h.reason + note
}

/// Formats a Telegram alert for an intercepted site.
pub fn format_telegram_alert(h: &InterceptResult) -> (r: String)
    ensures
        r@ == spec_telegram_alert(h@),
{
    let mut out: String = if matches!(h.action, RuleAction::CriticalAlert) {
        String::from_str("\u{1f6a8}")
    } else if matches!(h.action, RuleAction::PauseAndAsk) {
        String::from_str("\u{26a0}\u{fe0f}")
    } else {
        String::from_str("\u{2139}\u{fe0f}")
    };
    out.append(" *OpenClaw Harness Proxy Blocked*\n\n*Tool:* `");
    out.append(h.tool_name.as_str());
    out.append("`\n*Risk:* ");
    let risk = crate::model::risk_level_name(h.risk_level);
    out.append(risk.as_str());
    out.append("\n*Rule:* ");
    out.append(h.rule_name.as_str());
    out.append("\n*Reason:* ");
    out.append(h.reason.as_str());
    if matches!(h.action, RuleAction::PauseAndAsk) {
        out.append("\n\n_Manual override needed to allow this action._");
    } else {
        proof {
            reveal_strlit("");
            assert(""@ =~= Seq::<char>::empty());
        }
    }
    out
}

// ------------------------------------------------------------------
// Site accessors
// ------------------------------------------------------------------

/// The tool name of an Anthropic tool-use entry, or empty.
pub open spec fn site_name(e: JsonView) -> Seq<char> {
    match jget_str(e, "name"@) {
        Some(s) => s,
        None => Seq::empty(),
    }
}

/// The input object of an Anthropic tool-use entry; an empty object when
/// absent.
pub open spec fn site_input(e: JsonView) -> JsonView {
    match jget(e, "input"@) {
        Some(x) => x,
        None => JsonView::Obj(Seq::empty()),
    }
}

/// The text block put in place of a blocked Anthropic tool-use entry.
pub open spec fn text_block(msg: Seq<char>) -> JsonView {
    JsonView::Obj(seq![("type"@, JsonView::Str("text"@)), ("text"@, JsonView::Str(msg))])
}

/// The text part put in place of a blocked Gemini function call.
pub open spec fn gem_text_part(msg: Seq<char>) -> JsonView {
    JsonView::Obj(seq![("text"@, JsonView::Str(msg))])
}

/// Two-level field lookup.
pub open spec fn jget2(v: JsonView, k1: Seq<char>, k2: Seq<char>) -> Option<JsonView> {
    match jget(v, k1) {
        Some(x) => jget(x, k2),
        None => None,
    }
}

/// Two-level string-field lookup.
pub open spec fn jget2_str(v: JsonView, k1: Seq<char>, k2: Seq<char>) -> Option<Seq<char>> {
    match jget2(v, k1, k2) {
        Some(JsonView::Str(s)) => Some(s),
        _ => None,
    }
}

/// The function name of an OpenAI tool call, or empty.
pub open spec fn tc_name(tc: JsonView) -> Seq<char> {
    match jget2_str(tc, "function"@, "name"@) {
        Some(s) => s,
        None => Seq::empty(),
    }
}

/// The parsed arguments of an OpenAI tool call; an empty object when absent
/// or unparsable.
pub open spec fn tc_input(tc: JsonView) -> JsonView {
    match jget2_str(tc, "function"@, "arguments"@) {
        Some(s) => match parsed_json(s) {
            Some(x) => x,
            None => JsonView::Obj(Seq::empty()),
        },
        None => JsonView::Obj(Seq::empty()),
    }
}

/// The encoded site position: `choice * 1000 + index`, clamped at the
/// machine's integer limit.
pub open spec fn spec_site_index(ci: int, ti: int) -> int {
    let base: int = if ci <= usize::MAX as int / 1000 {
        ci * 1000
    } else {
        usize::MAX as int
    };
    if base + ti <= usize::MAX as int {
        base + ti
    } else {
        usize::MAX as int
    }
}

fn site_index(ci: usize, ti: usize) -> (r: usize)
    ensures
        r as int == spec_site_index(ci as int, ti as int),
{
    let base: usize = if ci <= usize::MAX / 1000 {
        ci * 1000
    } else {
        usize::MAX
    };
    if ti <= usize::MAX - base {
        base + ti
    } else {
        usize::MAX
    }
}

/// The function call of a Gemini part, if any.
pub open spec fn part_fc(p: JsonView) -> Option<JsonView> {
    jget(p, "functionCall"@)
}

/// The name of a Gemini function call, or empty.
pub open spec fn fc_name(fc: JsonView) -> Seq<char> {
    match jget_str(fc, "name"@) {
        Some(s) => s,
        None => Seq::empty(),
    }
}

/// The arguments of a Gemini function call; an empty object when absent.
pub open spec fn fc_args(fc: JsonView) -> JsonView {
    match jget(fc, "args"@) {
        Some(x) => x,
        None => JsonView::Obj(Seq::empty()),
    }
}

// ------------------------------------------------------------------
// Anthropic unary interception
// ------------------------------------------------------------------

/// The hits over an Anthropic `content` array, in array order.
pub open spec fn anth_hits(es: Seq<JsonView>, rules: Seq<RuleV>) -> Seq<InterceptResultV>
    decreases es.len(),
{
    if es.len() == 0 {
        Seq::empty()
    } else {
        anth_hits(es.drop_last(), rules) + ({
            let e = es.last();
            if tool_use_site(e) && spec_verdict(rules, site_name(e), site_input(e)) is Some {
                seq![spec_hit(rules, es.len() - 1, site_name(e), site_input(e))]
            } else {
                Seq::empty()
            }
        })
    }
}

/// One Anthropic content entry after enforcement: a blocked tool-use entry
/// becomes a text block carrying the block message; anything else is
/// unchanged.
pub open spec fn anth_rewrite_site(e: JsonView, rules: Seq<RuleV>) -> JsonView {
    if tool_use_site(e) && spec_verdict(rules, site_name(e), site_input(e)) is Some {
        text_block(spec_block_message(spec_hit(rules, 0, site_name(e), site_input(e))))
    } else {
        e
    }
}

/// An Anthropic `content` array after enforcement.
pub open spec fn anth_rewritten(es: Seq<JsonView>, rules: Seq<RuleV>) -> Seq<JsonView>
    decreases es.len(),
{
    if es.len() == 0 {
        Seq::empty()
    } else {
        anth_rewritten(es.drop_last(), rules) + seq![anth_rewrite_site(es.last(), rules)]
    }
}

/// An Anthropic body after interception: its hits, and — when enforcing and
/// something was hit — the body with the `content` array rewritten.
pub open spec fn spec_intercept_anthropic(v: JsonView, rules: Seq<RuleV>, enforce: bool) -> (
    JsonView,
    Seq<InterceptResultV>,
    bool,
) {
    match jget_arr(v, "content"@) {
        None => (v, Seq::empty(), false),
        Some(es) => {
            let hits = anth_hits(es, rules);
            if enforce && hits.len() > 0 {
                (jset(v, "content"@, JsonView::Arr(anth_rewritten(es, rules))), hits, true)
            } else {
                (v, hits, false)
            }
        },
    }
}

fn mk_text_block(msg: String) -> (r: Json)
    ensures
        r@ == text_block(msg@),
{
    let mut fields: Vec<(String, Json)> = Vec::new();
    fields.push((String::from_str("type"), Json::Str(String::from_str("text"))));
    fields.push((String::from_str("text"), Json::Str(msg)));
    let r = Json::Obj(fields);
    proof {
        crate::json::lemma_json_view_fields(fields@);
        assert(r@->Obj_0 =~= text_block(msg@)->Obj_0);
    }
    r
}

fn intercept_anthropic(v: &Json, rules: &Vec<Rule>, enforce: bool) -> (r: (
    Option<Json>,
    Vec<InterceptResult>,
))
    requires
        forall|i: int| 0 <= i < rules@.len() ==> (#[trigger] rules@[i]).wf(),
    ensures
        ({
            let t = spec_intercept_anthropic(v@, rules.deep_view(), enforce);
            &&& r.1.deep_view() == t.1
            &&& (t.2 ==> r.0 is Some && r.0.unwrap()@ == t.0)
            &&& (!t.2 ==> r.0 is None)
        }),
{
    let ghost dv = rules.deep_view();
    match obj_get_arr(v, "content") {
        None => (None, Vec::new()),
        Some(es) => {
            let ghost ges = jget_arr(v@, "content"@).unwrap();
            let empty_obj = Json::Obj(Vec::new());
            let empty_name = String::new();
            proof {
                assert(empty_obj@->Obj_0 =~= Seq::<(Seq<char>, JsonView)>::empty());
            }
            let mut hits: Vec<InterceptResult> = Vec::new();
            let mut rewritten: Vec<Json> = Vec::new();
            let mut i: usize = 0;
            proof {
                assert(hits.deep_view() =~= anth_hits(ges.take(0), dv));
                assert(json_view_seq(rewritten@) =~= anth_rewritten(ges.take(0), dv));
            }
            while i < es.len()
                invariant
                    forall|k: int| 0 <= k < rules@.len() ==> (#[trigger] rules@[k]).wf(),
                    dv == rules.deep_view(),
                    ges.len() == es@.len(),
                    forall|j: int| 0 <= j < es@.len() ==> ges[j] == es@[j]@,
                    empty_obj@ == JsonView::Obj(Seq::<(Seq<char>, JsonView)>::empty()),
                    empty_name@ == Seq::<char>::empty(),
                    i <= es@.len(),
                    hits.deep_view() == anth_hits(ges.take(i as int), dv),
                    json_view_seq(rewritten@) == anth_rewritten(ges.take(i as int), dv),
                decreases es@.len() - i,
            {
                let e = &es[i];
                let ghost ge = ges[i as int];
                let is_tu: bool = match obj_get_str(e, "type") {
                    Some(t) => crate::text::str_eq(t.as_str(), "tool_use"),
                    None => false,
                };
                let ghost h_before = hits.deep_view();
                let ghost w_before = rewritten@;
                if is_tu {
                    let name: &String = match obj_get_str(e, "name") {
                        Some(n) => n,
                        None => &empty_name,
                    };
                    let input: &Json = match obj_get(e, "input") {
                        Some(x) => x,
                        None => &empty_obj,
                    };
                    proof {
                        assert(name@ == site_name(ge));
                        assert(input@ == site_input(ge));
                    }
                    match check_tool_use(i, name.as_str(), input, rules) {
                        Some(h) => {
                            let msg = block_message(&h);
                            hits.push(h);
                            rewritten.push(mk_text_block(msg));
                            proof {
                                assert(hits.deep_view() =~= h_before.push(
                                    spec_hit(dv, i as int, site_name(ge), site_input(ge)),
                                ));
                            }
                        },
                        None => {
                            rewritten.push(json_clone(e));
                        },
                    }
                } else {
                    rewritten.push(json_clone(e));
                }
                proof {
                    assert(ges.take(i + 1).drop_last() =~= ges.take(i as int));
                    assert(ges.take(i + 1).last() == ge);
                    assert(ges.take(i + 1).len() - 1 == i as int);
                    assert(hits.deep_view() =~= anth_hits(ges.take(i + 1), dv));
                    lemma_json_view_seq(rewritten@);
                    lemma_json_view_seq(w_before);
                    assert(json_view_seq(rewritten@) =~= anth_rewritten(ges.take(i + 1), dv));
                }
                i = i + 1;
            }
            proof {
                assert(ges.take(ges.len() as int) =~= ges);
            }
            if enforce && hits.len() > 0 {
                let nv = obj_with_field(v, "content", Json::Arr(rewritten));
                (Some(nv), hits)
            } else {
                (None, hits)
            }
        },
    }
}

// ------------------------------------------------------------------
// OpenAI unary interception
// ------------------------------------------------------------------

/// The tool calls of an OpenAI choice, if it has any.
pub open spec fn choice_tcs(c: JsonView) -> Option<Seq<JsonView>> {
    match jget(c, "message"@) {
        Some(m) => jget_arr(m, "tool_calls"@),
        None => None,
    }
}

/// The hits over one choice's tool calls.
pub open spec fn oai_tc_hits(tcs: Seq<JsonView>, rules: Seq<RuleV>, ci: int) -> Seq<
    InterceptResultV,
>
    decreases tcs.len(),
{
    if tcs.len() == 0 {
        Seq::empty()
    } else {
        oai_tc_hits(tcs.drop_last(), rules, ci) + ({
            let tc = tcs.last();
            if spec_verdict(rules, tc_name(tc), tc_input(tc)) is Some {
                seq![
                    spec_hit(
                        rules,
                        spec_site_index(ci, tcs.len() - 1),
                        tc_name(tc),
                        tc_input(tc),
                    ),
                ]
            } else {
                Seq::empty()
            }
        })
    }
}

/// The hits over an OpenAI `choices` array, in choice order.
pub open spec fn oai_hits(choices: Seq<JsonView>, rules: Seq<RuleV>) -> Seq<InterceptResultV>
    decreases choices.len(),
{
    if choices.len() == 0 {
        Seq::empty()
    } else {
        oai_hits(choices.drop_last(), rules) + (match choice_tcs(choices.last()) {
            Some(tcs) => oai_tc_hits(tcs, rules, choices.len() - 1),
            None => Seq::empty(),
        })
    }
}

/// The tool calls that survive enforcement.
pub open spec fn oai_remaining(tcs: Seq<JsonView>, rules: Seq<RuleV>) -> Seq<JsonView>
    decreases tcs.len(),
{
    if tcs.len() == 0 {
        Seq::empty()
    } else {
        oai_remaining(tcs.drop_last(), rules) + ({
            let tc = tcs.last();
            if spec_verdict(rules, tc_name(tc), tc_input(tc)) is Some {
                Seq::empty()
            } else {
                seq![tc]
            }
        })
    }
}

/// The block messages of the dropped tool calls, in order.
pub open spec fn oai_blocked_msgs(tcs: Seq<JsonView>, rules: Seq<RuleV>) -> Seq<Seq<char>>
    decreases tcs.len(),
{
    if tcs.len() == 0 {
        Seq::empty()
    } else {
        oai_blocked_msgs(tcs.drop_last(), rules) + ({
            let tc = tcs.last();
            if spec_verdict(rules, tc_name(tc), tc_input(tc)) is Some {
                seq![spec_block_message(spec_hit(rules, 0, tc_name(tc), tc_input(tc)))]
            } else {
                Seq::empty()
            }
        })
    }
}

/// One OpenAI choice after enforcement: blocked tool calls are removed from
/// the array (the key itself goes when none survive) and their block
/// messages are appended to the message content.
pub open spec fn oai_rewrite_choice(c: JsonView, rules: Seq<RuleV>) -> JsonView {
    match jget(c, "message"@) {
        None => c,
        Some(m) => match jget_arr(m, "tool_calls"@) {
            None => c,
            Some(tcs) => {
                let rem = oai_remaining(tcs, rules);
                let m1 = if rem.len() == 0 {
                    jremove(m, "tool_calls"@)
                } else {
                    jset(m, "tool_calls"@, JsonView::Arr(rem))
                };
                let bm = oai_blocked_msgs(tcs, rules);
                let m2 = if bm.len() > 0 {
                    let existing = match jget_str(m, "content"@) {
                        Some(s) => s,
                        None => Seq::empty(),
                    };
                    let joined = crate::text::spec_join(bm, seq!['\n']);
                    let nc = if existing.len() == 0 {
                        joined
                    } else {
                        existing + seq!['\n'] + joined
                    };
                    jset(m1, "content"@, JsonView::Str(nc))
                } else {
                    m1
                };
                jset(c, "message"@, m2)
            },
        },
    }
}

/// An OpenAI `choices` array after enforcement.
pub open spec fn oai_rewritten(choices: Seq<JsonView>, rules: Seq<RuleV>) -> Seq<JsonView>
    decreases choices.len(),
{
    if choices.len() == 0 {
        Seq::empty()
    } else {
        oai_rewritten(choices.drop_last(), rules) + seq![
            oai_rewrite_choice(choices.last(), rules),
        ]
    }
}

/// An OpenAI body after interception.
pub open spec fn spec_intercept_openai(v: JsonView, rules: Seq<RuleV>, enforce: bool) -> (
    JsonView,
    Seq<InterceptResultV>,
    bool,
) {
    match jget_arr(v, "choices"@) {
        None => (v, Seq::empty(), false),
        Some(cs) => {
            let hits = oai_hits(cs, rules);
            if enforce && hits.len() > 0 {
                (jset(v, "choices"@, JsonView::Arr(oai_rewritten(cs, rules))), hits, true)
            } else {
                (v, hits, false)
            }
        },
    }
}

/// Processes one OpenAI choice: returns its hits and its rewritten form.
fn intercept_openai_choice(c: &Json, rules: &Vec<Rule>, ci: usize) -> (r: (
    Vec<InterceptResult>,
    Json,
))
    requires
        forall|i: int| 0 <= i < rules@.len() ==> (#[trigger] rules@[i]).wf(),
    ensures
        r.0.deep_view() == (match choice_tcs(c@) {
            Some(tcs) => oai_tc_hits(tcs, rules.deep_view(), ci as int),
            None => Seq::empty(),
        }),
        r.1@ == oai_rewrite_choice(c@, rules.deep_view()),
{
    let ghost dv = rules.deep_view();
    let m: &Json = match obj_get(c, "message") {
        Some(m) => m,
        None => {
            return (Vec::new(), json_clone(c));
        },
    };
    let tcs: &Vec<Json> = match obj_get_arr(m, "tool_calls") {
        Some(tcs) => tcs,
        None => {
            return (Vec::new(), json_clone(c));
        },
    };
    let ghost gt = jget_arr(m@, "tool_calls"@).unwrap();
    let mut hits: Vec<InterceptResult> = Vec::new();
    let mut remaining: Vec<Json> = Vec::new();
    let mut blocked: Vec<String> = Vec::new();
    let empty_obj = Json::Obj(Vec::new());
    let empty_name = String::new();
    proof {
        assert(empty_obj@->Obj_0 =~= Seq::<(Seq<char>, JsonView)>::empty());
        assert(hits.deep_view() =~= oai_tc_hits(gt.take(0), dv, ci as int));
        assert(json_view_seq(remaining@) =~= oai_remaining(gt.take(0), dv));
        assert(blocked.deep_view() =~= oai_blocked_msgs(gt.take(0), dv));
    }
    let mut ti: usize = 0;
    while ti < tcs.len()
        invariant
            forall|k: int| 0 <= k < rules@.len() ==> (#[trigger] rules@[k]).wf(),
            dv == rules.deep_view(),
            gt.len() == tcs@.len(),
            forall|j: int| 0 <= j < tcs@.len() ==> gt[j] == tcs@[j]@,
            empty_obj@ == JsonView::Obj(Seq::<(Seq<char>, JsonView)>::empty()),
            empty_name@ == Seq::<char>::empty(),
            ti <= tcs@.len(),
            hits.deep_view() == oai_tc_hits(gt.take(ti as int), dv, ci as int),
            json_view_seq(remaining@) == oai_remaining(gt.take(ti as int), dv),
            blocked.deep_view() == oai_blocked_msgs(gt.take(ti as int), dv),
        decreases tcs@.len() - ti,
    {
        let tc = &tcs[ti];
        let ghost gtc = gt[ti as int];
        let f: Option<&Json> = obj_get(tc, "function");
        let name: &String = match f {
            Some(fo) => match obj_get_str(fo, "name") {
                Some(n) => n,
                None => &empty_name,
            },
            None => &empty_name,
        };
        let args_input: Json = match f {
            Some(fo) => match obj_get_str(fo, "arguments") {
                Some(a) => match parse_json(a.as_str()) {
                    Some(x) => x,
                    None => Json::Obj(Vec::new()),
                },
                None => Json::Obj(Vec::new()),
            },
            None => Json::Obj(Vec::new()),
        };
        proof {
            assert(name@ == tc_name(gtc));
            assert(args_input@ =~= tc_input(gtc)) by {
                match jget2_str(gtc, "function"@, "arguments"@) {
                    Some(s) => {
                        match parsed_json(s) {
                            Some(x) => {},
                            None => {
                                assert(args_input@->Obj_0 =~= Seq::<(Seq<char>, JsonView)>::empty());
                            },
                        }
                    },
                    None => {
                        assert(args_input@->Obj_0 =~= Seq::<(Seq<char>, JsonView)>::empty());
                    },
                }
            }
        }
        let idx = site_index(ci, ti);
        let ghost h_before = hits.deep_view();
        let ghost r_before = remaining@;
        let ghost b_before = blocked.deep_view();
        match check_tool_use(idx, name.as_str(), &args_input, rules) {
            Some(h) => {
                let msg = block_message(&h);
                hits.push(h);
                blocked.push(msg);
                proof {
                    assert(hits.deep_view() =~= h_before.push(
                        spec_hit(dv, spec_site_index(ci as int, ti as int), tc_name(gtc), tc_input(gtc)),
                    ));
                    assert(blocked.deep_view() =~= b_before.push(
                        spec_block_message(spec_hit(dv, 0, tc_name(gtc), tc_input(gtc))),
                    ));
                }
            },
            None => {
                remaining.push(json_clone(tc));
            },
        }
        proof {
            assert(gt.take(ti + 1).drop_last() =~= gt.take(ti as int));
            assert(gt.take(ti + 1).last() == gtc);
            assert(gt.take(ti + 1).len() - 1 == ti as int);
            assert(hits.deep_view() =~= oai_tc_hits(gt.take(ti + 1), dv, ci as int));
            lemma_json_view_seq(remaining@);
            lemma_json_view_seq(r_before);
            assert(json_view_seq(remaining@) =~= oai_remaining(gt.take(ti + 1), dv));
            assert(blocked.deep_view() =~= oai_blocked_msgs(gt.take(ti + 1), dv));
        }
        ti = ti + 1;
    }
    proof {
        assert(gt.take(gt.len() as int) =~= gt);
    }
    proof {
        lemma_json_view_seq(remaining@);
    }
    let m1: Json = if remaining.len() == 0 {
        obj_without_field(m, "tool_calls")
    } else {
        obj_with_field(m, "tool_calls", Json::Arr(remaining))
    };
    let ghost gbm = oai_blocked_msgs(gt, dv);
    let m2: Json = if blocked.len() > 0 {
        proof {
            reveal_strlit("");
            reveal_strlit("\n");
            assert("\n"@ =~= seq!['\n']);
            assert(""@ =~= Seq::<char>::empty());
        }
        let joined = crate::text::join_strs(&blocked, "\n");
        let ghost gjoined = crate::text::spec_join(gbm, seq!['\n']);
        proof {
            assert(joined@ == gjoined);
        }
        let existing: &str = match obj_get_str(m, "content") {
            Some(s) => s.as_str(),
            None => "",
        };
        let ghost gexisting = existing@;
        let nc: String = if existing.unicode_len() == 0 {
            joined
        } else {
            let mut s = String::from_str(existing);
            crate::text::push_char(&mut s, '\n');
            s.append(joined.as_str());
            proof {
                assert(s@ =~= gexisting + seq!['\n'] + gjoined);
            }
            s
        };
        obj_with_field(&m1, "content", Json::Str(nc))
    } else {
        m1
    };
    let rewritten = obj_with_field(c, "message", m2);
    (hits, rewritten)
}

fn intercept_openai(v: &Json, rules: &Vec<Rule>, enforce: bool) -> (r: (
    Option<Json>,
    Vec<InterceptResult>,
))
    requires
        forall|i: int| 0 <= i < rules@.len() ==> (#[trigger] rules@[i]).wf(),
    ensures
        ({
            let t = spec_intercept_openai(v@, rules.deep_view(), enforce);
            &&& r.1.deep_view() == t.1
            &&& (t.2 ==> r.0 is Some && r.0.unwrap()@ == t.0)
            &&& (!t.2 ==> r.0 is None)
        }),
{
    let ghost dv = rules.deep_view();
    match obj_get_arr(v, "choices") {
        None => (None, Vec::new()),
        Some(cs) => {
            let ghost gcs = jget_arr(v@, "choices"@).unwrap();
            let mut hits: Vec<InterceptResult> = Vec::new();
            let mut rewritten: Vec<Json> = Vec::new();
            let mut ci: usize = 0;
            proof {
                assert(hits.deep_view() =~= oai_hits(gcs.take(0), dv));
                assert(json_view_seq(rewritten@) =~= oai_rewritten(gcs.take(0), dv));
            }
            while ci < cs.len()
                invariant
                    forall|k: int| 0 <= k < rules@.len() ==> (#[trigger] rules@[k]).wf(),
                    dv == rules.deep_view(),
                    gcs.len() == cs@.len(),
                    forall|j: int| 0 <= j < cs@.len() ==> gcs[j] == cs@[j]@,
                    ci <= cs@.len(),
                    hits.deep_view() == oai_hits(gcs.take(ci as int), dv),
                    json_view_seq(rewritten@) == oai_rewritten(gcs.take(ci as int), dv),
                decreases cs@.len() - ci,
            {
                let ghost gc = gcs[ci as int];
                let ghost h_before = hits.deep_view();
                let ghost w_before = rewritten@;
                let cr = intercept_openai_choice(&cs[ci], rules, ci);
                let mut ch = cr.0;
                hits.append(&mut ch);
                rewritten.push(cr.1);
                proof {
                    assert(gcs.take(ci + 1).drop_last() =~= gcs.take(ci as int));
                    assert(gcs.take(ci + 1).last() == gc);
                    assert(gcs.take(ci + 1).len() - 1 == ci as int);
                    assert(hits.deep_view() =~= oai_hits(gcs.take(ci + 1), dv));
                    lemma_json_view_seq(rewritten@);
                    lemma_json_view_seq(w_before);
                    assert(json_view_seq(rewritten@) =~= oai_rewritten(gcs.take(ci + 1), dv));
                }
                ci = ci + 1;
            }
            proof {
                assert(gcs.take(gcs.len() as int) =~= gcs);
            }
            if enforce && hits.len() > 0 {
                let nv = obj_with_field(v, "choices", Json::Arr(rewritten));
                (Some(nv), hits)
            } else {
                (None, hits)
            }
        },
    }
}

// ------------------------------------------------------------------
// Gemini unary interception
// ------------------------------------------------------------------

/// The verdict on one Gemini part, when it carries a function call.
pub open spec fn gem_part_verdict(p: JsonView, rules: Seq<RuleV>) -> Option<int> {
    match part_fc(p) {
        Some(fc) => spec_verdict(rules, fc_name(fc), fc_args(fc)),
        None => None,
    }
}

/// The parts of a Gemini candidate, if it has any.
pub open spec fn cand_parts(c: JsonView) -> Option<Seq<JsonView>> {
    match jget(c, "content"@) {
        Some(ct) => jget_arr(ct, "parts"@),
        None => None,
    }
}

/// The hits over one candidate's parts.
pub open spec fn gem_part_hits(ps: Seq<JsonView>, rules: Seq<RuleV>, ci: int) -> Seq<
    InterceptResultV,
>
    decreases ps.len(),
{
    if ps.len() == 0 {
        Seq::empty()
    } else {
        gem_part_hits(ps.drop_last(), rules, ci) + ({
            let p = ps.last();
            match part_fc(p) {
                Some(fc) => if spec_verdict(rules, fc_name(fc), fc_args(fc)) is Some {
                    seq![
                        spec_hit(
                            rules,
                            spec_site_index(ci, ps.len() - 1),
                            fc_name(fc),
                            fc_args(fc),
                        ),
                    ]
                } else {
                    Seq::empty()
                },
                None => Seq::empty(),
            }
        })
    }
}

/// The hits over a Gemini `candidates` array, in candidate order.
pub open spec fn gem_hits(cands: Seq<JsonView>, rules: Seq<RuleV>) -> Seq<InterceptResultV>
    decreases cands.len(),
{
    if cands.len() == 0 {
        Seq::empty()
    } else {
        gem_hits(cands.drop_last(), rules) + (match cand_parts(cands.last()) {
            Some(ps) => gem_part_hits(ps, rules, cands.len() - 1),
            None => Seq::empty(),
        })
    }
}

/// One Gemini part after enforcement: a blocked function call becomes a
/// text part carrying the block message.
pub open spec fn gem_rewrite_part(p: JsonView, rules: Seq<RuleV>, stream: bool) -> JsonView {
    match part_fc(p) {
        Some(fc) => if spec_verdict(rules, fc_name(fc), fc_args(fc)) is Some {
            gem_text_part(spec_site_message(stream, spec_hit(rules, 0, fc_name(fc), fc_args(fc))))
        } else {
            p
        },
        None => p,
    }
}

/// A candidate's parts after enforcement.
pub open spec fn gem_rewritten_parts(ps: Seq<JsonView>, rules: Seq<RuleV>, stream: bool) -> Seq<
    JsonView,
>
    decreases ps.len(),
{
    if ps.len() == 0 {
        Seq::empty()
    } else {
        gem_rewritten_parts(ps.drop_last(), rules, stream) + seq![
            gem_rewrite_part(ps.last(), rules, stream),
        ]
    }
}

/// One Gemini candidate after enforcement.
pub open spec fn gem_rewrite_cand(c: JsonView, rules: Seq<RuleV>, stream: bool) -> JsonView {
    match jget(c, "content"@) {
        None => c,
        Some(ct) => match jget_arr(ct, "parts"@) {
            None => c,
            Some(ps) => jset(
                c,
                "content"@,
                jset(ct, "parts"@, JsonView::Arr(gem_rewritten_parts(ps, rules, stream))),
            ),
        },
    }
}

/// A Gemini `candidates` array after enforcement.
pub open spec fn gem_rewritten(cands: Seq<JsonView>, rules: Seq<RuleV>, stream: bool) -> Seq<
    JsonView,
>
    decreases cands.len(),
{
    if cands.len() == 0 {
        Seq::empty()
    } else {
        gem_rewritten(cands.drop_last(), rules, stream) + seq![
            gem_rewrite_cand(cands.last(), rules, stream),
        ]
    }
}

/// A Gemini body after interception.
pub open spec fn spec_intercept_gemini(v: JsonView, rules: Seq<RuleV>, enforce: bool) -> (
    JsonView,
    Seq<InterceptResultV>,
    bool,
) {
    match jget_arr(v, "candidates"@) {
        None => (v, Seq::empty(), false),
        Some(cs) => {
            let hits = gem_hits(cs, rules);
            if enforce && hits.len() > 0 {
                (
                    jset(v, "candidates"@, JsonView::Arr(gem_rewritten(cs, rules, false))),
                    hits,
                    true,
                )
            } else {
                (v, hits, false)
            }
        },
    }
}

fn mk_gem_text_part(msg: String) -> (r: Json)
    ensures
        r@ == gem_text_part(msg@),
{
    let mut fields: Vec<(String, Json)> = Vec::new();
    fields.push((String::from_str("text"), Json::Str(msg)));
    let r = Json::Obj(fields);
    proof {
        crate::json::lemma_json_view_fields(fields@);
        assert(r@->Obj_0 =~= gem_text_part(msg@)->Obj_0);
    }
    r
}

/// Processes one Gemini candidate: returns its hits and its rewritten form.
pub(crate) fn intercept_gemini_cand(c: &Json, rules: &Vec<Rule>, ci: usize, stream: bool) -> (r: (
    Vec<InterceptResult>,
    Json,
))
    requires
        forall|i: int| 0 <= i < rules@.len() ==> (#[trigger] rules@[i]).wf(),
    ensures
        r.0.deep_view() == (match cand_parts(c@) {
            Some(ps) => gem_part_hits(ps, rules.deep_view(), ci as int),
            None => Seq::empty(),
        }),
        r.1@ == gem_rewrite_cand(c@, rules.deep_view(), stream),
{
    let ghost dv = rules.deep_view();
    let ct: &Json = match obj_get(c, "content") {
        Some(ct) => ct,
        None => {
            return (Vec::new(), json_clone(c));
        },
    };
    let ps: &Vec<Json> = match obj_get_arr(ct, "parts") {
        Some(ps) => ps,
        None => {
            return (Vec::new(), json_clone(c));
        },
    };
    let ghost gp = jget_arr(ct@, "parts"@).unwrap();
    let mut hits: Vec<InterceptResult> = Vec::new();
    let mut rewritten: Vec<Json> = Vec::new();
    let empty_obj = Json::Obj(Vec::new());
    let empty_name = String::new();
    proof {
        assert(empty_obj@->Obj_0 =~= Seq::<(Seq<char>, JsonView)>::empty());
        assert(hits.deep_view() =~= gem_part_hits(gp.take(0), dv, ci as int));
        assert(json_view_seq(rewritten@) =~= gem_rewritten_parts(gp.take(0), dv, stream));
    }
    let mut pi: usize = 0;
    while pi < ps.len()
        invariant
            forall|k: int| 0 <= k < rules@.len() ==> (#[trigger] rules@[k]).wf(),
            dv == rules.deep_view(),
            gp.len() == ps@.len(),
            forall|j: int| 0 <= j < ps@.len() ==> gp[j] == ps@[j]@,
            empty_obj@ == JsonView::Obj(Seq::<(Seq<char>, JsonView)>::empty()),
            empty_name@ == Seq::<char>::empty(),
            pi <= ps@.len(),
            hits.deep_view() == gem_part_hits(gp.take(pi as int), dv, ci as int),
            json_view_seq(rewritten@) == gem_rewritten_parts(gp.take(pi as int), dv, stream),
        decreases ps@.len() - pi,
    {
        let p = &ps[pi];
        let ghost gpe = gp[pi as int];
        let ghost h_before = hits.deep_view();
        let ghost w_before = rewritten@;
        match obj_get(p, "functionCall") {
            Some(fc) => {
                let name: &String = match obj_get_str(fc, "name") {
                    Some(n) => n,
                    None => &empty_name,
                };
                let args: &Json = match obj_get(fc, "args") {
                    Some(a) => a,
                    None => &empty_obj,
                };
                proof {
                    assert(name@ == fc_name(part_fc(gpe).unwrap()));
                    assert(args@ == fc_args(part_fc(gpe).unwrap()));
                }
                let idx = site_index(ci, pi);
                match check_tool_use(idx, name.as_str(), args, rules) {
                    Some(h) => {
                        let msg: String = if stream {
                            stream_block_message(&h)
                        } else {
                            block_message(&h)
                        };
                        hits.push(h);
                        rewritten.push(mk_gem_text_part(msg));
                        proof {
                            let fcv = part_fc(gpe).unwrap();
                            assert(hits.deep_view() =~= h_before.push(
                                spec_hit(
                                    dv,
                                    spec_site_index(ci as int, pi as int),
                                    fc_name(fcv),
                                    fc_args(fcv),
                                ),
                            ));
                        }
                    },
                    None => {
                        rewritten.push(json_clone(p));
                    },
                }
            },
            None => {
                rewritten.push(json_clone(p));
            },
        }
        proof {
            assert(gp.take(pi + 1).drop_last() =~= gp.take(pi as int));
            assert(gp.take(pi + 1).last() == gpe);
            assert(gp.take(pi + 1).len() - 1 == pi as int);
            assert(hits.deep_view() =~= gem_part_hits(gp.take(pi + 1), dv, ci as int));
            lemma_json_view_seq(rewritten@);
            lemma_json_view_seq(w_before);
            assert(json_view_seq(rewritten@) =~= gem_rewritten_parts(gp.take(pi + 1), dv, stream));
        }
        pi = pi + 1;
    }
    proof {
        assert(gp.take(gp.len() as int) =~= gp);
    }
    let ct2 = obj_with_field(ct, "parts", Json::Arr(rewritten));
    let rewritten_cand = obj_with_field(c, "content", ct2);
    (hits, rewritten_cand)
}

fn intercept_gemini(v: &Json, rules: &Vec<Rule>, enforce: bool) -> (r: (
    Option<Json>,
    Vec<InterceptResult>,
))
    requires
        forall|i: int| 0 <= i < rules@.len() ==> (#[trigger] rules@[i]).wf(),
    ensures
        ({
            let t = spec_intercept_gemini(v@, rules.deep_view(), enforce);
            &&& r.1.deep_view() == t.1
            &&& (t.2 ==> r.0 is Some && r.0.unwrap()@ == t.0)
            &&& (!t.2 ==> r.0 is None)
        }),
{
    let ghost dv = rules.deep_view();
    match obj_get_arr(v, "candidates") {
        None => (None, Vec::new()),
        Some(cs) => {
            let ghost gcs = jget_arr(v@, "candidates"@).unwrap();
            let mut hits: Vec<InterceptResult> = Vec::new();
            let mut rewritten: Vec<Json> = Vec::new();
            let mut ci: usize = 0;
            proof {
                assert(hits.deep_view() =~= gem_hits(gcs.take(0), dv));
                assert(json_view_seq(rewritten@) =~= gem_rewritten(gcs.take(0), dv, false));
            }
            while ci < cs.len()
                invariant
                    forall|k: int| 0 <= k < rules@.len() ==> (#[trigger] rules@[k]).wf(),
                    dv == rules.deep_view(),
                    gcs.len() == cs@.len(),
                    forall|j: int| 0 <= j < cs@.len() ==> gcs[j] == cs@[j]@,
                    ci <= cs@.len(),
                    hits.deep_view() == gem_hits(gcs.take(ci as int), dv),
                    json_view_seq(rewritten@) == gem_rewritten(gcs.take(ci as int), dv, false),
                decreases cs@.len() - ci,
            {
                let ghost gc = gcs[ci as int];
                let ghost w_before = rewritten@;
                let cr = intercept_gemini_cand(&cs[ci], rules, ci, false);
                let mut ch = cr.0;
                hits.append(&mut ch);
                rewritten.push(cr.1);
                proof {
                    assert(gcs.take(ci + 1).drop_last() =~= gcs.take(ci as int));
                    assert(gcs.take(ci + 1).last() == gc);
                    assert(gcs.take(ci + 1).len() - 1 == ci as int);
                    assert(hits.deep_view() =~= gem_hits(gcs.take(ci + 1), dv));
                    lemma_json_view_seq(rewritten@);
                    lemma_json_view_seq(w_before);
                    assert(json_view_seq(rewritten@) =~= gem_rewritten(gcs.take(ci + 1), dv, false));
                }
                ci = ci + 1;
            }
            proof {
                assert(gcs.take(gcs.len() as int) =~= gcs);
            }
            if enforce && hits.len() > 0 {
                let nv = obj_with_field(v, "candidates", Json::Arr(rewritten));
                (Some(nv), hits)
            } else {
                (None, hits)
            }
        },
    }
}

// ------------------------------------------------------------------
// Top-level interception
// ------------------------------------------------------------------

/// A body after interception, by dialect: the possibly rewritten tree, the
/// hit records in site order, and whether a rewrite happened (it happens
/// only in enforce mode with at least one hit).
pub open spec fn spec_intercept(v: JsonView, rules: Seq<RuleV>, enforce: bool) -> (
    JsonView,
    Seq<InterceptResultV>,
    bool,
) {
    match spec_detect(v) {
        ApiProvider::Anthropic => spec_intercept_anthropic(v, rules, enforce),
        ApiProvider::OpenAI => spec_intercept_openai(v, rules, enforce),
        ApiProvider::Gemini => spec_intercept_gemini(v, rules, enforce),
        ApiProvider::Unknown => (v, Seq::empty(), false),
    }
}

/// Processes a full non-streaming response body. The hits are recorded in
/// site order; in enforce mode with at least one hit the body comes back
/// with the blocked sites rewritten, and in every other case — monitor
/// mode, no hits, unknown dialect, or a body that is not valid JSON — the
/// body comes back byte-for-byte unchanged.
pub fn intercept_response(body: &str, rules: &Vec<Rule>, enforce: bool) -> (r: (
    String,
    Vec<InterceptResult>,
))
    requires
        forall|i: int| 0 <= i < rules@.len() ==> (#[trigger] rules@[i]).wf(),
    ensures
        match parsed_json(body@) {
            None => r.0@ == body@ && r.1@.len() == 0,
            Some(v) => {
                let t = spec_intercept(v, rules.deep_view(), enforce);
                &&& r.1.deep_view() == t.1
                &&& r.0@ == (if t.2 {
                    ser_json(t.0)
                } else {
                    body@
                })
            },
        },
{
    let parsed = match parse_json(body) {
        Some(p) => p,
        None => {
            return (String::from_str(body), Vec::new());
        },
    };
    let provider = detect_provider_from_value(&parsed);
    let outcome: (Option<Json>, Vec<InterceptResult>) = match provider {
        ApiProvider::Anthropic => intercept_anthropic(&parsed, rules, enforce),
        ApiProvider::OpenAI => intercept_openai(&parsed, rules, enforce),
        ApiProvider::Gemini => intercept_gemini(&parsed, rules, enforce),
        ApiProvider::Unknown => (None, Vec::new()),
    };
    match outcome.0 {
        Some(nv) => (json_to_string(&nv), outcome.1),
        None => (String::from_str(body), outcome.1),
    }
}

/// Processes a response body against the built-in default rules merged with
/// the self-protection set — the rule set the proxy starts with.
pub fn intercept_with_default_rules(body: &str, enforce: bool) -> (r: (
    String,
    Vec<InterceptResult>,
))
    ensures
        match parsed_json(body@) {
            None => r.0@ == body@ && r.1@.len() == 0,
            Some(v) => {
                let t = spec_intercept(
                    v,
                    crate::rules::spec_merge(crate::rules::default_rules_v()),
                    enforce,
                );
                &&& r.1.deep_view() == t.1
                &&& r.0@ == (if t.2 {
                    ser_json(t.0)
                } else {
                    body@
                })
            },
        },
{
    let rules = crate::rules::merge_self_protection(crate::rules::default_rules());
    intercept_response(body, &rules, enforce)
}

/// In monitor mode interception never rewrites: for every body and rule
/// set the tree comes back unchanged, whatever was hit.
pub proof fn lemma_monitor_mode_identity(v: JsonView, rules: Seq<RuleV>)
    ensures
        spec_intercept(v, rules, false).0 == v,
        !spec_intercept(v, rules, false).2,
{
}

proof fn lemma_anth_no_sites(es: Seq<JsonView>, rules: Seq<RuleV>)
    requires
        forall|i: int| 0 <= i < es.len() ==> !tool_use_site(#[trigger] es[i]),
    ensures
        anth_hits(es, rules).len() == 0,
    decreases es.len(),
{
    if es.len() > 0 {
        lemma_anth_no_sites(es.drop_last(), rules);
    }
}

proof fn lemma_oai_no_sites(cs: Seq<JsonView>, rules: Seq<RuleV>)
    requires
        forall|i: int| 0 <= i < cs.len() ==> choice_tcs(#[trigger] cs[i]) is None,
    ensures
        oai_hits(cs, rules).len() == 0,
    decreases cs.len(),
{
    if cs.len() > 0 {
        lemma_oai_no_sites(cs.drop_last(), rules);
    }
}

proof fn lemma_gem_part_no_sites(ps: Seq<JsonView>, rules: Seq<RuleV>, ci: int)
    requires
        forall|i: int| 0 <= i < ps.len() ==> part_fc(#[trigger] ps[i]) is None,
    ensures
        gem_part_hits(ps, rules, ci).len() == 0,
    decreases ps.len(),
{
    if ps.len() > 0 {
        lemma_gem_part_no_sites(ps.drop_last(), rules, ci);
    }
}

/// A body without tool-invocation sites passes through byte-for-byte: with
/// no tool-use entry, no tool-call array and no function-call part, nothing
/// is hit and nothing is rewritten, in any mode.
pub proof fn lemma_no_sites_passthrough(v: JsonView, rules: Seq<RuleV>, enforce: bool)
    requires
        (match jget_arr(v, "content"@) {
            Some(es) => forall|i: int| 0 <= i < es.len() ==> !tool_use_site(#[trigger] es[i]),
            None => true,
        }),
        (match jget_arr(v, "choices"@) {
            Some(cs) => forall|i: int| 0 <= i < cs.len() ==> choice_tcs(#[trigger] cs[i])
                is None,
            None => true,
        }),
        (match jget_arr(v, "candidates"@) {
            Some(cands) => forall|i: int| 0 <= i < cands.len() ==> (match cand_parts(
                #[trigger] cands[i],
            ) {
                Some(ps) => forall|j: int| 0 <= j < ps.len() ==> part_fc(#[trigger] ps[j])
                    is None,
                None => true,
            }),
            None => true,
        }),
    ensures
        spec_intercept(v, rules, enforce).0 == v,
        spec_intercept(v, rules, enforce).1.len() == 0,
        !spec_intercept(v, rules, enforce).2,
{
    match spec_detect(v) {
        ApiProvider::Anthropic => {
            match jget_arr(v, "content"@) {
                Some(es) => {
                    lemma_anth_no_sites(es, rules);
                },
                None => {},
            }
        },
        ApiProvider::OpenAI => {
            match jget_arr(v, "choices"@) {
                Some(cs) => {
                    lemma_oai_no_sites(cs, rules);
                },
                None => {},
            }
        },
        ApiProvider::Gemini => {
            match jget_arr(v, "candidates"@) {
                Some(cands) => {
                    lemma_gem_no_sites(cands, rules);
                },
                None => {},
            }
        },
        ApiProvider::Unknown => {},
    }
}

proof fn lemma_gem_no_sites(cands: Seq<JsonView>, rules: Seq<RuleV>)
    requires
        forall|i: int| 0 <= i < cands.len() ==> (match cand_parts(#[trigger] cands[i]) {
            Some(ps) => forall|j: int| 0 <= j < ps.len() ==> part_fc(#[trigger] ps[j]) is None,
            None => true,
        }),
    ensures
        gem_hits(cands, rules).len() == 0,
    decreases cands.len(),
{
    if cands.len() > 0 {
        lemma_gem_no_sites(cands.drop_last(), rules);
        match cand_parts(cands.last()) {
            Some(ps) => {
                assert(cands[cands.len() - 1] == cands.last());
                lemma_gem_part_no_sites(ps, rules, cands.len() - 1);
            },
            None => {},
        }
    }
}

/// A body whose detected dialect carries an empty site array — an empty
/// `content`, `choices` or `candidates` — passes through with no hits:
/// no site exists, so nothing is recorded or rewritten.
pub proof fn lemma_empty_sites_passthrough(v: JsonView, rules: Seq<RuleV>, enforce: bool)
    ensures
        (spec_detect(v) == ApiProvider::Anthropic && jget_arr(v, "content"@) == Some(
            Seq::<JsonView>::empty(),
        )) ==> spec_intercept(v, rules, enforce) == (v, Seq::<InterceptResultV>::empty(), false),
        (spec_detect(v) == ApiProvider::OpenAI && jget_arr(v, "choices"@) == Some(
            Seq::<JsonView>::empty(),
        )) ==> spec_intercept(v, rules, enforce) == (v, Seq::<InterceptResultV>::empty(), false),
        (spec_detect(v) == ApiProvider::Gemini && jget_arr(v, "candidates"@) == Some(
            Seq::<JsonView>::empty(),
        )) ==> spec_intercept(v, rules, enforce) == (v, Seq::<InterceptResultV>::empty(), false),
        spec_detect(v) == ApiProvider::Unknown ==> spec_intercept(v, rules, enforce) == (
            v,
            Seq::<InterceptResultV>::empty(),
            false,
        ),
{
}

} // verus!
