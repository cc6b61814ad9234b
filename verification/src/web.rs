//! Data model of the control-plane API: request and response shapes, live
//! event payloads, and runtime counters. The HTTP server itself stays
//! outside the library.

use vstd::prelude::*;
use crate::model::RiskLevel;
use crate::rules::{Rule, RuleAction};

verus! {

/// Runtime event counters, per provider and in total.
pub struct EventCounters {
    /// Requests seen.
    pub total_requests: u64,
    /// Requests with a blocked site.
    pub blocked_count: u64,
    /// Requests with a warning-level hit.
    pub warning_count: u64,
    /// Requests that passed clean.
    pub passed_count: u64,
    /// Requests per provider name.
    pub by_provider: Vec<(String, u64)>,
}

impl Default for EventCounters {
    /// All counters start at zero.
    fn default() -> (r: Self)
        ensures
            r.total_requests == 0,
            r.blocked_count == 0,
            r.warning_count == 0,
            r.passed_count == 0,
            r.by_provider@.len() == 0,
    {
        EventCounters {
            total_requests: 0,
            blocked_count: 0,
            warning_count: 0,
            passed_count: 0,
            by_provider: Vec::new(),
        }
    }
}

/// An event broadcast to live UI clients.
pub enum WebEvent {
    /// A new action was observed.
    Action {
        /// Action id.
        id: String,
        /// Timestamp text.
        timestamp: String,
        /// Agent name.
        agent: String,
        /// Action kind name.
        action_type: String,
        /// Action content.
        content: String,
        /// Action target, when present.
        target: Option<String>,
    },
    /// A verdict was produced.
    Analysis {
        /// The action evaluated.
        action_id: String,
        /// Risk level name.
        risk_level: String,
        /// Names of matched rules.
        matched_rules: Vec<String>,
        /// Recommendation name.
        recommendation: String,
        /// Explanation text.
        explanation: String,
    },
    /// Connection status for a client.
    Status {
        /// Whether the daemon is connected.
        connected: bool,
        /// The agents being monitored.
        monitoring: Vec<String>,
    },
}

/// Daemon status.
pub struct StatusResponse {
    /// Whether the daemon runs.
    pub running: bool,
    /// The daemon version.
    pub version: String,
    /// Seconds since start.
    pub uptime_seconds: u64,
    /// The agents being monitored.
    pub monitoring: Vec<String>,
}

/// Aggregate statistics.
pub struct StatsResponse {
    /// Events seen in total.
    pub total_events: u64,
    /// Critical verdicts.
    pub critical_count: u64,
    /// Warning verdicts.
    pub warning_count: u64,
    /// Informational verdicts.
    pub info_count: u64,
    /// Events seen today.
    pub today_events: u64,
    /// Rules currently loaded.
    pub rules_count: usize,
    /// Requests with a blocked site.
    pub blocked_count: u64,
    /// Requests that passed clean.
    pub passed_count: u64,
}

/// Per-provider request counts.
pub struct ProviderStats {
    /// Provider name.
    pub provider: String,
    /// Requests seen for it.
    pub request_count: u64,
}

/// Filters of an event listing.
pub struct EventsQuery {
    /// Page size.
    pub limit: Option<u32>,
    /// Page offset.
    pub offset: Option<u32>,
    /// Risk-level filter.
    pub risk_level: Option<String>,
    /// Agent filter.
    pub agent: Option<String>,
    /// Provider filter.
    pub provider: Option<String>,
    /// Status filter.
    pub status: Option<String>,
}

/// One journaled event.
pub struct EventResponse {
    /// Action id.
    pub id: String,
    /// Timestamp text.
    pub timestamp: String,
    /// Agent name.
    pub agent: String,
    /// Action kind name.
    pub action_type: String,
    /// Action content.
    pub content: String,
    /// Action target, when present.
    pub target: Option<String>,
    /// Verdict risk level, when evaluated.
    pub risk_level: Option<String>,
    /// Matched rule names.
    pub matched_rules: Vec<String>,
    /// The provider the action came through.
    pub provider: Option<String>,
    /// Processing status.
    pub status: Option<String>,
}

/// A page of journaled events.
pub struct EventsResponse {
    /// The events of this page.
    pub events: Vec<EventResponse>,
    /// The total count.
    pub total: u64,
}

/// One rule, as the API reports it.
pub struct RuleResponse {
    /// Rule name.
    pub name: String,
    /// Rule description.
    pub description: String,
    /// Regex pattern.
    pub pattern: String,
    /// Risk level name.
    pub risk_level: String,
    /// Action name.
    pub action: String,
    /// Whether the rule is enabled.
    pub enabled: bool,
    /// Whether the rule ships with the harness.
    pub is_preset: bool,
}

/// The declaration name of a risk level.
pub open spec fn spec_risk_debug_name(r: RiskLevel) -> Seq<char> {
    match r {
        RiskLevel::Info => "Info"@,
        RiskLevel::Warning => "Warning"@,
        RiskLevel::Critical => "Critical"@,
    }
}

/// The declaration name of a rule action.
pub open spec fn spec_action_debug_name(a: RuleAction) -> Seq<char> {
    match a {
        RuleAction::LogOnly => "LogOnly"@,
        RuleAction::Alert => "Alert"@,
        RuleAction::PauseAndAsk => "PauseAndAsk"@,
        RuleAction::Block => "Block"@,
        RuleAction::CriticalAlert => "CriticalAlert"@,
    }
}

fn risk_debug_name(r: RiskLevel) -> (s: String)
    ensures
        s@ == spec_risk_debug_name(r),
{
    match r {
        RiskLevel::Info => String::from_str("Info"),
        RiskLevel::Warning => String::from_str("Warning"),
        RiskLevel::Critical => String::from_str("Critical"),
    }
}

fn action_debug_name(a: RuleAction) -> (s: String)
    ensures
        s@ == spec_action_debug_name(a),
{
    match a {
        RuleAction::LogOnly => String::from_str("LogOnly"),
        RuleAction::Alert => String::from_str("Alert"),
        RuleAction::PauseAndAsk => String::from_str("PauseAndAsk"),
        RuleAction::Block => String::from_str("Block"),
        RuleAction::CriticalAlert => String::from_str("CriticalAlert"),
    }
}

impl RuleResponse {
    /// Renders one rule for the API; a rule is a preset when its name is
    /// among the given preset names.
    pub fn from_rule(rule: &Rule, preset_names: &Vec<String>) -> (r: RuleResponse)
        ensures
            r.name@ == rule@.name,
            r.description@ == rule@.description,
            r.pattern@ == rule@.pattern,
            r.risk_level@ == spec_risk_debug_name(rule@.risk_level),
            r.action@ == spec_action_debug_name(rule@.action),
            r.enabled == rule@.enabled,
            r.is_preset == crate::brain::seen_contains(preset_names.deep_view(), rule@.name),
    {
        let enabled = rule.is_enabled();
        RuleResponse {
            name: rule.get_name().clone(),
            description: rule.get_description().clone(),
            pattern: rule.get_pattern().clone(),
            risk_level: risk_debug_name(rule.get_risk_level()),
            action: action_debug_name(rule.get_action()),
            enabled,
            is_preset: name_in(preset_names, rule.get_name().as_str()),
        }
    }
}

fn name_in(names: &Vec<String>, key: &str) -> (r: bool)
    ensures
        r == crate::brain::seen_contains(names.deep_view(), key@),
{
    let mut i: usize = 0;
    while i < names.len()
        invariant
            i <= names@.len(),
            forall|j: int| 0 <= j < i ==> names.deep_view()[j] != key@,
        decreases names@.len() - i,
    {
        if crate::text::str_eq(names[i].as_str(), key) {
            assert(names.deep_view()[i as int] == names@[i as int]@);
            return true;
        }
        assert(names.deep_view()[i as int] == names@[i as int]@);
        i = i + 1;
    }
    false
}

/// A rule creation request.
pub struct CreateRuleRequest {
    /// Rule name.
    pub name: String,
    /// Rule description.
    pub description: String,
    /// Regex pattern.
    pub pattern: String,
    /// Risk level name.
    pub risk_level: String,
    /// Action name.
    pub action: String,
    /// Whether the rule starts enabled.
    pub enabled: bool,
}

/// A rule update request; absent fields stay unchanged.
pub struct UpdateRuleRequest {
    /// New description.
    pub description: Option<String>,
    /// New pattern.
    pub pattern: Option<String>,
    /// New risk level name.
    pub risk_level: Option<String>,
    /// New action name.
    pub action: Option<String>,
    /// New enabled flag.
    pub enabled: Option<bool>,
}

/// A pattern test request.
pub struct TestRuleRequest {
    /// The pattern to try.
    pub pattern: String,
    /// The input to try it on.
    pub input: String,
}

/// The outcome of a pattern test.
pub struct TestRuleResponse {
    /// Whether the pattern matched.
    pub matches: bool,
    /// The matched text, when it did.
    pub matched_text: Option<String>,
}

/// Proxy status.
pub struct ProxyStatusResponse {
    /// Whether the proxy runs.
    pub running: bool,
    /// Mode name.
    pub mode: String,
    /// Listen address.
    pub listen: String,
    /// Upstream origin.
    pub target: String,
    /// Seconds since start.
    pub uptime_seconds: u64,
}

/// A proxy configuration update; absent fields stay unchanged.
pub struct UpdateProxyConfigRequest {
    /// New mode name.
    pub mode: Option<String>,
    /// New enabled flag.
    pub enabled: Option<bool>,
}

/// One provider entry of the provider listing.
pub struct ProviderResponse {
    /// Provider name.
    pub name: String,
    /// Whether it is enabled.
    pub enabled: bool,
    /// Its upstream origin.
    pub target_url: String,
}

/// The alert configuration, as the API reports it (tokens masked).
pub struct AlertConfigResponse {
    /// Whether Telegram alerts are on.
    pub telegram_enabled: bool,
    /// The masked bot token.
    pub telegram_bot_token: Option<String>,
    /// The chat id.
    pub telegram_chat_id: Option<String>,
    /// Whether Slack alerts are on.
    pub slack_enabled: bool,
    /// The Slack webhook.
    pub slack_webhook: Option<String>,
    /// Whether Discord alerts are on.
    pub discord_enabled: bool,
    /// The Discord webhook.
    pub discord_webhook: Option<String>,
    /// Whether critical verdicts alert.
    pub notify_on_critical: bool,
    /// Whether warning verdicts alert.
    pub notify_on_warning: bool,
    /// Whether informational verdicts alert.
    pub notify_on_info: bool,
}

/// The default for a rule's enabled flag in creation requests.
pub fn default_true() -> (r: bool)
    ensures
        r == true,
{
    true
}

/// Parses an action name, ASCII case-insensitively; unknown names map to
/// `LogOnly`.
pub open spec fn spec_parse_action(s: Seq<char>) -> RuleAction {
    let l = crate::text::lower_seq(s);
    if l == "criticalalert"@ || l == "critical_alert"@ {
        RuleAction::CriticalAlert
    } else if l == "pauseandask"@ || l == "pause_and_ask"@ {
        RuleAction::PauseAndAsk
    } else if l == "alert"@ {
        RuleAction::Alert
    } else {
        RuleAction::LogOnly
    }
}

/// Parses an action name from an API request.
pub fn parse_action(s: &str) -> (r: RuleAction)
    ensures
        r == spec_parse_action(s@),
{
    let l = crate::text::lower(s);
    if crate::text::str_eq(l.as_str(), "criticalalert") || crate::text::str_eq(
        l.as_str(),
        "critical_alert",
    ) {
        RuleAction::CriticalAlert
    } else if crate::text::str_eq(l.as_str(), "pauseandask") || crate::text::str_eq(
        l.as_str(),
        "pause_and_ask",
    ) {
        RuleAction::PauseAndAsk
    } else if crate::text::str_eq(l.as_str(), "alert") {
        RuleAction::Alert
    } else {
        RuleAction::LogOnly
    }
}

} // verus!
