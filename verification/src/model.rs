//! Core data model: agents, action kinds, risk levels, verdict types.

use vstd::prelude::*;

verus! {

/// Supported AI agents.
#[derive(Debug, Clone, Copy, PartialEq, Eq, Structural)]
pub enum AgentType {
    Moltbot,
    ClaudeCode,
    Cursor,
    Ralph,
    Unknown,
}

/// Types of actions agents can perform.
#[derive(Debug, Clone, Copy, PartialEq, Eq, Structural)]
pub enum ActionType {
    Exec,
    FileRead,
    FileWrite,
    FileDelete,
    HttpRequest,
    BrowserAction,
    MessageSend,
    GitOperation,
    Unknown,
}

/// Risk level of an action, totally ordered `Info < Warning < Critical`.
#[derive(Debug, Clone, Copy, PartialEq, Eq, Structural)]
pub enum RiskLevel {
    Info,
    Warning,
    Critical,
}

impl RiskLevel {
    /// Numeric rank used to compare risk levels.
    pub open spec fn rank(self) -> int {
        match self {
            RiskLevel::Info => 0,
            RiskLevel::Warning => 1,
            RiskLevel::Critical => 2,
        }
    }

    /// The greater of two risk levels under `Info < Warning < Critical`.
    pub open spec fn spec_max(self, other: RiskLevel) -> RiskLevel {
        if other.rank() > self.rank() {
            other
        } else {
            self
        }
    }

    /// Executable maximum; agrees with `spec_max`.
    pub fn max(self, other: RiskLevel) -> (r: RiskLevel)
        ensures
            r == self.spec_max(other),
    {
        match (self, other) {
            (RiskLevel::Critical, _) => RiskLevel::Critical,
            (_, RiskLevel::Critical) => RiskLevel::Critical,
            (RiskLevel::Warning, _) => RiskLevel::Warning,
            (_, RiskLevel::Warning) => RiskLevel::Warning,
            _ => RiskLevel::Info,
        }
    }
}

/// What to do with a risky action (verdict-level recommendation).
#[derive(Debug, Clone, Copy, PartialEq, Eq, Structural)]
pub enum Recommendation {
    LogOnly,
    Alert,
    PauseAndAsk,
    CriticalAlert,
}

impl Recommendation {
    /// Numeric rank; higher demands a stronger response.
    pub open spec fn rank(self) -> int {
        match self {
            Recommendation::LogOnly => 0,
            Recommendation::Alert => 1,
            Recommendation::PauseAndAsk => 2,
            Recommendation::CriticalAlert => 3,
        }
    }
}

/// One action performed by an AI agent, in normalized form. The timestamp is
/// RFC 3339 text supplied by the caller.
pub struct AgentAction {
    /// Unique identifier.
    pub id: String,
    /// Timestamp of the action, as RFC 3339 text.
    pub timestamp: String,
    /// Source agent.
    pub agent: AgentType,
    /// Kind of action.
    pub action_type: ActionType,
    /// Raw command or content.
    pub content: String,
    /// Target (file path, URL, recipient), when the kind has one.
    pub target: Option<String>,
    /// Session identifier, when known.
    pub session_id: Option<String>,
    /// Additional opaque metadata.
    pub metadata: Option<crate::json::Json>,
}

/// The mathematical shape of an action: what rule evaluation reads.
pub ghost struct ActionV {
    pub id: Seq<char>,
    pub timestamp: Seq<char>,
    pub agent: AgentType,
    pub action_type: ActionType,
    pub content: Seq<char>,
    pub target: Option<Seq<char>>,
    pub session_id: Option<Seq<char>>,
}

impl View for AgentAction {
    type V = ActionV;

    open spec fn view(&self) -> ActionV {
        ActionV {
            id: self.id@,
            timestamp: self.timestamp@,
            agent: self.agent,
            action_type: self.action_type,
            content: self.content@,
            target: self.target.deep_view(),
            session_id: self.session_id.deep_view(),
        }
    }
}

impl AgentAction {
    /// A copy of this action; every field, the metadata included, is
    /// preserved exactly.
    pub fn duplicate(&self) -> (r: AgentAction)
        ensures
            r@ == self@,
            r.metadata.deep_view() == self.metadata.deep_view(),
    {
        let target: Option<String> = match &self.target {
            Some(t) => Some(t.clone()),
            None => None,
        };
        let session_id: Option<String> = match &self.session_id {
            Some(s) => Some(s.clone()),
            None => None,
        };
        let metadata: Option<crate::json::Json> = match &self.metadata {
            Some(m) => Some(crate::json::json_clone(m)),
            None => None,
        };
        let r = AgentAction {
            id: self.id.clone(),
            timestamp: self.timestamp.clone(),
            agent: self.agent,
            action_type: self.action_type,
            content: self.content.clone(),
            target,
            session_id,
            metadata,
        };
        assert(r@.target =~= self@.target);
        assert(r@.session_id =~= self@.session_id);
        assert(r.metadata.deep_view() =~= self.metadata.deep_view());
        r
    }
}

/// The verdict of rule evaluation on one action.
pub struct AnalysisResult {
    /// The analyzed action.
    pub action: AgentAction,
    /// Names of the rules that matched, in rule order.
    pub matched_rules: Vec<String>,
    /// The maximum risk level over the matched rules.
    pub risk_level: RiskLevel,
    /// The recommendation joined from the matched rules' actions.
    pub recommendation: Recommendation,
    /// Human-readable explanation.
    pub explanation: String,
}

/// Parses an agent name, ASCII case-insensitively; unknown names map to
/// `Unknown`.
pub open spec fn spec_parse_agent_type(s: Seq<char>) -> AgentType {
    let l = crate::text::lower_seq(s);
    if l == "moltbot"@ {
        AgentType::Moltbot
    } else if l == "claude_code"@ {
        AgentType::ClaudeCode
    } else if l == "cursor"@ {
        AgentType::Cursor
    } else if l == "ralph"@ {
        AgentType::Ralph
    } else {
        AgentType::Unknown
    }
}

/// Parses an agent name as stored in the journal.
pub fn parse_agent_type(s: &str) -> (r: AgentType)
    ensures
        r == spec_parse_agent_type(s@),
{
    let l = crate::text::lower(s);
    if crate::text::str_eq(l.as_str(), "moltbot") {
        AgentType::Moltbot
    } else if crate::text::str_eq(l.as_str(), "claude_code") {
        AgentType::ClaudeCode
    } else if crate::text::str_eq(l.as_str(), "cursor") {
        AgentType::Cursor
    } else if crate::text::str_eq(l.as_str(), "ralph") {
        AgentType::Ralph
    } else {
        AgentType::Unknown
    }
}

/// Parses an action-kind name, case-sensitively; unknown names map to
/// `Unknown`.
pub open spec fn spec_parse_action_type(s: Seq<char>) -> ActionType {
    if s == "Exec"@ {
        ActionType::Exec
    } else if s == "FileRead"@ {
        ActionType::FileRead
    } else if s == "FileWrite"@ {
        ActionType::FileWrite
    } else if s == "FileDelete"@ {
        ActionType::FileDelete
    } else if s == "HttpRequest"@ {
        ActionType::HttpRequest
    } else if s == "BrowserAction"@ {
        ActionType::BrowserAction
    } else if s == "MessageSend"@ {
        ActionType::MessageSend
    } else if s == "GitOperation"@ {
        ActionType::GitOperation
    } else {
        ActionType::Unknown
    }
}

/// Parses an action-kind name as stored in the journal.
pub fn parse_action_type(s: &str) -> (r: ActionType)
    ensures
        r == spec_parse_action_type(s@),
{
    if crate::text::str_eq(s, "Exec") {
        ActionType::Exec
    } else if crate::text::str_eq(s, "FileRead") {
        ActionType::FileRead
    } else if crate::text::str_eq(s, "FileWrite") {
        ActionType::FileWrite
    } else if crate::text::str_eq(s, "FileDelete") {
        ActionType::FileDelete
    } else if crate::text::str_eq(s, "HttpRequest") {
        ActionType::HttpRequest
    } else if crate::text::str_eq(s, "BrowserAction") {
        ActionType::BrowserAction
    } else if crate::text::str_eq(s, "MessageSend") {
        ActionType::MessageSend
    } else if crate::text::str_eq(s, "GitOperation") {
        ActionType::GitOperation
    } else {
        ActionType::Unknown
    }
}

/// Parses a risk-level name, ASCII case-insensitively; unknown names map
/// to `Info`.
pub open spec fn spec_parse_risk_level(s: Seq<char>) -> RiskLevel {
    let l = crate::text::lower_seq(s);
    if l == "critical"@ {
        RiskLevel::Critical
    } else if l == "warning"@ {
        RiskLevel::Warning
    } else {
        RiskLevel::Info
    }
}

/// Parses a risk-level name.
pub fn parse_risk_level(s: &str) -> (r: RiskLevel)
    ensures
        r == spec_parse_risk_level(s@),
{
    let l = crate::text::lower(s);
    if crate::text::str_eq(l.as_str(), "critical") {
        RiskLevel::Critical
    } else if crate::text::str_eq(l.as_str(), "warning") {
        RiskLevel::Warning
    } else {
        RiskLevel::Info
    }
}

/// The display name of an agent.
pub open spec fn spec_agent_name(a: AgentType) -> Seq<char> {
    match a {
        AgentType::Moltbot => "moltbot"@,
        AgentType::ClaudeCode => "claude_code"@,
        AgentType::Cursor => "cursor"@,
        AgentType::Ralph => "ralph"@,
        AgentType::Unknown => "unknown"@,
    }
}

/// The display name of an agent, as the journal stores it.
pub fn agent_name(a: AgentType) -> (r: String)
    ensures
        r@ == spec_agent_name(a),
{
    match a {
        AgentType::Moltbot => String::from_str("moltbot"),
        AgentType::ClaudeCode => String::from_str("claude_code"),
        AgentType::Cursor => String::from_str("cursor"),
        AgentType::Ralph => String::from_str("ralph"),
        AgentType::Unknown => String::from_str("unknown"),
    }
}

/// The display name of an action kind.
pub open spec fn spec_action_type_name(a: ActionType) -> Seq<char> {
    match a {
        ActionType::Exec => "exec"@,
        ActionType::FileRead => "read"@,
        ActionType::FileWrite => "write"@,
        ActionType::FileDelete => "delete"@,
        ActionType::HttpRequest => "http"@,
        ActionType::BrowserAction => "browser"@,
        ActionType::MessageSend => "message"@,
        ActionType::GitOperation => "git"@,
        ActionType::Unknown => "unknown"@,
    }
}

/// The display name of an action kind.
pub fn action_type_name(a: ActionType) -> (r: String)
    ensures
        r@ == spec_action_type_name(a),
{
    match a {
        ActionType::Exec => String::from_str("exec"),
        ActionType::FileRead => String::from_str("read"),
        ActionType::FileWrite => String::from_str("write"),
        ActionType::FileDelete => String::from_str("delete"),
        ActionType::HttpRequest => String::from_str("http"),
        ActionType::BrowserAction => String::from_str("browser"),
        ActionType::MessageSend => String::from_str("message"),
        ActionType::GitOperation => String::from_str("git"),
        ActionType::Unknown => String::from_str("unknown"),
    }
}

/// The display name of a risk level.
pub open spec fn spec_risk_level_name(r: RiskLevel) -> Seq<char> {
    match r {
        RiskLevel::Info => "INFO"@,
        RiskLevel::Warning => "WARNING"@,
        RiskLevel::Critical => "CRITICAL"@,
    }
}

/// The display name of a risk level.
pub fn risk_level_name(r: RiskLevel) -> (s: String)
    ensures
        s@ == spec_risk_level_name(r),
{
    match r {
        RiskLevel::Info => String::from_str("INFO"),
        RiskLevel::Warning => String::from_str("WARNING"),
        RiskLevel::Critical => String::from_str("CRITICAL"),
    }
}

/// Daemon configuration.
pub struct Config {
    /// Which collectors run.
    pub collectors: CollectorConfig,
    /// Where alerts go.
    pub alerts: AlertConfig,
    /// Where the journal lives.
    pub db_path: String,
    /// How many days of journal to keep.
    pub log_retention_days: u32,
}

/// Which collectors are enabled.
pub struct CollectorConfig {
    /// Watch Moltbot session logs.
    pub moltbot: bool,
    /// Watch claude_code session logs.
    pub claude_code: bool,
    /// Watch Cursor logs.
    pub cursor: bool,
}

/// Alert transport configuration.
pub struct AlertConfig {
    /// Telegram transport, when configured.
    pub telegram: Option<TelegramConfig>,
    /// Slack transport, when configured.
    pub slack: Option<SlackConfig>,
    /// Discord transport, when configured.
    pub discord: Option<DiscordConfig>,
}

/// Telegram alert transport.
pub struct TelegramConfig {
    /// The bot token.
    pub bot_token: String,
    /// The chat to post to.
    pub chat_id: String,
}

/// Slack alert transport.
pub struct SlackConfig {
    /// The webhook to post to.
    pub webhook_url: String,
}

/// Discord alert transport.
pub struct DiscordConfig {
    /// The webhook to post to.
    pub webhook_url: String,
}

impl Default for Config {
    /// Moltbot and claude_code collectors on, no alert transports, the
    /// journal under the harness's home directory, thirty days retention.
    fn default() -> (r: Self)
        ensures
            r.collectors.moltbot == true,
            r.collectors.claude_code == true,
            r.collectors.cursor == false,
            r.alerts.telegram is None,
            r.alerts.slack is None,
            r.alerts.discord is None,
            r.db_path@ == "~/.moltbot-harness/moltbot-harness.db"@,
            r.log_retention_days == 30,
    {
        Config {
            collectors: CollectorConfig { moltbot: true, claude_code: true, cursor: false },
            alerts: AlertConfig { telegram: None, slack: None, discord: None },
            db_path: String::from_str("~/.moltbot-harness/moltbot-harness.db"),
            log_retention_days: 30,
        }
    }
}

/// Journal statistics.
pub struct Stats {
    /// Actions journaled in total.
    pub total_actions: i64,
    /// Actions with a critical verdict.
    pub blocked: i64,
    /// Actions with a warning verdict.
    pub warnings: i64,
}

/// A token with all but its first and last four characters masked; short
/// tokens are masked entirely.
pub open spec fn spec_mask_token(s: Seq<char>) -> Seq<char> {
    if s.len() <= 8 {
        "****"@
    } else {
        s.subrange(0, 4) + "****"@ + s.subrange(s.len() - 4, s.len() as int)
    }
}

/// Masks a secret for display.
pub fn mask_token(token: &str) -> (r: String)
    ensures
        r@ == spec_mask_token(token@),
{
    let n = token.unicode_len();
    if n <= 8 {
        String::from_str("****")
    } else {
        let mut out = String::from_str(token.substring_char(0, 4));
        out.append("****");
        out.append(token.substring_char(n - 4, n));
        out
    }
}

} // verus!
