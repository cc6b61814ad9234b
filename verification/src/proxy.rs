//! Proxy configuration: where to listen, where to forward, and whether to
//! enforce or only monitor.

use vstd::prelude::*;

verus! {

/// Whether the proxy rewrites blocked actions or only records them.
#[derive(Debug, Clone, Copy, PartialEq, Eq, Structural)]
pub enum ProxyMode {
    /// Log only; everything passes through.
    Monitor,
    /// Blocked tool calls are rewritten.
    Enforce,
}

/// Proxy configuration.
pub struct ProxyConfig {
    /// Whether the proxy runs at all.
    pub enabled: bool,
    /// The listen address, as `host:port`.
    pub listen: String,
    /// The upstream origin.
    pub target: String,
    /// Monitor or enforce.
    pub mode: ProxyMode,
    /// Whether streaming interception is on.
    pub streaming: bool,
}

/// The default for `enabled`.
pub fn default_enabled() -> (r: bool)
    ensures
        r == true,
{
    true
}

/// The default listen address.
pub fn default_listen() -> (r: String)
    ensures
        r@ == "127.0.0.1:9090"@,
{
    String::from_str("127.0.0.1:9090")
}

/// The default upstream origin.
pub fn default_target() -> (r: String)
    ensures
        r@ == "https://api.anthropic.com"@,
{
    String::from_str("https://api.anthropic.com")
}

/// The default mode.
pub fn default_mode() -> (r: ProxyMode)
    ensures
        r == ProxyMode::Enforce,
{
    ProxyMode::Enforce
}

/// Whether a response is inspected: the request was a POST whose path
/// names one of the three known completion endpoints.
pub open spec fn spec_inspectable(method: Seq<char>, path: Seq<char>) -> bool {
    method == "POST"@ && (crate::text::has_sub(path, "/v1/messages"@) || crate::text::has_sub(
        path,
        "/v1/chat/completions"@,
    ) || crate::text::has_sub(path, "generateContent"@))
}

/// Decides whether a proxied response is inspected at all.
pub fn is_inspectable(method: &str, path: &str) -> (r: bool)
    ensures
        r == spec_inspectable(method@, path@),
{
    crate::text::str_eq(method, "POST") && (crate::text::str_contains(path, "/v1/messages")
        || crate::text::str_contains(path, "/v1/chat/completions") || crate::text::str_contains(
        path,
        "generateContent",
    ))
}

/// Whether a response is treated as streaming: its content type mentions
/// server-sent events.
pub fn is_streaming_content_type(content_type: &str) -> (r: bool)
    ensures
        r == crate::text::has_sub(content_type@, "text/event-stream"@),
{
    crate::text::str_contains(content_type, "text/event-stream")
}

impl Default for ProxyConfig {
    /// Enabled, listening locally, forwarding to the Anthropic API, in
    /// enforce mode, without streaming interception.
    fn default() -> (r: Self)
        ensures
            r.enabled == true,
            r.listen@ == "127.0.0.1:9090"@,
            r.target@ == "https://api.anthropic.com"@,
            r.mode == ProxyMode::Enforce,
            r.streaming == false,
    {
        ProxyConfig {
            enabled: default_enabled(),
            listen: default_listen(),
            target: default_target(),
            mode: default_mode(),
            streaming: false,
        }
    }
}

} // verus!
