//! The normalizer: maps a provider-specific tool call `(name, arguments)` to
//! a canonical `(kind, content, target)` triple, ASCII case-insensitively in
//! the tool name (the catalogued tool names are ASCII identifiers).

use vstd::prelude::*;
use crate::json::{Json, JsonView, jget_str, ser_json};
use crate::model::ActionType;
use crate::text::{lower, lower_seq, str_eq};

verus! {

/// A string-valued argument looked up under a primary and a fallback key.
pub open spec fn arg2(v: JsonView, k1: Seq<char>, k2: Seq<char>) -> Seq<char> {
    match jget_str(v, k1) {
        Some(s) => s,
        None => match jget_str(v, k2) {
            Some(s) => s,
            None => Seq::empty(),
        },
    }
}

/// A string-valued argument, or empty when absent or not a string.
pub open spec fn arg1(v: JsonView, k: Seq<char>) -> Seq<char> {
    arg2(v, k, k)
}

/// The normalized `(kind, content, target)` of a tool call.
pub open spec fn spec_normalize(name: Seq<char>, args: JsonView) -> (
    ActionType,
    Seq<char>,
    Option<Seq<char>>,
) {
    let n = lower_seq(name);
    if n == "exec"@ {
        (ActionType::Exec, arg1(args, "command"@), None)
    } else if n == "read"@ {
        let path = arg2(args, "path"@, "file_path"@);
        (ActionType::FileRead, "read "@ + path, Some(path))
    } else if n == "write"@ {
        let path = arg2(args, "path"@, "file_path"@);
        (ActionType::FileWrite, arg1(args, "content"@), Some(path))
    } else if n == "edit"@ {
        let path = arg2(args, "path"@, "file_path"@);
        let old_text = arg2(args, "oldText"@, "old_string"@);
        let new_text = arg2(args, "newText"@, "new_string"@);
        (ActionType::FileWrite, old_text + " -> "@ + new_text, Some(path))
    } else if n == "web_fetch"@ {
        let url = arg1(args, "url"@);
        (ActionType::HttpRequest, "fetch "@ + url, Some(url))
    } else if n == "web_search"@ {
        (ActionType::HttpRequest, "search: "@ + arg1(args, "query"@), None)
    } else if n == "browser"@ {
        (ActionType::BrowserAction, "browser:"@ + arg1(args, "action"@), Some(arg1(args, "targetUrl"@)))
    } else if n == "message"@ {
        (ActionType::MessageSend, arg1(args, "message"@), Some(arg1(args, "target"@)))
    } else {
        (ActionType::Unknown, ser_json(args), None)
    }
}

/// Looks up a string argument under a primary and a fallback key.
fn get_arg2(args: &Json, k1: &str, k2: &str) -> (r: String)
    ensures
        r@ == arg2(args@, k1@, k2@),
{
    match crate::json::obj_get_str(args, k1) {
        Some(s) => s.clone(),
        None => match crate::json::obj_get_str(args, k2) {
            Some(s) => s.clone(),
            None => {
                let r = String::new();
                proof {
                    assert(r@ =~= Seq::<char>::empty());
                }
                r
            },
        },
    }
}

/// Looks up a string argument.
fn get_arg1(args: &Json, k: &str) -> (r: String)
    ensures
        r@ == arg1(args@, k@),
{
    get_arg2(args, k, k)
}

/// Normalizes one tool call into the canonical `(kind, content, target)`
/// triple. The tool name is matched case-insensitively; unknown tools map to
/// `Unknown` with the serialized arguments as content.
pub fn normalize_tool_call(name: &str, args: &Json) -> (r: (
    ActionType,
    String,
    Option<String>,
))
    ensures
        r.0 == spec_normalize(name@, args@).0,
        r.1@ == spec_normalize(name@, args@).1,
        r.2.deep_view() == spec_normalize(name@, args@).2,
{
    let n = lower(name);
    if str_eq(n.as_str(), "exec") {
        (ActionType::Exec, get_arg1(args, "command"), None)
    } else if str_eq(n.as_str(), "read") {
        let path = get_arg2(args, "path", "file_path");
        let mut content = String::from_str("read ");
        content.append(path.as_str());
        (ActionType::FileRead, content, Some(path))
    } else if str_eq(n.as_str(), "write") {
        let path = get_arg2(args, "path", "file_path");
        (ActionType::FileWrite, get_arg1(args, "content"), Some(path))
    } else if str_eq(n.as_str(), "edit") {
        let path = get_arg2(args, "path", "file_path");
        let old_text = get_arg2(args, "oldText", "old_string");
        let new_text = get_arg2(args, "newText", "new_string");
        let mut content = old_text;
        content.append(" -> ");
        content.append(new_text.as_str());
        (ActionType::FileWrite, content, Some(path))
    } else if str_eq(n.as_str(), "web_fetch") {
        let url = get_arg1(args, "url");
        let mut content = String::from_str("fetch ");
        content.append(url.as_str());
        (ActionType::HttpRequest, content, Some(url))
    } else if str_eq(n.as_str(), "web_search") {
        let mut content = String::from_str("search: ");
        let q = get_arg1(args, "query");
        content.append(q.as_str());
        (ActionType::HttpRequest, content, None)
    } else if str_eq(n.as_str(), "browser") {
        let mut content = String::from_str("browser:");
        let act = get_arg1(args, "action");
        content.append(act.as_str());
        (ActionType::BrowserAction, content, Some(get_arg1(args, "targetUrl")))
    } else if str_eq(n.as_str(), "message") {
        (ActionType::MessageSend, get_arg1(args, "message"), Some(get_arg1(args, "target")))
    } else {
        (ActionType::Unknown, crate::json::json_to_string(args), None)
    }
}

/// Tool names that differ only in case normalize identically: the normalized
/// triple depends on the case-folded name alone.
pub proof fn lemma_normalize_case_insensitive(n1: Seq<char>, n2: Seq<char>, args: JsonView)
    requires
        lower_seq(n1) == lower_seq(n2),
    ensures
        spec_normalize(n1, args) == spec_normalize(n2, args),
{
}

} // verus!
