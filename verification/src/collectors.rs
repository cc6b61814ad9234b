//! Log collectors' data model: where each agent's session logs live. The
//! watching loops themselves perform file I/O and stay outside the
//! library, which also supplies the concrete directories.

use vstd::prelude::*;

verus! {

/// Collector for claude_code session logs.
pub struct ClaudeCodeCollector {
    /// The watched log directory.
    pub log_dir: String,
}

impl ClaudeCodeCollector {
    /// Points at the given log directory.
    pub fn new(log_dir: String) -> (r: ClaudeCodeCollector)
        ensures
            r.log_dir@ == log_dir@,
    {
        ClaudeCodeCollector { log_dir }
    }

    /// The collector's name.
    pub fn name(&self) -> (r: &'static str)
        ensures
            r@ == "claude_code"@,
    {
        "claude_code"
    }
}

/// Collector for Cursor IDE logs.
pub struct CursorCollector {
    /// The watched log directory.
    pub log_dir: String,
}

impl CursorCollector {
    /// Points at the given log directory.
    pub fn new(log_dir: String) -> (r: CursorCollector)
        ensures
            r.log_dir@ == log_dir@,
    {
        CursorCollector { log_dir }
    }

    /// The collector's name.
    pub fn name(&self) -> (r: &'static str)
        ensures
            r@ == "cursor"@,
    {
        "cursor"
    }
}

} // verus!
