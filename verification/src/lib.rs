//! Interposing security harness for AI coding agents.
//!
//! The library inspects tool-invocation requests produced by an LLM,
//! evaluates them against a rule set, and rewrites or blocks the dangerous
//! ones, both in complete JSON response bodies and in live SSE streams.

pub mod analyzer;
pub mod brain;
pub mod campaign;
pub mod collectors;
pub mod enforcer;
pub mod interceptor;
pub mod json;
pub mod model;
pub mod normalize;
pub mod patcher;
pub mod pattern;
pub mod proxy;
pub mod rules;
pub mod sse;
pub mod streaming;
pub mod templates;
pub mod text;
pub mod web;

use vstd::prelude::*;

verus! {

} // verus!
