//! Trusted bindings to the regex and glob crates.
//!
//! A compiled `regex::Regex` or `glob::Pattern` is opaque here; each value is
//! tied to the pattern text it was compiled from, and matching is a named
//! function of that text and the haystack alone.

use vstd::prelude::*;

verus! {

/// Declares the regex crate's compiled pattern type so that rules can hold
/// one; values of it are opaque here and tied to their pattern text.
#[verifier::external_type_specification]
#[verifier::external_body]
pub struct ExRegex(regex::Regex);

/// Whether `regex::Regex::new` accepts a pattern; acceptance depends on the
/// pattern text alone.
pub uninterp spec fn regex_ok(pat: Seq<char>) -> bool;

/// The pattern text a compiled `regex::Regex` holds (what `Regex::as_str`
/// returns).
pub uninterp spec fn regex_source(re: regex::Regex) -> Seq<char>;

/// What `regex::Regex::is_match` returns for a pattern and a haystack; the
/// result depends on the two texts alone.
pub uninterp spec fn regex_match(pat: Seq<char>, text: Seq<char>) -> bool;

/// Relies on regex::Regex::new: compilation succeeds or fails on the pattern
/// text alone, and the compiled value matches according to that text.
#[verifier::external_body]
pub fn regex_new(pat: &str) -> (r: Option<regex::Regex>)
    ensures
        r is Some <==> regex_ok(pat@),
        r is Some ==> regex_source(r.unwrap()) == pat@,
{
    regex::Regex::new(pat).ok()
}

/// Relies on regex::Regex::is_match: true iff the compiled pattern matches
/// anywhere in the haystack; deterministic in the pattern and haystack texts.
#[verifier::external_body]
pub fn regex_is_match(re: &regex::Regex, text: &str) -> (r: bool)
    ensures
        r == regex_match(regex_source(*re), text@),
{
    re.is_match(text)
}

/// Declares the glob crate's compiled pattern type so that rules can hold
/// one; values of it are opaque here and tied to their pattern text.
#[verifier::external_type_specification]
#[verifier::external_body]
pub struct ExGlobPattern(glob::Pattern);

/// Whether `glob::Pattern::new` accepts a pattern; acceptance depends on the
/// pattern text alone.
pub uninterp spec fn glob_ok(pat: Seq<char>) -> bool;

/// The pattern text a compiled `glob::Pattern` was built from (what
/// `Pattern::as_str` returns).
pub uninterp spec fn glob_source(p: glob::Pattern) -> Seq<char>;

/// What `glob::Pattern::matches` returns for a pattern and a text; the result
/// depends on the two texts alone.
pub uninterp spec fn glob_match(pat: Seq<char>, text: Seq<char>) -> bool;

/// Relies on glob::Pattern::new: compilation succeeds or fails on the pattern
/// text alone, and the compiled value matches according to that text.
#[verifier::external_body]
pub fn glob_new(pat: &str) -> (r: Option<glob::Pattern>)
    ensures
        r is Some <==> glob_ok(pat@),
        r is Some ==> glob_source(r.unwrap()) == pat@,
{
    glob::Pattern::new(pat).ok()
}

/// Relies on glob::Pattern::matches: true iff the shell-style pattern matches
/// the whole text; deterministic in the pattern and the text.
#[verifier::external_body]
pub fn glob_is_match(p: &glob::Pattern, text: &str) -> (r: bool)
    ensures
        r == glob_match(glob_source(*p), text@),
{
    p.matches(text)
}

/// A regex meta character, as the regex crate defines the set.
pub open spec fn is_meta_char(c: char) -> bool {
    c == '\\' || c == '.' || c == '+' || c == '*' || c == '?' || c == '(' || c == ')' || c
        == '|' || c == '[' || c == ']' || c == '{' || c == '}' || c == '^' || c == '$' || c
        == '#' || c == '&' || c == '-' || c == '~'
}

/// The regex-literal escape of a text: every meta character is preceded by a
/// backslash, as `regex::escape` produces it.
pub open spec fn spec_escape_regex(s: Seq<char>) -> Seq<char>
    decreases s.len(),
{
    if s.len() == 0 {
        Seq::empty()
    } else {
        spec_escape_regex(s.drop_last()) + (if is_meta_char(s.last()) {
            seq!['\\', s.last()]
        } else {
            seq![s.last()]
        })
    }
}

/// Escapes a text so that it matches itself literally in a regex.
pub fn escape_for_regex(s: &str) -> (r: String)
    ensures
        r@ == spec_escape_regex(s@),
{
    let n = s.unicode_len();
    let mut out = String::new();
    let mut i: usize = 0;
    assert(out@ =~= spec_escape_regex(s@.take(0)));
    while i < n
        invariant
            n == s@.len(),
            i <= n,
            out@ == spec_escape_regex(s@.take(i as int)),
        decreases n - i,
    {
        let c = s.get_char(i);
        let meta = c == '\\' || c == '.' || c == '+' || c == '*' || c == '?' || c == '(' || c
            == ')' || c == '|' || c == '[' || c == ']' || c == '{' || c == '}' || c == '^' || c
            == '$' || c == '#' || c == '&' || c == '-' || c == '~';
        if meta {
            crate::text::push_char(&mut out, '\\');
        }
        crate::text::push_char(&mut out, c);
        proof {
            assert(s@.take(i + 1).drop_last() =~= s@.take(i as int));
            assert(s@.take(i + 1).last() == s@[i as int]);
            assert(out@ =~= spec_escape_regex(s@.take(i + 1)));
        }
        i = i + 1;
    }
    assert(s@.take(n as int) =~= s@);
    out
}

} // verus!
