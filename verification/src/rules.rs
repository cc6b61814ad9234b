//! Rule definitions and matching: regex rules, keyword rules and template
//! rules, compiled once and evaluated against normalized actions.

use vstd::prelude::*;
use crate::model::{ActionType, AgentAction, ActionV, RiskLevel};
use crate::pattern::{
    glob_match,
    glob_new,
    glob_is_match,
    glob_ok,
    glob_source,
    regex_match,
    regex_new,
    regex_is_match,
    regex_ok,
    regex_source,
};
use crate::templates::{spec_expand, spec_kind_of_name, get_template_definition};
use crate::text::{has_sub, lower_of, sub_at};

verus! {

/// Match type for a rule.
#[derive(Debug, Clone, Copy, PartialEq, Eq, Structural)]
pub enum MatchType {
    Regex,
    Keyword,
    Template,
}

impl Default for MatchType {
    /// The default match type is `Regex`.
    fn default() -> (r: Self)
        ensures
            r == MatchType::Regex,
    {
        MatchType::Regex
    }
}

/// What to do when a rule matches.
#[derive(Debug, Clone, Copy, PartialEq, Eq, Structural)]
pub enum RuleAction {
    LogOnly,
    Alert,
    PauseAndAsk,
    Block,
    CriticalAlert,
}

impl Default for RuleAction {
    /// The default rule action is `Alert`.
    fn default() -> (r: Self)
        ensures
            r == RuleAction::Alert,
    {
        RuleAction::Alert
    }
}

/// Keyword matching configuration. A rule matches iff every non-empty
/// predicate among the five is satisfied; with all five empty it never
/// matches.
pub struct KeywordMatch {
    /// All of these must be present (case-insensitive).
    pub contains: Vec<String>,
    /// The content must start with one of these.
    pub starts_with: Vec<String>,
    /// The content must end with one of these.
    pub ends_with: Vec<String>,
    /// At least one must match content, target, or their concatenation.
    pub glob: Vec<String>,
    /// At least one of these must be present (case-insensitive).
    pub any_of: Vec<String>,
}

/// The mathematical shape of a keyword configuration.
pub ghost struct KeywordMatchV {
    pub contains: Seq<Seq<char>>,
    pub starts_with: Seq<Seq<char>>,
    pub ends_with: Seq<Seq<char>>,
    pub glob: Seq<Seq<char>>,
    pub any_of: Seq<Seq<char>>,
}

impl View for KeywordMatch {
    type V = KeywordMatchV;

    open spec fn view(&self) -> KeywordMatchV {
        KeywordMatchV {
            contains: self.contains.deep_view(),
            starts_with: self.starts_with.deep_view(),
            ends_with: self.ends_with.deep_view(),
            glob: self.glob.deep_view(),
            any_of: self.any_of.deep_view(),
        }
    }
}

impl Default for KeywordMatch {
    /// All five predicates start empty.
    fn default() -> (r: Self)
        ensures
            r@.contains.len() == 0,
            r@.starts_with.len() == 0,
            r@.ends_with.len() == 0,
            r@.glob.len() == 0,
            r@.any_of.len() == 0,
    {
        KeywordMatch {
            contains: Vec::new(),
            starts_with: Vec::new(),
            ends_with: Vec::new(),
            glob: Vec::new(),
            any_of: Vec::new(),
        }
    }
}

/// Parameters of a template rule.
pub struct TemplateParams {
    /// Path to protect or block.
    pub path: Option<String>,
    /// Several such paths.
    pub paths: Vec<String>,
    /// Operations to block (read, write, delete).
    pub operations: Vec<String>,
    /// Commands to block.
    pub commands: Vec<String>,
    /// User-supplied patterns.
    pub patterns: Vec<String>,
    /// Extra key-value parameters.
    pub extra: Vec<(String, String)>,
}

/// The mathematical shape of template parameters.
pub ghost struct TemplateParamsV {
    pub path: Option<Seq<char>>,
    pub paths: Seq<Seq<char>>,
    pub operations: Seq<Seq<char>>,
    pub commands: Seq<Seq<char>>,
    pub patterns: Seq<Seq<char>>,
    pub extra: Seq<(Seq<char>, Seq<char>)>,
}

impl View for TemplateParams {
    type V = TemplateParamsV;

    open spec fn view(&self) -> TemplateParamsV {
        TemplateParamsV {
            path: self.path.deep_view(),
            paths: self.paths.deep_view(),
            operations: self.operations.deep_view(),
            commands: self.commands.deep_view(),
            patterns: self.patterns.deep_view(),
            extra: self.extra.deep_view(),
        }
    }
}

impl Default for TemplateParams {
    /// All parameters start empty.
    fn default() -> (r: Self)
        ensures
            r@ == params_or_default(None),
    {
        let r = TemplateParams {
            path: None,
            paths: Vec::new(),
            operations: Vec::new(),
            commands: Vec::new(),
            patterns: Vec::new(),
            extra: Vec::new(),
        };
        proof {
            assert(r@.paths =~= Seq::<Seq<char>>::empty());
            assert(r@.operations =~= Seq::<Seq<char>>::empty());
            assert(r@.commands =~= Seq::<Seq<char>>::empty());
            assert(r@.patterns =~= Seq::<Seq<char>>::empty());
            assert(r@.extra =~= Seq::<(Seq<char>, Seq<char>)>::empty());
        }
        r
    }
}

impl DeepView for KeywordMatch {
    type V = KeywordMatchV;

    open spec fn deep_view(&self) -> KeywordMatchV {
        self.view()
    }
}

impl DeepView for TemplateParams {
    type V = TemplateParamsV;

    open spec fn deep_view(&self) -> TemplateParamsV {
        self.view()
    }
}

/// The parameters a template rule uses: the given ones, or all-empty ones.
pub open spec fn params_or_default(p: Option<TemplateParamsV>) -> TemplateParamsV {
    match p {
        Some(v) => v,
        None => TemplateParamsV {
            path: None,
            paths: Seq::empty(),
            operations: Seq::empty(),
            commands: Seq::empty(),
            patterns: Seq::empty(),
            extra: Seq::empty(),
        },
    }
}

/// An error raised when a rule cannot be compiled.
#[derive(Debug, Clone, Copy, PartialEq, Eq, Structural)]
pub enum RuleError {
    /// The rule's regex pattern is invalid.
    InvalidRegex,
}

/// A security rule: a named match specification with a risk level and an
/// action. The compiled regex and glob artifacts are private side state,
/// never serialized, and tied to the declarative fields by `wf`.
pub struct Rule {
    /// Rule name, unique within a rule set.
    pub name: String,
    /// Human-readable description.
    pub description: String,
    /// How the rule matches.
    pub match_type: MatchType,
    /// Pattern (for regex rules).
    pub pattern: String,
    /// Keyword configuration (for keyword rules).
    pub keyword: Option<KeywordMatch>,
    /// Template name (for template rules).
    pub template: Option<String>,
    /// Template parameters.
    pub params: Option<TemplateParams>,
    /// Action kinds this rule applies to; empty means all.
    pub applies_to: Vec<ActionType>,
    /// Risk level when matched.
    pub risk_level: RiskLevel,
    /// What to do when matched.
    pub action: RuleAction,
    /// Whether the rule is evaluated at all.
    pub enabled: bool,
    /// A protected rule cannot be disabled or removed by configuration.
    pub protected: bool,
    compiled_pattern: Option<regex::Regex>,
    compiled_globs: Vec<glob::Pattern>,
    expanded_patterns: Vec<regex::Regex>,
}

/// The declarative content of a rule.
pub ghost struct RuleV {
    pub name: Seq<char>,
    pub description: Seq<char>,
    pub match_type: MatchType,
    pub pattern: Seq<char>,
    pub keyword: Option<KeywordMatchV>,
    pub template: Option<Seq<char>>,
    pub params: Option<TemplateParamsV>,
    pub applies_to: Seq<ActionType>,
    pub risk_level: RiskLevel,
    pub action: RuleAction,
    pub enabled: bool,
    pub protected: bool,
}

impl View for Rule {
    type V = RuleV;

    closed spec fn view(&self) -> RuleV {
        RuleV {
            name: self.name@,
            description: self.description@,
            match_type: self.match_type,
            pattern: self.pattern@,
            keyword: self.keyword.deep_view(),
            template: self.template.deep_view(),
            params: self.params.deep_view(),
            applies_to: self.applies_to@,
            risk_level: self.risk_level,
            action: self.action,
            enabled: self.enabled,
            protected: self.protected,
        }
    }
}

impl DeepView for Rule {
    type V = RuleV;

    open spec fn deep_view(&self) -> RuleV {
        self.view()
    }
}

/// Each compiled glob is a valid member of the pattern list, and every valid
/// pattern of the list has a compiled counterpart.
pub open spec fn globs_correspond(gs: Seq<glob::Pattern>, pats: Seq<Seq<char>>) -> bool {
    &&& forall|i: int| 0 <= i < gs.len() ==> glob_ok(#[trigger] glob_source(gs[i]))
        && pats.contains(glob_source(gs[i]))
    &&& forall|j: int| 0 <= j < pats.len() && glob_ok(#[trigger] pats[j]) ==> exists|i: int|
        0 <= i < gs.len() && glob_source(#[trigger] gs[i]) == pats[j]
}

/// Each compiled regex is a valid member of the pattern list, and every valid
/// pattern of the list has a compiled counterpart.
pub open spec fn regexes_correspond(res: Seq<regex::Regex>, pats: Seq<Seq<char>>) -> bool {
    &&& forall|i: int| 0 <= i < res.len() ==> regex_ok(#[trigger] regex_source(res[i]))
        && pats.contains(regex_source(res[i]))
    &&& forall|j: int| 0 <= j < pats.len() && regex_ok(#[trigger] pats[j]) ==> exists|i: int|
        0 <= i < res.len() && regex_source(#[trigger] res[i]) == pats[j]
}

impl Rule {
    /// The compiled side state is consistent with the declarative fields the
    /// active match type reads.
    pub closed spec fn wf(self) -> bool {
        &&& (self.match_type == MatchType::Regex ==> match self.compiled_pattern {
            Some(re) => self.pattern@.len() > 0 && regex_ok(self.pattern@) && regex_source(re)
                == self.pattern@,
            None => self.pattern@.len() == 0 || !regex_ok(self.pattern@),
        })
        &&& (self.match_type == MatchType::Keyword ==> match self@.keyword {
            Some(kw) => globs_correspond(self.compiled_globs@, kw.glob),
            None => true,
        })
        &&& (self.match_type == MatchType::Template ==> match self@.template {
            Some(t) => regexes_correspond(
                self.expanded_patterns@,
                spec_expand(spec_kind_of_name(t), params_or_default(self@.params)).patterns,
            ),
            None => self.expanded_patterns@.len() == 0,
        })
    }
}

// ------------------------------------------------------------------
// Match semantics
// ------------------------------------------------------------------

/// The action's target, or the empty text when it has none.
pub open spec fn target_or_empty(a: ActionV) -> Seq<char> {
    match a.target {
        Some(t) => t,
        None => Seq::empty(),
    }
}

/// The combined text keyword rules scan: content, a space, and the target.
pub open spec fn spec_text(a: ActionV) -> Seq<char> {
    a.content + seq![' '] + target_or_empty(a)
}

/// A regex rule's match: the pattern is non-empty and valid, and matches the
/// content or the target.
pub open spec fn spec_regex_matches(pat: Seq<char>, a: ActionV) -> bool {
    &&& pat.len() > 0
    &&& regex_ok(pat)
    &&& (regex_match(pat, a.content) || (a.target is Some && regex_match(pat, a.target.unwrap())))
}

/// Every `contains` entry occurs, case-insensitively, in the scanned text.
pub open spec fn kw_contains_ok(kw: KeywordMatchV, lowtext: Seq<char>) -> bool {
    forall|i: int| 0 <= i < kw.contains.len() ==> has_sub(
        lowtext,
        lower_of(#[trigger] kw.contains[i]),
    )
}

/// Some `starts_with` entry (as given, or lower-cased) prefixes the content.
pub open spec fn kw_starts_ok(kw: KeywordMatchV, content: Seq<char>) -> bool {
    kw.starts_with.len() == 0 || exists|i: int|
        0 <= i < kw.starts_with.len() && (sub_at(content, #[trigger] kw.starts_with[i], 0)
            || sub_at(content, lower_of(kw.starts_with[i]), 0))
}

/// Some `ends_with` entry (as given, or lower-cased) suffixes the content.
pub open spec fn kw_ends_ok(kw: KeywordMatchV, content: Seq<char>) -> bool {
    kw.ends_with.len() == 0 || exists|i: int|
        0 <= i < kw.ends_with.len() && (sub_at(
            content,
            #[trigger] kw.ends_with[i],
            content.len() - kw.ends_with[i].len(),
        ) || sub_at(
            content,
            lower_of(kw.ends_with[i]),
            content.len() - lower_of(kw.ends_with[i]).len(),
        ))
}

/// When the rule has any valid glob, some valid glob matches the text, the
/// content, or the target.
pub open spec fn kw_glob_ok(
    kw: KeywordMatchV,
    text: Seq<char>,
    content: Seq<char>,
    target: Seq<char>,
) -> bool {
    (exists|j: int| 0 <= j < kw.glob.len() && glob_ok(#[trigger] kw.glob[j])) ==> (exists|j: int|
        0 <= j < kw.glob.len() && glob_ok(#[trigger] kw.glob[j]) && (glob_match(kw.glob[j], text)
            || glob_match(kw.glob[j], content) || glob_match(kw.glob[j], target)))
}

/// Some `any_of` entry occurs, case-insensitively, in the scanned text.
pub open spec fn kw_any_ok(kw: KeywordMatchV, lowtext: Seq<char>) -> bool {
    kw.any_of.len() == 0 || exists|i: int|
        0 <= i < kw.any_of.len() && has_sub(lowtext, lower_of(#[trigger] kw.any_of[i]))
}

/// At least one of the five predicates is configured.
pub open spec fn kw_nonempty(kw: KeywordMatchV) -> bool {
    kw.contains.len() > 0 || kw.starts_with.len() > 0 || kw.ends_with.len() > 0 || kw.glob.len()
        > 0 || kw.any_of.len() > 0
}

/// A keyword rule's match: every configured predicate is satisfied, and at
/// least one predicate is configured.
pub open spec fn spec_keyword_matches(kw: KeywordMatchV, a: ActionV) -> bool {
    let text = spec_text(a);
    let lowtext = lower_of(text);
    &&& kw_contains_ok(kw, lowtext)
    &&& kw_starts_ok(kw, a.content)
    &&& kw_ends_ok(kw, a.content)
    &&& kw_glob_ok(kw, text, a.content, target_or_empty(a))
    &&& kw_any_ok(kw, lowtext)
    &&& kw_nonempty(kw)
}

/// A template rule's match: some valid pattern of the template's expansion
/// matches the content or the target.
pub open spec fn spec_template_matches(r: RuleV, a: ActionV) -> bool {
    match r.template {
        None => false,
        Some(t) => {
            let pats = spec_expand(spec_kind_of_name(t), params_or_default(r.params)).patterns;
            exists|i: int|
                0 <= i < pats.len() && regex_ok(#[trigger] pats[i]) && (regex_match(
                    pats[i],
                    a.content,
                ) || (a.target is Some && regex_match(pats[i], a.target.unwrap())))
        },
    }
}

/// Whether a rule matches an action: the rule is enabled, its action-kind
/// filter admits the action, and its match specification holds.
pub open spec fn spec_rule_matches(r: RuleV, a: ActionV) -> bool {
    &&& r.enabled
    &&& (r.applies_to.len() == 0 || r.applies_to.contains(a.action_type))
    &&& match r.match_type {
        MatchType::Regex => spec_regex_matches(r.pattern, a),
        MatchType::Keyword => match r.keyword {
            Some(kw) => spec_keyword_matches(kw, a),
            None => false,
        },
        MatchType::Template => spec_template_matches(r, a),
    }
}

/// Rule matching reads only the action's kind, content and target; the
/// identifier, timestamp, agent and session do not influence it.
pub proof fn lemma_matches_core(r: RuleV, a1: ActionV, a2: ActionV)
    requires
        a1.action_type == a2.action_type,
        a1.content == a2.content,
        a1.target == a2.target,
    ensures
        spec_rule_matches(r, a1) == spec_rule_matches(r, a2),
{
    assert(spec_text(a1) == spec_text(a2));
    assert(target_or_empty(a1) == target_or_empty(a2));
}

// ------------------------------------------------------------------
// Keyword predicate evaluation
// ------------------------------------------------------------------

fn all_contained(hay_lower: &str, needles: &Vec<String>) -> (r: bool)
    ensures
        r == forall|i: int| 0 <= i < needles.deep_view().len() ==> has_sub(
            hay_lower@,
            lower_of(#[trigger] needles.deep_view()[i]),
        ),
{
    let mut i: usize = 0;
    while i < needles.len()
        invariant
            i <= needles@.len(),
            forall|j: int| 0 <= j < i ==> has_sub(
                hay_lower@,
                lower_of(#[trigger] needles.deep_view()[j]),
            ),
        decreases needles@.len() - i,
    {
        let nl = crate::text::lowercase(needles[i].as_str());
        if !crate::text::str_contains(hay_lower, nl.as_str()) {
            assert(needles.deep_view()[i as int] == needles@[i as int]@);
            return false;
        }
        assert(needles.deep_view()[i as int] == needles@[i as int]@);
        i = i + 1;
    }
    true
}

fn any_contained(hay_lower: &str, needles: &Vec<String>) -> (r: bool)
    ensures
        r == exists|i: int|
            0 <= i < needles.deep_view().len() && has_sub(
                hay_lower@,
                lower_of(#[trigger] needles.deep_view()[i]),
            ),
{
    let mut i: usize = 0;
    while i < needles.len()
        invariant
            i <= needles@.len(),
            forall|j: int| 0 <= j < i ==> !has_sub(
                hay_lower@,
                lower_of(#[trigger] needles.deep_view()[j]),
            ),
        decreases needles@.len() - i,
    {
        let nl = crate::text::lowercase(needles[i].as_str());
        if crate::text::str_contains(hay_lower, nl.as_str()) {
            assert(needles.deep_view()[i as int] == needles@[i as int]@);
            return true;
        }
        assert(needles.deep_view()[i as int] == needles@[i as int]@);
        i = i + 1;
    }
    false
}

fn any_prefix(content: &str, opts: &Vec<String>) -> (r: bool)
    ensures
        r == exists|i: int|
            0 <= i < opts.deep_view().len() && (sub_at(content@, #[trigger] opts.deep_view()[i], 0)
                || sub_at(content@, lower_of(opts.deep_view()[i]), 0)),
{
    let mut i: usize = 0;
    while i < opts.len()
        invariant
            i <= opts@.len(),
            forall|j: int| 0 <= j < i ==> !(sub_at(content@, #[trigger] opts.deep_view()[j], 0)
                || sub_at(content@, lower_of(opts.deep_view()[j]), 0)),
        decreases opts@.len() - i,
    {
        let low = crate::text::lowercase(opts[i].as_str());
        if crate::text::str_starts_with(content, opts[i].as_str()) || crate::text::str_starts_with(
            content,
            low.as_str(),
        ) {
            assert(opts.deep_view()[i as int] == opts@[i as int]@);
            return true;
        }
        assert(opts.deep_view()[i as int] == opts@[i as int]@);
        i = i + 1;
    }
    false
}

fn any_suffix(content: &str, opts: &Vec<String>) -> (r: bool)
    ensures
        r == exists|i: int|
            0 <= i < opts.deep_view().len() && (sub_at(
                content@,
                #[trigger] opts.deep_view()[i],
                content@.len() - opts.deep_view()[i].len(),
            ) || sub_at(
                content@,
                lower_of(opts.deep_view()[i]),
                content@.len() - lower_of(opts.deep_view()[i]).len(),
            )),
{
    let mut i: usize = 0;
    while i < opts.len()
        invariant
            i <= opts@.len(),
            forall|j: int| 0 <= j < i ==> !(sub_at(
                content@,
                #[trigger] opts.deep_view()[j],
                content@.len() - opts.deep_view()[j].len(),
            ) || sub_at(
                content@,
                lower_of(opts.deep_view()[j]),
                content@.len() - lower_of(opts.deep_view()[j]).len(),
            )),
        decreases opts@.len() - i,
    {
        let low = crate::text::lowercase(opts[i].as_str());
        if crate::text::str_ends_with(content, opts[i].as_str()) || crate::text::str_ends_with(
            content,
            low.as_str(),
        ) {
            assert(opts.deep_view()[i as int] == opts@[i as int]@);
            return true;
        }
        assert(opts.deep_view()[i as int] == opts@[i as int]@);
        i = i + 1;
    }
    false
}

fn any_glob_match(globs: &Vec<glob::Pattern>, text: &str, content: &str, target: &str) -> (r:
    bool)
    ensures
        r == exists|i: int|
            0 <= i < globs@.len() && (glob_match(glob_source(#[trigger] globs@[i]), text@)
                || glob_match(glob_source(globs@[i]), content@) || glob_match(
                glob_source(globs@[i]),
                target@,
            )),
{
    let mut i: usize = 0;
    while i < globs.len()
        invariant
            i <= globs@.len(),
            forall|j: int| 0 <= j < i ==> !(glob_match(
                glob_source(#[trigger] globs@[j]),
                text@,
            ) || glob_match(glob_source(globs@[j]), content@) || glob_match(
                glob_source(globs@[j]),
                target@,
            )),
        decreases globs@.len() - i,
    {
        if glob_is_match(&globs[i], text) || glob_is_match(&globs[i], content) || glob_is_match(
            &globs[i],
            target,
        ) {
            return true;
        }
        i = i + 1;
    }
    false
}

fn kinds_contain(v: &Vec<ActionType>, k: ActionType) -> (r: bool)
    ensures
        r == v@.contains(k),
{
    let mut i: usize = 0;
    while i < v.len()
        invariant
            i <= v@.len(),
            forall|j: int| 0 <= j < i ==> v@[j] != k,
        decreases v@.len() - i,
    {
        if v[i] == k {
            return true;
        }
        i = i + 1;
    }
    false
}

// ------------------------------------------------------------------
// Rule evaluation and compilation
// ------------------------------------------------------------------

impl Rule {
    /// The rule's name.
    pub fn get_name(&self) -> (r: &String)
        ensures
            r@ == self@.name,
    {
        &self.name
    }

    /// The rule's description.
    pub fn get_description(&self) -> (r: &String)
        ensures
            r@ == self@.description,
    {
        &self.description
    }

    /// The rule's action.
    pub fn get_action(&self) -> (r: RuleAction)
        ensures
            r == self@.action,
    {
        self.action
    }

    /// The rule's risk level.
    pub fn get_risk_level(&self) -> (r: RiskLevel)
        ensures
            r == self@.risk_level,
    {
        self.risk_level
    }

    /// The rule's regex pattern.
    pub fn get_pattern(&self) -> (r: &String)
        ensures
            r@ == self@.pattern,
    {
        &self.pattern
    }

    /// Whether the rule is enabled.
    pub fn is_enabled(&self) -> (r: bool)
        ensures
            r == self@.enabled,
    {
        self.enabled
    }

    /// Whether the rule is protected from configuration changes.
    pub fn is_protected(&self) -> (r: bool)
        ensures
            r == self@.protected,
    {
        self.protected
    }

    /// Whether this rule matches an action.
    pub fn matches(&self, action: &AgentAction) -> (r: bool)
        requires
            self.wf(),
        ensures
            r == spec_rule_matches(self@, action@),
    {
        if !self.enabled {
            return false;
        }
        if self.applies_to.len() > 0 && !kinds_contain(&self.applies_to, action.action_type) {
            return false;
        }
        match self.match_type {
            MatchType::Regex => self.matches_regex(action),
            MatchType::Keyword => self.matches_keyword(action),
            MatchType::Template => self.matches_template(action),
        }
    }

    fn matches_regex(&self, action: &AgentAction) -> (r: bool)
        requires
            self.wf(),
            self.match_type == MatchType::Regex,
        ensures
            r == spec_regex_matches(self@.pattern, action@),
    {
        match &self.compiled_pattern {
            Some(re) => {
                if regex_is_match(re, content_str(action)) {
                    return true;
                }
                match &action.target {
                    Some(t) => regex_is_match(re, t.as_str()),
                    None => false,
                }
            },
            None => false,
        }
    }

    fn matches_keyword(&self, action: &AgentAction) -> (r: bool)
        requires
            self.wf(),
            self.match_type == MatchType::Keyword,
        ensures
            r == match self@.keyword {
                Some(kw) => spec_keyword_matches(kw, action@),
                None => false,
            },
    {
        let kw = match &self.keyword {
            Some(kw) => kw,
            None => {
                return false;
            },
        };
        let target_str: &str = match &action.target {
            Some(t) => t.as_str(),
            None => "",
        };
        let mut text = action.content.clone();
        text.append(" ");
        text.append(target_str);
        proof {
            reveal_strlit(" ");
            reveal_strlit("");
            assert(" "@ =~= seq![' ']);
            assert(""@ =~= Seq::<char>::empty());
            assert(text@ =~= spec_text(action@));
            assert(target_str@ == target_or_empty(action@));
        }
        let text_lower = crate::text::lowercase(text.as_str());

        if kw.contains.len() > 0 {
            if !all_contained(text_lower.as_str(), &kw.contains) {
                return false;
            }
        }
        if kw.starts_with.len() > 0 {
            if !any_prefix(content_str(action), &kw.starts_with) {
                return false;
            }
        }
        if kw.ends_with.len() > 0 {
            if !any_suffix(content_str(action), &kw.ends_with) {
                return false;
            }
        }
        let ghost kwv = self@.keyword.unwrap();
        if self.compiled_globs.len() > 0 {
            let g = any_glob_match(
                &self.compiled_globs,
                text.as_str(),
                content_str(action),
                target_str,
            );
            proof {
                let gs = self.compiled_globs@;
                let pats = kwv.glob;
                assert(globs_correspond(gs, pats));
                if g {
                    let i = choose|i: int|
                        0 <= i < gs.len() && (glob_match(glob_source(#[trigger] gs[i]), text@)
                            || glob_match(glob_source(gs[i]), action@.content) || glob_match(
                            glob_source(gs[i]),
                            target_str@,
                        ));
                    assert(pats.contains(glob_source(gs[i])));
                    let j = choose|j: int| 0 <= j < pats.len() && pats[j] == glob_source(gs[i]);
                    assert(glob_ok(pats[j]));
                    assert(kw_glob_ok(kwv, spec_text(action@), action@.content, target_or_empty(action@)));
                } else {
                    assert(glob_ok(glob_source(gs[0])));
                    assert(pats.contains(glob_source(gs[0])));
                    let j0 = choose|j: int| 0 <= j < pats.len() && pats[j] == glob_source(gs[0]);
                    assert(0 <= j0 < pats.len() && glob_ok(pats[j0]));
                    if kw_glob_ok(kwv, spec_text(action@), action@.content, target_or_empty(action@)) {
                        let j = choose|j: int|
                            0 <= j < pats.len() && glob_ok(#[trigger] pats[j]) && (glob_match(
                                pats[j],
                                spec_text(action@),
                            ) || glob_match(pats[j], action@.content) || glob_match(
                                pats[j],
                                target_or_empty(action@),
                            ));
                        let i = choose|i: int| 0 <= i < gs.len() && glob_source(#[trigger] gs[i]) == pats[j];
                        assert(glob_match(glob_source(gs[i]), text@) || glob_match(
                            glob_source(gs[i]),
                            action@.content,
                        ) || glob_match(glob_source(gs[i]), target_str@));
                        assert(false);
                    }
                }
            }
            if !g {
                return false;
            }
        } else {
            proof {
                let pats = kwv.glob;
                if exists|j: int| 0 <= j < pats.len() && glob_ok(#[trigger] pats[j]) {
                    let j = choose|j: int| 0 <= j < pats.len() && glob_ok(#[trigger] pats[j]);
                    let i = choose|i: int|
                        0 <= i < self.compiled_globs@.len() && glob_source(
                            #[trigger] self.compiled_globs@[i],
                        ) == pats[j];
                    assert(false);
                }
                assert(kw_glob_ok(kwv, spec_text(action@), action@.content, target_or_empty(action@)));
            }
        }
        if kw.any_of.len() > 0 {
            if !any_contained(text_lower.as_str(), &kw.any_of) {
                return false;
            }
        }
        if kw.contains.len() == 0 && kw.starts_with.len() == 0 && kw.ends_with.len() == 0
            && kw.glob.len() == 0 && kw.any_of.len() == 0 {
            return false;
        }
        true
    }

    fn matches_template(&self, action: &AgentAction) -> (r: bool)
        requires
            self.wf(),
            self.match_type == MatchType::Template,
        ensures
            r == spec_template_matches(self@, action@),
    {
        let mut i: usize = 0;
        let ghost res = self.expanded_patterns@;
        while i < self.expanded_patterns.len()
            invariant
                self.wf(),
                self.match_type == MatchType::Template,
                res == self.expanded_patterns@,
                i <= res.len(),
                forall|j: int| 0 <= j < i ==> !(regex_match(
                    regex_source(#[trigger] res[j]),
                    action@.content,
                ) || (action@.target is Some && regex_match(
                    regex_source(res[j]),
                    action@.target.unwrap(),
                ))),
            decreases res.len() - i,
        {
            let re = &self.expanded_patterns[i];
            let hit = if regex_is_match(re, content_str(action)) {
                true
            } else {
                match &action.target {
                    Some(t) => regex_is_match(re, t.as_str()),
                    None => false,
                }
            };
            if hit {
                proof {
                    let t = self@.template.unwrap();
                    let pats = spec_expand(
                        spec_kind_of_name(t),
                        params_or_default(self@.params),
                    ).patterns;
                    assert(regexes_correspond(res, pats));
                    assert(pats.contains(regex_source(res[i as int])));
                    let j = choose|j: int|
                        0 <= j < pats.len() && pats[j] == regex_source(res[i as int]);
                    assert(regex_ok(pats[j]));
                }
                return true;
            }
            i = i + 1;
        }
        proof {
            match self@.template {
                None => {},
                Some(t) => {
                    let pats = spec_expand(
                        spec_kind_of_name(t),
                        params_or_default(self@.params),
                    ).patterns;
                    assert(regexes_correspond(res, pats));
                    if spec_template_matches(self@, action@) {
                        let j = choose|j: int|
                            0 <= j < pats.len() && regex_ok(#[trigger] pats[j]) && (regex_match(
                                pats[j],
                                action@.content,
                            ) || (action@.target is Some && regex_match(
                                pats[j],
                                action@.target.unwrap(),
                            )));
                        let i2 = choose|i2: int|
                            0 <= i2 < res.len() && regex_source(#[trigger] res[i2]) == pats[j];
                        assert(false);
                    }
                },
            }
        }
        false
    }
}

/// The content of an action as a string slice.
fn content_str(action: &AgentAction) -> (r: &str)
    ensures
        r@ == action@.content,
{
    action.content.as_str()
}

// ------------------------------------------------------------------
// Compilation
// ------------------------------------------------------------------

/// Compiles the valid glob patterns of a list, in order.
fn compile_globs(pats: &Vec<String>) -> (r: Vec<glob::Pattern>)
    ensures
        globs_correspond(r@, pats.deep_view()),
{
    let ghost dv = pats.deep_view();
    let mut out: Vec<glob::Pattern> = Vec::new();
    let mut j: usize = 0;
    while j < pats.len()
        invariant
            dv == pats.deep_view(),
            j <= dv.len(),
            forall|i: int| 0 <= i < out@.len() ==> glob_ok(#[trigger] glob_source(out@[i]))
                && dv.contains(glob_source(out@[i])),
            forall|jj: int| 0 <= jj < j && glob_ok(#[trigger] dv[jj]) ==> exists|i: int|
                0 <= i < out@.len() && glob_source(#[trigger] out@[i]) == dv[jj],
        decreases dv.len() - j,
    {
        proof {
            assert(dv[j as int] == pats@[j as int]@);
        }
        match glob_new(pats[j].as_str()) {
            Some(g) => {
                let ghost before = out@;
                out.push(g);
                proof {
                    assert(out@[before.len() as int] == g);
                    assert(dv.contains(glob_source(g)));
                    assert forall|jj: int| 0 <= jj < j + 1 && glob_ok(#[trigger] dv[jj])
                        implies exists|i: int|
                        0 <= i < out@.len() && glob_source(#[trigger] out@[i]) == dv[jj] by {
                        if jj < j {
                            let i = choose|i: int|
                                0 <= i < before.len() && glob_source(#[trigger] before[i])
                                    == dv[jj];
                            assert(out@[i] == before[i]);
                        } else {
                            assert(glob_source(out@[before.len() as int]) == dv[jj]);
                        }
                    }
                }
            },
            None => {},
        }
        j = j + 1;
    }
    out
}

/// Compiles the valid regex patterns of a list, in order.
fn compile_regexes(pats: &Vec<String>) -> (r: Vec<regex::Regex>)
    ensures
        regexes_correspond(r@, pats.deep_view()),
{
    let ghost dv = pats.deep_view();
    let mut out: Vec<regex::Regex> = Vec::new();
    let mut j: usize = 0;
    while j < pats.len()
        invariant
            dv == pats.deep_view(),
            j <= dv.len(),
            forall|i: int| 0 <= i < out@.len() ==> regex_ok(#[trigger] regex_source(out@[i]))
                && dv.contains(regex_source(out@[i])),
            forall|jj: int| 0 <= jj < j && regex_ok(#[trigger] dv[jj]) ==> exists|i: int|
                0 <= i < out@.len() && regex_source(#[trigger] out@[i]) == dv[jj],
        decreases dv.len() - j,
    {
        proof {
            assert(dv[j as int] == pats@[j as int]@);
        }
        match regex_new(pats[j].as_str()) {
            Some(re) => {
                let ghost before = out@;
                out.push(re);
                proof {
                    assert(out@[before.len() as int] == re);
                    assert(dv.contains(regex_source(re)));
                    assert forall|jj: int| 0 <= jj < j + 1 && regex_ok(#[trigger] dv[jj])
                        implies exists|i: int|
                        0 <= i < out@.len() && regex_source(#[trigger] out@[i]) == dv[jj] by {
                        if jj < j {
                            let i = choose|i: int|
                                0 <= i < before.len() && regex_source(#[trigger] before[i])
                                    == dv[jj];
                            assert(out@[i] == before[i]);
                        } else {
                            assert(regex_source(out@[before.len() as int]) == dv[jj]);
                        }
                    }
                }
            },
            None => {},
        }
        j = j + 1;
    }
    out
}

impl Rule {
    /// Compiles the rule: the regex is constructed, globs are parsed, or the
    /// template is expanded. A regex rule with a non-empty invalid pattern is
    /// rejected; for a template rule, an empty action-kind filter and a
    /// placeholder description are replaced from the expansion.
    pub fn compile(&mut self) -> (r: Result<(), RuleError>)
        ensures
            final(self)@.name == old(self)@.name,
            final(self)@.match_type == old(self)@.match_type,
            final(self)@.pattern == old(self)@.pattern,
            final(self)@.keyword == old(self)@.keyword,
            final(self)@.template == old(self)@.template,
            final(self)@.params == old(self)@.params,
            final(self)@.risk_level == old(self)@.risk_level,
            final(self)@.action == old(self)@.action,
            final(self)@.enabled == old(self)@.enabled,
            final(self)@.protected == old(self)@.protected,
            r is Ok ==> final(self).wf(),
            r is Err <==> (old(self)@.match_type == MatchType::Regex && old(self)@.pattern.len()
                > 0 && !regex_ok(old(self)@.pattern)),
            (old(self)@.match_type == MatchType::Template && old(self)@.template is Some) ==> {
                let exp = spec_expand(
                    spec_kind_of_name(old(self)@.template.unwrap()),
                    params_or_default(old(self)@.params),
                );
                &&& final(self)@.applies_to == (if old(self)@.applies_to.len() == 0 {
                    exp.kinds
                } else {
                    old(self)@.applies_to
                })
                &&& final(self)@.description == (if old(self)@.description.len() == 0 || sub_at(
                    old(self)@.description,
                    "Template:"@,
                    0,
                ) {
                    exp.description
                } else {
                    old(self)@.description
                })
            },
            !(old(self)@.match_type == MatchType::Template && old(self)@.template is Some)
                ==> final(self)@.applies_to == old(self)@.applies_to && final(self)@.description
                == old(self)@.description,
    {
        match self.match_type {
            MatchType::Regex => {
                if self.pattern.unicode_len() > 0 {
                    match regex_new(self.pattern.as_str()) {
                        Some(re) => {
                            self.compiled_pattern = Some(re);
                            Ok(())
                        },
                        None => {
                            self.compiled_pattern = None;
                            Err(RuleError::InvalidRegex)
                        },
                    }
                } else {
                    self.compiled_pattern = None;
                    Ok(())
                }
            },
            MatchType::Keyword => {
                let globs = match &self.keyword {
                    Some(kw) => compile_globs(&kw.glob),
                    None => Vec::new(),
                };
                self.compiled_globs = globs;
                Ok(())
            },
            MatchType::Template => {
                match &self.template {
                    Some(_) => {},
                    None => {
                        self.expanded_patterns = Vec::new();
                        return Ok(());
                    },
                }
                let t = match &self.template {
                    Some(t) => t.as_str(),
                    None => "",
                };
                let def = get_template_definition(t);
                let fallback = TemplateParams::default();
                let p: &TemplateParams = match &self.params {
                    Some(p) => p,
                    None => &fallback,
                };
                proof {
                    assert(p@ == params_or_default(self@.params));
                }
                let expansion = def.expand(p);
                self.expanded_patterns = compile_regexes(&expansion.0);
                if self.applies_to.len() == 0 {
                    self.applies_to = expansion.1;
                }
                if self.description.unicode_len() == 0 || crate::text::str_starts_with(
                    self.description.as_str(),
                    "Template:",
                ) {
                    self.description = expansion.2;
                }
                Ok(())
            },
        }
    }

    /// Creates a regex rule. An empty or invalid pattern leaves the rule
    /// never matching by regex.
    pub fn new(
        name: &str,
        description: &str,
        pattern: &str,
        risk_level: RiskLevel,
        action: RuleAction,
    ) -> (r: Rule)
        ensures
            r@ == regex_rule_v(name@, description@, pattern@, risk_level, action),
            r.wf(),
    {
        let compiled: Option<regex::Regex> = if pattern.unicode_len() > 0 {
            regex_new(pattern)
        } else {
            None
        };
        let r = Rule {
            name: String::from_str(name),
            description: String::from_str(description),
            match_type: MatchType::Regex,
            pattern: String::from_str(pattern),
            keyword: None,
            template: None,
            params: None,
            applies_to: Vec::new(),
            risk_level,
            action,
            enabled: true,
            protected: false,
            compiled_pattern: compiled,
            compiled_globs: Vec::new(),
            expanded_patterns: Vec::new(),
        };
        r
    }

    /// Creates a keyword rule, with its glob patterns compiled.
    pub fn new_keyword(
        name: &str,
        description: &str,
        keyword: KeywordMatch,
        risk_level: RiskLevel,
        action: RuleAction,
    ) -> (r: Rule)
        ensures
            r@ == keyword_rule_v(name@, description@, keyword@, risk_level, action),
            r.wf(),
    {
        let globs = compile_globs(&keyword.glob);
        let r = Rule {
            name: String::from_str(name),
            description: String::from_str(description),
            match_type: MatchType::Keyword,
            pattern: String::new(),
            keyword: Some(keyword),
            template: None,
            params: None,
            applies_to: Vec::new(),
            risk_level,
            action,
            enabled: true,
            protected: false,
            compiled_pattern: None,
            compiled_globs: globs,
            expanded_patterns: Vec::new(),
        };
        r
    }

    /// Creates a template rule: the template expands at once, supplying the
    /// rule's patterns, action-kind filter and description.
    pub fn new_template(
        name: &str,
        template_name: &str,
        params: TemplateParams,
        risk_level: RiskLevel,
        action: RuleAction,
    ) -> (r: Rule)
        ensures
            r@ == template_rule_v(name@, template_name@, params@, risk_level, action),
            r.wf(),
    {
        let mut desc = String::from_str("Template: ");
        desc.append(template_name);
        let mut rule = Rule {
            name: String::from_str(name),
            description: desc,
            match_type: MatchType::Template,
            pattern: String::new(),
            keyword: None,
            template: Some(String::from_str(template_name)),
            params: Some(params),
            applies_to: Vec::new(),
            risk_level,
            action,
            enabled: true,
            protected: false,
            compiled_pattern: None,
            compiled_globs: Vec::new(),
            expanded_patterns: Vec::new(),
        };
        proof {
            reveal_strlit("Template: ");
            reveal_strlit("Template:");
            assert(rule@.description.subrange(0, 9) =~= "Template:"@);
            assert(sub_at(rule@.description, "Template:"@, 0));
        }
        let c = rule.compile();
        proof {
            assert(c is Ok);
            assert(rule@ == template_rule_v(name@, template_name@, params_or_default(rule@.params), risk_level, action));
        }
        rule
    }
}

/// The view of a freshly built regex rule.
pub open spec fn regex_rule_v(
    name: Seq<char>,
    description: Seq<char>,
    pattern: Seq<char>,
    risk: RiskLevel,
    action: RuleAction,
) -> RuleV {
    RuleV {
        name,
        description,
        match_type: MatchType::Regex,
        pattern,
        keyword: None,
        template: None,
        params: None,
        applies_to: Seq::empty(),
        risk_level: risk,
        action,
        enabled: true,
        protected: false,
    }
}

/// The view of a freshly built keyword rule.
pub open spec fn keyword_rule_v(
    name: Seq<char>,
    description: Seq<char>,
    kw: KeywordMatchV,
    risk: RiskLevel,
    action: RuleAction,
) -> RuleV {
    RuleV {
        name,
        description,
        match_type: MatchType::Keyword,
        pattern: Seq::empty(),
        keyword: Some(kw),
        template: None,
        params: None,
        applies_to: Seq::empty(),
        risk_level: risk,
        action,
        enabled: true,
        protected: false,
    }
}

// ------------------------------------------------------------------
// Shipped rule sets
// ------------------------------------------------------------------

/// The views of the built-in default rules, in order.
pub open spec fn default_rules_v() -> Seq<RuleV> {
    seq![
        regex_rule_v(
            "dangerous_rm"@,
            "Dangerous recursive delete commands"@,
            "rm\\s+(-rf?|--force|--recursive)\\s+[~/]"@,
            RiskLevel::Critical,
            RuleAction::CriticalAlert,
        ),
        regex_rule_v(
            "api_key_exposure"@,
            "API key or secret exposure in outbound requests"@,
            "(api[_-]?key|secret|token|password)\\s*[=:]\\s*['\"][a-zA-Z0-9]{20,}"@,
            RiskLevel::Critical,
            RuleAction::CriticalAlert,
        ),
        regex_rule_v(
            "ssh_key_access"@,
            "SSH private key access attempt"@,
            "\\.ssh/(id_rsa|id_ed25519|id_ecdsa)($|[^.])"@,
            RiskLevel::Critical,
            RuleAction::CriticalAlert,
        ),
        regex_rule_v(
            "wallet_access"@,
            "Cryptocurrency wallet or seed phrase access"@,
            "(\\.wallet|seed\\s*phrase|mnemonic|private\\s*key)"@,
            RiskLevel::Critical,
            RuleAction::CriticalAlert,
        ),
        regex_rule_v(
            "mass_delete"@,
            "Deleting many files with wildcard"@,
            "(rm|delete|remove)\\s+.+\\*"@,
            RiskLevel::Warning,
            RuleAction::PauseAndAsk,
        ),
        regex_rule_v(
            "system_config"@,
            "Modifying system configuration files"@,
            "(/etc/|\\.bashrc|\\.zshrc|\\.profile|crontab)"@,
            RiskLevel::Warning,
            RuleAction::PauseAndAsk,
        ),
        regex_rule_v(
            "sudo_command"@,
            "Executing commands with elevated privileges"@,
            "sudo\\s+"@,
            RiskLevel::Warning,
            RuleAction::PauseAndAsk,
        ),
        regex_rule_v("git_push"@, "Git push operation"@, "git\\s+push"@, RiskLevel::Info, RuleAction::Alert),
        regex_rule_v(
            "npm_install"@,
            "NPM package installation"@,
            "npm\\s+(install|i)\\s+"@,
            RiskLevel::Info,
            RuleAction::LogOnly,
        ),
    ]
}

/// The built-in default rules.
pub fn default_rules() -> (r: Vec<Rule>)
    ensures
        r.deep_view() == default_rules_v(),
        forall|i: int| 0 <= i < r@.len() ==> (#[trigger] r@[i]).wf(),
{
    let mut v: Vec<Rule> = Vec::new();
    v.push(Rule::new(
        "dangerous_rm",
        "Dangerous recursive delete commands",
        "rm\\s+(-rf?|--force|--recursive)\\s+[~/]",
        RiskLevel::Critical,
        RuleAction::CriticalAlert,
    ));
    v.push(Rule::new(
        "api_key_exposure",
        "API key or secret exposure in outbound requests",
        "(api[_-]?key|secret|token|password)\\s*[=:]\\s*['\"][a-zA-Z0-9]{20,}",
        RiskLevel::Critical,
        RuleAction::CriticalAlert,
    ));
    v.push(Rule::new(
        "ssh_key_access",
        "SSH private key access attempt",
        "\\.ssh/(id_rsa|id_ed25519|id_ecdsa)($|[^.])",
        RiskLevel::Critical,
        RuleAction::CriticalAlert,
    ));
    v.push(Rule::new(
        "wallet_access",
        "Cryptocurrency wallet or seed phrase access",
        "(\\.wallet|seed\\s*phrase|mnemonic|private\\s*key)",
        RiskLevel::Critical,
        RuleAction::CriticalAlert,
    ));
    v.push(Rule::new(
        "mass_delete",
        "Deleting many files with wildcard",
        "(rm|delete|remove)\\s+.+\\*",
        RiskLevel::Warning,
        RuleAction::PauseAndAsk,
    ));
    v.push(Rule::new(
        "system_config",
        "Modifying system configuration files",
        "(/etc/|\\.bashrc|\\.zshrc|\\.profile|crontab)",
        RiskLevel::Warning,
        RuleAction::PauseAndAsk,
    ));
    v.push(Rule::new(
        "sudo_command",
        "Executing commands with elevated privileges",
        "sudo\\s+",
        RiskLevel::Warning,
        RuleAction::PauseAndAsk,
    ));
    v.push(Rule::new("git_push", "Git push operation", "git\\s+push", RiskLevel::Info, RuleAction::Alert));
    v.push(Rule::new(
        "npm_install",
        "NPM package installation",
        "npm\\s+(install|i)\\s+",
        RiskLevel::Info,
        RuleAction::LogOnly,
    ));
    proof {
        assert(v.deep_view() =~= default_rules_v());
    }
    v
}

/// The view of a protected self-protection keyword rule.
pub open spec fn sp_rule_kw(
    name: Seq<char>,
    desc: Seq<char>,
    any_of: Seq<Seq<char>>,
    applies: Seq<ActionType>,
) -> RuleV {
    RuleV {
        name,
        description: desc,
        match_type: MatchType::Keyword,
        pattern: Seq::empty(),
        keyword: Some(
            KeywordMatchV {
                contains: Seq::empty(),
                starts_with: Seq::empty(),
                ends_with: Seq::empty(),
                glob: Seq::empty(),
                any_of,
            },
        ),
        template: None,
        params: None,
        applies_to: applies,
        risk_level: RiskLevel::Critical,
        action: RuleAction::Block,
        enabled: true,
        protected: true,
    }
}

/// The view of a protected self-protection regex rule.
pub open spec fn sp_rule_rx(
    name: Seq<char>,
    desc: Seq<char>,
    pattern: Seq<char>,
    applies: Seq<ActionType>,
) -> RuleV {
    RuleV {
        name,
        description: desc,
        match_type: MatchType::Regex,
        pattern,
        keyword: None,
        template: None,
        params: None,
        applies_to: applies,
        risk_level: RiskLevel::Critical,
        action: RuleAction::Block,
        enabled: true,
        protected: true,
    }
}

/// The views of the self-protection rules, in order.
pub open spec fn sp_rules_v() -> Seq<RuleV> {
    seq![
        sp_rule_kw(
            "self_protect_config"@,
            "\u{1f512} SELF-PROTECTION: Block modification of MoltBot Harness config files"@,
            seq![
                "config/rules.yaml"@,
                "config/safebot.yaml"@,
                "config/moltbot-harness.yaml"@,
                "moltbot-harness/config"@,
                ".moltbot-harness/config"@,
                "alerts.json"@,
            ],
            seq![ActionType::FileWrite, ActionType::Exec],
        ),
        sp_rule_rx(
            "self_protect_source"@,
            "\u{1f512} SELF-PROTECTION: Block modification of MoltBot Harness source code"@,
            "(safebot|moltbot-harness)/src/.*\\.(rs|toml)"@,
            seq![ActionType::FileWrite, ActionType::Exec],
        ),
        sp_rule_rx(
            "self_protect_process"@,
            "\u{1f512} SELF-PROTECTION: Block killing MoltBot Harness process"@,
            "(kill|pkill|killall)\\s+.*(moltbot|safebot|harness)"@,
            seq![ActionType::Exec],
        ),
        sp_rule_kw(
            "self_protect_stop"@,
            "\u{1f512} SELF-PROTECTION: Block stopping MoltBot Harness via CLI"@,
            seq!["moltbot-harness stop"@, "safebot stop"@],
            seq![ActionType::Exec],
        ),
        sp_rule_kw(
            "self_protect_plugin"@,
            "\u{1f512} SELF-PROTECTION: Block modification of harness-guard plugin"@,
            seq!["harness-guard"@, "clawdbot-plugin"@, "clawdbot.plugin.json"@],
            seq![ActionType::FileWrite, ActionType::Exec],
        ),
        sp_rule_rx(
            "self_protect_binary"@,
            "\u{1f512} SELF-PROTECTION: Block modification of MoltBot Harness binary"@,
            "(safebot|moltbot-harness)/target/(release|debug)/"@,
            seq![ActionType::FileWrite, ActionType::Exec],
        ),
        sp_rule_rx(
            "self_protect_api"@,
            "\u{1f512} SELF-PROTECTION: Block disabling rules via harness API"@,
            "(curl|http|fetch|wget)\\s+.*(localhost|127\\.0\\.0\\.1):8380.*(rules|disable|delete)"@,
            seq![ActionType::Exec],
        ),
        sp_rule_kw(
            "self_protect_patch"@,
            "\u{1f512} SELF-PROTECTION: Block reverting Clawdbot security patch"@,
            seq!["patch clawdbot --revert"@, "patch clawdbot -r"@, "bash-tools.exec.js.orig"@],
            seq![ActionType::Exec],
        ),
    ]
}

fn two_kinds(a: ActionType, b: ActionType) -> (r: Vec<ActionType>)
    ensures
        r@ == seq![a, b],
{
    let mut v: Vec<ActionType> = Vec::new();
    v.push(a);
    v.push(b);
    assert(v@ =~= seq![a, b]);
    v
}

fn one_kind(a: ActionType) -> (r: Vec<ActionType>)
    ensures
        r@ == seq![a],
{
    let mut v: Vec<ActionType> = Vec::new();
    v.push(a);
    assert(v@ =~= seq![a]);
    v
}

fn any_of_keyword(words: Vec<String>) -> (r: KeywordMatch)
    ensures
        r@ == (KeywordMatchV {
            contains: Seq::empty(),
            starts_with: Seq::empty(),
            ends_with: Seq::empty(),
            glob: Seq::empty(),
            any_of: words.deep_view(),
        }),
{
    let mut kw = KeywordMatch::default();
    kw.any_of = words;
    proof {
        assert(kw@.contains =~= Seq::<Seq<char>>::empty());
        assert(kw@.starts_with =~= Seq::<Seq<char>>::empty());
        assert(kw@.ends_with =~= Seq::<Seq<char>>::empty());
        assert(kw@.glob =~= Seq::<Seq<char>>::empty());
    }
    kw
}

/// Self-protection rules: hardcoded, protected, always enabled, and carrying
/// the strongest risk and action. They guard the harness's own
/// configuration, source, binary, process, plugin, control API, and patch.
pub fn self_protection_rules() -> (r: Vec<Rule>)
    ensures
        r.deep_view() == sp_rules_v(),
        forall|i: int| 0 <= i < r@.len() ==> (#[trigger] r@[i]).wf(),
{
    let mut v: Vec<Rule> = Vec::new();

    let mut w1: Vec<String> = Vec::new();
    crate::text::push_str(&mut w1, "config/rules.yaml");
    crate::text::push_str(&mut w1, "config/safebot.yaml");
    crate::text::push_str(&mut w1, "config/moltbot-harness.yaml");
    crate::text::push_str(&mut w1, "moltbot-harness/config");
    crate::text::push_str(&mut w1, ".moltbot-harness/config");
    crate::text::push_str(&mut w1, "alerts.json");
    proof {
        assert(w1.deep_view() =~= seq![
            "config/rules.yaml"@,
            "config/safebot.yaml"@,
            "config/moltbot-harness.yaml"@,
            "moltbot-harness/config"@,
            ".moltbot-harness/config"@,
            "alerts.json"@,
        ]);
    }
    let mut r1 = Rule::new_keyword(
        "self_protect_config",
        "\u{1f512} SELF-PROTECTION: Block modification of MoltBot Harness config files",
        any_of_keyword(w1),
        RiskLevel::Critical,
        RuleAction::Block,
    );
    r1.applies_to = two_kinds(ActionType::FileWrite, ActionType::Exec);
    r1.protected = true;
    proof {
        assert(r1.wf());
        assert(r1@ == sp_rules_v()[0]);
    }
    v.push(r1);

    let mut r2 = Rule::new(
        "self_protect_source",
        "\u{1f512} SELF-PROTECTION: Block modification of MoltBot Harness source code",
        "(safebot|moltbot-harness)/src/.*\\.(rs|toml)",
        RiskLevel::Critical,
        RuleAction::Block,
    );
    r2.applies_to = two_kinds(ActionType::FileWrite, ActionType::Exec);
    r2.protected = true;
    proof {
        assert(r2.wf());
        assert(r2@ == sp_rules_v()[1]);
    }
    v.push(r2);

    let mut r3 = Rule::new(
        "self_protect_process",
        "\u{1f512} SELF-PROTECTION: Block killing MoltBot Harness process",
        "(kill|pkill|killall)\\s+.*(moltbot|safebot|harness)",
        RiskLevel::Critical,
        RuleAction::Block,
    );
    r3.applies_to = one_kind(ActionType::Exec);
    r3.protected = true;
    proof {
        assert(r3.wf());
        assert(r3@ == sp_rules_v()[2]);
    }
    v.push(r3);

    let mut w4: Vec<String> = Vec::new();
    crate::text::push_str(&mut w4, "moltbot-harness stop");
    crate::text::push_str(&mut w4, "safebot stop");
    proof {
        assert(w4.deep_view() =~= seq!["moltbot-harness stop"@, "safebot stop"@]);
    }
    let mut r4 = Rule::new_keyword(
        "self_protect_stop",
        "\u{1f512} SELF-PROTECTION: Block stopping MoltBot Harness via CLI",
        any_of_keyword(w4),
        RiskLevel::Critical,
        RuleAction::Block,
    );
    r4.applies_to = one_kind(ActionType::Exec);
    r4.protected = true;
    proof {
        assert(r4.wf());
        assert(r4@ == sp_rules_v()[3]);
    }
    v.push(r4);

    let mut w5: Vec<String> = Vec::new();
    crate::text::push_str(&mut w5, "harness-guard");
    crate::text::push_str(&mut w5, "clawdbot-plugin");
    crate::text::push_str(&mut w5, "clawdbot.plugin.json");
    proof {
        assert(w5.deep_view() =~= seq!["harness-guard"@, "clawdbot-plugin"@, "clawdbot.plugin.json"@]);
    }
    let mut r5 = Rule::new_keyword(
        "self_protect_plugin",
        "\u{1f512} SELF-PROTECTION: Block modification of harness-guard plugin",
        any_of_keyword(w5),
        RiskLevel::Critical,
        RuleAction::Block,
    );
    r5.applies_to = two_kinds(ActionType::FileWrite, ActionType::Exec);
    r5.protected = true;
    proof {
        assert(r5.wf());
        assert(r5@ == sp_rules_v()[4]);
    }
    v.push(r5);

    let mut r6 = Rule::new(
        "self_protect_binary",
        "\u{1f512} SELF-PROTECTION: Block modification of MoltBot Harness binary",
        "(safebot|moltbot-harness)/target/(release|debug)/",
        RiskLevel::Critical,
        RuleAction::Block,
    );
    r6.applies_to = two_kinds(ActionType::FileWrite, ActionType::Exec);
    r6.protected = true;
    proof {
        assert(r6.wf());
        assert(r6@ == sp_rules_v()[5]);
    }
    v.push(r6);

    let mut r7 = Rule::new(
        "self_protect_api",
        "\u{1f512} SELF-PROTECTION: Block disabling rules via harness API",
        "(curl|http|fetch|wget)\\s+.*(localhost|127\\.0\\.0\\.1):8380.*(rules|disable|delete)",
        RiskLevel::Critical,
        RuleAction::Block,
    );
    r7.applies_to = one_kind(ActionType::Exec);
    r7.protected = true;
    proof {
        assert(r7.wf());
        assert(r7@ == sp_rules_v()[6]);
    }
    v.push(r7);

    let mut w8: Vec<String> = Vec::new();
    crate::text::push_str(&mut w8, "patch clawdbot --revert");
    crate::text::push_str(&mut w8, "patch clawdbot -r");
    crate::text::push_str(&mut w8, "bash-tools.exec.js.orig");
    proof {
        assert(w8.deep_view() =~= seq![
            "patch clawdbot --revert"@,
            "patch clawdbot -r"@,
            "bash-tools.exec.js.orig"@,
        ]);
    }
    let mut r8 = Rule::new_keyword(
        "self_protect_patch",
        "\u{1f512} SELF-PROTECTION: Block reverting Clawdbot security patch",
        any_of_keyword(w8),
        RiskLevel::Critical,
        RuleAction::Block,
    );
    r8.applies_to = one_kind(ActionType::Exec);
    r8.protected = true;
    proof {
        assert(r8.wf());
        assert(r8@ == sp_rules_v()[7]);
    }
    v.push(r8);

    proof {
        assert(v.deep_view() =~= sp_rules_v());
    }
    v
}

/// Whether a name belongs to the self-protection set.
pub open spec fn is_sp_name(n: Seq<char>) -> bool {
    ||| n == "self_protect_config"@
    ||| n == "self_protect_source"@
    ||| n == "self_protect_process"@
    ||| n == "self_protect_stop"@
    ||| n == "self_protect_plugin"@
    ||| n == "self_protect_binary"@
    ||| n == "self_protect_api"@
    ||| n == "self_protect_patch"@
}

fn name_is_sp(n: &str) -> (r: bool)
    ensures
        r == is_sp_name(n@),
{
    ||| crate::text::str_eq(n, "self_protect_config")
    ||| crate::text::str_eq(n, "self_protect_source")
    ||| crate::text::str_eq(n, "self_protect_process")
    ||| crate::text::str_eq(n, "self_protect_stop")
    ||| crate::text::str_eq(n, "self_protect_plugin")
    ||| crate::text::str_eq(n, "self_protect_binary")
    ||| crate::text::str_eq(n, "self_protect_api")
    ||| crate::text::str_eq(n, "self_protect_patch")
}

/// The rules kept from a configured set: those not named like a
/// self-protection rule.
pub open spec fn spec_retained(rules: Seq<RuleV>) -> Seq<RuleV>
    decreases rules.len(),
{
    if rules.len() == 0 {
        Seq::empty()
    } else {
        spec_retained(rules.drop_last()) + (if is_sp_name(rules.last().name) {
            Seq::empty()
        } else {
            seq![rules.last()]
        })
    }
}

/// The result of merging the self-protection set into a configured set:
/// configured entries sharing a self-protection name are dropped, and the
/// self-protection rules are appended.
pub open spec fn spec_merge(rules: Seq<RuleV>) -> Seq<RuleV> {
    spec_retained(rules) + sp_rules_v()
}

/// Merges the self-protection set into a configured rule set.
pub fn merge_self_protection(rules: Vec<Rule>) -> (r: Vec<Rule>)
    requires
        forall|i: int| 0 <= i < rules@.len() ==> (#[trigger] rules@[i]).wf(),
    ensures
        r.deep_view() == spec_merge(rules.deep_view()),
        forall|i: int| 0 <= i < r@.len() ==> (#[trigger] r@[i]).wf(),
{
    let ghost orig = rules.deep_view();
    let ghost orig_vals = rules@;
    proof {
        assert forall|i: int| 0 <= i < orig_vals.len() implies (#[trigger] orig_vals[i])@
            == orig[i] by {
            assert(rules.deep_view()[i] == orig_vals[i]@);
        }
    }
    let mut rest = rules;
    let mut out: Vec<Rule> = Vec::new();
    while rest.len() > 0
        invariant
            orig.len() == orig_vals.len(),
            rest@.len() <= orig_vals.len(),
            rest@ == orig_vals.subrange(
                orig_vals.len() - rest@.len(),
                orig_vals.len() as int,
            ),
            forall|i: int| 0 <= i < orig_vals.len() ==> (#[trigger] orig_vals[i]).wf(),
            forall|i: int| 0 <= i < orig_vals.len() ==> orig_vals[i]@ == orig[i],
            out.deep_view() == spec_retained(orig.take(orig.len() - rest@.len())),
            forall|i: int| 0 <= i < out@.len() ==> (#[trigger] out@[i]).wf(),
        decreases rest@.len(),
    {
        let ghost k = orig_vals.len() - rest@.len();
        let rl = rest.remove(0);
        proof {
            assert(rl == orig_vals[k]);
            assert(rest@ =~= orig_vals.subrange(k + 1, orig_vals.len() as int));
        }
        let ghost before = out.deep_view();
        if !name_is_sp(rl.name.as_str()) {
            proof {
                assert(rl@.name == orig[k].name);
            }
            out.push(rl);
            proof {
                assert(out.deep_view() =~= before.push(orig[k]));
            }
        }
        proof {
            assert(orig.take(k + 1).drop_last() =~= orig.take(k));
            assert(orig.take(k + 1).last() == orig[k]);
            assert(out.deep_view() =~= spec_retained(orig.take(k + 1)));
        }
    }
    proof {
        assert(orig.take(orig.len() as int) =~= orig);
    }
    let mut sp = self_protection_rules();
    let ghost spv = sp.deep_view();
    let ghost sp_vals = sp@;
    let ghost retained = out.deep_view();
    proof {
        assert forall|i: int| 0 <= i < sp_vals.len() implies (#[trigger] sp_vals[i])@
            == spv[i] by {
            assert(sp.deep_view()[i] == sp_vals[i]@);
        }
    }
    while sp.len() > 0
        invariant
            spv == sp_rules_v(),
            sp_vals.len() == spv.len(),
            retained == spec_retained(orig),
            sp@.len() <= sp_vals.len(),
            sp@ == sp_vals.subrange(sp_vals.len() - sp@.len(), sp_vals.len() as int),
            forall|i: int| 0 <= i < sp_vals.len() ==> (#[trigger] sp_vals[i])@ == spv[i],
            forall|i: int| 0 <= i < sp_vals.len() ==> (#[trigger] sp_vals[i]).wf(),
            out.deep_view() == retained + spv.take(spv.len() - sp@.len()),
            forall|i: int| 0 <= i < out@.len() ==> (#[trigger] out@[i]).wf(),
        decreases sp@.len(),
    {
        let ghost k = sp_vals.len() - sp@.len();
        let rl = sp.remove(0);
        proof {
            assert(rl == sp_vals[k]);
            assert(sp@ =~= sp_vals.subrange(k + 1, sp_vals.len() as int));
        }
        let ghost before = out.deep_view();
        out.push(rl);
        proof {
            assert(out.deep_view() =~= before.push(spv[k]));
            assert(out.deep_view() =~= retained + spv.take(k + 1));
        }
    }
    proof {
        assert(spv.take(spv.len() as int) =~= spv);
    }
    out
}

/// The view of a freshly built template rule.
pub open spec fn template_rule_v(
    name: Seq<char>,
    template: Seq<char>,
    params: TemplateParamsV,
    risk: RiskLevel,
    action: RuleAction,
) -> RuleV {
    let exp = spec_expand(spec_kind_of_name(template), params);
    RuleV {
        name,
        description: exp.description,
        match_type: MatchType::Template,
        pattern: Seq::empty(),
        keyword: None,
        template: Some(template),
        params: Some(params),
        applies_to: exp.kinds,
        risk_level: risk,
        action,
        enabled: true,
        protected: false,
    }
}

} // verus!
