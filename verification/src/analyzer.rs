//! The analyzer: evaluates one action against a rule set and aggregates a
//! verdict (matched rule names, maximum risk, joined recommendation, and a
//! human-readable explanation).

use vstd::prelude::*;
use crate::model::{AgentAction, ActionV, AnalysisResult, Recommendation, RiskLevel};
use crate::rules::{
    default_rules,
    default_rules_v,
    merge_self_protection,
    spec_merge,
    spec_rule_matches,
    sp_rules_v,
    Rule,
    RuleAction,
    RuleV,
};

verus! {

/// One promotion step of the recommendation under a matched rule's action.
/// `Block` and `CriticalAlert` are equivalent at the verdict level.
pub open spec fn spec_promote(cur: Recommendation, act: RuleAction) -> Recommendation {
    match act {
        RuleAction::CriticalAlert => Recommendation::CriticalAlert,
        RuleAction::Block => Recommendation::CriticalAlert,
        RuleAction::PauseAndAsk => if cur == Recommendation::CriticalAlert {
            cur
        } else {
            Recommendation::PauseAndAsk
        },
        RuleAction::Alert => if cur == Recommendation::LogOnly {
            Recommendation::Alert
        } else {
            cur
        },
        RuleAction::LogOnly => cur,
    }
}

/// The verdict-level strength a rule action demands.
pub open spec fn action_rank(act: RuleAction) -> int {
    match act {
        RuleAction::LogOnly => 0,
        RuleAction::Alert => 1,
        RuleAction::PauseAndAsk => 2,
        RuleAction::Block => 3,
        RuleAction::CriticalAlert => 3,
    }
}

/// Executable promotion step; agrees with `spec_promote`.
pub fn promote(cur: Recommendation, act: RuleAction) -> (r: Recommendation)
    ensures
        r == spec_promote(cur, act),
{
    match act {
        RuleAction::CriticalAlert => Recommendation::CriticalAlert,
        RuleAction::Block => Recommendation::CriticalAlert,
        RuleAction::PauseAndAsk => if cur == Recommendation::CriticalAlert {
            cur
        } else {
            Recommendation::PauseAndAsk
        },
        RuleAction::Alert => if cur == Recommendation::LogOnly {
            Recommendation::Alert
        } else {
            cur
        },
        RuleAction::LogOnly => cur,
    }
}

/// The names of the rules that match, in rule order.
pub open spec fn spec_matched(rules: Seq<RuleV>, a: ActionV) -> Seq<Seq<char>>
    decreases rules.len(),
{
    if rules.len() == 0 {
        Seq::empty()
    } else {
        spec_matched(rules.drop_last(), a) + (if spec_rule_matches(rules.last(), a) {
            seq![rules.last().name]
        } else {
            Seq::empty()
        })
    }
}

/// The maximum risk level over the matching rules (`Info` when none match).
pub open spec fn spec_risk(rules: Seq<RuleV>, a: ActionV) -> RiskLevel
    decreases rules.len(),
{
    if rules.len() == 0 {
        RiskLevel::Info
    } else {
        let prev = spec_risk(rules.drop_last(), a);
        if spec_rule_matches(rules.last(), a) {
            prev.spec_max(rules.last().risk_level)
        } else {
            prev
        }
    }
}

/// The recommendation joined from the matching rules' actions
/// (`LogOnly` when none match).
pub open spec fn spec_recommendation(rules: Seq<RuleV>, a: ActionV) -> Recommendation
    decreases rules.len(),
{
    if rules.len() == 0 {
        Recommendation::LogOnly
    } else {
        let prev = spec_recommendation(rules.drop_last(), a);
        if spec_rule_matches(rules.last(), a) {
            spec_promote(prev, rules.last().action)
        } else {
            prev
        }
    }
}

/// The explanation fragments, one per matching rule.
pub open spec fn spec_explanations(rules: Seq<RuleV>, a: ActionV) -> Seq<Seq<char>>
    decreases rules.len(),
{
    if rules.len() == 0 {
        Seq::empty()
    } else {
        spec_explanations(rules.drop_last(), a) + (if spec_rule_matches(rules.last(), a) {
            seq!["Matched rule: "@ + rules.last().name + " - "@ + rules.last().description]
        } else {
            Seq::empty()
        })
    }
}

/// The verdict explanation: the fragments joined with `"; "`, or a fixed
/// text when nothing matched.
pub open spec fn spec_explanation(rules: Seq<RuleV>, a: ActionV) -> Seq<char> {
    if spec_matched(rules, a).len() == 0 {
        "No rules matched"@
    } else {
        crate::text::spec_join(spec_explanations(rules, a), "; "@)
    }
}

/// `spec_matched` and `spec_explanations` have one entry per matching rule.
pub proof fn lemma_matched_explanations_len(rules: Seq<RuleV>, a: ActionV)
    ensures
        spec_matched(rules, a).len() == spec_explanations(rules, a).len(),
    decreases rules.len(),
{
    if rules.len() > 0 {
        lemma_matched_explanations_len(rules.drop_last(), a);
    }
}

/// The analyzer owns a compiled rule set and evaluates actions against it.
pub struct Analyzer {
    rules: Vec<Rule>,
}

impl Analyzer {
    /// The views of the rules this analyzer holds.
    pub closed spec fn rules_view(self) -> Seq<RuleV> {
        self.rules.deep_view()
    }

    /// Every held rule is well formed (its compiled artifacts agree with its
    /// declarative fields).
    pub closed spec fn wf(self) -> bool {
        forall|i: int| 0 <= i < self.rules@.len() ==> (#[trigger] self.rules@[i]).wf()
    }

    /// Creates an analyzer over a compiled rule set.
    pub fn new(rules: Vec<Rule>) -> (r: Analyzer)
        requires
            forall|i: int| 0 <= i < rules@.len() ==> (#[trigger] rules@[i]).wf(),
        ensures
            r.wf(),
            r.rules_view() == rules.deep_view(),
    {
        Analyzer { rules }
    }

    /// Replaces the rule set atomically.
    pub fn reload_rules(&mut self, rules: Vec<Rule>)
        requires
            forall|i: int| 0 <= i < rules@.len() ==> (#[trigger] rules@[i]).wf(),
        ensures
            final(self).wf(),
            final(self).rules_view() == rules.deep_view(),
    {
        self.rules = rules;
    }

    /// Evaluates an action against the held rules. The verdict lists the
    /// matching rules in order, carries the maximum risk over them, the
    /// recommendation joined from their actions, and the standard
    /// explanation; evaluation is a pure function of the rule set and the
    /// action.
    pub fn analyze(&self, action: &AgentAction) -> (r: AnalysisResult)
        requires
            self.wf(),
        ensures
            r.action@ == action@,
            r.matched_rules.deep_view() == spec_matched(self.rules_view(), action@),
            r.risk_level == spec_risk(self.rules_view(), action@),
            r.recommendation == spec_recommendation(self.rules_view(), action@),
            r.explanation@ == spec_explanation(self.rules_view(), action@),
    {
        let ghost rv = self.rules.deep_view();
        let mut matched: Vec<String> = Vec::new();
        let mut expl: Vec<String> = Vec::new();
        let mut risk = RiskLevel::Info;
        let mut rec = Recommendation::LogOnly;
        let mut i: usize = 0;
        proof {
            assert(matched.deep_view() =~= spec_matched(rv.take(0), action@));
            assert(expl.deep_view() =~= spec_explanations(rv.take(0), action@));
        }
        while i < self.rules.len()
            invariant
                self.wf(),
                rv == self.rules.deep_view(),
                i <= self.rules@.len(),
                rv.len() == self.rules@.len(),
                matched.deep_view() == spec_matched(rv.take(i as int), action@),
                expl.deep_view() == spec_explanations(rv.take(i as int), action@),
                risk == spec_risk(rv.take(i as int), action@),
                rec == spec_recommendation(rv.take(i as int), action@),
            decreases self.rules@.len() - i,
        {
            let rule = &self.rules[i];
            proof {
                assert(rule@ == rv[i as int]);
            }
            if rule.matches(action) {
                let ghost m_before = matched.deep_view();
                let ghost e_before = expl.deep_view();
                matched.push(rule.get_name().clone());
                let mut msg = String::from_str("Matched rule: ");
                msg.append(rule.get_name().as_str());
                msg.append(" - ");
                msg.append(rule.get_description().as_str());
                expl.push(msg);
                risk = risk.max(rule.get_risk_level());
                rec = promote(rec, rule.get_action());
                proof {
                    assert(matched.deep_view() =~= m_before.push(rv[i as int].name));
                    assert(expl.deep_view() =~= e_before.push(
                        "Matched rule: "@ + rv[i as int].name + " - "@ + rv[i as int].description,
                    ));
                }
            }
            proof {
                assert(rv.take(i + 1).drop_last() =~= rv.take(i as int));
                assert(rv.take(i + 1).last() == rv[i as int]);
                assert(matched.deep_view() =~= spec_matched(rv.take(i + 1), action@));
                assert(expl.deep_view() =~= spec_explanations(rv.take(i + 1), action@));
            }
            i = i + 1;
        }
        proof {
            assert(rv.take(rv.len() as int) =~= rv);
        }
        let explanation: String = if matched.len() == 0 {
            proof {
                lemma_matched_explanations_len(rv, action@);
            }
            String::from_str("No rules matched")
        } else {
            crate::text::join_strs(&expl, "; ")
        };
        AnalysisResult {
            action: action.duplicate(),
            matched_rules: matched,
            risk_level: risk,
            recommendation: rec,
            explanation,
        }
    }
}

/// A coarse risk score from the matched rule names alone: informational
/// when nothing matched, a warning otherwise.
pub fn calculate_risk(action: &AgentAction, matched_rules: &Vec<String>) -> (r: RiskLevel)
    ensures
        r == if matched_rules@.len() == 0 {
            RiskLevel::Info
        } else {
            RiskLevel::Warning
        },
{
    let _ = action;
    if matched_rules.len() == 0 {
        RiskLevel::Info
    } else {
        RiskLevel::Warning
    }
}

/// Evaluates an action against the built-in default rules merged with the
/// self-protection set — the rule set the proxy starts with.
pub fn evaluate_with_default_rules(action: &AgentAction) -> (r: AnalysisResult)
    ensures
        r.action@ == action@,
        r.matched_rules.deep_view() == spec_matched(spec_merge(default_rules_v()), action@),
        r.risk_level == spec_risk(spec_merge(default_rules_v()), action@),
        r.recommendation == spec_recommendation(spec_merge(default_rules_v()), action@),
        r.explanation@ == spec_explanation(spec_merge(default_rules_v()), action@),
{
    let rules = merge_self_protection(default_rules());
    let analyzer = Analyzer::new(rules);
    analyzer.analyze(action)
}

// ------------------------------------------------------------------
// Laws of verdict aggregation
// ------------------------------------------------------------------

/// The verdict's risk is the maximum `risk_level` over the matched rules:
/// it dominates every matched rule's risk, and is attained by a matched rule
/// (or is `Info` when no rule matches).
pub proof fn lemma_risk_is_max(rules: Seq<RuleV>, a: ActionV)
    ensures
        forall|i: int| 0 <= i < rules.len() && spec_rule_matches(#[trigger] rules[i], a)
            ==> spec_risk(rules, a).rank() >= rules[i].risk_level.rank(),
        spec_risk(rules, a) == RiskLevel::Info || exists|i: int|
            0 <= i < rules.len() && spec_rule_matches(#[trigger] rules[i], a)
                && rules[i].risk_level == spec_risk(rules, a),
    decreases rules.len(),
{
    if rules.len() > 0 {
        lemma_risk_is_max(rules.drop_last(), a);
        let prev = spec_risk(rules.drop_last(), a);
        assert forall|i: int| 0 <= i < rules.len() && spec_rule_matches(
            #[trigger] rules[i],
            a,
        ) implies spec_risk(rules, a).rank() >= rules[i].risk_level.rank() by {
            if i < rules.len() - 1 {
                assert(rules.drop_last()[i] == rules[i]);
            }
        }
        if spec_risk(rules, a) != RiskLevel::Info {
            if spec_rule_matches(rules.last(), a) && spec_risk(rules, a)
                == rules.last().risk_level {
                assert(rules[rules.len() - 1] == rules.last());
            } else {
                assert(spec_risk(rules, a) == prev);
                let i = choose|i: int|
                    0 <= i < rules.drop_last().len() && spec_rule_matches(
                        #[trigger] rules.drop_last()[i],
                        a,
                    ) && rules.drop_last()[i].risk_level == prev;
                assert(rules[i] == rules.drop_last()[i]);
            }
        }
    }
}

/// The verdict's recommendation is the join of the matched rules' actions
/// under the promotion table: its strength dominates every matched rule's
/// demand, and is attained by a matched rule (or is `LogOnly` when none
/// match).
pub proof fn lemma_recommendation_is_join(rules: Seq<RuleV>, a: ActionV)
    ensures
        forall|i: int| 0 <= i < rules.len() && spec_rule_matches(#[trigger] rules[i], a)
            ==> spec_recommendation(rules, a).rank() >= action_rank(rules[i].action),
        spec_recommendation(rules, a) == Recommendation::LogOnly || exists|i: int|
            0 <= i < rules.len() && spec_rule_matches(#[trigger] rules[i], a) && action_rank(
                rules[i].action,
            ) == spec_recommendation(rules, a).rank(),
    decreases rules.len(),
{
    if rules.len() > 0 {
        lemma_recommendation_is_join(rules.drop_last(), a);
        let prev = spec_recommendation(rules.drop_last(), a);
        assert forall|i: int| 0 <= i < rules.len() && spec_rule_matches(
            #[trigger] rules[i],
            a,
        ) implies spec_recommendation(rules, a).rank() >= action_rank(rules[i].action) by {
            if i < rules.len() - 1 {
                assert(rules.drop_last()[i] == rules[i]);
            }
        }
        if spec_recommendation(rules, a) != Recommendation::LogOnly {
            if spec_rule_matches(rules.last(), a) && action_rank(rules.last().action)
                == spec_recommendation(rules, a).rank() {
                assert(rules[rules.len() - 1] == rules.last());
            } else {
                assert(spec_recommendation(rules, a) == prev);
                let i = choose|i: int|
                    0 <= i < rules.drop_last().len() && spec_rule_matches(
                        #[trigger] rules.drop_last()[i],
                        a,
                    ) && action_rank(rules.drop_last()[i].action) == prev.rank();
                assert(rules[i] == rules.drop_last()[i]);
            }
        }
    }
}

/// Every action that matches any rule of the self-protection set evaluates,
/// in any rule set containing that rule, to risk `Critical` and
/// recommendation `CriticalAlert`.
pub proof fn lemma_self_protection_verdict(rules: Seq<RuleV>, a: ActionV, i: int)
    requires
        0 <= i < rules.len(),
        sp_rules_v().contains(rules[i]),
        spec_rule_matches(rules[i], a),
    ensures
        spec_risk(rules, a) == RiskLevel::Critical,
        spec_recommendation(rules, a) == Recommendation::CriticalAlert,
{
    let j = choose|j: int| 0 <= j < sp_rules_v().len() && sp_rules_v()[j] == rules[i];
    assert(rules[i].risk_level == RiskLevel::Critical);
    assert(rules[i].action == RuleAction::Block);
    lemma_risk_is_max(rules, a);
    lemma_recommendation_is_join(rules, a);
    assert(spec_risk(rules, a).rank() >= 2);
    assert(spec_risk(rules, a) == RiskLevel::Critical);
    assert(spec_recommendation(rules, a).rank() >= 3);
    assert(spec_recommendation(rules, a) == Recommendation::CriticalAlert);
}

} // verus!
