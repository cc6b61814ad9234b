//! Ontology building blocks: deduplicated node and edge lists, and the
//! project prefix of a file path.

use vstd::prelude::*;
use crate::text::{spec_join, join_strs};

verus! {

/// One node of the knowledge graph.
pub struct OntologyNode {
    /// Unique identifier, `kind:key`.
    pub id: String,
    /// The node kind.
    pub kind: String,
    /// Display title.
    pub title: String,
}

/// One edge of the knowledge graph.
pub struct OntologyEdge {
    /// Source node id.
    pub from: String,
    /// Target node id.
    pub to: String,
    /// Relation name.
    pub rel: String,
}

/// Counts of what a build produced.
pub struct OntologyBuildSummary {
    /// Number of nodes.
    pub nodes: usize,
    /// Number of edges.
    pub edges: usize,
}

/// Aggregate insight counters of a semantic build.
pub struct BrainInsights {
    /// Commands repeated often enough to form a pattern.
    pub repeated_patterns: usize,
    /// Commands that look like decisions.
    pub decisions_detected: usize,
    /// Commands that repeatedly hit risk rules.
    pub bottlenecks_detected: usize,
    /// Tool skills inferred per agent.
    pub skills_inferred: usize,
}

/// Whether a string list contains a text.
pub open spec fn seen_contains(seen: Seq<Seq<char>>, key: Seq<char>) -> bool {
    exists|i: int| 0 <= i < seen.len() && seen[i] == key
}

fn list_contains(seen: &Vec<String>, key: &str) -> (r: bool)
    ensures
        r == seen_contains(seen.deep_view(), key@),
{
    let mut i: usize = 0;
    while i < seen.len()
        invariant
            i <= seen@.len(),
            forall|j: int| 0 <= j < i ==> seen.deep_view()[j] != key@,
        decreases seen@.len() - i,
    {
        if crate::text::str_eq(seen[i].as_str(), key) {
            assert(seen.deep_view()[i as int] == seen@[i as int]@);
            return true;
        }
        assert(seen.deep_view()[i as int] == seen@[i as int]@);
        i = i + 1;
    }
    false
}

/// Appends a node unless one with its id was already appended; the seen
/// list tracks the ids.
pub fn push_node(nodes: &mut Vec<OntologyNode>, seen: &mut Vec<String>, node: OntologyNode)
    ensures
        seen_contains(old(seen).deep_view(), node.id@) ==> final(nodes)@ == old(nodes)@
            && final(seen)@ == old(seen)@,
        !seen_contains(old(seen).deep_view(), node.id@) ==> final(nodes)@ == old(nodes)@.push(
            node,
        ) && final(seen).deep_view() == old(seen).deep_view().push(node.id@),
{
    if !list_contains(seen, node.id.as_str()) {
        let ghost s_before = seen.deep_view();
        seen.push(node.id.clone());
        proof {
            assert(seen.deep_view() =~= s_before.push(node.id@));
        }
        nodes.push(node);
    }
}

/// Appends an edge unless one with the same endpoints and relation was
/// already appended; the seen list tracks `from|to|rel` keys.
pub fn push_edge(edges: &mut Vec<OntologyEdge>, seen: &mut Vec<String>, edge: OntologyEdge)
    ensures
        ({
            let key = edge.from@ + seq!['|'] + edge.to@ + seq!['|'] + edge.rel@;
            &&& (seen_contains(old(seen).deep_view(), key) ==> final(edges)@ == old(edges)@
                && final(seen)@ == old(seen)@)
            &&& (!seen_contains(old(seen).deep_view(), key) ==> final(edges)@ == old(
                edges,
            )@.push(edge) && final(seen).deep_view() == old(seen).deep_view().push(key))
        }),
{
    let mut key = edge.from.clone();
    crate::text::push_char(&mut key, '|');
    key.append(edge.to.as_str());
    crate::text::push_char(&mut key, '|');
    key.append(edge.rel.as_str());
    proof {
        assert(key@ =~= edge.from@ + seq!['|'] + edge.to@ + seq!['|'] + edge.rel@);
    }
    if !list_contains(seen, key.as_str()) {
        let ghost s_before = seen.deep_view();
        seen.push(key);
        proof {
            assert(seen.deep_view() =~= s_before.push(
                edge.from@ + seq!['|'] + edge.to@ + seq!['|'] + edge.rel@,
            ));
        }
        edges.push(edge);
    }
}

/// The non-empty pieces of a split.
pub open spec fn spec_nonempty(parts: Seq<Seq<char>>) -> Seq<Seq<char>>
    decreases parts.len(),
{
    if parts.len() == 0 {
        Seq::empty()
    } else {
        spec_nonempty(parts.drop_last()) + (if parts.last().len() > 0 {
            seq![parts.last()]
        } else {
            Seq::empty()
        })
    }
}

/// The non-empty `/`-separated components of a path.
pub open spec fn path_parts(s: Seq<char>) -> Seq<Seq<char>> {
    spec_nonempty(crate::text::spec_split_char(s, '/'))
}

/// The project prefix of a file path: its first four non-empty components,
/// or the path itself when it has fewer.
pub open spec fn spec_project_from_path(s: Seq<char>) -> Seq<char> {
    let parts = path_parts(s);
    if parts.len() >= 4 {
        seq!['/'] + spec_join(parts.take(4), "/"@)
    } else {
        s
    }
}

/// Extracts the project prefix of a file path.
pub fn project_from_path(path: &str) -> (r: String)
    ensures
        r@ == spec_project_from_path(path@),
{
    let pieces = crate::text::split_char(path, '/');
    let mut parts: Vec<String> = Vec::new();
    let ghost pv = pieces.deep_view();
    let mut i: usize = 0;
    proof {
        assert(parts.deep_view() =~= spec_nonempty(pv.take(0)));
    }
    while i < pieces.len()
        invariant
            pv == pieces.deep_view(),
            i <= pv.len(),
            parts.deep_view() == spec_nonempty(pv.take(i as int)),
        decreases pv.len() - i,
    {
        let ghost before = parts.deep_view();
        if pieces[i].unicode_len() > 0 {
            parts.push(pieces[i].clone());
            proof {
                assert(parts.deep_view() =~= before.push(pv[i as int]));
            }
        }
        proof {
            assert(pv.take(i + 1).drop_last() =~= pv.take(i as int));
            assert(pv.take(i + 1).last() == pv[i as int]);
            assert(parts.deep_view() =~= spec_nonempty(pv.take(i + 1)));
        }
        i = i + 1;
    }
    proof {
        assert(pv.take(pv.len() as int) =~= pv);
    }
    if parts.len() >= 4 {
        let mut head: Vec<String> = Vec::new();
        head.push(parts[0].clone());
        head.push(parts[1].clone());
        head.push(parts[2].clone());
        head.push(parts[3].clone());
        proof {
            assert(head.deep_view() =~= parts.deep_view().take(4));
        }
        let joined = join_strs(&head, "/");
        let mut out = String::new();
        crate::text::push_char(&mut out, '/');
        out.append(joined.as_str());
        proof {
            assert(out@ =~= seq!['/'] + joined@);
        }
        out
    } else {
        String::from_str(path)
    }
}

} // verus!
