//! The template catalog: each template expands, as a pure function of its
//! parameters, into concrete regex patterns, a default action-kind filter,
//! and a description.

use vstd::prelude::*;
use crate::model::ActionType;
use crate::pattern::is_meta_char;
use crate::rules::{TemplateParams, TemplateParamsV};
use crate::text::{spec_join, join_strs};

verus! {

/// The templates the catalog ships; `Unknown` stands for any other name.
#[derive(Debug, Clone, Copy, PartialEq, Eq, Structural)]
pub enum TemplateKind {
    ProtectPath,
    PreventDelete,
    PreventOverwrite,
    BlockHiddenFiles,
    BlockCommand,
    BlockSudo,
    BlockPackageInstall,
    BlockServiceControl,
    BlockNetworkTools,
    BlockCompiler,
    PreventExfiltration,
    ProtectSecrets,
    ProtectDatabase,
    ProtectGit,
    ProtectSystemConfig,
    BlockDiskOperations,
    BlockUserManagement,
    BlockCronModification,
    BlockFirewallChanges,
    BlockApp,
    BlockDocker,
    BlockKillProcess,
    BlockPortOpen,
    BlockSshConnection,
    BlockDnsChange,
    Unknown,
}

/// What a template expands to.
pub ghost struct ExpansionV {
    pub patterns: Seq<Seq<char>>,
    pub kinds: Seq<ActionType>,
    pub description: Seq<char>,
}

// ------------------------------------------------------------------
// Small verified builders
// ------------------------------------------------------------------

/// Appends one literal pattern to a pattern list.
fn push_lit(v: &mut Vec<String>, s: &str)
    ensures
        final(v).deep_view() == old(v).deep_view().push(s@),
{
    v.push(String::from_str(s));
    assert(v.deep_view() =~= old(v).deep_view().push(s@));
}

/// A path turned into a regex that matches it literally, with `*` as a
/// trailing or embedded wildcard (`.*`).
pub open spec fn spec_path_to_regex(s: Seq<char>) -> Seq<char>
    decreases s.len(),
{
    if s.len() == 0 {
        Seq::empty()
    } else {
        spec_path_to_regex(s.drop_last()) + (if s.last() == '*' {
            seq!['.', '*']
        } else if is_meta_char(s.last()) {
            seq!['\\', s.last()]
        } else {
            seq![s.last()]
        })
    }
}

/// Builds the regex for a protected path: meta characters are escaped and
/// `*` becomes `.*`.
pub fn path_to_regex(path: &str) -> (r: String)
    ensures
        r@ == spec_path_to_regex(path@),
{
    let n = path.unicode_len();
    let mut out = String::new();
    let mut i: usize = 0;
    assert(out@ =~= spec_path_to_regex(path@.take(0)));
    while i < n
        invariant
            n == path@.len(),
            i <= n,
            out@ == spec_path_to_regex(path@.take(i as int)),
        decreases n - i,
    {
        let c = path.get_char(i);
        if c == '*' {
            crate::text::push_char(&mut out, '.');
            crate::text::push_char(&mut out, '*');
        } else {
            let meta = c == '\\' || c == '.' || c == '+' || c == '?' || c == '(' || c == ')'
                || c == '|' || c == '[' || c == ']' || c == '{' || c == '}' || c == '^' || c
                == '$' || c == '#' || c == '&' || c == '-' || c == '~';
            if meta {
                crate::text::push_char(&mut out, '\\');
            }
            crate::text::push_char(&mut out, c);
        }
        proof {
            assert(path@.take(i + 1).drop_last() =~= path@.take(i as int));
            assert(path@.take(i + 1).last() == path@[i as int]);
            assert(out@ =~= spec_path_to_regex(path@.take(i + 1)));
        }
        i = i + 1;
    }
    assert(path@.take(n as int) =~= path@);
    out
}

/// The paths a template protects: `paths` plus the single `path` when given
/// and non-empty.
pub open spec fn spec_collect_paths(p: TemplateParamsV) -> Seq<Seq<char>> {
    p.paths + (match p.path {
        Some(s) => if s.len() > 0 {
            seq![s]
        } else {
            Seq::empty()
        },
        None => Seq::empty(),
    })
}

/// Collects the paths named by the parameters.
pub fn collect_paths(params: &TemplateParams) -> (r: Vec<String>)
    ensures
        r.deep_view() == spec_collect_paths(params@),
{
    let mut out: Vec<String> = Vec::new();
    let mut i: usize = 0;
    while i < params.paths.len()
        invariant
            i <= params.paths@.len(),
            out.deep_view() == params.paths.deep_view().take(i as int),
        decreases params.paths@.len() - i,
    {
        let ghost before = out.deep_view();
        out.push(params.paths[i].clone());
        proof {
            assert(out.deep_view() =~= before.push(params.paths@[i as int]@));
            assert(params.paths.deep_view()[i as int] == params.paths@[i as int]@);
            assert(out.deep_view() =~= params.paths.deep_view().take(i + 1));
        }
        i = i + 1;
    }
    assert(out.deep_view() =~= params.paths.deep_view());
    match &params.path {
        Some(p) => {
            if p.unicode_len() > 0 {
                let ghost before = out.deep_view();
                out.push(p.clone());
                assert(out.deep_view() =~= before.push(p@));
                assert(out.deep_view() =~= spec_collect_paths(params@));
            } else {
                assert(out.deep_view() =~= spec_collect_paths(params@));
            }
        },
        None => {
            assert(out.deep_view() =~= spec_collect_paths(params@));
        },
    }
    out
}

/// The operations a protect-path rule covers: the given ones, or
/// read, write and delete when none are given.
pub open spec fn spec_ops(p: TemplateParamsV) -> Seq<Seq<char>> {
    if p.operations.len() == 0 {
        seq!["read"@, "write"@, "delete"@]
    } else {
        p.operations
    }
}

/// The action kinds named by a list of operations; unrecognized names are
/// dropped.
pub open spec fn spec_op_kinds(ops: Seq<Seq<char>>) -> Seq<ActionType>
    decreases ops.len(),
{
    if ops.len() == 0 {
        Seq::empty()
    } else {
        spec_op_kinds(ops.drop_last()) + (if ops.last() == "read"@ {
            seq![ActionType::FileRead]
        } else if ops.last() == "write"@ {
            seq![ActionType::FileWrite]
        } else if ops.last() == "delete"@ {
            seq![ActionType::FileDelete]
        } else {
            Seq::empty()
        })
    }
}

/// The commands a block-command or block-app template targets:
/// `commands`, or `patterns` when `commands` is empty.
pub open spec fn spec_cmds(p: TemplateParamsV) -> Seq<Seq<char>> {
    if p.commands.len() == 0 {
        p.patterns
    } else {
        p.commands
    }
}

/// Copies a string vector.
fn clone_strs(v: &Vec<String>) -> (r: Vec<String>)
    ensures
        r.deep_view() == v.deep_view(),
{
    let mut out: Vec<String> = Vec::new();
    let mut i: usize = 0;
    while i < v.len()
        invariant
            i <= v@.len(),
            out.deep_view() == v.deep_view().take(i as int),
        decreases v@.len() - i,
    {
        let ghost before = out.deep_view();
        out.push(v[i].clone());
        proof {
            assert(out.deep_view() =~= before.push(v@[i as int]@));
            assert(v.deep_view()[i as int] == v@[i as int]@);
            assert(out.deep_view() =~= v.deep_view().take(i + 1));
        }
        i = i + 1;
    }
    assert(out.deep_view() =~= v.deep_view());
    out
}

// ------------------------------------------------------------------
// Parameterized templates
// ------------------------------------------------------------------

/// The patterns of a protect-path expansion, three per path.
pub open spec fn spec_protect_path_patterns(paths: Seq<Seq<char>>) -> Seq<Seq<char>>
    decreases paths.len(),
{
    if paths.len() == 0 {
        Seq::empty()
    } else {
        spec_protect_path_patterns(paths.drop_last()) + protect_path_three(paths.last())
    }
}

/// The three patterns guarding one path.
pub open spec fn protect_path_three(p: Seq<char>) -> Seq<Seq<char>> {
    let r = spec_path_to_regex(p);
    seq![
        r,
        "(cat|less|head|tail|vi|vim|nano|code|open)\\s+.*"@ + r,
        "(rm|mv|cp|chmod|chown)\\s+.*"@ + r,
    ]
}

/// The full protect-path expansion.
pub open spec fn spec_protect_path(p: TemplateParamsV) -> ExpansionV {
    let paths = spec_collect_paths(p);
    let ops = spec_ops(p);
    ExpansionV {
        patterns: spec_protect_path_patterns(paths),
        kinds: spec_op_kinds(ops) + seq![ActionType::Exec],
        description: "Protect path: "@ + spec_join(paths, ", "@) + " (ops: "@ + spec_join(
            ops,
            ", "@,
        ) + ")"@,
    }
}

/// Expands `protect_path`: blocks reads, writes and deletes of the given
/// paths, and commands that reference them.
pub fn expand_protect_path(params: &TemplateParams) -> (r: (Vec<String>, Vec<ActionType>, String))
    ensures
        r.0.deep_view() == spec_protect_path(params@).patterns,
        r.1@ == spec_protect_path(params@).kinds,
        r.2@ == spec_protect_path(params@).description,
{
    let paths = collect_paths(params);
    let ops: Vec<String> = if params.operations.len() == 0 {
        let mut v: Vec<String> = Vec::new();
        push_lit(&mut v, "read");
        push_lit(&mut v, "write");
        push_lit(&mut v, "delete");
        proof {
            assert(v.deep_view() =~= spec_ops(params@));
        }
        v
    } else {
        clone_strs(&params.operations)
    };

    let ghost gp = paths.deep_view();
    let mut patterns: Vec<String> = Vec::new();
    let mut i: usize = 0;
    assert(patterns.deep_view() =~= spec_protect_path_patterns(gp.take(0)));
    while i < paths.len()
        invariant
            gp == paths.deep_view(),
            i <= gp.len(),
            patterns.deep_view() == spec_protect_path_patterns(gp.take(i as int)),
        decreases gp.len() - i,
    {
        let p = path_to_regex(paths[i].as_str());
        let ghost before = patterns.deep_view();
        patterns.push(p.clone());
        let mut c1 = String::from_str("(cat|less|head|tail|vi|vim|nano|code|open)\\s+.*");
        c1.append(p.as_str());
        patterns.push(c1);
        let mut c2 = String::from_str("(rm|mv|cp|chmod|chown)\\s+.*");
        c2.append(p.as_str());
        patterns.push(c2);
        proof {
            assert(gp.take(i + 1).drop_last() =~= gp.take(i as int));
            assert(gp.take(i + 1).last() == gp[i as int]);
            assert(patterns.deep_view() =~= before + protect_path_three(gp[i as int]));
            assert(patterns.deep_view() =~= spec_protect_path_patterns(gp.take(i + 1)));
        }
        i = i + 1;
    }
    assert(gp.take(gp.len() as int) =~= gp);

    let ghost go = ops.deep_view();
    let mut kinds: Vec<ActionType> = Vec::new();
    let mut j: usize = 0;
    assert(kinds@ =~= spec_op_kinds(go.take(0)));
    while j < ops.len()
        invariant
            go == ops.deep_view(),
            j <= go.len(),
            kinds@ == spec_op_kinds(go.take(j as int)),
        decreases go.len() - j,
    {
        let ghost before = kinds@;
        if crate::text::str_eq(ops[j].as_str(), "read") {
            kinds.push(ActionType::FileRead);
        } else if crate::text::str_eq(ops[j].as_str(), "write") {
            kinds.push(ActionType::FileWrite);
        } else if crate::text::str_eq(ops[j].as_str(), "delete") {
            kinds.push(ActionType::FileDelete);
        }
        proof {
            assert(go.take(j + 1).drop_last() =~= go.take(j as int));
            assert(go.take(j + 1).last() == go[j as int]);
            assert(kinds@ =~= spec_op_kinds(go.take(j + 1)));
        }
        j = j + 1;
    }
    assert(go.take(go.len() as int) =~= go);
    kinds.push(ActionType::Exec);

    let mut desc = String::from_str("Protect path: ");
    let pj = join_strs(&paths, ", ");
    desc.append(pj.as_str());
    desc.append(" (ops: ");
    let oj = join_strs(&ops, ", ");
    desc.append(oj.as_str());
    desc.append(")");
    proof {
        assert(kinds@ =~= spec_protect_path(params@).kinds);
        assert(desc@ =~= spec_protect_path(params@).description);
    }
    (patterns, kinds, desc)
}

/// The patterns of a prevent-delete expansion, two per path.
pub open spec fn spec_prevent_delete_patterns(paths: Seq<Seq<char>>) -> Seq<Seq<char>>
    decreases paths.len(),
{
    if paths.len() == 0 {
        Seq::empty()
    } else {
        spec_prevent_delete_patterns(paths.drop_last()) + seq![
            "(rm|rmdir|unlink|trash|delete)\\s+.*"@ + spec_path_to_regex(paths.last()),
            "shred\\s+.*"@ + spec_path_to_regex(paths.last()),
        ]
    }
}

/// The full prevent-delete expansion.
pub open spec fn spec_prevent_delete(p: TemplateParamsV) -> ExpansionV {
    let paths = spec_collect_paths(p);
    ExpansionV {
        patterns: spec_prevent_delete_patterns(paths),
        kinds: seq![ActionType::Exec, ActionType::FileDelete],
        description: "Prevent delete: "@ + spec_join(paths, ", "@),
    }
}

/// Expands `prevent_delete`: blocks commands that delete the given paths.
pub fn expand_prevent_delete(params: &TemplateParams) -> (r: (
    Vec<String>,
    Vec<ActionType>,
    String,
))
    ensures
        r.0.deep_view() == spec_prevent_delete(params@).patterns,
        r.1@ == spec_prevent_delete(params@).kinds,
        r.2@ == spec_prevent_delete(params@).description,
{
    let paths = collect_paths(params);
    let ghost gp = paths.deep_view();
    let mut patterns: Vec<String> = Vec::new();
    let mut i: usize = 0;
    assert(patterns.deep_view() =~= spec_prevent_delete_patterns(gp.take(0)));
    while i < paths.len()
        invariant
            gp == paths.deep_view(),
            i <= gp.len(),
            patterns.deep_view() == spec_prevent_delete_patterns(gp.take(i as int)),
        decreases gp.len() - i,
    {
        let p = path_to_regex(paths[i].as_str());
        let ghost before = patterns.deep_view();
        let mut c1 = String::from_str("(rm|rmdir|unlink|trash|delete)\\s+.*");
        c1.append(p.as_str());
        patterns.push(c1);
        let mut c2 = String::from_str("shred\\s+.*");
        c2.append(p.as_str());
        patterns.push(c2);
        proof {
            assert(gp.take(i + 1).drop_last() =~= gp.take(i as int));
            assert(gp.take(i + 1).last() == gp[i as int]);
            assert(patterns.deep_view() =~= spec_prevent_delete_patterns(gp.take(i + 1)));
        }
        i = i + 1;
    }
    assert(gp.take(gp.len() as int) =~= gp);

    let mut kinds: Vec<ActionType> = Vec::new();
    kinds.push(ActionType::Exec);
    kinds.push(ActionType::FileDelete);
    assert(kinds@ =~= seq![ActionType::Exec, ActionType::FileDelete]);

    let mut desc = String::from_str("Prevent delete: ");
    let pj = join_strs(&paths, ", ");
    desc.append(pj.as_str());
    (patterns, kinds, desc)
}

/// The patterns of a prevent-overwrite expansion, two per path.
pub open spec fn spec_prevent_overwrite_patterns(paths: Seq<Seq<char>>) -> Seq<Seq<char>>
    decreases paths.len(),
{
    if paths.len() == 0 {
        Seq::empty()
    } else {
        spec_prevent_overwrite_patterns(paths.drop_last()) + seq![
            "(>|tee|cp|mv|dd)\\s+.*"@ + spec_path_to_regex(paths.last()),
            spec_path_to_regex(paths.last()),
        ]
    }
}

/// The full prevent-overwrite expansion.
pub open spec fn spec_prevent_overwrite(p: TemplateParamsV) -> ExpansionV {
    let paths = spec_collect_paths(p);
    ExpansionV {
        patterns: spec_prevent_overwrite_patterns(paths),
        kinds: seq![ActionType::Exec, ActionType::FileWrite],
        description: "Prevent overwrite: "@ + spec_join(paths, ", "@),
    }
}

/// Expands `prevent_overwrite`: blocks writes over the given paths.
pub fn expand_prevent_overwrite(params: &TemplateParams) -> (r: (
    Vec<String>,
    Vec<ActionType>,
    String,
))
    ensures
        r.0.deep_view() == spec_prevent_overwrite(params@).patterns,
        r.1@ == spec_prevent_overwrite(params@).kinds,
        r.2@ == spec_prevent_overwrite(params@).description,
{
    let paths = collect_paths(params);
    let ghost gp = paths.deep_view();
    let mut patterns: Vec<String> = Vec::new();
    let mut i: usize = 0;
    assert(patterns.deep_view() =~= spec_prevent_overwrite_patterns(gp.take(0)));
    while i < paths.len()
        invariant
            gp == paths.deep_view(),
            i <= gp.len(),
            patterns.deep_view() == spec_prevent_overwrite_patterns(gp.take(i as int)),
        decreases gp.len() - i,
    {
        let p = path_to_regex(paths[i].as_str());
        let ghost before = patterns.deep_view();
        let mut c1 = String::from_str("(>|tee|cp|mv|dd)\\s+.*");
        c1.append(p.as_str());
        patterns.push(c1);
        patterns.push(p);
        proof {
            assert(gp.take(i + 1).drop_last() =~= gp.take(i as int));
            assert(gp.take(i + 1).last() == gp[i as int]);
            assert(patterns.deep_view() =~= spec_prevent_overwrite_patterns(gp.take(i + 1)));
        }
        i = i + 1;
    }
    assert(gp.take(gp.len() as int) =~= gp);

    let mut kinds: Vec<ActionType> = Vec::new();
    kinds.push(ActionType::Exec);
    kinds.push(ActionType::FileWrite);
    assert(kinds@ =~= seq![ActionType::Exec, ActionType::FileWrite]);

    let mut desc = String::from_str("Prevent overwrite: ");
    let pj = join_strs(&paths, ", ");
    desc.append(pj.as_str());
    (patterns, kinds, desc)
}

/// The patterns of a block-command expansion, one per command.
pub open spec fn spec_block_command_patterns(cmds: Seq<Seq<char>>) -> Seq<Seq<char>>
    decreases cmds.len(),
{
    if cmds.len() == 0 {
        Seq::empty()
    } else {
        spec_block_command_patterns(cmds.drop_last()) + seq![
            "(?:^|\\s|/)"@ + crate::pattern::spec_escape_regex(cmds.last()),
        ]
    }
}

/// The full block-command expansion.
pub open spec fn spec_block_command(p: TemplateParamsV) -> ExpansionV {
    let cmds = spec_cmds(p);
    ExpansionV {
        patterns: spec_block_command_patterns(cmds),
        kinds: seq![ActionType::Exec],
        description: "Block commands: "@ + spec_join(cmds, ", "@),
    }
}

/// Expands `block_command`: blocks the given commands wherever they start a
/// word in a shell line.
pub fn expand_block_command(params: &TemplateParams) -> (r: (
    Vec<String>,
    Vec<ActionType>,
    String,
))
    ensures
        r.0.deep_view() == spec_block_command(params@).patterns,
        r.1@ == spec_block_command(params@).kinds,
        r.2@ == spec_block_command(params@).description,
{
    let cmds: Vec<String> = if params.commands.len() == 0 {
        clone_strs(&params.patterns)
    } else {
        clone_strs(&params.commands)
    };
    let ghost gc = cmds.deep_view();
    let mut patterns: Vec<String> = Vec::new();
    let mut i: usize = 0;
    assert(patterns.deep_view() =~= spec_block_command_patterns(gc.take(0)));
    while i < cmds.len()
        invariant
            gc == cmds.deep_view(),
            i <= gc.len(),
            patterns.deep_view() == spec_block_command_patterns(gc.take(i as int)),
        decreases gc.len() - i,
    {
        let e = crate::pattern::escape_for_regex(cmds[i].as_str());
        let mut c = String::from_str("(?:^|\\s|/)");
        c.append(e.as_str());
        patterns.push(c);
        proof {
            assert(gc.take(i + 1).drop_last() =~= gc.take(i as int));
            assert(gc.take(i + 1).last() == gc[i as int]);
            assert(patterns.deep_view() =~= spec_block_command_patterns(gc.take(i + 1)));
        }
        i = i + 1;
    }
    assert(gc.take(gc.len() as int) =~= gc);

    let mut kinds: Vec<ActionType> = Vec::new();
    kinds.push(ActionType::Exec);
    assert(kinds@ =~= seq![ActionType::Exec]);

    let mut desc = String::from_str("Block commands: ");
    let cj = join_strs(&cmds, ", ");
    desc.append(cj.as_str());
    (patterns, kinds, desc)
}

/// The patterns of a block-app expansion, two per app.
pub open spec fn spec_block_app_patterns(apps: Seq<Seq<char>>) -> Seq<Seq<char>>
    decreases apps.len(),
{
    if apps.len() == 0 {
        Seq::empty()
    } else {
        spec_block_app_patterns(apps.drop_last()) + seq![
            "(?:^|\\s|/)"@ + crate::pattern::spec_escape_regex(apps.last()) + "(\\s|$)"@,
            "open\\s+.*"@ + crate::pattern::spec_escape_regex(apps.last()) + ".*\\.app"@,
        ]
    }
}

/// The full block-app expansion.
pub open spec fn spec_block_app(p: TemplateParamsV) -> ExpansionV {
    let apps = spec_cmds(p);
    ExpansionV {
        patterns: spec_block_app_patterns(apps),
        kinds: seq![ActionType::Exec],
        description: "Block apps: "@ + spec_join(apps, ", "@),
    }
}

/// Expands `block_app`: blocks running or opening the given applications.
pub fn expand_block_app(params: &TemplateParams) -> (r: (Vec<String>, Vec<ActionType>, String))
    ensures
        r.0.deep_view() == spec_block_app(params@).patterns,
        r.1@ == spec_block_app(params@).kinds,
        r.2@ == spec_block_app(params@).description,
{
    let apps: Vec<String> = if params.commands.len() == 0 {
        clone_strs(&params.patterns)
    } else {
        clone_strs(&params.commands)
    };
    let ghost ga = apps.deep_view();
    let mut patterns: Vec<String> = Vec::new();
    let mut i: usize = 0;
    assert(patterns.deep_view() =~= spec_block_app_patterns(ga.take(0)));
    while i < apps.len()
        invariant
            ga == apps.deep_view(),
            i <= ga.len(),
            patterns.deep_view() == spec_block_app_patterns(ga.take(i as int)),
        decreases ga.len() - i,
    {
        let e = crate::pattern::escape_for_regex(apps[i].as_str());
        let mut c1 = String::from_str("(?:^|\\s|/)");
        c1.append(e.as_str());
        c1.append("(\\s|$)");
        patterns.push(c1);
        let mut c2 = String::from_str("open\\s+.*");
        c2.append(e.as_str());
        c2.append(".*\\.app");
        patterns.push(c2);
        proof {
            assert(ga.take(i + 1).drop_last() =~= ga.take(i as int));
            assert(ga.take(i + 1).last() == ga[i as int]);
            assert(patterns.deep_view() =~= spec_block_app_patterns(ga.take(i + 1)));
        }
        i = i + 1;
    }
    assert(ga.take(ga.len() as int) =~= ga);

    let mut kinds: Vec<ActionType> = Vec::new();
    kinds.push(ActionType::Exec);
    assert(kinds@ =~= seq![ActionType::Exec]);

    let mut desc = String::from_str("Block apps: ");
    let aj = join_strs(&apps, ", ");
    desc.append(aj.as_str());
    (patterns, kinds, desc)
}

/// The patterns of the fallback expansion: the user patterns, escaped.
pub open spec fn spec_unknown_patterns(pats: Seq<Seq<char>>) -> Seq<Seq<char>>
    decreases pats.len(),
{
    if pats.len() == 0 {
        Seq::empty()
    } else {
        spec_unknown_patterns(pats.drop_last()) + seq![
            crate::pattern::spec_escape_regex(pats.last()),
        ]
    }
}

/// The fallback expansion for unknown template names.
pub open spec fn spec_unknown(p: TemplateParamsV) -> ExpansionV {
    ExpansionV {
        patterns: spec_unknown_patterns(p.patterns),
        kinds: seq![ActionType::Exec],
        description: "Unknown template"@,
    }
}

/// Expands an unknown template: the user patterns are taken literally.
pub fn expand_unknown(params: &TemplateParams) -> (r: (Vec<String>, Vec<ActionType>, String))
    ensures
        r.0.deep_view() == spec_unknown(params@).patterns,
        r.1@ == spec_unknown(params@).kinds,
        r.2@ == spec_unknown(params@).description,
{
    let ghost gp = params.patterns.deep_view();
    let mut patterns: Vec<String> = Vec::new();
    let mut i: usize = 0;
    assert(patterns.deep_view() =~= spec_unknown_patterns(gp.take(0)));
    while i < params.patterns.len()
        invariant
            gp == params.patterns.deep_view(),
            i <= gp.len(),
            patterns.deep_view() == spec_unknown_patterns(gp.take(i as int)),
        decreases gp.len() - i,
    {
        let e = crate::pattern::escape_for_regex(params.patterns[i].as_str());
        patterns.push(e);
        proof {
            assert(gp.take(i + 1).drop_last() =~= gp.take(i as int));
            assert(gp.take(i + 1).last() == gp[i as int]);
            assert(patterns.deep_view() =~= spec_unknown_patterns(gp.take(i + 1)));
        }
        i = i + 1;
    }
    assert(gp.take(gp.len() as int) =~= gp);

    let mut kinds: Vec<ActionType> = Vec::new();
    kinds.push(ActionType::Exec);
    assert(kinds@ =~= seq![ActionType::Exec]);

    (patterns, kinds, String::from_str("Unknown template"))
}

// ------------------------------------------------------------------
// Fixed templates
// ------------------------------------------------------------------

/// The block-hidden-files expansion.
pub open spec fn spec_block_hidden_files() -> ExpansionV {
    ExpansionV {
        patterns: seq![
            "\\.(env|secrets|credentials|htpasswd|htaccess|pgpass)"@,
            "\\.ssh/(id_rsa|id_ed25519|id_ecdsa|config|authorized_keys|known_hosts)"@,
            "\\.gnupg/"@,
            "\\.aws/(credentials|config)"@,
            "\\.kube/config"@,
            "\\.docker/config\\.json"@,
            "\\.npmrc"@,
            "\\.netrc"@,
            "\\.gitconfig"@,
        ],
        kinds: seq![ActionType::Exec, ActionType::FileRead, ActionType::FileWrite],
        description: "Block access to hidden/secret files (.env, .ssh, .aws, etc.)"@,
    }
}

/// Expands `block_hidden_files`: blocks access to dot files that hold secrets.
pub fn expand_block_hidden_files(_params: &TemplateParams) -> (r: (
    Vec<String>,
    Vec<ActionType>,
    String,
))
    ensures
        r.0.deep_view() == spec_block_hidden_files().patterns,
        r.1@ == spec_block_hidden_files().kinds,
        r.2@ == spec_block_hidden_files().description,
{
    let mut pats: Vec<String> = Vec::new();
    push_lit(&mut pats, "\\.(env|secrets|credentials|htpasswd|htaccess|pgpass)");
    push_lit(&mut pats, "\\.ssh/(id_rsa|id_ed25519|id_ecdsa|config|authorized_keys|known_hosts)");
    push_lit(&mut pats, "\\.gnupg/");
    push_lit(&mut pats, "\\.aws/(credentials|config)");
    push_lit(&mut pats, "\\.kube/config");
    push_lit(&mut pats, "\\.docker/config\\.json");
    push_lit(&mut pats, "\\.npmrc");
    push_lit(&mut pats, "\\.netrc");
    push_lit(&mut pats, "\\.gitconfig");
    let mut kinds: Vec<ActionType> = Vec::new();
    kinds.push(ActionType::Exec);
    kinds.push(ActionType::FileRead);
    kinds.push(ActionType::FileWrite);
    proof {
        assert(pats.deep_view() =~= spec_block_hidden_files().patterns);
        assert(kinds@ =~= spec_block_hidden_files().kinds);
    }
    (pats, kinds, String::from_str("Block access to hidden/secret files (.env, .ssh, .aws, etc.)"))
}

/// The block-sudo expansion.
pub open spec fn spec_block_sudo() -> ExpansionV {
    ExpansionV {
        patterns: seq!["sudo\\s+"@, "su\\s+-"@, "doas\\s+"@, "pkexec\\s+"@],
        kinds: seq![ActionType::Exec],
        description: "Block sudo/privilege escalation"@,
    }
}

/// Expands `block_sudo`: blocks privilege escalation commands.
pub fn expand_block_sudo(_params: &TemplateParams) -> (r: (Vec<String>, Vec<ActionType>, String))
    ensures
        r.0.deep_view() == spec_block_sudo().patterns,
        r.1@ == spec_block_sudo().kinds,
        r.2@ == spec_block_sudo().description,
{
    let mut pats: Vec<String> = Vec::new();
    push_lit(&mut pats, "sudo\\s+");
    push_lit(&mut pats, "su\\s+-");
    push_lit(&mut pats, "doas\\s+");
    push_lit(&mut pats, "pkexec\\s+");
    let mut kinds: Vec<ActionType> = Vec::new();
    kinds.push(ActionType::Exec);
    proof {
        assert(pats.deep_view() =~= spec_block_sudo().patterns);
        assert(kinds@ =~= spec_block_sudo().kinds);
    }
    (pats, kinds, String::from_str("Block sudo/privilege escalation"))
}

/// The block-package-install expansion.
pub open spec fn spec_block_package_install() -> ExpansionV {
    ExpansionV {
        patterns: seq![
            "(apt|apt-get)\\s+(install|remove|purge)"@,
            "brew\\s+(install|uninstall|remove)"@,
            "(yum|dnf)\\s+(install|remove|erase)"@,
            "pacman\\s+-(S|R|U)"@,
            "pip3?\\s+install"@,
            "npm\\s+(install|i|add)\\s+"@,
            "cargo\\s+install"@,
            "gem\\s+install"@,
            "go\\s+install"@,
        ],
        kinds: seq![ActionType::Exec],
        description: "Block package installation (apt, brew, pip, npm, etc.)"@,
    }
}

/// Expands `block_package_install`: blocks package manager installs.
pub fn expand_block_package_install(_params: &TemplateParams) -> (r: (
    Vec<String>,
    Vec<ActionType>,
    String,
))
    ensures
        r.0.deep_view() == spec_block_package_install().patterns,
        r.1@ == spec_block_package_install().kinds,
        r.2@ == spec_block_package_install().description,
{
    let mut pats: Vec<String> = Vec::new();
    push_lit(&mut pats, "(apt|apt-get)\\s+(install|remove|purge)");
    push_lit(&mut pats, "brew\\s+(install|uninstall|remove)");
    push_lit(&mut pats, "(yum|dnf)\\s+(install|remove|erase)");
    push_lit(&mut pats, "pacman\\s+-(S|R|U)");
    push_lit(&mut pats, "pip3?\\s+install");
    push_lit(&mut pats, "npm\\s+(install|i|add)\\s+");
    push_lit(&mut pats, "cargo\\s+install");
    push_lit(&mut pats, "gem\\s+install");
    push_lit(&mut pats, "go\\s+install");
    let mut kinds: Vec<ActionType> = Vec::new();
    kinds.push(ActionType::Exec);
    proof {
        assert(pats.deep_view() =~= spec_block_package_install().patterns);
        assert(kinds@ =~= spec_block_package_install().kinds);
    }
    (pats, kinds, String::from_str("Block package installation (apt, brew, pip, npm, etc.)"))
}

/// The block-service-control expansion.
pub open spec fn spec_block_service_control() -> ExpansionV {
    ExpansionV {
        patterns: seq![
            "systemctl\\s+(start|stop|restart|enable|disable|mask)"@,
            "service\\s+\\S+\\s+(start|stop|restart)"@,
            "launchctl\\s+(load|unload|start|stop|bootstrap|bootout)"@,
            "initctl\\s+(start|stop|restart)"@,
        ],
        kinds: seq![ActionType::Exec],
        description: "Block service control (systemctl, launchctl, etc.)"@,
    }
}

/// Expands `block_service_control`: blocks starting and stopping services.
pub fn expand_block_service_control(_params: &TemplateParams) -> (r: (
    Vec<String>,
    Vec<ActionType>,
    String,
))
    ensures
        r.0.deep_view() == spec_block_service_control().patterns,
        r.1@ == spec_block_service_control().kinds,
        r.2@ == spec_block_service_control().description,
{
    let mut pats: Vec<String> = Vec::new();
    push_lit(&mut pats, "systemctl\\s+(start|stop|restart|enable|disable|mask)");
    push_lit(&mut pats, "service\\s+\\S+\\s+(start|stop|restart)");
    push_lit(&mut pats, "launchctl\\s+(load|unload|start|stop|bootstrap|bootout)");
    push_lit(&mut pats, "initctl\\s+(start|stop|restart)");
    let mut kinds: Vec<ActionType> = Vec::new();
    kinds.push(ActionType::Exec);
    proof {
        assert(pats.deep_view() =~= spec_block_service_control().patterns);
        assert(kinds@ =~= spec_block_service_control().kinds);
    }
    (pats, kinds, String::from_str("Block service control (systemctl, launchctl, etc.)"))
}

/// The block-network-tools expansion.
pub open spec fn spec_block_network_tools() -> ExpansionV {
    ExpansionV {
        patterns: seq![
            "(?:^|\\s)(curl|wget|httpie|http)\\s+"@,
            "(?:^|\\s)(nc|ncat|netcat|socat)\\s+"@,
            "(?:^|\\s)(nmap|masscan)\\s+"@,
        ],
        kinds: seq![ActionType::Exec],
        description: "Block network tools (curl, wget, nc, nmap, etc.)"@,
    }
}

/// Expands `block_network_tools`: blocks common network clients and scanners.
pub fn expand_block_network_tools(_params: &TemplateParams) -> (r: (
    Vec<String>,
    Vec<ActionType>,
    String,
))
    ensures
        r.0.deep_view() == spec_block_network_tools().patterns,
        r.1@ == spec_block_network_tools().kinds,
        r.2@ == spec_block_network_tools().description,
{
    let mut pats: Vec<String> = Vec::new();
    push_lit(&mut pats, "(?:^|\\s)(curl|wget|httpie|http)\\s+");
    push_lit(&mut pats, "(?:^|\\s)(nc|ncat|netcat|socat)\\s+");
    push_lit(&mut pats, "(?:^|\\s)(nmap|masscan)\\s+");
    let mut kinds: Vec<ActionType> = Vec::new();
    kinds.push(ActionType::Exec);
    proof {
        assert(pats.deep_view() =~= spec_block_network_tools().patterns);
        assert(kinds@ =~= spec_block_network_tools().kinds);
    }
    (pats, kinds, String::from_str("Block network tools (curl, wget, nc, nmap, etc.)"))
}

/// The block-compiler expansion.
pub open spec fn spec_block_compiler() -> ExpansionV {
    ExpansionV {
        patterns: seq![
            "(?:^|\\s)(gcc|g\\+\\+|clang|clang\\+\\+|cc)\\s+"@,
            "(?:^|\\s)(rustc|cargo\\s+build|cargo\\s+run)"@,
            "(?:^|\\s)(javac|kotlinc)\\s+"@,
            "(?:^|\\s)(make|cmake|ninja)\\s+"@,
        ],
        kinds: seq![ActionType::Exec],
        description: "Block compiler execution"@,
    }
}

/// Expands `block_compiler`: blocks compiler and build tool invocations.
pub fn expand_block_compiler(_params: &TemplateParams) -> (r: (
    Vec<String>,
    Vec<ActionType>,
    String,
))
    ensures
        r.0.deep_view() == spec_block_compiler().patterns,
        r.1@ == spec_block_compiler().kinds,
        r.2@ == spec_block_compiler().description,
{
    let mut pats: Vec<String> = Vec::new();
    push_lit(&mut pats, "(?:^|\\s)(gcc|g\\+\\+|clang|clang\\+\\+|cc)\\s+");
    push_lit(&mut pats, "(?:^|\\s)(rustc|cargo\\s+build|cargo\\s+run)");
    push_lit(&mut pats, "(?:^|\\s)(javac|kotlinc)\\s+");
    push_lit(&mut pats, "(?:^|\\s)(make|cmake|ninja)\\s+");
    let mut kinds: Vec<ActionType> = Vec::new();
    kinds.push(ActionType::Exec);
    proof {
        assert(pats.deep_view() =~= spec_block_compiler().patterns);
        assert(kinds@ =~= spec_block_compiler().kinds);
    }
    (pats, kinds, String::from_str("Block compiler execution"))
}

/// The prevent-exfiltration expansion.
pub open spec fn spec_prevent_exfiltration() -> ExpansionV {
    ExpansionV {
        patterns: seq![
            "curl\\s+.*(-X\\s+POST|--data|--upload|-F\\s+)"@,
            "curl\\s+.*-d\\s+"@,
            "wget\\s+--post"@,
            "scp\\s+.*:"@,
            "rsync\\s+.*:"@,
            "sftp\\s+"@,
            "ftp\\s+"@,
            "nc\\s+.*<"@,
            "base64.*\\|\\s*(curl|wget|nc)"@,
        ],
        kinds: seq![ActionType::Exec, ActionType::HttpRequest],
        description: "Prevent data exfiltration (POST, scp, rsync, etc.)"@,
    }
}

/// Expands `prevent_exfiltration`: blocks uploads and outbound copies.
pub fn expand_prevent_exfiltration(_params: &TemplateParams) -> (r: (
    Vec<String>,
    Vec<ActionType>,
    String,
))
    ensures
        r.0.deep_view() == spec_prevent_exfiltration().patterns,
        r.1@ == spec_prevent_exfiltration().kinds,
        r.2@ == spec_prevent_exfiltration().description,
{
    let mut pats: Vec<String> = Vec::new();
    push_lit(&mut pats, "curl\\s+.*(-X\\s+POST|--data|--upload|-F\\s+)");
    push_lit(&mut pats, "curl\\s+.*-d\\s+");
    push_lit(&mut pats, "wget\\s+--post");
    push_lit(&mut pats, "scp\\s+.*:");
    push_lit(&mut pats, "rsync\\s+.*:");
    push_lit(&mut pats, "sftp\\s+");
    push_lit(&mut pats, "ftp\\s+");
    push_lit(&mut pats, "nc\\s+.*<");
    push_lit(&mut pats, "base64.*\\|\\s*(curl|wget|nc)");
    let mut kinds: Vec<ActionType> = Vec::new();
    kinds.push(ActionType::Exec);
    kinds.push(ActionType::HttpRequest);
    proof {
        assert(pats.deep_view() =~= spec_prevent_exfiltration().patterns);
        assert(kinds@ =~= spec_prevent_exfiltration().kinds);
    }
    (pats, kinds, String::from_str("Prevent data exfiltration (POST, scp, rsync, etc.)"))
}

/// The protect-secrets expansion.
pub open spec fn spec_protect_secrets() -> ExpansionV {
    ExpansionV {
        patterns: seq![
            "(api[_-]?key|secret[_-]?key|access[_-]?token|auth[_-]?token)\\s*[=:]\\s*\\S+"@,
            "(password|passwd|pwd)\\s*[=:]\\s*\\S+"@,
            "(PRIVATE[_\\s]KEY|BEGIN\\s+(RSA|EC|DSA|OPENSSH)\\s+PRIVATE)"@,
            "(sk-[a-zA-Z0-9]{20,}|ghp_[a-zA-Z0-9]{36}|gho_[a-zA-Z0-9]{36})"@,
            "Bearer\\s+[a-zA-Z0-9\\-._~+/]+=*"@,
        ],
        kinds: seq![ActionType::Exec, ActionType::FileWrite, ActionType::HttpRequest],
        description: "Protect secrets (API keys, tokens, passwords)"@,
    }
}

/// Expands `protect_secrets`: blocks key and password material in flight.
pub fn expand_protect_secrets(_params: &TemplateParams) -> (r: (
    Vec<String>,
    Vec<ActionType>,
    String,
))
    ensures
        r.0.deep_view() == spec_protect_secrets().patterns,
        r.1@ == spec_protect_secrets().kinds,
        r.2@ == spec_protect_secrets().description,
{
    let mut pats: Vec<String> = Vec::new();
    push_lit(&mut pats, "(api[_-]?key|secret[_-]?key|access[_-]?token|auth[_-]?token)\\s*[=:]\\s*\\S+");
    push_lit(&mut pats, "(password|passwd|pwd)\\s*[=:]\\s*\\S+");
    push_lit(&mut pats, "(PRIVATE[_\\s]KEY|BEGIN\\s+(RSA|EC|DSA|OPENSSH)\\s+PRIVATE)");
    push_lit(&mut pats, "(sk-[a-zA-Z0-9]{20,}|ghp_[a-zA-Z0-9]{36}|gho_[a-zA-Z0-9]{36})");
    push_lit(&mut pats, "Bearer\\s+[a-zA-Z0-9\\-._~+/]+=*");
    let mut kinds: Vec<ActionType> = Vec::new();
    kinds.push(ActionType::Exec);
    kinds.push(ActionType::FileWrite);
    kinds.push(ActionType::HttpRequest);
    proof {
        assert(pats.deep_view() =~= spec_protect_secrets().patterns);
        assert(kinds@ =~= spec_protect_secrets().kinds);
    }
    (pats, kinds, String::from_str("Protect secrets (API keys, tokens, passwords)"))
}

/// The protect-database expansion.
pub open spec fn spec_protect_database() -> ExpansionV {
    ExpansionV {
        patterns: seq![
            "(?i)(DROP|TRUNCATE)\\s+(TABLE|DATABASE|SCHEMA|INDEX)"@,
            "(?i)DELETE\\s+FROM\\s+\\S+\\s*(;|$|WHERE\\s+1)"@,
            "(?i)ALTER\\s+TABLE\\s+.*DROP"@,
            "mongosh?\\s+.*--eval.*drop"@,
            "redis-cli\\s+.*FLUSHALL"@,
            "redis-cli\\s+.*FLUSHDB"@,
        ],
        kinds: seq![ActionType::Exec],
        description: "Protect database (block DROP, TRUNCATE, mass DELETE)"@,
    }
}

/// Expands `protect_database`: blocks destructive database statements.
pub fn expand_protect_database(_params: &TemplateParams) -> (r: (
    Vec<String>,
    Vec<ActionType>,
    String,
))
    ensures
        r.0.deep_view() == spec_protect_database().patterns,
        r.1@ == spec_protect_database().kinds,
        r.2@ == spec_protect_database().description,
{
    let mut pats: Vec<String> = Vec::new();
    push_lit(&mut pats, "(?i)(DROP|TRUNCATE)\\s+(TABLE|DATABASE|SCHEMA|INDEX)");
    push_lit(&mut pats, "(?i)DELETE\\s+FROM\\s+\\S+\\s*(;|$|WHERE\\s+1)");
    push_lit(&mut pats, "(?i)ALTER\\s+TABLE\\s+.*DROP");
    push_lit(&mut pats, "mongosh?\\s+.*--eval.*drop");
    push_lit(&mut pats, "redis-cli\\s+.*FLUSHALL");
    push_lit(&mut pats, "redis-cli\\s+.*FLUSHDB");
    let mut kinds: Vec<ActionType> = Vec::new();
    kinds.push(ActionType::Exec);
    proof {
        assert(pats.deep_view() =~= spec_protect_database().patterns);
        assert(kinds@ =~= spec_protect_database().kinds);
    }
    (pats, kinds, String::from_str("Protect database (block DROP, TRUNCATE, mass DELETE)"))
}

/// The protect-git expansion.
pub open spec fn spec_protect_git() -> ExpansionV {
    ExpansionV {
        patterns: seq![
            "git\\s+push\\s+.*(-f|--force)"@,
            "git\\s+push\\s+.*--force-with-lease"@,
            "git\\s+branch\\s+-[dD]\\s+"@,
            "git\\s+push\\s+\\S+\\s+:\\S+"@,
            "git\\s+reset\\s+--hard"@,
            "git\\s+clean\\s+-fd"@,
        ],
        kinds: seq![ActionType::Exec, ActionType::GitOperation],
        description: "Protect git (block force push, branch delete, hard reset)"@,
    }
}

/// Expands `protect_git`: blocks history-destroying git commands.
pub fn expand_protect_git(_params: &TemplateParams) -> (r: (Vec<String>, Vec<ActionType>, String))
    ensures
        r.0.deep_view() == spec_protect_git().patterns,
        r.1@ == spec_protect_git().kinds,
        r.2@ == spec_protect_git().description,
{
    let mut pats: Vec<String> = Vec::new();
    push_lit(&mut pats, "git\\s+push\\s+.*(-f|--force)");
    push_lit(&mut pats, "git\\s+push\\s+.*--force-with-lease");
    push_lit(&mut pats, "git\\s+branch\\s+-[dD]\\s+");
    push_lit(&mut pats, "git\\s+push\\s+\\S+\\s+:\\S+");
    push_lit(&mut pats, "git\\s+reset\\s+--hard");
    push_lit(&mut pats, "git\\s+clean\\s+-fd");
    let mut kinds: Vec<ActionType> = Vec::new();
    kinds.push(ActionType::Exec);
    kinds.push(ActionType::GitOperation);
    proof {
        assert(pats.deep_view() =~= spec_protect_git().patterns);
        assert(kinds@ =~= spec_protect_git().kinds);
    }
    (pats, kinds, String::from_str("Protect git (block force push, branch delete, hard reset)"))
}

/// The protect-system-config expansion.
pub open spec fn spec_protect_system_config() -> ExpansionV {
    ExpansionV {
        patterns: seq![
            "(vi|vim|nano|sed|tee|cat\\s*>)\\s+.*/etc/"@,
            "(chmod|chown)\\s+.*/etc/"@,
            "/etc/(passwd|shadow|group|sudoers|fstab|hosts)"@,
            "(vi|vim|nano|sed|tee)\\s+.*(\\.bashrc|\\.zshrc|\\.profile|\\.bash_profile)"@,
            "/etc/(ssh/sshd_config|resolv\\.conf|nsswitch\\.conf)"@,
        ],
        kinds: seq![ActionType::Exec, ActionType::FileWrite],
        description: "Protect system config files (/etc/*, shell rc files)"@,
    }
}

/// Expands `protect_system_config`: blocks edits of system configuration.
pub fn expand_protect_system_config(_params: &TemplateParams) -> (r: (
    Vec<String>,
    Vec<ActionType>,
    String,
))
    ensures
        r.0.deep_view() == spec_protect_system_config().patterns,
        r.1@ == spec_protect_system_config().kinds,
        r.2@ == spec_protect_system_config().description,
{
    let mut pats: Vec<String> = Vec::new();
    push_lit(&mut pats, "(vi|vim|nano|sed|tee|cat\\s*>)\\s+.*/etc/");
    push_lit(&mut pats, "(chmod|chown)\\s+.*/etc/");
    push_lit(&mut pats, "/etc/(passwd|shadow|group|sudoers|fstab|hosts)");
    push_lit(&mut pats, "(vi|vim|nano|sed|tee)\\s+.*(\\.bashrc|\\.zshrc|\\.profile|\\.bash_profile)");
    push_lit(&mut pats, "/etc/(ssh/sshd_config|resolv\\.conf|nsswitch\\.conf)");
    let mut kinds: Vec<ActionType> = Vec::new();
    kinds.push(ActionType::Exec);
    kinds.push(ActionType::FileWrite);
    proof {
        assert(pats.deep_view() =~= spec_protect_system_config().patterns);
        assert(kinds@ =~= spec_protect_system_config().kinds);
    }
    (pats, kinds, String::from_str("Protect system config files (/etc/*, shell rc files)"))
}

/// The block-disk-operations expansion.
pub open spec fn spec_block_disk_operations() -> ExpansionV {
    ExpansionV {
        patterns: seq![
            "(mkfs|fdisk|parted|gdisk|diskutil)\\s+"@,
            "dd\\s+.*of=/dev/"@,
            "wipefs\\s+"@,
            "(format|diskpart)"@,
        ],
        kinds: seq![ActionType::Exec],
        description: "Block disk operations (format, partition, dd)"@,
    }
}

/// Expands `block_disk_operations`: blocks formatting and partitioning.
pub fn expand_block_disk_operations(_params: &TemplateParams) -> (r: (
    Vec<String>,
    Vec<ActionType>,
    String,
))
    ensures
        r.0.deep_view() == spec_block_disk_operations().patterns,
        r.1@ == spec_block_disk_operations().kinds,
        r.2@ == spec_block_disk_operations().description,
{
    let mut pats: Vec<String> = Vec::new();
    push_lit(&mut pats, "(mkfs|fdisk|parted|gdisk|diskutil)\\s+");
    push_lit(&mut pats, "dd\\s+.*of=/dev/");
    push_lit(&mut pats, "wipefs\\s+");
    push_lit(&mut pats, "(format|diskpart)");
    let mut kinds: Vec<ActionType> = Vec::new();
    kinds.push(ActionType::Exec);
    proof {
        assert(pats.deep_view() =~= spec_block_disk_operations().patterns);
        assert(kinds@ =~= spec_block_disk_operations().kinds);
    }
    (pats, kinds, String::from_str("Block disk operations (format, partition, dd)"))
}

/// The block-user-management expansion.
pub open spec fn spec_block_user_management() -> ExpansionV {
    ExpansionV {
        patterns: seq![
            "(useradd|userdel|usermod|adduser|deluser)\\s+"@,
            "(groupadd|groupdel|groupmod)\\s+"@,
            "passwd\\s+"@,
            "chpasswd"@,
            "dscl\\s+.*-(create|delete)\\s+/Users/"@,
            "sysadminctl\\s+"@,
        ],
        kinds: seq![ActionType::Exec],
        description: "Block user management (add/delete users, change passwords)"@,
    }
}

/// Expands `block_user_management`: blocks user and group changes.
pub fn expand_block_user_management(_params: &TemplateParams) -> (r: (
    Vec<String>,
    Vec<ActionType>,
    String,
))
    ensures
        r.0.deep_view() == spec_block_user_management().patterns,
        r.1@ == spec_block_user_management().kinds,
        r.2@ == spec_block_user_management().description,
{
    let mut pats: Vec<String> = Vec::new();
    push_lit(&mut pats, "(useradd|userdel|usermod|adduser|deluser)\\s+");
    push_lit(&mut pats, "(groupadd|groupdel|groupmod)\\s+");
    push_lit(&mut pats, "passwd\\s+");
    push_lit(&mut pats, "chpasswd");
    push_lit(&mut pats, "dscl\\s+.*-(create|delete)\\s+/Users/");
    push_lit(&mut pats, "sysadminctl\\s+");
    let mut kinds: Vec<ActionType> = Vec::new();
    kinds.push(ActionType::Exec);
    proof {
        assert(pats.deep_view() =~= spec_block_user_management().patterns);
        assert(kinds@ =~= spec_block_user_management().kinds);
    }
    (pats, kinds, String::from_str("Block user management (add/delete users, change passwords)"))
}

/// The block-cron-modification expansion.
pub open spec fn spec_block_cron_modification() -> ExpansionV {
    ExpansionV {
        patterns: seq![
            "crontab\\s+(-e|-r|-l)"@,
            "(vi|vim|nano|tee)\\s+.*/etc/cron"@,
            "at\\s+"@,
            "(launchctl|systemctl)\\s+.*timer"@,
        ],
        kinds: seq![ActionType::Exec, ActionType::FileWrite],
        description: "Block cron/scheduled task modification"@,
    }
}

/// Expands `block_cron_modification`: blocks scheduled task changes.
pub fn expand_block_cron_modification(_params: &TemplateParams) -> (r: (
    Vec<String>,
    Vec<ActionType>,
    String,
))
    ensures
        r.0.deep_view() == spec_block_cron_modification().patterns,
        r.1@ == spec_block_cron_modification().kinds,
        r.2@ == spec_block_cron_modification().description,
{
    let mut pats: Vec<String> = Vec::new();
    push_lit(&mut pats, "crontab\\s+(-e|-r|-l)");
    push_lit(&mut pats, "(vi|vim|nano|tee)\\s+.*/etc/cron");
    push_lit(&mut pats, "at\\s+");
    push_lit(&mut pats, "(launchctl|systemctl)\\s+.*timer");
    let mut kinds: Vec<ActionType> = Vec::new();
    kinds.push(ActionType::Exec);
    kinds.push(ActionType::FileWrite);
    proof {
        assert(pats.deep_view() =~= spec_block_cron_modification().patterns);
        assert(kinds@ =~= spec_block_cron_modification().kinds);
    }
    (pats, kinds, String::from_str("Block cron/scheduled task modification"))
}

/// The block-firewall-changes expansion.
pub open spec fn spec_block_firewall_changes() -> ExpansionV {
    ExpansionV {
        patterns: seq![
            "(iptables|ip6tables|nft|nftables)\\s+"@,
            "ufw\\s+(allow|deny|delete|reset|disable)"@,
            "firewall-cmd\\s+"@,
            "pfctl\\s+"@,
            "/etc/(ufw|iptables|nftables)"@,
        ],
        kinds: seq![ActionType::Exec, ActionType::FileWrite],
        description: "Block firewall changes (iptables, ufw, pf)"@,
    }
}

/// Expands `block_firewall_changes`: blocks firewall reconfiguration.
pub fn expand_block_firewall_changes(_params: &TemplateParams) -> (r: (
    Vec<String>,
    Vec<ActionType>,
    String,
))
    ensures
        r.0.deep_view() == spec_block_firewall_changes().patterns,
        r.1@ == spec_block_firewall_changes().kinds,
        r.2@ == spec_block_firewall_changes().description,
{
    let mut pats: Vec<String> = Vec::new();
    push_lit(&mut pats, "(iptables|ip6tables|nft|nftables)\\s+");
    push_lit(&mut pats, "ufw\\s+(allow|deny|delete|reset|disable)");
    push_lit(&mut pats, "firewall-cmd\\s+");
    push_lit(&mut pats, "pfctl\\s+");
    push_lit(&mut pats, "/etc/(ufw|iptables|nftables)");
    let mut kinds: Vec<ActionType> = Vec::new();
    kinds.push(ActionType::Exec);
    kinds.push(ActionType::FileWrite);
    proof {
        assert(pats.deep_view() =~= spec_block_firewall_changes().patterns);
        assert(kinds@ =~= spec_block_firewall_changes().kinds);
    }
    (pats, kinds, String::from_str("Block firewall changes (iptables, ufw, pf)"))
}

/// The block-docker expansion.
pub open spec fn spec_block_docker() -> ExpansionV {
    ExpansionV {
        patterns: seq![
            "docker\\s+(rm|rmi|kill|stop|prune|system\\s+prune)"@,
            "docker\\s+container\\s+(rm|kill|stop|prune)"@,
            "docker\\s+image\\s+(rm|prune)"@,
            "docker\\s+volume\\s+(rm|prune)"@,
            "docker\\s+network\\s+(rm|prune)"@,
            "docker-compose\\s+(down|rm)"@,
        ],
        kinds: seq![ActionType::Exec],
        description: "Block dangerous Docker commands (rm, kill, prune)"@,
    }
}

/// Expands `block_docker`: blocks destructive container commands.
pub fn expand_block_docker(_params: &TemplateParams) -> (r: (
    Vec<String>,
    Vec<ActionType>,
    String,
))
    ensures
        r.0.deep_view() == spec_block_docker().patterns,
        r.1@ == spec_block_docker().kinds,
        r.2@ == spec_block_docker().description,
{
    let mut pats: Vec<String> = Vec::new();
    push_lit(&mut pats, "docker\\s+(rm|rmi|kill|stop|prune|system\\s+prune)");
    push_lit(&mut pats, "docker\\s+container\\s+(rm|kill|stop|prune)");
    push_lit(&mut pats, "docker\\s+image\\s+(rm|prune)");
    push_lit(&mut pats, "docker\\s+volume\\s+(rm|prune)");
    push_lit(&mut pats, "docker\\s+network\\s+(rm|prune)");
    push_lit(&mut pats, "docker-compose\\s+(down|rm)");
    let mut kinds: Vec<ActionType> = Vec::new();
    kinds.push(ActionType::Exec);
    proof {
        assert(pats.deep_view() =~= spec_block_docker().patterns);
        assert(kinds@ =~= spec_block_docker().kinds);
    }
    (pats, kinds, String::from_str("Block dangerous Docker commands (rm, kill, prune)"))
}

/// The block-kill-process expansion.
pub open spec fn spec_block_kill_process() -> ExpansionV {
    ExpansionV {
        patterns: seq![
            "kill\\s+(-9|-SIGKILL|-KILL)\\s+"@,
            "killall\\s+"@,
            "pkill\\s+"@,
            "kill\\s+\\d+"@,
            "xkill"@,
        ],
        kinds: seq![ActionType::Exec],
        description: "Block process killing (kill, killall, pkill)"@,
    }
}

/// Expands `block_kill_process`: blocks signalling other processes.
pub fn expand_block_kill_process(_params: &TemplateParams) -> (r: (
    Vec<String>,
    Vec<ActionType>,
    String,
))
    ensures
        r.0.deep_view() == spec_block_kill_process().patterns,
        r.1@ == spec_block_kill_process().kinds,
        r.2@ == spec_block_kill_process().description,
{
    let mut pats: Vec<String> = Vec::new();
    push_lit(&mut pats, "kill\\s+(-9|-SIGKILL|-KILL)\\s+");
    push_lit(&mut pats, "killall\\s+");
    push_lit(&mut pats, "pkill\\s+");
    push_lit(&mut pats, "kill\\s+\\d+");
    push_lit(&mut pats, "xkill");
    let mut kinds: Vec<ActionType> = Vec::new();
    kinds.push(ActionType::Exec);
    proof {
        assert(pats.deep_view() =~= spec_block_kill_process().patterns);
        assert(kinds@ =~= spec_block_kill_process().kinds);
    }
    (pats, kinds, String::from_str("Block process killing (kill, killall, pkill)"))
}

/// The block-port-open expansion.
pub open spec fn spec_block_port_open() -> ExpansionV {
    ExpansionV {
        patterns: seq![
            "(nc|ncat|netcat)\\s+.*-l"@,
            "python3?\\s+.*-m\\s+http\\.server"@,
            "(socat|ncat)\\s+.*LISTEN"@,
            "ngrok\\s+"@,
            "ssh\\s+.*-R\\s+"@,
        ],
        kinds: seq![ActionType::Exec],
        description: "Block port opening (listeners, tunnels)"@,
    }
}

/// Expands `block_port_open`: blocks listeners and reverse tunnels.
pub fn expand_block_port_open(_params: &TemplateParams) -> (r: (
    Vec<String>,
    Vec<ActionType>,
    String,
))
    ensures
        r.0.deep_view() == spec_block_port_open().patterns,
        r.1@ == spec_block_port_open().kinds,
        r.2@ == spec_block_port_open().description,
{
    let mut pats: Vec<String> = Vec::new();
    push_lit(&mut pats, "(nc|ncat|netcat)\\s+.*-l");
    push_lit(&mut pats, "python3?\\s+.*-m\\s+http\\.server");
    push_lit(&mut pats, "(socat|ncat)\\s+.*LISTEN");
    push_lit(&mut pats, "ngrok\\s+");
    push_lit(&mut pats, "ssh\\s+.*-R\\s+");
    let mut kinds: Vec<ActionType> = Vec::new();
    kinds.push(ActionType::Exec);
    proof {
        assert(pats.deep_view() =~= spec_block_port_open().patterns);
        assert(kinds@ =~= spec_block_port_open().kinds);
    }
    (pats, kinds, String::from_str("Block port opening (listeners, tunnels)"))
}

/// The block-ssh-connection expansion.
pub open spec fn spec_block_ssh_connection() -> ExpansionV {
    ExpansionV {
        patterns: seq![
            "ssh\\s+\\S+@"@,
            "ssh\\s+-i\\s+"@,
            "sshpass\\s+"@,
            "ssh-copy-id\\s+"@,
        ],
        kinds: seq![ActionType::Exec],
        description: "Block SSH connections"@,
    }
}

/// Expands `block_ssh_connection`: blocks outbound SSH sessions.
pub fn expand_block_ssh_connection(_params: &TemplateParams) -> (r: (
    Vec<String>,
    Vec<ActionType>,
    String,
))
    ensures
        r.0.deep_view() == spec_block_ssh_connection().patterns,
        r.1@ == spec_block_ssh_connection().kinds,
        r.2@ == spec_block_ssh_connection().description,
{
    let mut pats: Vec<String> = Vec::new();
    push_lit(&mut pats, "ssh\\s+\\S+@");
    push_lit(&mut pats, "ssh\\s+-i\\s+");
    push_lit(&mut pats, "sshpass\\s+");
    push_lit(&mut pats, "ssh-copy-id\\s+");
    let mut kinds: Vec<ActionType> = Vec::new();
    kinds.push(ActionType::Exec);
    proof {
        assert(pats.deep_view() =~= spec_block_ssh_connection().patterns);
        assert(kinds@ =~= spec_block_ssh_connection().kinds);
    }
    (pats, kinds, String::from_str("Block SSH connections"))
}

/// The block-dns-change expansion.
pub open spec fn spec_block_dns_change() -> ExpansionV {
    ExpansionV {
        patterns: seq![
            "/etc/resolv\\.conf"@,
            "networksetup\\s+.*-setdnsservers"@,
            "resolvectl\\s+"@,
            "systemd-resolve\\s+"@,
        ],
        kinds: seq![ActionType::Exec, ActionType::FileWrite],
        description: "Block DNS configuration changes"@,
    }
}

/// Expands `block_dns_change`: blocks resolver reconfiguration.
pub fn expand_block_dns_change(_params: &TemplateParams) -> (r: (
    Vec<String>,
    Vec<ActionType>,
    String,
))
    ensures
        r.0.deep_view() == spec_block_dns_change().patterns,
        r.1@ == spec_block_dns_change().kinds,
        r.2@ == spec_block_dns_change().description,
{
    let mut pats: Vec<String> = Vec::new();
    push_lit(&mut pats, "/etc/resolv\\.conf");
    push_lit(&mut pats, "networksetup\\s+.*-setdnsservers");
    push_lit(&mut pats, "resolvectl\\s+");
    push_lit(&mut pats, "systemd-resolve\\s+");
    let mut kinds: Vec<ActionType> = Vec::new();
    kinds.push(ActionType::Exec);
    kinds.push(ActionType::FileWrite);
    proof {
        assert(pats.deep_view() =~= spec_block_dns_change().patterns);
        assert(kinds@ =~= spec_block_dns_change().kinds);
    }
    (pats, kinds, String::from_str("Block DNS configuration changes"))
}

// ------------------------------------------------------------------
// Catalog
// ------------------------------------------------------------------

/// What a template kind expands to on given parameters; expansion is a pure
/// function of the kind and the parameters.
pub open spec fn spec_expand(kind: TemplateKind, p: TemplateParamsV) -> ExpansionV {
    match kind {
        TemplateKind::ProtectPath => spec_protect_path(p),
        TemplateKind::PreventDelete => spec_prevent_delete(p),
        TemplateKind::PreventOverwrite => spec_prevent_overwrite(p),
        TemplateKind::BlockHiddenFiles => spec_block_hidden_files(),
        TemplateKind::BlockCommand => spec_block_command(p),
        TemplateKind::BlockSudo => spec_block_sudo(),
        TemplateKind::BlockPackageInstall => spec_block_package_install(),
        TemplateKind::BlockServiceControl => spec_block_service_control(),
        TemplateKind::BlockNetworkTools => spec_block_network_tools(),
        TemplateKind::BlockCompiler => spec_block_compiler(),
        TemplateKind::PreventExfiltration => spec_prevent_exfiltration(),
        TemplateKind::ProtectSecrets => spec_protect_secrets(),
        TemplateKind::ProtectDatabase => spec_protect_database(),
        TemplateKind::ProtectGit => spec_protect_git(),
        TemplateKind::ProtectSystemConfig => spec_protect_system_config(),
        TemplateKind::BlockDiskOperations => spec_block_disk_operations(),
        TemplateKind::BlockUserManagement => spec_block_user_management(),
        TemplateKind::BlockCronModification => spec_block_cron_modification(),
        TemplateKind::BlockFirewallChanges => spec_block_firewall_changes(),
        TemplateKind::BlockApp => spec_block_app(p),
        TemplateKind::BlockDocker => spec_block_docker(),
        TemplateKind::BlockKillProcess => spec_block_kill_process(),
        TemplateKind::BlockPortOpen => spec_block_port_open(),
        TemplateKind::BlockSshConnection => spec_block_ssh_connection(),
        TemplateKind::BlockDnsChange => spec_block_dns_change(),
        TemplateKind::Unknown => spec_unknown(p),
    }
}

/// A catalog entry: a named template with its documentation and its kind.
pub struct TemplateDefinition {
    pub name: String,
    pub description: String,
    pub category: String,
    pub required_params: Vec<String>,
    pub optional_params: Vec<String>,
    pub kind: TemplateKind,
}

impl TemplateDefinition {
    /// Expands this template on the given parameters.
    pub fn expand(&self, params: &TemplateParams) -> (r: (Vec<String>, Vec<ActionType>, String))
        ensures
            r.0.deep_view() == spec_expand(self.kind, params@).patterns,
            r.1@ == spec_expand(self.kind, params@).kinds,
            r.2@ == spec_expand(self.kind, params@).description,
    {
        match self.kind {
            TemplateKind::ProtectPath => expand_protect_path(params),
            TemplateKind::PreventDelete => expand_prevent_delete(params),
            TemplateKind::PreventOverwrite => expand_prevent_overwrite(params),
            TemplateKind::BlockHiddenFiles => expand_block_hidden_files(params),
            TemplateKind::BlockCommand => expand_block_command(params),
            TemplateKind::BlockSudo => expand_block_sudo(params),
            TemplateKind::BlockPackageInstall => expand_block_package_install(params),
            TemplateKind::BlockServiceControl => expand_block_service_control(params),
            TemplateKind::BlockNetworkTools => expand_block_network_tools(params),
            TemplateKind::BlockCompiler => expand_block_compiler(params),
            TemplateKind::PreventExfiltration => expand_prevent_exfiltration(params),
            TemplateKind::ProtectSecrets => expand_protect_secrets(params),
            TemplateKind::ProtectDatabase => expand_protect_database(params),
            TemplateKind::ProtectGit => expand_protect_git(params),
            TemplateKind::ProtectSystemConfig => expand_protect_system_config(params),
            TemplateKind::BlockDiskOperations => expand_block_disk_operations(params),
            TemplateKind::BlockUserManagement => expand_block_user_management(params),
            TemplateKind::BlockCronModification => expand_block_cron_modification(params),
            TemplateKind::BlockFirewallChanges => expand_block_firewall_changes(params),
            TemplateKind::BlockApp => expand_block_app(params),
            TemplateKind::BlockDocker => expand_block_docker(params),
            TemplateKind::BlockKillProcess => expand_block_kill_process(params),
            TemplateKind::BlockPortOpen => expand_block_port_open(params),
            TemplateKind::BlockSshConnection => expand_block_ssh_connection(params),
            TemplateKind::BlockDnsChange => expand_block_dns_change(params),
            TemplateKind::Unknown => expand_unknown(params),
        }
    }
}

/// The template kind a name denotes; any name outside the catalog is
/// `Unknown`.
pub open spec fn spec_kind_of_name(name: Seq<char>) -> TemplateKind {
    if name == "protect_path"@ {
        TemplateKind::ProtectPath
    } else if name == "prevent_delete"@ {
        TemplateKind::PreventDelete
    } else if name == "prevent_overwrite"@ {
        TemplateKind::PreventOverwrite
    } else if name == "block_hidden_files"@ {
        TemplateKind::BlockHiddenFiles
    } else if name == "block_command"@ {
        TemplateKind::BlockCommand
    } else if name == "block_sudo"@ {
        TemplateKind::BlockSudo
    } else if name == "block_package_install"@ {
        TemplateKind::BlockPackageInstall
    } else if name == "block_service_control"@ {
        TemplateKind::BlockServiceControl
    } else if name == "block_network_tools"@ {
        TemplateKind::BlockNetworkTools
    } else if name == "block_compiler"@ {
        TemplateKind::BlockCompiler
    } else if name == "prevent_exfiltration"@ {
        TemplateKind::PreventExfiltration
    } else if name == "protect_secrets"@ {
        TemplateKind::ProtectSecrets
    } else if name == "protect_database"@ {
        TemplateKind::ProtectDatabase
    } else if name == "protect_git"@ {
        TemplateKind::ProtectGit
    } else if name == "protect_system_config"@ {
        TemplateKind::ProtectSystemConfig
    } else if name == "block_disk_operations"@ {
        TemplateKind::BlockDiskOperations
    } else if name == "block_user_management"@ {
        TemplateKind::BlockUserManagement
    } else if name == "block_cron_modification"@ {
        TemplateKind::BlockCronModification
    } else if name == "block_firewall_changes"@ {
        TemplateKind::BlockFirewallChanges
    } else if name == "block_app"@ {
        TemplateKind::BlockApp
    } else if name == "block_docker"@ {
        TemplateKind::BlockDocker
    } else if name == "block_kill_process"@ {
        TemplateKind::BlockKillProcess
    } else if name == "block_port_open"@ {
        TemplateKind::BlockPortOpen
    } else if name == "block_ssh_connection"@ {
        TemplateKind::BlockSshConnection
    } else if name == "block_dns_change"@ {
        TemplateKind::BlockDnsChange
    } else {
        TemplateKind::Unknown
    }
}

/// The catalog name of a kind (`"unknown"` for the fallback).
pub open spec fn spec_name_of_kind(kind: TemplateKind) -> Seq<char> {
    match kind {
        TemplateKind::ProtectPath => "protect_path"@,
        TemplateKind::PreventDelete => "prevent_delete"@,
        TemplateKind::PreventOverwrite => "prevent_overwrite"@,
        TemplateKind::BlockHiddenFiles => "block_hidden_files"@,
        TemplateKind::BlockCommand => "block_command"@,
        TemplateKind::BlockSudo => "block_sudo"@,
        TemplateKind::BlockPackageInstall => "block_package_install"@,
        TemplateKind::BlockServiceControl => "block_service_control"@,
        TemplateKind::BlockNetworkTools => "block_network_tools"@,
        TemplateKind::BlockCompiler => "block_compiler"@,
        TemplateKind::PreventExfiltration => "prevent_exfiltration"@,
        TemplateKind::ProtectSecrets => "protect_secrets"@,
        TemplateKind::ProtectDatabase => "protect_database"@,
        TemplateKind::ProtectGit => "protect_git"@,
        TemplateKind::ProtectSystemConfig => "protect_system_config"@,
        TemplateKind::BlockDiskOperations => "block_disk_operations"@,
        TemplateKind::BlockUserManagement => "block_user_management"@,
        TemplateKind::BlockCronModification => "block_cron_modification"@,
        TemplateKind::BlockFirewallChanges => "block_firewall_changes"@,
        TemplateKind::BlockApp => "block_app"@,
        TemplateKind::BlockDocker => "block_docker"@,
        TemplateKind::BlockKillProcess => "block_kill_process"@,
        TemplateKind::BlockPortOpen => "block_port_open"@,
        TemplateKind::BlockSshConnection => "block_ssh_connection"@,
        TemplateKind::BlockDnsChange => "block_dns_change"@,
        TemplateKind::Unknown => "unknown"@,
    }
}

/// Builds the catalog entry of one kind. The name and kind are pinned by the
/// contract; description, category and parameter lists are display text.
pub fn template_definition(kind: TemplateKind) -> (r: TemplateDefinition)
    ensures
        r.kind == kind,
        r.name@ == spec_name_of_kind(kind),
{
    match kind {
        TemplateKind::ProtectPath => TemplateDefinition {
            name: String::from_str("protect_path"),
            description: String::from_str("Block access to specific paths (read/write/delete)"),
            category: String::from_str("File/Folder Protection"),
            required_params: one_str("path"),
            optional_params: one_str("operations"),
            kind,
        },
        TemplateKind::PreventDelete => TemplateDefinition {
            name: String::from_str("prevent_delete"),
            description: String::from_str("Prevent deletion of specific files/folders"),
            category: String::from_str("File/Folder Protection"),
            required_params: one_str("path"),
            optional_params: Vec::new(),
            kind,
        },
        TemplateKind::PreventOverwrite => TemplateDefinition {
            name: String::from_str("prevent_overwrite"),
            description: String::from_str("Prevent overwriting important files"),
            category: String::from_str("File/Folder Protection"),
            required_params: one_str("path"),
            optional_params: Vec::new(),
            kind,
        },
        TemplateKind::BlockHiddenFiles => TemplateDefinition {
            name: String::from_str("block_hidden_files"),
            description: String::from_str("Block access to hidden/secret files (.env, .ssh, etc.)"),
            category: String::from_str("File/Folder Protection"),
            required_params: Vec::new(),
            optional_params: Vec::new(),
            kind,
        },
        TemplateKind::BlockCommand => TemplateDefinition {
            name: String::from_str("block_command"),
            description: String::from_str("Block specific commands from being executed"),
            category: String::from_str("Command Restriction"),
            required_params: one_str("commands"),
            optional_params: Vec::new(),
            kind,
        },
        TemplateKind::BlockSudo => TemplateDefinition {
            name: String::from_str("block_sudo"),
            description: String::from_str("Block sudo/privilege escalation"),
            category: String::from_str("Command Restriction"),
            required_params: Vec::new(),
            optional_params: Vec::new(),
            kind,
        },
        TemplateKind::BlockPackageInstall => TemplateDefinition {
            name: String::from_str("block_package_install"),
            description: String::from_str("Block package installation (apt, brew, pip, npm, etc.)"),
            category: String::from_str("Command Restriction"),
            required_params: Vec::new(),
            optional_params: Vec::new(),
            kind,
        },
        TemplateKind::BlockServiceControl => TemplateDefinition {
            name: String::from_str("block_service_control"),
            description: String::from_str("Block service start/stop/restart (systemctl, launchctl)"),
            category: String::from_str("Command Restriction"),
            required_params: Vec::new(),
            optional_params: Vec::new(),
            kind,
        },
        TemplateKind::BlockNetworkTools => TemplateDefinition {
            name: String::from_str("block_network_tools"),
            description: String::from_str("Block network tools (curl, wget, nc, nmap)"),
            category: String::from_str("Command Restriction"),
            required_params: Vec::new(),
            optional_params: Vec::new(),
            kind,
        },
        TemplateKind::BlockCompiler => TemplateDefinition {
            name: String::from_str("block_compiler"),
            description: String::from_str("Block compiler execution (gcc, rustc, javac, make)"),
            category: String::from_str("Command Restriction"),
            required_params: Vec::new(),
            optional_params: Vec::new(),
            kind,
        },
        TemplateKind::PreventExfiltration => TemplateDefinition {
            name: String::from_str("prevent_exfiltration"),
            description: String::from_str("Prevent data exfiltration (POST, scp, rsync)"),
            category: String::from_str("Data Protection"),
            required_params: Vec::new(),
            optional_params: Vec::new(),
            kind,
        },
        TemplateKind::ProtectSecrets => TemplateDefinition {
            name: String::from_str("protect_secrets"),
            description: String::from_str("Protect API keys, tokens, passwords from exposure"),
            category: String::from_str("Data Protection"),
            required_params: Vec::new(),
            optional_params: Vec::new(),
            kind,
        },
        TemplateKind::ProtectDatabase => TemplateDefinition {
            name: String::from_str("protect_database"),
            description: String::from_str("Protect databases (block DROP, TRUNCATE, mass DELETE)"),
            category: String::from_str("Data Protection"),
            required_params: Vec::new(),
            optional_params: Vec::new(),
            kind,
        },
        TemplateKind::ProtectGit => TemplateDefinition {
            name: String::from_str("protect_git"),
            description: String::from_str("Protect git (block force push, branch delete, hard reset)"),
            category: String::from_str("Data Protection"),
            required_params: Vec::new(),
            optional_params: Vec::new(),
            kind,
        },
        TemplateKind::ProtectSystemConfig => TemplateDefinition {
            name: String::from_str("protect_system_config"),
            description: String::from_str("Protect system configuration files (/etc/*, rc files)"),
            category: String::from_str("System Protection"),
            required_params: Vec::new(),
            optional_params: Vec::new(),
            kind,
        },
        TemplateKind::BlockDiskOperations => TemplateDefinition {
            name: String::from_str("block_disk_operations"),
            description: String::from_str("Block disk format/partition operations"),
            category: String::from_str("System Protection"),
            required_params: Vec::new(),
            optional_params: Vec::new(),
            kind,
        },
        TemplateKind::BlockUserManagement => TemplateDefinition {
            name: String::from_str("block_user_management"),
            description: String::from_str("Block user add/delete/modify operations"),
            category: String::from_str("System Protection"),
            required_params: Vec::new(),
            optional_params: Vec::new(),
            kind,
        },
        TemplateKind::BlockCronModification => TemplateDefinition {
            name: String::from_str("block_cron_modification"),
            description: String::from_str("Block crontab and scheduled task changes"),
            category: String::from_str("System Protection"),
            required_params: Vec::new(),
            optional_params: Vec::new(),
            kind,
        },
        TemplateKind::BlockFirewallChanges => TemplateDefinition {
            name: String::from_str("block_firewall_changes"),
            description: String::from_str("Block firewall configuration changes"),
            category: String::from_str("System Protection"),
            required_params: Vec::new(),
            optional_params: Vec::new(),
            kind,
        },
        TemplateKind::BlockApp => TemplateDefinition {
            name: String::from_str("block_app"),
            description: String::from_str("Block specific app/process execution"),
            category: String::from_str("App/Process Restriction"),
            required_params: one_str("commands"),
            optional_params: Vec::new(),
            kind,
        },
        TemplateKind::BlockDocker => TemplateDefinition {
            name: String::from_str("block_docker"),
            description: String::from_str("Block dangerous Docker commands (rm, kill, prune)"),
            category: String::from_str("App/Process Restriction"),
            required_params: Vec::new(),
            optional_params: Vec::new(),
            kind,
        },
        TemplateKind::BlockKillProcess => TemplateDefinition {
            name: String::from_str("block_kill_process"),
            description: String::from_str("Block process killing (kill, killall, pkill)"),
            category: String::from_str("App/Process Restriction"),
            required_params: Vec::new(),
            optional_params: Vec::new(),
            kind,
        },
        TemplateKind::BlockPortOpen => TemplateDefinition {
            name: String::from_str("block_port_open"),
            description: String::from_str("Block port opening and tunneling"),
            category: String::from_str("Network"),
            required_params: Vec::new(),
            optional_params: Vec::new(),
            kind,
        },
        TemplateKind::BlockSshConnection => TemplateDefinition {
            name: String::from_str("block_ssh_connection"),
            description: String::from_str("Block SSH connections"),
            category: String::from_str("Network"),
            required_params: Vec::new(),
            optional_params: Vec::new(),
            kind,
        },
        TemplateKind::BlockDnsChange => TemplateDefinition {
            name: String::from_str("block_dns_change"),
            description: String::from_str("Block DNS configuration changes"),
            category: String::from_str("Network"),
            required_params: Vec::new(),
            optional_params: Vec::new(),
            kind,
        },
        TemplateKind::Unknown => TemplateDefinition {
            name: String::from_str("unknown"),
            description: String::from_str("Unknown template"),
            category: String::from_str("Other"),
            required_params: Vec::new(),
            optional_params: Vec::new(),
            kind,
        },
    }
}

/// A one-element string vector.
fn one_str(s: &str) -> (r: Vec<String>)
    ensures
        r.deep_view() == seq![s@],
{
    let mut v: Vec<String> = Vec::new();
    push_lit(&mut v, s);
    assert(v.deep_view() =~= seq![s@]);
    v
}

/// The kinds of the catalog, in display order.
pub open spec fn catalog_kinds() -> Seq<TemplateKind> {
    seq![
        TemplateKind::ProtectPath,
        TemplateKind::PreventDelete,
        TemplateKind::PreventOverwrite,
        TemplateKind::BlockHiddenFiles,
        TemplateKind::BlockCommand,
        TemplateKind::BlockSudo,
        TemplateKind::BlockPackageInstall,
        TemplateKind::BlockServiceControl,
        TemplateKind::BlockNetworkTools,
        TemplateKind::BlockCompiler,
        TemplateKind::PreventExfiltration,
        TemplateKind::ProtectSecrets,
        TemplateKind::ProtectDatabase,
        TemplateKind::ProtectGit,
        TemplateKind::ProtectSystemConfig,
        TemplateKind::BlockDiskOperations,
        TemplateKind::BlockUserManagement,
        TemplateKind::BlockCronModification,
        TemplateKind::BlockFirewallChanges,
        TemplateKind::BlockApp,
        TemplateKind::BlockDocker,
        TemplateKind::BlockKillProcess,
        TemplateKind::BlockPortOpen,
        TemplateKind::BlockSshConnection,
        TemplateKind::BlockDnsChange,
    ]
}

/// All registered template definitions, one per kind in the catalog, each
/// carrying its catalog name.
pub fn all_templates() -> (r: Vec<TemplateDefinition>)
    ensures
        r@.len() == catalog_kinds().len(),
        forall|i: int| 0 <= i < r@.len() ==> #[trigger] r@[i].kind == catalog_kinds()[i]
            && r@[i].name@ == spec_name_of_kind(catalog_kinds()[i]),
{
    let mut v: Vec<TemplateDefinition> = Vec::new();
    v.push(template_definition(TemplateKind::ProtectPath));
    v.push(template_definition(TemplateKind::PreventDelete));
    v.push(template_definition(TemplateKind::PreventOverwrite));
    v.push(template_definition(TemplateKind::BlockHiddenFiles));
    v.push(template_definition(TemplateKind::BlockCommand));
    v.push(template_definition(TemplateKind::BlockSudo));
    v.push(template_definition(TemplateKind::BlockPackageInstall));
    v.push(template_definition(TemplateKind::BlockServiceControl));
    v.push(template_definition(TemplateKind::BlockNetworkTools));
    v.push(template_definition(TemplateKind::BlockCompiler));
    v.push(template_definition(TemplateKind::PreventExfiltration));
    v.push(template_definition(TemplateKind::ProtectSecrets));
    v.push(template_definition(TemplateKind::ProtectDatabase));
    v.push(template_definition(TemplateKind::ProtectGit));
    v.push(template_definition(TemplateKind::ProtectSystemConfig));
    v.push(template_definition(TemplateKind::BlockDiskOperations));
    v.push(template_definition(TemplateKind::BlockUserManagement));
    v.push(template_definition(TemplateKind::BlockCronModification));
    v.push(template_definition(TemplateKind::BlockFirewallChanges));
    v.push(template_definition(TemplateKind::BlockApp));
    v.push(template_definition(TemplateKind::BlockDocker));
    v.push(template_definition(TemplateKind::BlockKillProcess));
    v.push(template_definition(TemplateKind::BlockPortOpen));
    v.push(template_definition(TemplateKind::BlockSshConnection));
    v.push(template_definition(TemplateKind::BlockDnsChange));
    v
}

/// Gets a template definition by name; unknown names yield the fallback.
pub fn get_template_definition(name: &str) -> (r: TemplateDefinition)
    ensures
        r.kind == spec_kind_of_name(name@),
        r.name@ == spec_name_of_kind(r.kind),
{
    if crate::text::str_eq(name, "protect_path") {
        template_definition(TemplateKind::ProtectPath)
    } else if crate::text::str_eq(name, "prevent_delete") {
        template_definition(TemplateKind::PreventDelete)
    } else if crate::text::str_eq(name, "prevent_overwrite") {
        template_definition(TemplateKind::PreventOverwrite)
    } else if crate::text::str_eq(name, "block_hidden_files") {
        template_definition(TemplateKind::BlockHiddenFiles)
    } else if crate::text::str_eq(name, "block_command") {
        template_definition(TemplateKind::BlockCommand)
    } else if crate::text::str_eq(name, "block_sudo") {
        template_definition(TemplateKind::BlockSudo)
    } else if crate::text::str_eq(name, "block_package_install") {
        template_definition(TemplateKind::BlockPackageInstall)
    } else if crate::text::str_eq(name, "block_service_control") {
        template_definition(TemplateKind::BlockServiceControl)
    } else if crate::text::str_eq(name, "block_network_tools") {
        template_definition(TemplateKind::BlockNetworkTools)
    } else if crate::text::str_eq(name, "block_compiler") {
        template_definition(TemplateKind::BlockCompiler)
    } else if crate::text::str_eq(name, "prevent_exfiltration") {
        template_definition(TemplateKind::PreventExfiltration)
    } else if crate::text::str_eq(name, "protect_secrets") {
        template_definition(TemplateKind::ProtectSecrets)
    } else if crate::text::str_eq(name, "protect_database") {
        template_definition(TemplateKind::ProtectDatabase)
    } else if crate::text::str_eq(name, "protect_git") {
        template_definition(TemplateKind::ProtectGit)
    } else if crate::text::str_eq(name, "protect_system_config") {
        template_definition(TemplateKind::ProtectSystemConfig)
    } else if crate::text::str_eq(name, "block_disk_operations") {
        template_definition(TemplateKind::BlockDiskOperations)
    } else if crate::text::str_eq(name, "block_user_management") {
        template_definition(TemplateKind::BlockUserManagement)
    } else if crate::text::str_eq(name, "block_cron_modification") {
        template_definition(TemplateKind::BlockCronModification)
    } else if crate::text::str_eq(name, "block_firewall_changes") {
        template_definition(TemplateKind::BlockFirewallChanges)
    } else if crate::text::str_eq(name, "block_app") {
        template_definition(TemplateKind::BlockApp)
    } else if crate::text::str_eq(name, "block_docker") {
        template_definition(TemplateKind::BlockDocker)
    } else if crate::text::str_eq(name, "block_kill_process") {
        template_definition(TemplateKind::BlockKillProcess)
    } else if crate::text::str_eq(name, "block_port_open") {
        template_definition(TemplateKind::BlockPortOpen)
    } else if crate::text::str_eq(name, "block_ssh_connection") {
        template_definition(TemplateKind::BlockSshConnection)
    } else if crate::text::str_eq(name, "block_dns_change") {
        template_definition(TemplateKind::BlockDnsChange)
    } else {
        template_definition(TemplateKind::Unknown)
    }
}

} // verus!
