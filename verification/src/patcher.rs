//! The patcher's pure core: anchor-based text injection with sentinel
//! idempotency and backup-based revert, modeled on file contents. The
//! surrounding file-system work (locating the bundle, reading and writing
//! files) stays outside the library.

use vstd::prelude::*;
use crate::text::{has_sub, spec_replace_first, str_contains, replace_first};

verus! {

/// The sentinel comment marking an applied exec-tool patch.
pub fn patch_marker() -> (r: &'static str)
    ensures
        r@ == "// OPENCLAW_HARNESS_PATCH_v1"@,
{
    "// OPENCLAW_HARNESS_PATCH_v1"
}

/// The sentinel comment marking an applied write/edit patch.
pub fn patch_v2_marker() -> (r: &'static str)
    ensures
        r@ == "// OPENCLAW_HARNESS_PATCH_v2"@,
{
    "// OPENCLAW_HARNESS_PATCH_v2"
}

/// The anchor in the exec tool file whose presence signals a compatible
/// bundle; the injected block goes right after it.
pub fn anchor_text() -> (r: &'static str)
    ensures
        r@ == spec_anchor_text(),
{
    "if (!params.command) {\n                throw new Error(\"Provide a command to start.\");\n            }"
}

/// The anchor of the exec tool file.
pub open spec fn spec_anchor_text() -> Seq<char> {
    "if (!params.command) {\n                throw new Error(\"Provide a command to start.\");\n            }"@
}

/// The code injected after the exec anchor. It is built around the
/// sentinel, so an applied patch always carries its marker.
pub fn patch_code() -> (r: String)
    ensures
        r@ == spec_patch_code(),
        has_sub(r@, "// OPENCLAW_HARNESS_PATCH_v1"@),
{
    let mut out = String::from_str("\n            ");
    out.append(patch_marker());
    out.append(
        " \u{2014} before_tool_call hook for exec\n            {\n                const { getGlobalHookRunner } = await import(\"../plugins/hook-runner-global.js\");\n                const _hookRunner = getGlobalHookRunner();\n                if (_hookRunner) {\n                    const _hookResult = await _hookRunner.runBeforeToolCall({\n                        toolName: \"exec\",\n                        params: { command: params.command, workdir: params.workdir, env: params.env },\n                    }, {});\n                    if (_hookResult?.block) {\n                        throw new Error(_hookResult.blockReason || \"Blocked by before_tool_call hook\");\n                    }\n                    if (_hookResult?.params) {\n                        if (_hookResult.params.command) params.command = _hookResult.params.command;\n                    }\n                }\n            }\n            // END OPENCLAW_HARNESS_PATCH_v1",
    );
    proof {
        reveal_strlit("\n            ");
        assert("\n            "@.len() == 13);
        assert(out@.subrange(13, 13 + "// OPENCLAW_HARNESS_PATCH_v1"@.len() as int)
            =~= "// OPENCLAW_HARNESS_PATCH_v1"@);
        assert(crate::text::sub_at(out@, "// OPENCLAW_HARNESS_PATCH_v1"@, 13));
    }
    out
}

/// The injected exec hook block.
pub open spec fn spec_patch_code() -> Seq<char> {
    "\n            "@ + "// OPENCLAW_HARNESS_PATCH_v1"@
        + " \u{2014} before_tool_call hook for exec\n            {\n                const { getGlobalHookRunner } = await import(\"../plugins/hook-runner-global.js\");\n                const _hookRunner = getGlobalHookRunner();\n                if (_hookRunner) {\n                    const _hookResult = await _hookRunner.runBeforeToolCall({\n                        toolName: \"exec\",\n                        params: { command: params.command, workdir: params.workdir, env: params.env },\n                    }, {});\n                    if (_hookResult?.block) {\n                        throw new Error(_hookResult.blockReason || \"Blocked by before_tool_call hook\");\n                    }\n                    if (_hookResult?.params) {\n                        if (_hookResult.params.command) params.command = _hookResult.params.command;\n                    }\n                }\n            }\n            // END OPENCLAW_HARNESS_PATCH_v1"@
}

/// The path of the exec tool file within the bundle's dist directory.
pub fn exec_file() -> (r: &'static str)
    ensures
        r@ == "agents/bash-tools.exec.js"@,
{
    "agents/bash-tools.exec.js"
}

/// The path of the write/edit tools file within the bundle's dist
/// directory.
pub fn pi_tools_file() -> (r: &'static str)
    ensures
        r@ == "agents/pi-tools.js"@,
{
    "agents/pi-tools.js"
}

/// The anchor in the write/edit tools file: the original tool creation,
/// which the patch replaces wholesale.
pub fn write_edit_anchor() -> (r: &'static str)
    ensures
        r@ == spec_write_edit_anchor(),
{
    "if (tool.name === \"write\") {\n            if (sandboxRoot)\n                return [];\n            // Wrap with param normalization for cross-runtime compatibility\n            return [\n                wrapToolParamNormalization(createWriteTool(workspaceRoot), CLAUDE_PARAM_GROUPS.write),\n            ];\n        }\n        if (tool.name === \"edit\") {\n            if (sandboxRoot)\n                return [];\n            // Wrap with param normalization for cross-runtime compatibility\n            return [wrapToolParamNormalization(createEditTool(workspaceRoot), CLAUDE_PARAM_GROUPS.edit)];\n        }"
}

/// The anchor of the write/edit tools file.
pub open spec fn spec_write_edit_anchor() -> Seq<char> {
    "if (tool.name === \"write\") {\n            if (sandboxRoot)\n                return [];\n            // Wrap with param normalization for cross-runtime compatibility\n            return [\n                wrapToolParamNormalization(createWriteTool(workspaceRoot), CLAUDE_PARAM_GROUPS.write),\n            ];\n        }\n        if (tool.name === \"edit\") {\n            if (sandboxRoot)\n                return [];\n            // Wrap with param normalization for cross-runtime compatibility\n            return [wrapToolParamNormalization(createEditTool(workspaceRoot), CLAUDE_PARAM_GROUPS.edit)];\n        }"@
}

/// The replacement installed over the write/edit anchor: both tools are
/// wrapped with the before-tool-call hook, each wrap carrying the v2
/// sentinel.
pub fn write_edit_replacement() -> (r: String)
    ensures
        r@ == spec_write_edit_replacement(),
        has_sub(r@, "// OPENCLAW_HARNESS_PATCH_v2"@),
{
    let mut out = String::from_str(
        "if (tool.name === \"write\") {\n            if (sandboxRoot)\n                return [];\n            // Wrap with param normalization for cross-runtime compatibility\n            const _writeTool = wrapToolParamNormalization(createWriteTool(workspaceRoot), CLAUDE_PARAM_GROUPS.write);\n            ",
    );
    let ghost pre = out@;
    out.append(patch_v2_marker());
    out.append(
        " \u{2014} before_tool_call hook for write\n            const _origWriteExec = _writeTool.execute;\n            _writeTool.execute = async (toolCallId, params, signal, onUpdate) => {\n                const { getGlobalHookRunner } = await import(\"../plugins/hook-runner-global.js\");\n                const _hookRunner = getGlobalHookRunner();\n                if (_hookRunner) {\n                    const _normalized = params && typeof params === \"object\" ? params : {};\n                    const _hookResult = await _hookRunner.runBeforeToolCall({\n                        toolName: \"write\",\n                        params: { path: _normalized.path || _normalized.file_path, content: _normalized.content },\n                    }, {});\n                    if (_hookResult?.block) {\n                        throw new Error(_hookResult.blockReason || \"Blocked by before_tool_call hook\");\n                    }\n                }\n                return _origWriteExec(toolCallId, params, signal, onUpdate);\n            };\n            // END OPENCLAW_HARNESS_PATCH_v2\n            return [_writeTool];\n        }\n        if (tool.name === \"edit\") {\n            if (sandboxRoot)\n                return [];\n            // Wrap with param normalization for cross-runtime compatibility\n            const _editTool = wrapToolParamNormalization(createEditTool(workspaceRoot), CLAUDE_PARAM_GROUPS.edit);\n            ",
    );
    out.append(patch_v2_marker());
    out.append(
        " \u{2014} before_tool_call hook for edit\n            const _origEditExec = _editTool.execute;\n            _editTool.execute = async (toolCallId, params, signal, onUpdate) => {\n                const { getGlobalHookRunner } = await import(\"../plugins/hook-runner-global.js\");\n                const _hookRunner = getGlobalHookRunner();\n                if (_hookRunner) {\n                    const _normalized = params && typeof params === \"object\" ? params : {};\n                    const _hookResult = await _hookRunner.runBeforeToolCall({\n                        toolName: \"edit\",\n                        params: { path: _normalized.path || _normalized.file_path, oldText: _normalized.oldText || _normalized.old_string, newText: _normalized.newText || _normalized.new_string },\n                    }, {});\n                    if (_hookResult?.block) {\n                        throw new Error(_hookResult.blockReason || \"Blocked by before_tool_call hook\");\n                    }\n                }\n                return _origEditExec(toolCallId, params, signal, onUpdate);\n            };\n            // END OPENCLAW_HARNESS_PATCH_v2\n            return [_editTool];\n        }",
    );
    proof {
        assert(out@.subrange(
            pre.len() as int,
            pre.len() + "// OPENCLAW_HARNESS_PATCH_v2"@.len() as int,
        ) =~= "// OPENCLAW_HARNESS_PATCH_v2"@);
        assert(crate::text::sub_at(out@, "// OPENCLAW_HARNESS_PATCH_v2"@, pre.len() as int));
    }
    out
}

/// The write/edit replacement block.
pub open spec fn spec_write_edit_replacement() -> Seq<char> {
    "if (tool.name === \"write\") {\n            if (sandboxRoot)\n                return [];\n            // Wrap with param normalization for cross-runtime compatibility\n            const _writeTool = wrapToolParamNormalization(createWriteTool(workspaceRoot), CLAUDE_PARAM_GROUPS.write);\n            "@
        + "// OPENCLAW_HARNESS_PATCH_v2"@
        + " \u{2014} before_tool_call hook for write\n            const _origWriteExec = _writeTool.execute;\n            _writeTool.execute = async (toolCallId, params, signal, onUpdate) => {\n                const { getGlobalHookRunner } = await import(\"../plugins/hook-runner-global.js\");\n                const _hookRunner = getGlobalHookRunner();\n                if (_hookRunner) {\n                    const _normalized = params && typeof params === \"object\" ? params : {};\n                    const _hookResult = await _hookRunner.runBeforeToolCall({\n                        toolName: \"write\",\n                        params: { path: _normalized.path || _normalized.file_path, content: _normalized.content },\n                    }, {});\n                    if (_hookResult?.block) {\n                        throw new Error(_hookResult.blockReason || \"Blocked by before_tool_call hook\");\n                    }\n                }\n                return _origWriteExec(toolCallId, params, signal, onUpdate);\n            };\n            // END OPENCLAW_HARNESS_PATCH_v2\n            return [_writeTool];\n        }\n        if (tool.name === \"edit\") {\n            if (sandboxRoot)\n                return [];\n            // Wrap with param normalization for cross-runtime compatibility\n            const _editTool = wrapToolParamNormalization(createEditTool(workspaceRoot), CLAUDE_PARAM_GROUPS.edit);\n            "@
        + "// OPENCLAW_HARNESS_PATCH_v2"@
        + " \u{2014} before_tool_call hook for edit\n            const _origEditExec = _editTool.execute;\n            _editTool.execute = async (toolCallId, params, signal, onUpdate) => {\n                const { getGlobalHookRunner } = await import(\"../plugins/hook-runner-global.js\");\n                const _hookRunner = getGlobalHookRunner();\n                if (_hookRunner) {\n                    const _normalized = params && typeof params === \"object\" ? params : {};\n                    const _hookResult = await _hookRunner.runBeforeToolCall({\n                        toolName: \"edit\",\n                        params: { path: _normalized.path || _normalized.file_path, oldText: _normalized.oldText || _normalized.old_string, newText: _normalized.newText || _normalized.new_string },\n                    }, {});\n                    if (_hookResult?.block) {\n                        throw new Error(_hookResult.blockReason || \"Blocked by before_tool_call hook\");\n                    }\n                }\n                return _origEditExec(toolCallId, params, signal, onUpdate);\n            };\n            // END OPENCLAW_HARNESS_PATCH_v2\n            return [_editTool];\n        }"@
}

/// Applies the write/edit patch: the anchor is replaced wholesale by the
/// hooked version.
pub fn apply_write_edit_patch(content: &str) -> (r: PatchOutcome)
    ensures
        match r {
            PatchOutcome::AlreadyPatched => has_sub(content@, "// OPENCLAW_HARNESS_PATCH_v2"@),
            PatchOutcome::Patched(nc) => !has_sub(content@, "// OPENCLAW_HARNESS_PATCH_v2"@)
                && has_sub(content@, spec_write_edit_anchor()) && nc@ == spec_replace_first(
                content@,
                spec_write_edit_anchor(),
                spec_write_edit_replacement(),
            ),
            PatchOutcome::AnchorMissing => !has_sub(content@, "// OPENCLAW_HARNESS_PATCH_v2"@)
                && !has_sub(content@, spec_write_edit_anchor()),
        },
{
    let replacement = write_edit_replacement();
    apply_patch_content(content, patch_v2_marker(), write_edit_anchor(), replacement.as_str())
}

/// The bundle versions the patch anchors were verified against; an unknown
/// version may still patch if the anchor check passes.
pub open spec fn spec_supported_versions() -> Seq<Seq<char>> {
    seq![
        "2026.1.24-3"@,
        "2026.1.29"@,
        "2026.1.30"@,
        "2026.2.2-3"@,
        "2026.2.3-1"@,
        "2026.2.6-3"@,
        "2026.2.9"@,
        "2026.2.12"@,
    ]
}

/// The known-tested bundle versions.
pub fn supported_versions() -> (r: Vec<String>)
    ensures
        r.deep_view() == spec_supported_versions(),
{
    let mut v: Vec<String> = Vec::new();
    crate::text::push_str(&mut v, "2026.1.24-3");
    crate::text::push_str(&mut v, "2026.1.29");
    crate::text::push_str(&mut v, "2026.1.30");
    crate::text::push_str(&mut v, "2026.2.2-3");
    crate::text::push_str(&mut v, "2026.2.3-1");
    crate::text::push_str(&mut v, "2026.2.6-3");
    crate::text::push_str(&mut v, "2026.2.9");
    crate::text::push_str(&mut v, "2026.2.12");
    proof {
        assert(v.deep_view() =~= spec_supported_versions());
    }
    v
}

/// Whether a reported bundle version is in the tested whitelist.
pub fn is_supported_version(version: &str) -> (r: bool)
    ensures
        r == (exists|i: int|
            0 <= i < spec_supported_versions().len() && spec_supported_versions()[i]
                == version@),
{
    let versions = supported_versions();
    let ghost dv = versions.deep_view();
    let mut i: usize = 0;
    while i < versions.len()
        invariant
            dv == versions.deep_view(),
            dv == spec_supported_versions(),
            i <= dv.len(),
            forall|j: int| 0 <= j < i ==> dv[j] != version@,
        decreases dv.len() - i,
    {
        if crate::text::str_eq(versions[i].as_str(), version) {
            assert(dv[i as int] == versions@[i as int]@);
            return true;
        }
        assert(dv[i as int] == versions@[i as int]@);
        i = i + 1;
    }
    false
}

/// What the patch command is asked to do.
#[derive(Debug, Clone, Copy, PartialEq, Eq, Structural)]
pub enum PatchMode {
    /// Apply the patches.
    Apply,
    /// Revert the patches.
    Revert,
    /// Report each file's status.
    Check,
}

/// What an apply attempt on one file's contents yields.
pub enum PatchOutcome {
    /// The sentinel was already present: nothing to do.
    AlreadyPatched,
    /// The anchor was found; the new contents carry the injection.
    Patched(String),
    /// The anchor is missing: the bundle is incompatible.
    AnchorMissing,
}

/// The mathematical outcome of applying a patch to file contents: already
/// patched when the sentinel is present, new contents when the anchor is
/// found (the anchor's first occurrence replaced by the replacement text),
/// and incompatible otherwise.
pub open spec fn spec_apply(
    content: Seq<char>,
    marker: Seq<char>,
    anchor: Seq<char>,
    replacement: Seq<char>,
) -> Option<Option<Seq<char>>> {
    if has_sub(content, marker) {
        Some(None)
    } else if has_sub(content, anchor) {
        Some(Some(spec_replace_first(content, anchor, replacement)))
    } else {
        None
    }
}

/// Applies a patch to file contents: idempotent via the sentinel, guarded
/// by the anchor, and a pure function of the texts.
pub fn apply_patch_content(
    content: &str,
    marker: &str,
    anchor: &str,
    replacement: &str,
) -> (r: PatchOutcome)
    ensures
        match r {
            PatchOutcome::AlreadyPatched => spec_apply(content@, marker@, anchor@, replacement@)
                == Some(Option::<Seq<char>>::None),
            PatchOutcome::Patched(nc) => spec_apply(content@, marker@, anchor@, replacement@)
                == Some(Some(nc@)),
            PatchOutcome::AnchorMissing => spec_apply(content@, marker@, anchor@, replacement@)
                is None,
        },
{
    if str_contains(content, marker) {
        PatchOutcome::AlreadyPatched
    } else if str_contains(content, anchor) {
        PatchOutcome::Patched(replace_first(content, anchor, replacement))
    } else {
        PatchOutcome::AnchorMissing
    }
}

/// Applies the exec-tool patch: the injected block is appended right after
/// the anchor.
pub fn apply_exec_patch(content: &str) -> (r: PatchOutcome)
    ensures
        match r {
            PatchOutcome::AlreadyPatched => has_sub(content@, "// OPENCLAW_HARNESS_PATCH_v1"@),
            PatchOutcome::Patched(nc) => !has_sub(content@, "// OPENCLAW_HARNESS_PATCH_v1"@)
                && has_sub(content@, spec_anchor_text()) && nc@ == spec_replace_first(
                content@,
                spec_anchor_text(),
                spec_anchor_text() + spec_patch_code(),
            ),
            PatchOutcome::AnchorMissing => !has_sub(content@, "// OPENCLAW_HARNESS_PATCH_v1"@)
                && !has_sub(content@, spec_anchor_text()),
        },
{
    let mut replacement = String::from_str(anchor_text());
    let code = patch_code();
    replacement.append(code.as_str());
    apply_patch_content(content, patch_marker(), anchor_text(), replacement.as_str())
}

/// The state of one patch target: the live file contents and the backup
/// sibling, when one exists.
pub ghost struct PatchFileV {
    pub content: Seq<char>,
    pub backup: Option<Seq<char>>,
}

/// One apply step at the file level: an unpatched file with the anchor is
/// backed up (only if no backup exists yet) and rewritten; a patched file
/// and an incompatible file are left alone.
pub open spec fn spec_apply_file(
    f: PatchFileV,
    marker: Seq<char>,
    anchor: Seq<char>,
    replacement: Seq<char>,
) -> PatchFileV {
    match spec_apply(f.content, marker, anchor, replacement) {
        Some(None) => f,
        Some(Some(nc)) => PatchFileV {
            content: nc,
            backup: if f.backup is None {
                Some(f.content)
            } else {
                f.backup
            },
        },
        None => f,
    }
}

/// One revert step at the file level: with a backup, the backup is restored
/// and removed; without one, an unpatched file is a no-op, and a patched
/// file without a backup is left alone (reverting it would be unsafe).
pub open spec fn spec_revert_file(f: PatchFileV) -> PatchFileV {
    match f.backup {
        Some(orig) => PatchFileV { content: orig, backup: None },
        None => f,
    }
}

/// What a revert attempt on one file yields.
pub enum RevertOutcome {
    /// The backup's contents, to be written back; the backup goes away.
    Restored(String),
    /// No backup and no sentinel: nothing to revert.
    NothingToDo,
    /// No backup but the sentinel is present: unsafe to revert
    /// automatically.
    UnsafeNoBackup,
}

/// Decides a revert from the live contents and the backup contents: a
/// backup is restored; without one, an unpatched file is a no-op and a
/// patched file is refused.
pub fn revert_patch(content: &str, marker: &str, backup: Option<&str>) -> (r: RevertOutcome)
    ensures
        match r {
            RevertOutcome::Restored(nc) => backup is Some && nc@ == backup.unwrap()@,
            RevertOutcome::NothingToDo => backup is None && !has_sub(content@, marker@),
            RevertOutcome::UnsafeNoBackup => backup is None && has_sub(content@, marker@),
        },
{
    match backup {
        Some(b) => RevertOutcome::Restored(String::from_str(b)),
        None => {
            if str_contains(content, marker) {
                RevertOutcome::UnsafeNoBackup
            } else {
                RevertOutcome::NothingToDo
            }
        },
    }
}

/// Whether file contents carry the given patch sentinel.
pub fn is_patched(content: &str, marker: &str) -> (r: bool)
    ensures
        r == has_sub(content@, marker@),
{
    str_contains(content, marker)
}

/// Whether a bundled loader already ships its own before-tool-call hooks,
/// making the patch unnecessary.
pub fn has_builtin_before_tool_call(loader: &str) -> (r: bool)
    ensures
        r == (has_sub(loader@, "wrapToolWithBeforeToolCallHook"@) && has_sub(
            loader@,
            "before_tool_call"@,
        )),
{
    str_contains(loader, "wrapToolWithBeforeToolCallHook") && str_contains(
        loader,
        "before_tool_call",
    )
}

/// The sentinel never occurs in an unpatched file's contents after a
/// successful apply has been reverted — reverting restores the original
/// bytes exactly, and removes the backup.
pub proof fn lemma_revert_after_apply(
    f: PatchFileV,
    marker: Seq<char>,
    anchor: Seq<char>,
    replacement: Seq<char>,
)
    requires
        f.backup is None,
    ensures
        spec_revert_file(spec_apply_file(f, marker, anchor, replacement)) == f
            || spec_apply_file(f, marker, anchor, replacement) == f,
{
    match spec_apply(f.content, marker, anchor, replacement) {
        Some(None) => {},
        Some(Some(nc)) => {
            assert(spec_revert_file(spec_apply_file(f, marker, anchor, replacement)) == f);
        },
        None => {},
    }
}

/// Applying twice is the same as applying once: the replacement carries the
/// sentinel, so a second apply sees it and does nothing.
pub proof fn lemma_apply_idempotent(
    f: PatchFileV,
    marker: Seq<char>,
    anchor: Seq<char>,
    replacement: Seq<char>,
)
    requires
        has_sub(replacement, marker),
    ensures
        spec_apply_file(spec_apply_file(f, marker, anchor, replacement), marker, anchor,
        replacement) == spec_apply_file(f, marker, anchor, replacement),
{
    match spec_apply(f.content, marker, anchor, replacement) {
        Some(None) => {},
        Some(Some(nc)) => {
            let w = choose|w: int| crate::text::sub_at(f.content, anchor, w);
            lemma_min_witness(f.content, anchor, w);
            let i = choose|i: int|
                crate::text::sub_at(f.content, anchor, i) && forall|j: int|
                    0 <= j < i ==> !crate::text::sub_at(f.content, anchor, j);
            let k = choose|k: int| crate::text::sub_at(replacement, marker, k);
            assert(crate::text::sub_at(nc, marker, i + k)) by {
                assert(nc == f.content.subrange(0, i) + replacement + f.content.subrange(
                    i + anchor.len(),
                    f.content.len() as int,
                ));
                assert(nc.subrange(i + k, i + k + marker.len()) =~= replacement.subrange(
                    k,
                    k + marker.len(),
                ));
            }
            assert(has_sub(nc, marker));
        },
        None => {},
    }
}

/// A minimal occurrence exists wherever any occurrence does.
proof fn lemma_min_witness(hay: Seq<char>, pat: Seq<char>, w: int)
    requires
        crate::text::sub_at(hay, pat, w),
    ensures
        exists|i: int|
            crate::text::sub_at(hay, pat, i) && forall|j: int|
                0 <= j < i ==> !crate::text::sub_at(hay, pat, j),
    decreases w,
{
    if exists|j: int| 0 <= j < w && crate::text::sub_at(hay, pat, j) {
        let j = choose|j: int| 0 <= j < w && crate::text::sub_at(hay, pat, j);
        lemma_min_witness(hay, pat, j);
    } else {
        assert(crate::text::sub_at(hay, pat, w) && forall|j: int|
            0 <= j < w ==> !crate::text::sub_at(hay, pat, j));
    }
}

/// Reverting twice is the same as reverting once: the first revert removes
/// the backup, and without a backup revert does nothing.
pub proof fn lemma_revert_idempotent(f: PatchFileV)
    ensures
        spec_revert_file(spec_revert_file(f)) == spec_revert_file(f),
{
}

} // verus!
