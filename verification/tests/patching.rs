use moltbot_harness::patcher::{
    anchor_text, apply_exec_patch, is_patched, patch_marker, revert_patch, PatchOutcome,
    RevertOutcome, has_builtin_before_tool_call,
};

fn unpatched_file() -> String {
    format!(
        "async function startExec(params) {{\n            {}\n            return run(params);\n}}\n",
        anchor_text()
    )
}

#[test]
fn test_patch_apply_is_idempotent_and_reverts() {
    let original = unpatched_file();

    // First apply rewrites the file and the sentinel appears.
    let patched = match apply_exec_patch(&original) {
        PatchOutcome::Patched(nc) => nc,
        _ => panic!("expected a patch on unpatched contents"),
    };
    assert!(is_patched(&patched, patch_marker()));
    assert!(patched.contains(anchor_text()));

    // A second apply reports already patched.
    assert!(matches!(apply_exec_patch(&patched), PatchOutcome::AlreadyPatched));

    // Revert restores the original bytes via the backup.
    let restored = match revert_patch(&patched, patch_marker(), Some(&original)) {
        RevertOutcome::Restored(nc) => nc,
        _ => panic!("expected a restore when a backup exists"),
    };
    assert_eq!(restored, original);

    // A second revert, with the backup gone and no sentinel, is a no-op.
    assert!(matches!(
        revert_patch(&restored, patch_marker(), None),
        RevertOutcome::NothingToDo
    ));
}

#[test]
fn test_patch_anchor_missing() {
    let content = "function somethingElse() { return 1; }";
    assert!(matches!(apply_exec_patch(content), PatchOutcome::AnchorMissing));
}

#[test]
fn test_revert_without_backup_refuses_patched_file() {
    let original = unpatched_file();
    let patched = match apply_exec_patch(&original) {
        PatchOutcome::Patched(nc) => nc,
        _ => panic!("expected a patch"),
    };
    assert!(matches!(
        revert_patch(&patched, patch_marker(), None),
        RevertOutcome::UnsafeNoBackup
    ));
}

#[test]
fn test_builtin_hook_detection() {
    let loader = "export { wrapToolWithBeforeToolCallHook } // handles before_tool_call";
    assert!(has_builtin_before_tool_call(loader));
    assert!(!has_builtin_before_tool_call("plain loader"));
}

#[test]
fn test_supported_version_whitelist() {
    assert!(moltbot_harness::patcher::is_supported_version("2026.1.30"));
    assert!(!moltbot_harness::patcher::is_supported_version("2025.1.1"));
}
