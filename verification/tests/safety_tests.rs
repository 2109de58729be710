use codex::apply_patch::ApplyPatchAction;
use codex::apply_patch::ApplyPatchFileChange;
use codex::apply_patch::PatchChange;
use codex::paths::FsPath;
use codex::protocol::AskForApproval;
use codex::protocol::HostPlatform;
use codex::protocol::SandboxPolicy;
use codex::safety::ApprovedCommandSet;
use codex::safety::SafetyCheck;
use codex::safety::SandboxType;
use codex::safety::assess_command_safety;
use codex::safety::assess_patch_safety;
use codex::safety::command_eq;
use codex::safety::get_platform_sandbox;
use codex::safety::is_known_safe_command;
use codex::safety::is_write_patch_constrained_to_writable_paths;

fn path(abs: bool, parts: &[&str]) -> FsPath {
    FsPath::new(abs, parts.iter().map(|p| p.to_string()).collect())
}

fn cmd(words: &[&str]) -> Vec<String> {
    words.iter().map(|w| w.to_string()).collect()
}

#[test]
fn approved_command_is_auto_approved_everywhere() {
    // An approved command wins for every policy/sandbox/platform mix.
    let command = cmd(&["cargo", "build"]);
    let mut approved = ApprovedCommandSet::new();
    approved.insert(cmd(&["cargo", "build"]));
    let policies = [
        AskForApproval::UnlessTrusted,
        AskForApproval::OnFailure,
        AskForApproval::Never,
    ];
    let platforms = [HostPlatform::MacOs, HostPlatform::Linux, HostPlatform::Other];
    for policy in policies {
        for platform in platforms {
            let verdict = assess_command_safety(
                &command,
                policy,
                &SandboxPolicy::ReadOnly,
                &approved,
                platform,
            );
            assert!(matches!(
                verdict,
                SafetyCheck::AutoApprove { sandbox_type: None }
            ));
        }
    }
}

#[test]
fn safe_list_command_runs_without_sandbox() {
    let approved = ApprovedCommandSet::new();
    let verdict = assess_command_safety(
        &cmd(&["ls", "-l"]),
        AskForApproval::UnlessTrusted,
        &SandboxPolicy::ReadOnly,
        &approved,
        HostPlatform::Other,
    );
    assert!(matches!(
        verdict,
        SafetyCheck::AutoApprove { sandbox_type: None }
    ));
    assert!(is_known_safe_command(&cmd(&["echo", "hi"])));
    assert!(!is_known_safe_command(&cmd(&["rm", "-rf", "/tmp/x"])));
    assert!(!is_known_safe_command(&cmd(&[])));
}

#[test]
fn untrusted_command_asks_user_under_unless_trusted() {
    let approved = ApprovedCommandSet::new();
    let verdict = assess_command_safety(
        &cmd(&["rm", "-rf", "/tmp/x"]),
        AskForApproval::UnlessTrusted,
        &SandboxPolicy::DangerFullAccess,
        &approved,
        HostPlatform::Linux,
    );
    assert!(matches!(verdict, SafetyCheck::AskUser));
}

#[test]
fn untrusted_command_sandboxed_or_rejected() {
    let approved = ApprovedCommandSet::new();
    // Sandbox available: auto-approve inside it.
    let verdict = assess_command_safety(
        &cmd(&["make"]),
        AskForApproval::Never,
        &SandboxPolicy::ReadOnly,
        &approved,
        HostPlatform::Linux,
    );
    assert!(matches!(
        verdict,
        SafetyCheck::AutoApprove {
            sandbox_type: Some(SandboxType::LinuxSeccomp)
        }
    ));
    // No sandbox, Never: rejected with the fixed reason.
    let verdict = assess_command_safety(
        &cmd(&["make"]),
        AskForApproval::Never,
        &SandboxPolicy::ReadOnly,
        &approved,
        HostPlatform::Other,
    );
    match verdict {
        SafetyCheck::Reject { reason } => {
            assert_eq!(reason, "auto-rejected because command is not on trusted list");
        }
        other => panic!("expected rejection, got {other:?}"),
    }
    // No sandbox, OnFailure: escalate to the user.
    let verdict = assess_command_safety(
        &cmd(&["make"]),
        AskForApproval::OnFailure,
        &SandboxPolicy::ReadOnly,
        &approved,
        HostPlatform::Other,
    );
    assert!(matches!(verdict, SafetyCheck::AskUser));
}

#[test]
fn empty_patch_is_rejected() {
    let action = ApplyPatchAction::new(Vec::new());
    let verdict = assess_patch_safety(
        &action,
        AskForApproval::OnFailure,
        &vec![path(true, &["repo"])],
        &path(true, &["repo"]),
        HostPlatform::Linux,
    );
    match verdict {
        SafetyCheck::Reject { reason } => assert_eq!(reason, "empty patch"),
        other => panic!("expected rejection, got {other:?}"),
    }
}

#[test]
fn non_empty_patch_asks_user_under_unless_trusted() {
    let action = ApplyPatchAction::new_add_for_test(
        path(true, &["repo", "inner.txt"]),
        String::new(),
    );
    let verdict = assess_patch_safety(
        &action,
        AskForApproval::UnlessTrusted,
        &vec![path(true, &["repo"])],
        &path(true, &["repo"]),
        HostPlatform::Linux,
    );
    assert!(matches!(verdict, SafetyCheck::AskUser));
}

#[test]
fn patch_outside_project_rejected_under_never() {
    // Working directory /work, patch touches /etc/hosts, no writable roots.
    let action = ApplyPatchAction::new_add_for_test(
        path(true, &["etc", "hosts"]),
        String::new(),
    );
    let verdict = assess_patch_safety(
        &action,
        AskForApproval::Never,
        &Vec::new(),
        &path(true, &["work"]),
        HostPlatform::Linux,
    );
    match verdict {
        SafetyCheck::Reject { reason } => {
            assert!(reason.contains("writing outside of the project"));
        }
        other => panic!("expected rejection, got {other:?}"),
    }
}

#[test]
fn patch_inside_roots_auto_approved() {
    let action = ApplyPatchAction::new_add_for_test(
        path(true, &["repo", "src", "main.rs"]),
        "fn main() {}".to_string(),
    );
    let verdict = assess_patch_safety(
        &action,
        AskForApproval::OnFailure,
        &vec![path(true, &["repo"])],
        &path(true, &["repo"]),
        HostPlatform::Other,
    );
    assert!(matches!(
        verdict,
        SafetyCheck::AutoApprove { sandbox_type: None }
    ));
}

#[test]
fn test_writable_roots_constraint() {
    let cwd = path(true, &["repo"]);
    let add_inside = ApplyPatchAction::new_add_for_test(
        path(true, &["repo", "inner.txt"]),
        String::new(),
    );
    assert!(is_write_patch_constrained_to_writable_paths(
        &add_inside,
        &vec![path(false, &["."])],
        &cwd,
    ));

    let add_outside = ApplyPatchAction::new_add_for_test(
        path(true, &["outside.txt"]),
        String::new(),
    );
    assert!(!is_write_patch_constrained_to_writable_paths(
        &add_outside,
        &vec![path(false, &["."])],
        &cwd,
    ));

    // With the parent directory as a writable root, it passes.
    assert!(is_write_patch_constrained_to_writable_paths(
        &add_outside,
        &vec![path(false, &[".."])],
        &cwd,
    ));
}

#[test]
fn update_with_move_checks_both_paths() {
    let mut changes = Vec::new();
    changes.push(PatchChange {
        path: path(true, &["repo", "a.txt"]),
        change: ApplyPatchFileChange::Update {
            unified_diff: String::new(),
            move_path: Some(path(true, &["elsewhere", "b.txt"])),
        },
    });
    let action = ApplyPatchAction::new(changes);
    assert!(!is_write_patch_constrained_to_writable_paths(
        &action,
        &vec![path(true, &["repo"])],
        &path(true, &["repo"]),
    ));
}

#[test]
fn writable_roots_always_contain_cwd() {
    let policy = SandboxPolicy::WorkspaceWrite {
        writable_roots: vec![path(true, &["extra"])],
        network_access: false,
    };
    let cwd = path(true, &["work"]);
    let tmp = path(true, &["tmp", "user"]);
    // Away from macOS no temporary directory is added.
    let roots = policy.get_writable_roots_with_cwd(&cwd, HostPlatform::Linux, Some(&tmp));
    assert_eq!(roots.len(), 2);
    assert!(roots[1].starts_with(&cwd));
    assert!(cwd.starts_with(&roots[1]));
    // On macOS the temporary directory joins the roots.
    let roots = policy.get_writable_roots_with_cwd(&cwd, HostPlatform::MacOs, Some(&tmp));
    assert_eq!(roots.len(), 3);
}

#[test]
fn sandbox_policy_accessors() {
    assert!(SandboxPolicy::new_read_only_policy().has_full_disk_read_access());
    assert!(!SandboxPolicy::new_read_only_policy().has_full_disk_write_access());
    assert!(!SandboxPolicy::new_read_only_policy().has_full_network_access());
    assert!(SandboxPolicy::DangerFullAccess.has_full_disk_write_access());
    assert!(SandboxPolicy::DangerFullAccess.has_full_network_access());
    let ww = SandboxPolicy::WorkspaceWrite {
        writable_roots: Vec::new(),
        network_access: true,
    };
    assert!(ww.has_full_network_access());
    assert!(!ww.has_full_disk_write_access());
    assert!(matches!(
        SandboxPolicy::new_workspace_write_policy(),
        SandboxPolicy::WorkspaceWrite {
            network_access: false,
            ..
        }
    ));
}

#[test]
fn platform_sandbox_per_platform() {
    assert_eq!(
        get_platform_sandbox(HostPlatform::MacOs),
        Some(SandboxType::MacosSeatbelt)
    );
    assert_eq!(
        get_platform_sandbox(HostPlatform::Linux),
        Some(SandboxType::LinuxSeccomp)
    );
    assert_eq!(get_platform_sandbox(HostPlatform::Other), None);
}

#[test]
fn path_normalization_resolves_dots() {
    let p = path(true, &["repo", ".", "src", "..", "lib"]);
    let n = p.normalize();
    assert!(n.starts_with(&path(true, &["repo", "lib"])));
    assert!(path(true, &["repo", "lib"]).starts_with(&n));
    // A parent step at the root is dropped.
    let q = path(true, &["..", "x"]).normalize();
    assert!(q.starts_with(&path(true, &["x"])));
}

#[test]
fn command_eq_compares_word_for_word() {
    assert!(command_eq(&cmd(&["a", "b"]), &cmd(&["a", "b"])));
    assert!(!command_eq(&cmd(&["a", "b"]), &cmd(&["a", "c"])));
    assert!(!command_eq(&cmd(&["a"]), &cmd(&["a", "b"])));
}
