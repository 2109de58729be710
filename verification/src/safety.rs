//! The safety evaluator: pure rules deciding whether a model-proposed shell
//! command or file patch is auto-approved (and under which sandbox), needs
//! the user's approval, or is rejected.

use crate::apply_patch::ApplyPatchAction;
use crate::apply_patch::ApplyPatchFileChange;
use crate::apply_patch::PatchChange;
use crate::paths::FsPath;
use crate::paths::PathV;
use crate::paths::spec_join;
use crate::paths::spec_normalize;
use crate::paths::spec_path_prefix;
use crate::protocol::AskForApproval;
use crate::protocol::HostPlatform;
use crate::protocol::SandboxPolicy;
use vstd::prelude::*;

verus! {

/// The kind of OS-level confinement a command runs under; absent sandbox is
/// written `Option::<SandboxType>::None`.
#[derive(Debug, Clone, Copy, PartialEq, Eq, Structural)]
pub enum SandboxType {
    MacosSeatbelt,
    LinuxSeccomp,
}

/// The evaluator's verdict on a proposed command or patch.
#[derive(Debug)]
pub enum SafetyCheck {
    AutoApprove { sandbox_type: Option<SandboxType> },
    AskUser,
    Reject { reason: String },
}

/// The verdict's mathematical form, with the rejection reason as characters.
pub enum SafetyCheckV {
    AutoApprove { sandbox_type: Option<SandboxType> },
    AskUser,
    Reject { reason: Seq<char> },
}

impl View for SafetyCheck {
    type V = SafetyCheckV;

    open spec fn view(&self) -> SafetyCheckV {
        match self {
            SafetyCheck::AutoApprove { sandbox_type } => SafetyCheckV::AutoApprove {
                sandbox_type: *sandbox_type,
            },
            SafetyCheck::AskUser => SafetyCheckV::AskUser,
            SafetyCheck::Reject { reason } => SafetyCheckV::Reject { reason: reason@ },
        }
    }
}

/// The sandbox available on each platform: seatbelt on macOS, seccomp on
/// Linux, none elsewhere.
pub open spec fn spec_platform_sandbox(platform: HostPlatform) -> Option<SandboxType> {
    match platform {
        HostPlatform::MacOs => Some(SandboxType::MacosSeatbelt),
        HostPlatform::Linux => Some(SandboxType::LinuxSeccomp),
        HostPlatform::Other => None,
    }
}

/// Which sandbox, if any, the given platform offers.
pub fn get_platform_sandbox(platform: HostPlatform) -> (r: Option<SandboxType>)
    ensures
        r == spec_platform_sandbox(platform),
{
    match platform {
        HostPlatform::MacOs => Some(SandboxType::MacosSeatbelt),
        HostPlatform::Linux => Some(SandboxType::LinuxSeccomp),
        HostPlatform::Other => None,
    }
}

/// The built-in safe list: shell primitives that only read files or write to
/// their own standard output, whatever their arguments.
pub open spec fn spec_is_safe_program(w: Seq<char>) -> bool {
    ||| w == "ls"@
    ||| w == "cat"@
    ||| w == "pwd"@
    ||| w == "echo"@
    ||| w == "head"@
    ||| w == "tail"@
    ||| w == "wc"@
    ||| w == "which"@
    ||| w == "grep"@
    ||| w == "rg"@
    ||| w == "true"@
    ||| w == "false"@
}

/// A command is known safe when it runs a program of the built-in safe list.
pub open spec fn spec_is_known_safe_command(command: Seq<Seq<char>>) -> bool {
    command.len() > 0 && spec_is_safe_program(command[0])
}

fn is_safe_program(w: &String) -> (r: bool)
    ensures
        r == spec_is_safe_program(w@),
{
    *w == String::from_str("ls") || *w == String::from_str("cat") || *w == String::from_str("pwd")
        || *w == String::from_str("echo") || *w == String::from_str("head") || *w
        == String::from_str("tail") || *w == String::from_str("wc") || *w == String::from_str(
        "which",
    ) || *w == String::from_str("grep") || *w == String::from_str("rg") || *w == String::from_str(
        "true",
    ) || *w == String::from_str("false")
}

/// Whether the command is on the built-in safe list.
pub fn is_known_safe_command(command: &Vec<String>) -> (r: bool)
    ensures
        r == spec_is_known_safe_command(command.deep_view()),
{
    if command.len() == 0 {
        return false;
    }
    let r = is_safe_program(&command[0]);
    proof {
        assert(command.deep_view()[0] == command@[0]@);
    }
    r
}

/// Compares two commands word for word.
pub fn command_eq(a: &Vec<String>, b: &Vec<String>) -> (r: bool)
    ensures
        r == (a.deep_view() == b.deep_view()),
{
    if a.len() != b.len() {
        proof {
            assert(a.deep_view().len() != b.deep_view().len());
        }
        return false;
    }
    let mut i: usize = 0;
    while i < a.len()
        invariant
            i <= a.len(),
            a@.len() == b@.len(),
            forall|j: int| 0 <= j < i ==> a@[j]@ == b@[j]@,
        decreases a.len() - i,
    {
        if !(a[i] == b[i]) {
            proof {
                assert(a.deep_view()[i as int] == a@[i as int]@);
                assert(b.deep_view()[i as int] == b@[i as int]@);
            }
            return false;
        }
        i = i + 1;
    }
    proof {
        assert forall|j: int| 0 <= j < a.deep_view().len() implies a.deep_view()[j]
            == b.deep_view()[j] by {
            assert(a.deep_view()[j] == a@[j]@);
            assert(b.deep_view()[j] == b@[j]@);
        }
        assert(a.deep_view() =~= b.deep_view());
    }
    true
}

/// The commands the user has approved for the rest of the session.
#[derive(Debug)]
pub struct ApprovedCommandSet {
    items: Vec<Vec<String>>,
}

impl ApprovedCommandSet {
    /// The set of commands this value holds.
    pub closed spec fn as_set(&self) -> Set<Seq<Seq<char>>> {
        Set::new(|c: Seq<Seq<char>>| self.items.deep_view().contains(c))
    }

    pub fn new() -> (r: Self)
        ensures
            r.as_set() =~= Set::<Seq<Seq<char>>>::empty(),
    {
        let r = ApprovedCommandSet { items: Vec::new() };
        proof {
            assert forall|c: Seq<Seq<char>>| !r.as_set().contains(c) by {
                assert(r.items.deep_view().len() == 0);
            }
        }
        r
    }

    pub fn contains(&self, command: &Vec<String>) -> (r: bool)
        ensures
            r == self.as_set().contains(command.deep_view()),
    {
        let ghost cdv = command.deep_view();
        let mut i: usize = 0;
        while i < self.items.len()
            invariant
                cdv == command.deep_view(),
                i <= self.items@.len(),
                forall|j: int| 0 <= j < i ==> self.items.deep_view()[j] != cdv,
            decreases self.items@.len() - i,
        {
            if command_eq(&self.items[i], command) {
                proof {
                    assert(self.items.deep_view()[i as int] == self.items@[i as int].deep_view());
                    assert(self.items.deep_view().contains(cdv));
                }
                return true;
            }
            proof {
                assert(self.items.deep_view()[i as int] == self.items@[i as int].deep_view());
            }
            i = i + 1;
        }
        proof {
            if self.items.deep_view().contains(cdv) {
                let k = choose|k: int|
                    0 <= k < self.items.deep_view().len() && self.items.deep_view()[k] == cdv;
                assert(false);
            }
        }
        false
    }

    /// Records a command as approved for the session.
    pub fn insert(&mut self, command: Vec<String>)
        ensures
            final(self).as_set() =~= old(self).as_set().insert(command.deep_view()),
    {
        let ghost cdv = command.deep_view();
        if !self.contains(&command) {
            let ghost before = self.items.deep_view();
            self.items.push(command);
            proof {
                assert forall|j: int| 0 <= j < before.len() implies self.items.deep_view()[j]
                    == before[j] by {
                    assert(self.items.deep_view()[j] == self.items@[j].deep_view());
                }
                assert(self.items.deep_view()[before.len() as int] == cdv);
                assert forall|c: Seq<Seq<char>>| self.as_set().contains(c) == old(
                    self,
                ).as_set().insert(cdv).contains(c) by {
                    if self.items.deep_view().contains(c) {
                        let k = choose|k: int|
                            0 <= k < self.items.deep_view().len() && self.items.deep_view()[k] == c;
                        if k < before.len() {
                            assert(before[k] == self.items.deep_view()[k]);
                            assert(before.contains(c));
                        }
                    }
                    if before.contains(c) {
                        let k = choose|k: int| 0 <= k < before.len() && before[k] == c;
                        assert(self.items.deep_view()[k] == c);
                        assert(self.items.deep_view().contains(c));
                    }
                    if c == cdv {
                        assert(self.items.deep_view().contains(c));
                    }
                }
            }
        } else {
            proof {
                assert forall|c: Seq<Seq<char>>| self.as_set().contains(c) == old(
                    self,
                ).as_set().insert(cdv).contains(c) by {}
            }
        }
    }
}

/// The verdict on a proposed command. A command on the built-in safe list or
/// approved earlier in the session runs without a sandbox; otherwise the
/// approval policy and the sandbox policy decide. The rule is a function of
/// its arguments alone.
pub open spec fn spec_assess_command_safety(
    command: Seq<Seq<char>>,
    approval_policy: AskForApproval,
    sandbox_policy: SandboxPolicy,
    approved: Set<Seq<Seq<char>>>,
    platform: HostPlatform,
) -> SafetyCheckV {
    if spec_is_known_safe_command(command) || approved.contains(command) {
        SafetyCheckV::AutoApprove { sandbox_type: None }
    } else {
        match approval_policy {
            AskForApproval::UnlessTrusted => SafetyCheckV::AskUser,
            _ => match sandbox_policy {
                SandboxPolicy::DangerFullAccess => SafetyCheckV::AutoApprove {
                    sandbox_type: None,
                },
                _ => match spec_platform_sandbox(platform) {
                    Some(sandbox_type) => SafetyCheckV::AutoApprove { sandbox_type: Some(sandbox_type) },
                    None => {
                        if approval_policy == AskForApproval::OnFailure {
                            SafetyCheckV::AskUser
                        } else {
                            SafetyCheckV::Reject {
                                reason: "auto-rejected because command is not on trusted list"@,
                            }
                        }
                    },
                },
            },
        }
    }
}

/// Decides whether a command may run, and under which sandbox.
pub fn assess_command_safety(
    command: &Vec<String>,
    approval_policy: AskForApproval,
    sandbox_policy: &SandboxPolicy,
    approved: &ApprovedCommandSet,
    platform: HostPlatform,
) -> (r: SafetyCheck)
    ensures
        r@ == spec_assess_command_safety(
            command.deep_view(),
            approval_policy,
            *sandbox_policy,
            approved.as_set(),
            platform,
        ),
{
    if is_known_safe_command(command) || approved.contains(command) {
        return SafetyCheck::AutoApprove { sandbox_type: None };
    }
    match approval_policy {
        AskForApproval::UnlessTrusted => SafetyCheck::AskUser,
        _ => match sandbox_policy {
            SandboxPolicy::DangerFullAccess => SafetyCheck::AutoApprove {
                sandbox_type: None,
            },
            _ => match get_platform_sandbox(platform) {
                Some(sandbox_type) => SafetyCheck::AutoApprove { sandbox_type: Some(sandbox_type) },
                None => {
                    if matches!(approval_policy, AskForApproval::OnFailure) {
                        SafetyCheck::AskUser
                    } else {
                        SafetyCheck::Reject {
                            reason: String::from_str(
                                "auto-rejected because command is not on trusted list",
                            ),
                        }
                    }
                },
            },
        },
    }
}

/// A command the user has approved for the session is auto-approved without
/// a sandbox, whatever the approval policy, sandbox policy and platform.
pub proof fn lemma_approved_command_is_auto_approved(
    command: Seq<Seq<char>>,
    approval_policy: AskForApproval,
    sandbox_policy: SandboxPolicy,
    approved: Set<Seq<Seq<char>>>,
    platform: HostPlatform,
)
    requires
        approved.contains(command),
    ensures
        spec_assess_command_safety(command, approval_policy, sandbox_policy, approved, platform)
            == (SafetyCheckV::AutoApprove { sandbox_type: None }),
{
}

/// A root made absolute: kept as given when already absolute, otherwise
/// anchored at the working directory and normalized.
pub open spec fn spec_root_abs(root: PathV, cwd: PathV) -> PathV {
    if root.absolute {
        root
    } else {
        spec_normalize(spec_join(cwd, root))
    }
}

/// Whether a path, anchored at `cwd` and normalized, lies under one of the
/// writable roots.
pub open spec fn spec_path_writable(p: PathV, roots: Seq<PathV>, cwd: PathV) -> bool {
    exists|i: int|
        0 <= i < roots.len() && spec_path_prefix(
            spec_root_abs(roots[i], cwd),
            spec_normalize(spec_join(cwd, p)),
        )
}

/// Whether every path a change writes lies under a writable root.
pub open spec fn spec_change_writable(c: PatchChange, roots: Seq<PathV>, cwd: PathV) -> bool {
    &&& spec_path_writable(c.path@, roots, cwd)
    &&& match c.change {
        ApplyPatchFileChange::Update { unified_diff, move_path } => match move_path {
            Some(dest) => spec_path_writable(dest@, roots, cwd),
            None => true,
        },
        _ => true,
    }
}

/// Whether a patch only writes under the declared writable roots. A patch
/// with no roots declared is never constrained.
pub open spec fn spec_patch_constrained(
    changes: Seq<PatchChange>,
    roots: Seq<PathV>,
    cwd: PathV,
) -> bool {
    &&& roots.len() > 0
    &&& forall|i: int| 0 <= i < changes.len() ==> spec_change_writable(#[trigger] changes[i], roots, cwd)
}

fn is_path_writable(p: &FsPath, writable_roots: &Vec<FsPath>, cwd: &FsPath) -> (r: bool)
    ensures
        r == spec_path_writable(p@, writable_roots.deep_view(), cwd@),
{
    let abs = p.join_under(cwd).normalize();
    let mut i: usize = 0;
    while i < writable_roots.len()
        invariant
            abs@ == spec_normalize(spec_join(cwd@, p@)),
            i <= writable_roots@.len(),
            forall|j: int|
                0 <= j < i ==> !spec_path_prefix(
                    spec_root_abs(#[trigger] writable_roots.deep_view()[j], cwd@),
                    abs@,
                ),
        decreases writable_roots@.len() - i,
    {
        let root = &writable_roots[i];
        proof {
            assert(writable_roots.deep_view()[i as int] == writable_roots@[i as int]@);
        }
        let root_abs = if root.is_absolute() {
            root.clone()
        } else {
            root.join_under(cwd).normalize()
        };
        if abs.starts_with(&root_abs) {
            return true;
        }
        i = i + 1;
    }
    proof {
        if spec_path_writable(p@, writable_roots.deep_view(), cwd@) {
            let k = choose|k: int|
                0 <= k < writable_roots.deep_view().len() && spec_path_prefix(
                    spec_root_abs(writable_roots.deep_view()[k], cwd@),
                    abs@,
                );
            assert(false);
        }
    }
    false
}

/// Whether the patch writes only under the declared writable roots, with
/// `.`/`..` resolved and relative paths anchored at `cwd`, all without
/// touching the filesystem.
pub fn is_write_patch_constrained_to_writable_paths(
    action: &ApplyPatchAction,
    writable_roots: &Vec<FsPath>,
    cwd: &FsPath,
) -> (r: bool)
    ensures
        r == spec_patch_constrained(action.spec_changes(), writable_roots.deep_view(), cwd@),
{
    if writable_roots.len() == 0 {
        return false;
    }
    let changes = action.changes();
    let mut i: usize = 0;
    while i < changes.len()
        invariant
            changes@ == action.spec_changes(),
            writable_roots.deep_view().len() > 0,
            i <= changes@.len(),
            forall|j: int|
                0 <= j < i ==> spec_change_writable(
                    #[trigger] changes@[j],
                    writable_roots.deep_view(),
                    cwd@,
                ),
        decreases changes@.len() - i,
    {
        let c = &changes[i];
        if !is_path_writable(&c.path, writable_roots, cwd) {
            return false;
        }
        match &c.change {
            ApplyPatchFileChange::Update { move_path: Some(dest), .. } => {
                if !is_path_writable(dest, writable_roots, cwd) {
                    return false;
                }
            },
            _ => {},
        }
        i = i + 1;
    }
    true
}

/// The verdict on a proposed patch: an empty patch is rejected; under
/// `UnlessTrusted` the user is always asked; a patch kept inside the
/// writable roots is auto-approved without a sandbox; otherwise `OnFailure`
/// falls back to the platform sandbox or to the user, and `Never` rejects.
pub open spec fn spec_assess_patch_safety(
    changes: Seq<PatchChange>,
    policy: AskForApproval,
    roots: Seq<PathV>,
    cwd: PathV,
    platform: HostPlatform,
) -> SafetyCheckV {
    if changes.len() == 0 {
        SafetyCheckV::Reject { reason: "empty patch"@ }
    } else if policy == AskForApproval::UnlessTrusted {
        SafetyCheckV::AskUser
    } else if spec_patch_constrained(changes, roots, cwd) {
        SafetyCheckV::AutoApprove { sandbox_type: None }
    } else if policy == AskForApproval::OnFailure {
        match spec_platform_sandbox(platform) {
            Some(sandbox_type) => SafetyCheckV::AutoApprove { sandbox_type: Some(sandbox_type) },
            None => SafetyCheckV::AskUser,
        }
    } else {
        SafetyCheckV::Reject {
            reason: "writing outside of the project; rejected by user approval settings"@,
        }
    }
}

/// Decides whether a patch may be applied, and under which sandbox.
pub fn assess_patch_safety(
    action: &ApplyPatchAction,
    policy: AskForApproval,
    writable_roots: &Vec<FsPath>,
    cwd: &FsPath,
    platform: HostPlatform,
) -> (r: SafetyCheck)
    ensures
        r@ == spec_assess_patch_safety(
            action.spec_changes(),
            policy,
            writable_roots.deep_view(),
            cwd@,
            platform,
        ),
{
    if action.is_empty() {
        return SafetyCheck::Reject { reason: String::from_str("empty patch") };
    }
    match policy {
        AskForApproval::OnFailure | AskForApproval::Never => {},
        AskForApproval::UnlessTrusted => {
            return SafetyCheck::AskUser;
        },
    }
    if is_write_patch_constrained_to_writable_paths(action, writable_roots, cwd) {
        SafetyCheck::AutoApprove { sandbox_type: None }
    } else if matches!(policy, AskForApproval::OnFailure) {
        match get_platform_sandbox(platform) {
            Some(sandbox_type) => SafetyCheck::AutoApprove { sandbox_type: Some(sandbox_type) },
            None => SafetyCheck::AskUser,
        }
    } else {
        SafetyCheck::Reject {
            reason: String::from_str(
                "writing outside of the project; rejected by user approval settings",
            ),
        }
    }
}

/// Under `UnlessTrusted`, every non-empty patch asks the user, whatever the
/// roots, working directory and platform.
pub proof fn lemma_unless_trusted_patch_asks_user(
    changes: Seq<PatchChange>,
    roots: Seq<PathV>,
    cwd: PathV,
    platform: HostPlatform,
)
    requires
        changes.len() > 0,
    ensures
        spec_assess_patch_safety(changes, AskForApproval::UnlessTrusted, roots, cwd, platform)
            == SafetyCheckV::AskUser,
{
}

/// An empty patch is rejected with reason "empty patch", whatever the
/// policy, roots, working directory and platform.
pub proof fn lemma_empty_patch_rejected(
    policy: AskForApproval,
    roots: Seq<PathV>,
    cwd: PathV,
    platform: HostPlatform,
)
    ensures
        spec_assess_patch_safety(Seq::empty(), policy, roots, cwd, platform)
            == (SafetyCheckV::Reject { reason: "empty patch"@ }),
{
}

/// A patch with a change outside every writable root is never auto-approved
/// without a sandbox.
pub proof fn lemma_patch_outside_roots_not_plainly_approved(
    changes: Seq<PatchChange>,
    policy: AskForApproval,
    roots: Seq<PathV>,
    cwd: PathV,
    platform: HostPlatform,
    i: int,
)
    requires
        0 <= i < changes.len(),
        !spec_change_writable(changes[i], roots, cwd),
    ensures
        spec_assess_patch_safety(changes, policy, roots, cwd, platform) != (
        SafetyCheckV::AutoApprove { sandbox_type: None }),
{
}

} // verus!
