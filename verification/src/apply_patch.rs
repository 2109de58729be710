//! Model of a file patch proposed by the model: a set of per-file changes.
//! The safety evaluator decides over it which paths a patch would touch.

use crate::paths::FsPath;
use crate::paths::PathV;
use vstd::prelude::*;

verus! {

/// One change a patch makes to one file.
#[derive(Debug)]
pub enum ApplyPatchFileChange {
    Add { content: String },
    Delete,
    Update { unified_diff: String, move_path: Option<FsPath> },
}

/// A file change paired with the path it applies to.
#[derive(Debug)]
pub struct PatchChange {
    pub path: FsPath,
    pub change: ApplyPatchFileChange,
}

/// A proposed patch: the list of file changes, in order.
#[derive(Debug)]
pub struct ApplyPatchAction {
    changes: Vec<PatchChange>,
}

/// The paths a single change would write: the file itself and, for an update
/// that moves the file, the destination.
pub open spec fn spec_affected_paths(c: PatchChange) -> Seq<PathV> {
    match c.change {
        ApplyPatchFileChange::Update { unified_diff, move_path } => match move_path {
            Some(dest) => seq![c.path@, dest@],
            None => seq![c.path@],
        },
        _ => seq![c.path@],
    }
}

impl ApplyPatchAction {
    /// Spec view of the change list.
    pub closed spec fn spec_changes(&self) -> Seq<PatchChange> {
        self.changes@
    }

    /// Builds a patch from its changes.
    pub fn new(changes: Vec<PatchChange>) -> (r: Self)
        ensures
            r.spec_changes() == changes@,
    {
        ApplyPatchAction { changes }
    }

    /// A patch that adds one file, as the tests construct it.
    pub fn new_add_for_test(path: FsPath, content: String) -> (r: Self)
        ensures
            r.spec_changes().len() == 1,
            r.spec_changes()[0].path@ == path@,
            r.spec_changes()[0].change matches ApplyPatchFileChange::Add { content: c } && c@
                == content@,
    {
        let mut changes: Vec<PatchChange> = Vec::new();
        changes.push(PatchChange { path, change: ApplyPatchFileChange::Add { content } });
        ApplyPatchAction { changes }
    }

    pub fn is_empty(&self) -> (r: bool)
        ensures
            r == (self.spec_changes().len() == 0),
    {
        self.changes.len() == 0
    }

    pub fn changes(&self) -> (r: &Vec<PatchChange>)
        ensures
            r@ == self.spec_changes(),
    {
        &self.changes
    }
}

} // verus!
