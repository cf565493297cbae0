//! Validated value types: a path confirmed to exist, a build task confirmed
//! to be defined, and a (playbook, inventory) pair.  The first two can only
//! be wrapped once the corresponding check passed (see [`crate::checks`]);
//! the third is pure construction and stores both paths verbatim.

use vstd::prelude::*;

verus! {

/// A path confirmed (by a collaborator's check) to name an existing file
/// relative to the project root.
#[derive(Debug)]
pub struct VerifiedPath {
    path: String,
}

impl View for VerifiedPath {
    type V = Seq<char>;

    closed spec fn view(&self) -> Seq<char> {
        self.path@
    }
}

impl VerifiedPath {
    /// Wrap a path whose existence check passed.  Only the resolver calls
    /// this, and only with a path whose `FileExists` check came back `Pass`.
    pub(crate) fn from_checked(path: String) -> (r: VerifiedPath)
        ensures
            r@ == path@,
    {
        VerifiedPath { path }
    }

    /// The path, exactly as it stood in the document.
    pub fn path(&self) -> (r: &String)
        ensures
            r@ == self@,
    {
        &self.path
    }
}

/// A build-tool task confirmed (by a collaborator's check) to be defined for
/// the project.
#[derive(Debug)]
pub struct MakeTask {
    task: String,
}

impl View for MakeTask {
    type V = Seq<char>;

    closed spec fn view(&self) -> Seq<char> {
        self.task@
    }
}

impl MakeTask {
    /// Wrap a task name whose `TaskDefined` check came back `Pass`.
    pub(crate) fn from_checked(task: String) -> (r: MakeTask)
        ensures
            r@ == task@,
    {
        MakeTask { task }
    }

    /// Display form: the task name.
    pub fn to_string(&self) -> (r: String)
        ensures
            r@ == self@,
    {
        self.task.clone()
    }
}

/// Spec-level shape of an [`AnsibleTask`].
pub struct AnsibleTaskModel {
    pub playbook: Seq<char>,
    pub inventory: Seq<char>,
}

/// A playbook run: a (playbook, inventory) pair, stored verbatim.
#[derive(Debug)]
pub struct AnsibleTask {
    pub playbook: String,
    pub inventory: String,
}

impl View for AnsibleTask {
    type V = AnsibleTaskModel;

    open spec fn view(&self) -> AnsibleTaskModel {
        AnsibleTaskModel { playbook: self.playbook@, inventory: self.inventory@ }
    }
}

impl AnsibleTask {
    /// Pure construction: both paths are kept exactly as resolved.
    pub fn new(playbook: String, inventory: String) -> (r: AnsibleTask)
        ensures
            r@ == (AnsibleTaskModel { playbook: playbook@, inventory: inventory@ }),
    {
        AnsibleTask { playbook, inventory }
    }
}

} // verus!
