//! The validations the resolver needs collaborators to perform, and their
//! reported outcomes.  The library never touches the filesystem: it lists
//! the checks a document demands, in resolution order, and is then resolved
//! against one outcome per check.

use vstd::prelude::*;
use crate::error::{ConfigError, ErrorModel};

verus! {

/// One validation a collaborator must perform against the project root.
#[derive(Debug)]
pub enum Check {
    /// Does this path name an existing file relative to the project root?
    FileExists { path: String },
    /// Does the project's Makefile know a task of this name?
    TaskDefined { name: String },
}

/// Spec-level counterpart of [`Check`].
pub enum CheckModel {
    FileExists(Seq<char>),
    TaskDefined(Seq<char>),
}

impl View for Check {
    type V = CheckModel;

    open spec fn view(&self) -> CheckModel {
        match self {
            Check::FileExists { path } => CheckModel::FileExists(path@),
            Check::TaskDefined { name } => CheckModel::TaskDefined(name@),
        }
    }
}

/// What a collaborator reported for one check: success, or the exact error
/// to propagate (construction failures propagate as-is).
#[derive(Debug)]
pub enum CheckOutcome {
    Pass,
    Fail(ConfigError),
}

/// Spec-level counterpart of [`CheckOutcome`].
pub enum OutcomeModel {
    Pass,
    Fail(ErrorModel),
}

impl View for CheckOutcome {
    type V = OutcomeModel;

    open spec fn view(&self) -> OutcomeModel {
        match self {
            CheckOutcome::Pass => OutcomeModel::Pass,
            CheckOutcome::Fail(e) => OutcomeModel::Fail(e@),
        }
    }
}

/// The models of a vector of checks.
pub open spec fn checks_model(cs: Seq<Check>) -> Seq<CheckModel> {
    cs.map_values(|c: Check| c@)
}

/// The models of a vector of outcomes.
pub open spec fn outs_model(os: Seq<CheckOutcome>) -> Seq<OutcomeModel> {
    os.map_values(|o: CheckOutcome| o@)
}

} // verus!
