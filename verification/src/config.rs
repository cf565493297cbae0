//! The root of the library: the whole-document check list, the
//! whole-document resolution, and the resolved `RepoConfig` with its branch
//! lookup.  Resolution is all-or-nothing: the first failure anywhere aborts
//! the load and no partial configuration is ever returned.

use vstd::prelude::*;
use crate::branch::{
    branch_statics_ok, push_branch_checks, resolve_branch, spec_branch_checks,
    spec_branch_statics_ok, spec_resolve_branch, BranchConfig, BranchModel,
};
use crate::checks::{checks_model, outs_model, Check, CheckModel, CheckOutcome, OutcomeModel};
use crate::defaults::{
    defaults_statics_ok, method_value, push_defaults_checks, resolve_defaults,
    spec_default_playbook_key, spec_defaults_checks, spec_defaults_statics_ok, spec_method_value,
    spec_resolve_defaults, DefaultsModel,
};
use crate::doc::{
    lookup_as_string, BranchEntry, BranchEntryModel, BranchesModel, BranchesNode, DocModel,
    Document, Lookup, SectionNode,
};
use crate::error::{err_at, ConfigError, ErrorModel};
use crate::method::DeployMethod;
use crate::tasks::{MakeTask, VerifiedPath};

verus! {

/// The error for a document that names no branch at all (`branches` absent
/// or empty): a configuration mapping no branch to a deploy action is
/// meaningless.
pub open spec fn missing_branches_error() -> ErrorModel {
    ErrorModel {
        desc: "must configure at least one branch (missing [branches.*])"@,
        subject: Some("branches.*"@),
    }
}

/// The checks the branch entries demand, from entry `j` on, cut off after
/// the first branch with a static error (resolution stops there).
pub open spec fn spec_branches_checks(
    bs: Seq<BranchEntryModel>,
    j: int,
    dm: DeployMethod,
    dpb: Option<Seq<char>>,
) -> Seq<CheckModel>
    decreases bs.len() - j,
{
    if j < 0 || j >= bs.len() {
        Seq::empty()
    } else {
        let c = spec_branch_checks(bs[j].node, dm);
        if spec_branch_statics_ok(bs[j].name, bs[j].node, dm, dpb) {
            c + spec_branches_checks(bs, j + 1, dm, dpb)
        } else {
            c
        }
    }
}

/// Every check the document demands, in resolution order: the defaults
/// first, then each branch in document order, cut off where resolution
/// stops on a static error.
pub open spec fn spec_checks(doc: DocModel) -> Seq<CheckModel> {
    match doc.defaults {
        None => Seq::empty(),
        Some(defs) => {
            let dc = spec_defaults_checks(defs);
            if !spec_defaults_statics_ok(defs) {
                dc
            } else {
                match doc.branches {
                    Some(BranchesModel::Table(bs)) => dc + spec_branches_checks(
                        bs,
                        0,
                        spec_method_value(defs, DeployMethod::Makefile),
                        spec_default_playbook_key(defs),
                    ),
                    _ => dc,
                }
            }
        },
    }
}

/// List the validations a collaborator must perform for this document, in
/// the order [`RepoConfig::resolve`] consumes their outcomes.
pub fn checks_needed(doc: &Document) -> (r: Vec<Check>)
    ensures
        checks_model(r@) == spec_checks(doc@),
{
    let mut v: Vec<Check> = Vec::new();
    let defs = match &doc.defaults {
        Some(s) => s,
        None => {
            proof {
                assert(checks_model(v@) =~= spec_checks(doc@));
            }
            return v;
        },
    };
    push_defaults_checks(&mut v, defs);
    if !defaults_statics_ok(defs) {
        return v;
    }
    let dm = method_value(defs, DeployMethod::Makefile);
    let dpb = match lookup_as_string(defs, "playbook") {
        Lookup::Value(s) => Some(s),
        _ => None,
    };
    let bs = match &doc.branches {
        Some(BranchesNode::Table(bs)) => bs,
        _ => {
            return v;
        },
    };
    let ghost bsm = bs@.map_values(|b: BranchEntry| b@);
    let ghost dpbm = spec_default_playbook_key(defs@);
    let ghost dc = spec_defaults_checks(defs@);
    let mut j: usize = 0;
    while j < bs.len()
        invariant
            j <= bs.len(),
            bsm == bs@.map_values(|b: BranchEntry| b@),
            bsm.len() == bs@.len(),
            spec_checks(doc@) == dc + spec_branches_checks(bsm, 0, dm, dpbm),
            checks_model(v@) + spec_branches_checks(bsm, j as int, dm, dpbm) == dc
                + spec_branches_checks(bsm, 0, dm, dpbm),
            match dpb {
                Some(s) => dpbm == Some(s@),
                None => dpbm is None,
            },
        decreases bs.len() - j,
    {
        proof {
            assert(bsm[j as int] == bs@[j as int]@);
        }
        let entry = &bs[j];
        push_branch_checks(&mut v, &entry.node, dm);
        if !branch_statics_ok(&entry.name, &entry.node, dm, &dpb) {
            return v;
        }
        j = j + 1;
    }
    v
}

/// The sequence of resolved branches from entry `j` on, given what was
/// already resolved (`acc`), consuming outcomes from position `i` on.
pub open spec fn spec_resolve_branches(
    bs: Seq<BranchEntryModel>,
    j: int,
    dm: DeployMethod,
    dpb: Option<Seq<char>>,
    outs: Seq<OutcomeModel>,
    i: int,
    acc: Seq<(Seq<char>, BranchModel)>,
) -> Result<(Seq<(Seq<char>, BranchModel)>, int), ErrorModel>
    decreases bs.len() - j,
{
    if j < 0 || j >= bs.len() {
        Ok((acc, i))
    } else {
        match spec_resolve_branch(bs[j].name, bs[j].node, dm, dpb, outs, i) {
            Err(e) => Err(e),
            Ok((b, i2)) => spec_resolve_branches(
                bs,
                j + 1,
                dm,
                dpb,
                outs,
                i2,
                acc.push((bs[j].name, b)),
            ),
        }
    }
}

/// Spec-level shape of a [`RepoConfig`].
pub struct RepoConfigModel {
    pub default_method: DeployMethod,
    pub default_task: Option<Seq<char>>,
    pub default_playbook: Option<Seq<char>>,
    pub default_notify_url: Option<Seq<char>>,
    pub branches: Seq<(Seq<char>, BranchModel)>,
    pub project_root: Seq<char>,
}

/// One loaded repository configuration: the resolved defaults and the
/// mapping from branch name to resolved branch record.  Immutable once
/// resolution returns.
#[derive(Debug)]
pub struct RepoConfig {
    pub default_method: DeployMethod,
    pub default_task: Option<MakeTask>,
    pub default_playbook: Option<VerifiedPath>,
    pub default_notify_url: Option<String>,
    branches: Vec<(String, BranchConfig)>,
    pub project_root: String,
}

impl View for RepoConfig {
    type V = RepoConfigModel;

    closed spec fn view(&self) -> RepoConfigModel {
        RepoConfigModel {
            default_method: self.default_method,
            default_task: match self.default_task {
                Some(t) => Some(t@),
                None => None,
            },
            default_playbook: match self.default_playbook {
                Some(p) => Some(p@),
                None => None,
            },
            default_notify_url: match self.default_notify_url {
                Some(u) => Some(u@),
                None => None,
            },
            branches: self.branches@.map_values(|p: (String, BranchConfig)| (p.0@, p.1@)),
            project_root: self.project_root@,
        }
    }
}

/// Resolve the whole document (§ RepoConfig): defaults once, then every
/// branch entry in document order, first failure anywhere aborting.
pub open spec fn spec_resolve(doc: DocModel, root: Seq<char>, outs: Seq<OutcomeModel>) -> Result<
    RepoConfigModel,
    ErrorModel,
> {
    match doc.defaults {
        None => Err(
            ErrorModel { desc: "missing 'defaults' section"@, subject: Some("defaults"@) },
        ),
        Some(defs) => match spec_resolve_defaults(defs, outs, 0) {
            Err(e) => Err(e),
            Ok((d, i)) => match doc.branches {
                None => Err(missing_branches_error()),
                Some(BranchesModel::NotTable) => Err(
                    ErrorModel { desc: "'branches' must be a table"@, subject: Some("branches"@) },
                ),
                Some(BranchesModel::Table(bs)) => if bs.len() == 0 {
                    Err(missing_branches_error())
                } else {
                    match spec_resolve_branches(bs, 0, d.method, d.playbook, outs, i, Seq::empty()) {
                        Err(e) => Err(e),
                        Ok((rbs, _)) => Ok(
                            RepoConfigModel {
                                default_method: d.method,
                                default_task: d.task,
                                default_playbook: d.playbook,
                                default_notify_url: d.notify_url,
                                branches: rbs,
                                project_root: root,
                            },
                        ),
                    }
                },
            },
        },
    }
}

/// Finishing the resolution from a mid-loop state: what the final result is
/// once the branches from `j` on are resolved.
pub open spec fn spec_finish(
    d: DefaultsModel,
    root: Seq<char>,
    bs: Seq<BranchEntryModel>,
    j: int,
    outs: Seq<OutcomeModel>,
    i: int,
    acc: Seq<(Seq<char>, BranchModel)>,
) -> Result<RepoConfigModel, ErrorModel> {
    match spec_resolve_branches(bs, j, d.method, d.playbook, outs, i, acc) {
        Err(e) => Err(e),
        Ok((rbs, _)) => Ok(
            RepoConfigModel {
                default_method: d.method,
                default_task: d.task,
                default_playbook: d.playbook,
                default_notify_url: d.notify_url,
                branches: rbs,
                project_root: root,
            },
        ),
    }
}

/// What looking a name up in the resolved branch list yields: the first
/// entry with that name, if any.
pub open spec fn spec_assoc_from(
    bs: Seq<(Seq<char>, BranchModel)>,
    i: int,
    name: Seq<char>,
) -> Option<BranchModel>
    decreases bs.len() - i,
{
    if i < 0 || i >= bs.len() {
        None
    } else if bs[i].0 == name {
        Some(bs[i].1)
    } else {
        spec_assoc_from(bs, i + 1, name)
    }
}

/// Branch lookup over a resolved configuration, by exact name.
pub open spec fn spec_lookup_branch(c: RepoConfigModel, name: Seq<char>) -> Option<BranchModel> {
    spec_assoc_from(c.branches, 0, name)
}

impl RepoConfig {
    /// Resolve a parsed document against the project root and the reported
    /// outcomes of exactly the checks listed by [`checks_needed`].
    pub fn resolve(doc: &Document, project_root: &str, outcomes: &Vec<CheckOutcome>) -> (r: Result<
        RepoConfig,
        ConfigError,
    >)
        requires
            outcomes@.len() == spec_checks(doc@).len(),
        ensures
            match r {
                Ok(c) => spec_resolve(doc@, project_root@, outs_model(outcomes@))
                    == Ok::<_, ErrorModel>(c@),
                Err(e) => spec_resolve(doc@, project_root@, outs_model(outcomes@))
                    == Err::<RepoConfigModel, _>(e@),
            },
    {
        let defs = match &doc.defaults {
            Some(s) => s,
            None => {
                return Err(err_at("missing 'defaults' section", "defaults"));
            },
        };
        let (d, i0) = match resolve_defaults(defs, outcomes, 0) {
            Ok(x) => x,
            Err(e) => {
                return Err(e);
            },
        };
        let bs = match &doc.branches {
            None => {
                return Err(
                    err_at("must configure at least one branch (missing [branches.*])", "branches.*"),
                );
            },
            Some(BranchesNode::NotTable) => {
                return Err(err_at("'branches' must be a table", "branches"));
            },
            Some(BranchesNode::Table(bs)) => bs,
        };
        if bs.len() == 0 {
            return Err(
                err_at("must configure at least one branch (missing [branches.*])", "branches.*"),
            );
        }
        let ghost bsm = bs@.map_values(|b: BranchEntry| b@);
        let ghost outsm = outs_model(outcomes@);
        let ghost dm = d@.method;
        let ghost dpbm = d@.playbook;
        let mut branches: Vec<(String, BranchConfig)> = Vec::new();
        let mut i: usize = i0;
        let mut j: usize = 0;
        proof {
            assert(branches@.map_values(|p: (String, BranchConfig)| (p.0@, p.1@))
                =~= Seq::<(Seq<char>, BranchModel)>::empty());
        }
        while j < bs.len()
            invariant
                j <= bs.len(),
                bsm == bs@.map_values(|b: BranchEntry| b@),
                bsm.len() == bs@.len(),
                dm == d@.method,
                dpbm == d@.playbook,
                outsm == outs_model(outcomes@),
                spec_resolve(doc@, project_root@, outsm) == spec_finish(
                    d@,
                    project_root@,
                    bsm,
                    j as int,
                    outsm,
                    i as int,
                    branches@.map_values(|p: (String, BranchConfig)| (p.0@, p.1@)),
                ),
                i + spec_branches_checks(bsm, j as int, dm, dpbm).len() <= outcomes@.len(),
            decreases bs.len() - j,
        {
            proof {
                assert(bsm[j as int] == bs@[j as int]@);
            }
            let entry = &bs[j];
            match resolve_branch(&entry.name, &entry.node, d.method, &d.playbook, outcomes, i) {
                Ok((bc, i2)) => {
                    let ghost accm = branches@.map_values(
                        |p: (String, BranchConfig)| (p.0@, p.1@),
                    );
                    branches.push((entry.name.clone(), bc));
                    proof {
                        assert(branches@.map_values(|p: (String, BranchConfig)| (p.0@, p.1@))
                            =~= accm.push((bsm[j as int].name, bc@)));
                    }
                    i = i2;
                    j = j + 1;
                },
                Err(e) => {
                    return Err(e);
                },
            }
        }
        let config = RepoConfig {
            default_method: d.method,
            default_task: d.task,
            default_playbook: d.playbook,
            default_notify_url: d.notify_url,
            branches,
            project_root: String::from_str(project_root),
        };
        Ok(config)
    }

    /// Look a branch up by exact, case-sensitive name.
    pub fn lookup_branch(&self, name: &String) -> (r: Option<&BranchConfig>)
        ensures
            match r {
                Some(b) => spec_lookup_branch(self@, name@) == Some(b@),
                None => spec_lookup_branch(self@, name@) is None,
            },
    {
        let ghost bm = self.branches@.map_values(|p: (String, BranchConfig)| (p.0@, p.1@));
        let mut i: usize = 0;
        while i < self.branches.len()
            invariant
                i <= self.branches.len(),
                bm == self.branches@.map_values(|p: (String, BranchConfig)| (p.0@, p.1@)),
                bm.len() == self.branches@.len(),
                self@.branches == bm,
                spec_assoc_from(bm, 0, name@) == spec_assoc_from(bm, i as int, name@),
            decreases self.branches.len() - i,
        {
            proof {
                assert(bm[i as int] == (self.branches@[i as int].0@, self.branches@[i as int].1@));
            }
            if self.branches[i].0 == *name {
                return Some(&self.branches[i].1);
            }
            i = i + 1;
        }
        None
    }
}

} // verus!
