//! The Branch Resolver: one branch section, resolved against the already
//! resolved defaults into a complete deployment definition — or a specific
//! error naming the offending key or branch.

use vstd::prelude::*;
use crate::checks::{checks_model, outs_model, Check, CheckModel, CheckOutcome, OutcomeModel};
use crate::defaults::{
    method_lookup, method_resolves, method_value, opt_str_model, path_step, spec_method_lookup,
    spec_method_resolves, spec_method_value, spec_path_step,
};
use crate::doc::{lookup_as_string, spec_lookup, Lookup, LookupModel, SectionModel, SectionNode};
use crate::error::{
    branch_key_subject, branch_subject, err_with, spec_branch_key_subject, spec_branch_subject,
    ConfigError, ErrorModel,
};
use crate::method::DeployMethod;
use crate::tasks::{AnsibleTask, AnsibleTaskModel, MakeTask, VerifiedPath};

verus! {

/// One branch's resolved deployment definition.
#[derive(Debug)]
pub struct BranchConfig {
    pub method: DeployMethod,
    pub(crate) make_task: Option<MakeTask>,
    pub(crate) ansible_task: Option<AnsibleTask>,
    pub notify_url: Option<String>,
}

/// Spec-level shape of a [`BranchConfig`].
pub struct BranchModel {
    pub method: DeployMethod,
    pub make_task: Option<Seq<char>>,
    pub ansible_task: Option<AnsibleTaskModel>,
    pub notify_url: Option<Seq<char>>,
}

impl View for BranchConfig {
    type V = BranchModel;

    closed spec fn view(&self) -> BranchModel {
        BranchModel {
            method: self.method,
            make_task: match self.make_task {
                Some(t) => Some(t@),
                None => None,
            },
            ansible_task: match self.ansible_task {
                Some(t) => Some(t@),
                None => None,
            },
            notify_url: match self.notify_url {
                Some(u) => Some(u@),
                None => None,
            },
        }
    }
}

/// The §3 invariant: exactly one of the two task references is populated,
/// and it matches the method.
pub open spec fn branch_wf(b: BranchModel) -> bool {
    &&& (b.method == DeployMethod::Makefile <==> b.make_task is Some)
    &&& (b.method == DeployMethod::Ansible <==> b.ansible_task is Some)
}

impl BranchConfig {
    /// The build task, if the branch deploys through the build tool.
    pub fn make_task(&self) -> (r: Option<&MakeTask>)
        ensures
            match r {
                Some(t) => self@.make_task == Some(t@),
                None => self@.make_task is None,
            },
    {
        match &self.make_task {
            Some(t) => Some(t),
            None => None,
        }
    }

    /// The playbook run, if the branch deploys through the playbook runner.
    pub fn ansible_task(&self) -> (r: Option<&AnsibleTask>)
        ensures
            match r {
                Some(t) => self@.ansible_task == Some(t@),
                None => self@.ansible_task is None,
            },
    {
        match &self.ansible_task {
            Some(t) => Some(t),
            None => None,
        }
    }
}

/// The model of the resolved default playbook handed to the Branch Resolver.
pub open spec fn opt_path_model(p: Option<VerifiedPath>) -> Option<Seq<char>> {
    match p {
        Some(v) => Some(v@),
        None => None,
    }
}

/// The diagnostic for a branch `method` key that is not a string.
pub open spec fn branch_method_wrong_type_error(name: Seq<char>) -> ErrorModel {
    ErrorModel {
        desc: "branch 'method' not a string"@,
        subject: Some(spec_branch_key_subject(name, "method"@)),
    }
}

/// The diagnostic for a branch `method` string outside the accepted set.
pub open spec fn branch_method_invalid_error(name: Seq<char>) -> ErrorModel {
    ErrorModel {
        desc: "invalid type, valid values are 'ansible' and 'makefile'"@,
        subject: Some(spec_branch_key_subject(name, "method"@)),
    }
}

/// The error for a branch whose playbook + inventory combination cannot be
/// completed from branch and defaults together.
pub open spec fn combine_error(name: Seq<char>) -> ErrorModel {
    ErrorModel {
        desc: "could not combine default and branch config to find playbook + inventory combination"@,
        subject: Some(spec_branch_subject(name)),
    }
}

/// The combination rule for an ansible branch, in priority order: branch
/// playbook + branch inventory; else default playbook + branch inventory;
/// anything else fails.  A non-ansible branch has no playbook run.
pub open spec fn spec_combine(
    name: Seq<char>,
    m: DeployMethod,
    pb: Option<Seq<char>>,
    inv: Option<Seq<char>>,
    dpb: Option<Seq<char>>,
) -> Result<Option<AnsibleTaskModel>, ErrorModel> {
    if m != DeployMethod::Ansible {
        Ok(None)
    } else {
        match (pb, inv) {
            (Some(p), Some(iv)) => Ok(Some(AnsibleTaskModel { playbook: p, inventory: iv })),
            (None, Some(iv)) => match dpb {
                Some(p) => Ok(Some(AnsibleTaskModel { playbook: p, inventory: iv })),
                None => Err(combine_error(name)),
            },
            _ => Err(combine_error(name)),
        }
    }
}

/// The key's string value, looked at as if its validation passed — what the
/// check list and the static-error analysis go by.
pub open spec fn spec_key_value(sec: SectionModel, key: Seq<char>) -> Option<Seq<char>> {
    match spec_lookup(sec, key) {
        LookupModel::Value(v) => Some(v),
        _ => None,
    }
}

/// The one check a validated path key contributes, if its value is a string.
pub open spec fn spec_file_check(sec: SectionModel, key: Seq<char>) -> Seq<CheckModel> {
    match spec_lookup(sec, key) {
        LookupModel::Value(v) => seq![CheckModel::FileExists(v)],
        _ => Seq::empty(),
    }
}

/// The checks one branch demands, in resolution order, cut off at the
/// branch's first static error.
pub open spec fn spec_branch_checks(node: SectionModel, dm: DeployMethod) -> Seq<CheckModel> {
    if !(node matches SectionModel::Table(_)) {
        Seq::empty()
    } else if !spec_method_resolves(node) {
        Seq::empty()
    } else if spec_lookup(node, "playbook"@) is WrongType {
        Seq::empty()
    } else if spec_lookup(node, "inventory"@) is WrongType {
        spec_file_check(node, "playbook"@)
    } else {
        let base = spec_file_check(node, "playbook"@) + spec_file_check(node, "inventory"@);
        if spec_method_value(node, dm) == DeployMethod::Makefile {
            match spec_lookup(node, "task"@) {
                LookupModel::Value(v) => base + seq![CheckModel::TaskDefined(v)],
                _ => base,
            }
        } else {
            base
        }
    }
}

/// No static error anywhere in this branch: its resolution runs through all
/// its checks and, outcomes permitting, yields a branch record.
pub open spec fn spec_branch_statics_ok(
    name: Seq<char>,
    node: SectionModel,
    dm: DeployMethod,
    dpb: Option<Seq<char>>,
) -> bool {
    &&& node matches SectionModel::Table(_)
    &&& spec_method_resolves(node)
    &&& !(spec_lookup(node, "playbook"@) is WrongType)
    &&& !(spec_lookup(node, "inventory"@) is WrongType)
    &&& {
        let m = spec_method_value(node, dm);
        &&& spec_combine(
            name,
            m,
            spec_key_value(node, "playbook"@),
            spec_key_value(node, "inventory"@),
            dpb,
        ) is Ok
        &&& (m == DeployMethod::Makefile ==> spec_lookup(node, "task"@) is Value)
        &&& !(spec_lookup(node, "notify_url"@) is WrongType)
    }
}

/// Resolve one branch entry against the resolved defaults, consuming
/// outcomes from position `i` on.
pub open spec fn spec_resolve_branch(
    name: Seq<char>,
    node: SectionModel,
    dm: DeployMethod,
    dpb: Option<Seq<char>>,
    outs: Seq<OutcomeModel>,
    i: int,
) -> Result<(BranchModel, int), ErrorModel> {
    if !(node matches SectionModel::Table(_)) {
        Err(ErrorModel { desc: "every 'branches' must be a table"@, subject: Some(name) })
    } else {
        match spec_method_lookup(
            node,
            dm,
            branch_method_wrong_type_error(name),
            branch_method_invalid_error(name),
        ) {
            Err(e) => Err(e),
            Ok(m) => match spec_path_step(
                node,
                "playbook"@,
                ErrorModel {
                    desc: "branch 'playbook' not a string"@,
                    subject: Some(spec_branch_key_subject(name, "playbook"@)),
                },
                outs,
                i,
            ) {
                Err(e) => Err(e),
                Ok((pb, i2)) => match spec_path_step(
                    node,
                    "inventory"@,
                    ErrorModel {
                        desc: "branch 'inventory' not a string"@,
                        subject: Some(spec_branch_key_subject(name, "inventory"@)),
                    },
                    outs,
                    i2,
                ) {
                    Err(e) => Err(e),
                    Ok((inv, i3)) => match spec_combine(name, m, pb, inv, dpb) {
                        Err(e) => Err(e),
                        Ok(ansible_task) => match (
                        if m == DeployMethod::Makefile {
                            spec_path_step(
                                node,
                                "task"@,
                                ErrorModel {
                                    desc: "branch 'task' not a string"@,
                                    subject: Some(spec_branch_key_subject(name, "task"@)),
                                },
                                outs,
                                i3,
                            )
                        } else {
                            Ok((None, i3))
                        }) {
                            Err(e) => Err(e),
                            Ok((make_task, i4)) => if make_task is None && ansible_task is None {
                                Err(
                                    ErrorModel {
                                        desc: "cannot construct a task for branch between local config and defaults"@,
                                        subject: Some(spec_branch_subject(name)),
                                    },
                                )
                            } else {
                                match spec_lookup(node, "notify_url"@) {
                                    LookupModel::WrongType => Err(
                                        ErrorModel {
                                            desc: "branch 'notify_url' not a string"@,
                                            subject: Some(
                                                spec_branch_key_subject(name, "notify_url"@),
                                            ),
                                        },
                                    ),
                                    LookupModel::Missing => Ok(
                                        (
                                            BranchModel {
                                                method: m,
                                                make_task,
                                                ansible_task,
                                                notify_url: None,
                                            },
                                            i4,
                                        ),
                                    ),
                                    LookupModel::Value(u) => Ok(
                                        (
                                            BranchModel {
                                                method: m,
                                                make_task,
                                                ansible_task,
                                                notify_url: Some(u),
                                            },
                                            i4,
                                        ),
                                    ),
                                }
                            },
                        },
                    },
                },
            },
        }
    }
}

/// Branch Resolver: resolve one branch section against the outcomes, from
/// position `i` on.
pub fn resolve_branch(
    name: &String,
    node: &SectionNode,
    dm: DeployMethod,
    default_playbook: &Option<VerifiedPath>,
    outcomes: &Vec<CheckOutcome>,
    i: usize,
) -> (r: Result<(BranchConfig, usize), ConfigError>)
    requires
        i + spec_branch_checks(node@, dm).len() <= outcomes@.len(),
    ensures
        match r {
            Ok((b, j)) => {
                &&& spec_resolve_branch(
                    name@,
                    node@,
                    dm,
                    opt_path_model(*default_playbook),
                    outs_model(outcomes@),
                    i as int,
                ) == Ok::<_, ErrorModel>((b@, j as int))
                &&& j == i + spec_branch_checks(node@, dm).len()
                &&& spec_branch_statics_ok(name@, node@, dm, opt_path_model(*default_playbook))
                &&& branch_wf(b@)
            },
            Err(e) => spec_resolve_branch(
                name@,
                node@,
                dm,
                opt_path_model(*default_playbook),
                outs_model(outcomes@),
                i as int,
            ) == Err::<(BranchModel, int), _>(e@),
        },
{
    if let SectionNode::NotTable = node {
        return Err(err_with("every 'branches' must be a table", name.clone()));
    }
    let method = match method_lookup(
        node,
        dm,
        err_with("branch 'method' not a string", branch_key_subject(name, "method")),
        err_with(
            "invalid type, valid values are 'ansible' and 'makefile'",
            branch_key_subject(name, "method"),
        ),
    ) {
        Ok(m) => m,
        Err(e) => {
            return Err(e);
        },
    };
    let (playbook, i2) = match path_step(
        node,
        "playbook",
        err_with("branch 'playbook' not a string", branch_key_subject(name, "playbook")),
        outcomes,
        i,
    ) {
        Ok(x) => x,
        Err(e) => {
            return Err(e);
        },
    };
    let (inventory, i3) = match path_step(
        node,
        "inventory",
        err_with("branch 'inventory' not a string", branch_key_subject(name, "inventory")),
        outcomes,
        i2,
    ) {
        Ok(x) => x,
        Err(e) => {
            return Err(e);
        },
    };
    let ansible_task: Option<AnsibleTask> = if method == DeployMethod::Ansible {
        match (&playbook, &inventory, default_playbook) {
            (Some(p), Some(iv), _) => Some(AnsibleTask::new(p.clone(), iv.clone())),
            (None, Some(iv), Some(dp)) => Some(AnsibleTask::new(dp.path().clone(), iv.clone())),
            _ => {
                return Err(
                    err_with(
                        "could not combine default and branch config to find playbook + inventory combination",
                        branch_subject(name),
                    ),
                );
            },
        }
    } else {
        None
    };
    let (make_task_str, i4) = if method == DeployMethod::Makefile {
        match path_step(
            node,
            "task",
            err_with("branch 'task' not a string", branch_key_subject(name, "task")),
            outcomes,
            i3,
        ) {
            Ok(x) => x,
            Err(e) => {
                return Err(e);
            },
        }
    } else {
        (None, i3)
    };
    let make_task = match make_task_str {
        Some(s) => Some(MakeTask::from_checked(s)),
        None => None,
    };
    if make_task.is_none() && ansible_task.is_none() {
        return Err(
            err_with(
                "cannot construct a task for branch between local config and defaults",
                branch_subject(name),
            ),
        );
    }
    match lookup_as_string(node, "notify_url") {
        Lookup::WrongType => Err(
            err_with("branch 'notify_url' not a string", branch_key_subject(name, "notify_url")),
        ),
        Lookup::Missing => Ok(
            (BranchConfig { method, make_task, ansible_task, notify_url: None }, i4),
        ),
        Lookup::Value(u) => Ok(
            (BranchConfig { method, make_task, ansible_task, notify_url: Some(u) }, i4),
        ),
    }
}

/// Decide whether one branch section is free of static errors, against the
/// given default method and default playbook key.
pub fn branch_statics_ok(
    name: &String,
    node: &SectionNode,
    dm: DeployMethod,
    dpb: &Option<String>,
) -> (r: bool)
    ensures
        r == spec_branch_statics_ok(name@, node@, dm, opt_str_model(*dpb)),
{
    if let SectionNode::NotTable = node {
        return false;
    }
    if !method_resolves(node) {
        return false;
    }
    let m = method_value(node, dm);
    let pb = match lookup_as_string(node, "playbook") {
        Lookup::WrongType => {
            return false;
        },
        Lookup::Value(s) => Some(s),
        Lookup::Missing => None,
    };
    let inv = match lookup_as_string(node, "inventory") {
        Lookup::WrongType => {
            return false;
        },
        Lookup::Value(s) => Some(s),
        Lookup::Missing => None,
    };
    if m == DeployMethod::Ansible {
        let combine_ok = match (&pb, &inv, dpb) {
            (Some(_), Some(_), _) => true,
            (None, Some(_), Some(_)) => true,
            _ => false,
        };
        if !combine_ok {
            return false;
        }
    }
    if m == DeployMethod::Makefile {
        match lookup_as_string(node, "task") {
            Lookup::Value(_) => {},
            _ => {
                return false;
            },
        }
    }
    match lookup_as_string(node, "notify_url") {
        Lookup::WrongType => false,
        _ => true,
    }
}

/// Append the checks one branch demands, in resolution order.
pub fn push_branch_checks(v: &mut Vec<Check>, node: &SectionNode, dm: DeployMethod)
    ensures
        checks_model(final(v)@) == checks_model(old(v)@) + spec_branch_checks(node@, dm),
{
    let ghost base = checks_model(v@);
    if let SectionNode::NotTable = node {
        proof {
            assert(checks_model(v@) =~= base + spec_branch_checks(node@, dm));
        }
        return ;
    }
    if !method_resolves(node) {
        proof {
            assert(checks_model(v@) =~= base + spec_branch_checks(node@, dm));
        }
        return ;
    }
    let m = method_value(node, dm);
    match lookup_as_string(node, "playbook") {
        Lookup::WrongType => {
            proof {
                assert(checks_model(v@) =~= base + spec_branch_checks(node@, dm));
            }
            return ;
        },
        Lookup::Value(s) => {
            v.push(Check::FileExists { path: s });
        },
        Lookup::Missing => {},
    }
    match lookup_as_string(node, "inventory") {
        Lookup::WrongType => {
            proof {
                assert(checks_model(v@) =~= base + spec_branch_checks(node@, dm));
            }
            return ;
        },
        Lookup::Value(s) => {
            v.push(Check::FileExists { path: s });
        },
        Lookup::Missing => {},
    }
    if m == DeployMethod::Makefile {
        match lookup_as_string(node, "task") {
            Lookup::Value(s) => {
                v.push(Check::TaskDefined { name: s });
            },
            _ => {},
        }
    }
    proof {
        assert(checks_model(v@) =~= base + spec_branch_checks(node@, dm));
    }
}

} // verus!
