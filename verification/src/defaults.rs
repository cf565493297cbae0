//! The Defaults Resolver, and the two resolution steps it shares with the
//! Branch Resolver: the method lookup (the same mapping in both places,
//! each caller with its own diagnostics) and the optional-path step (a key
//! that is either absent, of the wrong type, or a string that a
//! collaborator must validate).

use vstd::prelude::*;
use crate::checks::{checks_model, outs_model, Check, CheckModel, CheckOutcome, OutcomeModel};
use crate::doc::{spec_lookup, lookup_as_string, Lookup, LookupModel, SectionModel, SectionNode};
use crate::error::{err_at, ConfigError, ErrorModel};
use crate::method::{parse_method, spec_parse_method, DeployMethod};
use crate::tasks::{MakeTask, VerifiedPath};

verus! {

/// The diagnostic for a `defaults.method` key that is not a string.
pub open spec fn defaults_method_wrong_type_error() -> ErrorModel {
    ErrorModel {
        desc: "could not read 'defaults.method' as string"@,
        subject: Some("defaults.method"@),
    }
}

/// The diagnostic for a `defaults.method` string outside the accepted set.
pub open spec fn defaults_method_invalid_error() -> ErrorModel {
    ErrorModel {
        desc: "invalid type, valid values are 'ansible' and 'makefile'"@,
        subject: Some("defaults.method"@),
    }
}

/// Whether a section's `method` key resolves at all: absent (the fallback
/// applies) or one of the accepted strings.
pub open spec fn spec_method_resolves(sec: SectionModel) -> bool {
    match spec_lookup(sec, "method"@) {
        LookupModel::Missing => true,
        LookupModel::WrongType => false,
        LookupModel::Value(v) => spec_parse_method(v) is Some,
    }
}

/// The method a section resolves to, when it resolves: an absent key falls
/// back to `fallback`.
pub open spec fn spec_method_value(sec: SectionModel, fallback: DeployMethod) -> DeployMethod {
    match spec_lookup(sec, "method"@) {
        LookupModel::Value(v) => match spec_parse_method(v) {
            Some(m) => m,
            None => fallback,
        },
        _ => fallback,
    }
}

/// The method mapping shared by §defaults and §branches: an absent key
/// falls back to `fallback`; a string must be one of the accepted values.
/// The two errors are the caller's, attributed to the caller's key.
pub open spec fn spec_method_lookup(
    sec: SectionModel,
    fallback: DeployMethod,
    wrong: ErrorModel,
    invalid: ErrorModel,
) -> Result<DeployMethod, ErrorModel> {
    match spec_lookup(sec, "method"@) {
        LookupModel::Missing => Ok(fallback),
        LookupModel::WrongType => Err(wrong),
        LookupModel::Value(v) => match spec_parse_method(v) {
            Some(m) => Ok(m),
            None => Err(invalid),
        },
    }
}

/// Resolve the `method` key of a section, inheriting `fallback` when absent
/// and reporting a failure through the caller's two diagnostics.
pub fn method_lookup(
    section: &SectionNode,
    fallback: DeployMethod,
    wrong: ConfigError,
    invalid: ConfigError,
) -> (r: Result<DeployMethod, ConfigError>)
    ensures
        match r {
            Ok(m) => spec_method_lookup(section@, fallback, wrong@, invalid@) == Ok::<
                DeployMethod,
                ErrorModel,
            >(m),
            Err(e) => spec_method_lookup(section@, fallback, wrong@, invalid@) == Err::<
                DeployMethod,
                ErrorModel,
            >(e@),
        },
{
    match lookup_as_string(section, "method") {
        Lookup::Missing => Ok(fallback),
        Lookup::WrongType => Err(wrong),
        Lookup::Value(v) => match parse_method(&v) {
            Some(m) => Ok(m),
            None => Err(invalid),
        },
    }
}

/// Decide whether a section's `method` key resolves.
pub fn method_resolves(section: &SectionNode) -> (r: bool)
    ensures
        r == spec_method_resolves(section@),
{
    match lookup_as_string(section, "method") {
        Lookup::Missing => true,
        Lookup::WrongType => false,
        Lookup::Value(v) => parse_method(&v).is_some(),
    }
}

/// The method a section resolves to, when it resolves.
pub fn method_value(section: &SectionNode, fallback: DeployMethod) -> (r: DeployMethod)
    ensures
        r == spec_method_value(section@, fallback),
{
    match lookup_as_string(section, "method") {
        Lookup::Value(v) => match parse_method(&v) {
            Some(m) => m,
            None => fallback,
        },
        _ => fallback,
    }
}

/// The model of an optional string result.
pub open spec fn opt_str_model(v: Option<String>) -> Option<Seq<char>> {
    match v {
        Some(s) => Some(s@),
        None => None,
    }
}

/// One optional validated key: absent yields `None`; a non-string is the
/// given error; a string consumes the next collaborator outcome — its
/// failure propagates as-is, its success yields the string.
pub open spec fn spec_path_step(
    sec: SectionModel,
    key: Seq<char>,
    wrong: ErrorModel,
    outs: Seq<OutcomeModel>,
    i: int,
) -> Result<(Option<Seq<char>>, int), ErrorModel> {
    match spec_lookup(sec, key) {
        LookupModel::Missing => Ok((None, i)),
        LookupModel::WrongType => Err(wrong),
        LookupModel::Value(v) => match outs[i] {
            OutcomeModel::Pass => Ok((Some(v), i + 1)),
            OutcomeModel::Fail(e) => Err(e),
        },
    }
}

/// Run one optional validated key against the outcomes, from position `i`.
pub fn path_step(
    section: &SectionNode,
    key: &str,
    wrong: ConfigError,
    outcomes: &Vec<CheckOutcome>,
    i: usize,
) -> (r: Result<(Option<String>, usize), ConfigError>)
    requires
        spec_lookup(section@, key@) is Value ==> i < outcomes@.len(),
    ensures
        match r {
            Ok((v, j)) => spec_path_step(section@, key@, wrong@, outs_model(outcomes@), i as int)
                == Ok::<_, ErrorModel>((opt_str_model(v), j as int)),
            Err(e) => spec_path_step(section@, key@, wrong@, outs_model(outcomes@), i as int)
                == Err::<(Option<Seq<char>>, int), _>(e@),
        },
{
    match lookup_as_string(section, key) {
        Lookup::Missing => Ok((None, i)),
        Lookup::WrongType => Err(wrong),
        Lookup::Value(v) => {
            proof {
                assert(outs_model(outcomes@)[i as int] == outcomes@[i as int]@);
                assert(outcomes@.len() == outcomes.len());
            }
            match &outcomes[i] {
                CheckOutcome::Pass => Ok((Some(v), i + 1)),
                CheckOutcome::Fail(e) => Err(e.clone()),
            }
        },
    }
}

/// The resolved `defaults` section.
#[derive(Debug)]
pub struct Defaults {
    pub method: DeployMethod,
    pub task: Option<MakeTask>,
    pub playbook: Option<VerifiedPath>,
    pub notify_url: Option<String>,
}

/// Spec-level shape of [`Defaults`].
pub struct DefaultsModel {
    pub method: DeployMethod,
    pub task: Option<Seq<char>>,
    pub playbook: Option<Seq<char>>,
    pub notify_url: Option<Seq<char>>,
}

impl View for Defaults {
    type V = DefaultsModel;

    open spec fn view(&self) -> DefaultsModel {
        DefaultsModel {
            method: self.method,
            task: match self.task {
                Some(t) => Some(t@),
                None => None,
            },
            playbook: match self.playbook {
                Some(p) => Some(p@),
                None => None,
            },
            notify_url: match self.notify_url {
                Some(u) => Some(u@),
                None => None,
            },
        }
    }
}

/// The checks the `defaults` section demands, in resolution order, cut off
/// at its first static (lookup or value) error.
pub open spec fn spec_defaults_checks(defs: SectionModel) -> Seq<CheckModel> {
    if !spec_method_resolves(defs) {
        Seq::empty()
    } else {
        match spec_lookup(defs, "task"@) {
            LookupModel::WrongType => Seq::empty(),
            LookupModel::Missing => spec_defaults_playbook_checks(defs, Seq::empty()),
            LookupModel::Value(v) => spec_defaults_playbook_checks(
                defs,
                seq![CheckModel::TaskDefined(v)],
            ),
        }
    }
}

/// The checks demanded after the `task` key: possibly one for `playbook`.
pub open spec fn spec_defaults_playbook_checks(defs: SectionModel, acc: Seq<CheckModel>) -> Seq<
    CheckModel,
> {
    match spec_lookup(defs, "playbook"@) {
        LookupModel::Value(v) => acc + seq![CheckModel::FileExists(v)],
        _ => acc,
    }
}

/// No static error anywhere in the `defaults` section: resolution reaches
/// the branches (collaborator outcomes aside).
pub open spec fn spec_defaults_statics_ok(defs: SectionModel) -> bool {
    &&& spec_method_resolves(defs)
    &&& !(spec_lookup(defs, "task"@) is WrongType)
    &&& !(spec_lookup(defs, "playbook"@) is WrongType)
    &&& !(spec_lookup(defs, "notify_url"@) is WrongType)
}

/// The `playbook` key's value, if it is a string — what the Branch Resolver
/// may fall back to.
pub open spec fn spec_default_playbook_key(defs: SectionModel) -> Option<Seq<char>> {
    match spec_lookup(defs, "playbook"@) {
        LookupModel::Value(v) => Some(v),
        _ => None,
    }
}

/// Resolve the `defaults` section (§ Defaults Resolver), consuming outcomes
/// from position `i` on.
pub open spec fn spec_resolve_defaults(
    defs: SectionModel,
    outs: Seq<OutcomeModel>,
    i: int,
) -> Result<(DefaultsModel, int), ErrorModel> {
    match spec_method_lookup(
        defs,
        DeployMethod::Makefile,
        defaults_method_wrong_type_error(),
        defaults_method_invalid_error(),
    ) {
        Err(e) => Err(e),
        Ok(m) => match spec_path_step(
            defs,
            "task"@,
            ErrorModel {
                desc: "could not read 'defaults.task' as string"@,
                subject: Some("defaults.task"@),
            },
            outs,
            i,
        ) {
            Err(e) => Err(e),
            Ok((task, i2)) => match spec_path_step(
                defs,
                "playbook"@,
                ErrorModel {
                    desc: "could not read 'defaults.playbook' as string"@,
                    subject: Some("defaults.playbook"@),
                },
                outs,
                i2,
            ) {
                Err(e) => Err(e),
                Ok((playbook, i3)) => match spec_lookup(defs, "notify_url"@) {
                    LookupModel::WrongType => Err(
                        ErrorModel {
                            desc: "could not read 'defaults.notify_url' as string"@,
                            subject: Some("defaults.notify_url"@),
                        },
                    ),
                    LookupModel::Missing => Ok(
                        (
                            DefaultsModel { method: m, task, playbook, notify_url: None },
                            i3,
                        ),
                    ),
                    LookupModel::Value(u) => Ok(
                        (
                            DefaultsModel { method: m, task, playbook, notify_url: Some(u) },
                            i3,
                        ),
                    ),
                },
            },
        },
    }
}

/// Defaults Resolver: resolve the `defaults` section against the outcomes,
/// from position `i` on.
pub fn resolve_defaults(section: &SectionNode, outcomes: &Vec<CheckOutcome>, i: usize) -> (r:
    Result<(Defaults, usize), ConfigError>)
    requires
        i + spec_defaults_checks(section@).len() <= outcomes@.len(),
    ensures
        match r {
            Ok((d, j)) => {
                &&& spec_resolve_defaults(section@, outs_model(outcomes@), i as int)
                    == Ok::<_, ErrorModel>((d@, j as int))
                &&& j == i + spec_defaults_checks(section@).len()
                &&& spec_defaults_statics_ok(section@)
                &&& d@.playbook == spec_default_playbook_key(section@)
            },
            Err(e) => spec_resolve_defaults(section@, outs_model(outcomes@), i as int)
                == Err::<(DefaultsModel, int), _>(e@),
        },
{
    let method = match method_lookup(
        section,
        DeployMethod::Makefile,
        err_at("could not read 'defaults.method' as string", "defaults.method"),
        err_at("invalid type, valid values are 'ansible' and 'makefile'", "defaults.method"),
    ) {
        Ok(m) => m,
        Err(e) => {
            return Err(e);
        },
    };
    let (task_str, i2) = match path_step(
        section,
        "task",
        err_at("could not read 'defaults.task' as string", "defaults.task"),
        outcomes,
        i,
    ) {
        Ok(x) => x,
        Err(e) => {
            return Err(e);
        },
    };
    let task = match task_str {
        Some(s) => Some(MakeTask::from_checked(s)),
        None => None,
    };
    let (playbook_str, i3) = match path_step(
        section,
        "playbook",
        err_at("could not read 'defaults.playbook' as string", "defaults.playbook"),
        outcomes,
        i2,
    ) {
        Ok(x) => x,
        Err(e) => {
            return Err(e);
        },
    };
    let playbook = match playbook_str {
        Some(s) => Some(VerifiedPath::from_checked(s)),
        None => None,
    };
    match lookup_as_string(section, "notify_url") {
        Lookup::WrongType => Err(
            err_at("could not read 'defaults.notify_url' as string", "defaults.notify_url"),
        ),
        Lookup::Missing => Ok((Defaults { method, task, playbook, notify_url: None }, i3)),
        Lookup::Value(u) => Ok((Defaults { method, task, playbook, notify_url: Some(u) }, i3)),
    }
}

/// Decide whether the `defaults` section is free of static errors.
pub fn defaults_statics_ok(section: &SectionNode) -> (r: bool)
    ensures
        r == spec_defaults_statics_ok(section@),
{
    let m_ok = method_resolves(section);
    let t_ok = match lookup_as_string(section, "task") {
        Lookup::WrongType => false,
        _ => true,
    };
    let p_ok = match lookup_as_string(section, "playbook") {
        Lookup::WrongType => false,
        _ => true,
    };
    let n_ok = match lookup_as_string(section, "notify_url") {
        Lookup::WrongType => false,
        _ => true,
    };
    m_ok && t_ok && p_ok && n_ok
}

/// Append the checks the `defaults` section demands, in resolution order.
pub fn push_defaults_checks(v: &mut Vec<Check>, section: &SectionNode)
    ensures
        checks_model(final(v)@) == checks_model(old(v)@) + spec_defaults_checks(section@),
{
    let ghost base = checks_model(v@);
    if !method_resolves(section) {
        proof {
            assert(checks_model(v@) =~= base + spec_defaults_checks(section@));
        }
        return ;
    }
    match lookup_as_string(section, "task") {
        Lookup::WrongType => {
            proof {
                assert(checks_model(v@) =~= base + spec_defaults_checks(section@));
            }
            return ;
        },
        Lookup::Missing => {},
        Lookup::Value(s) => {
            v.push(Check::TaskDefined { name: s });
        },
    }
    match lookup_as_string(section, "playbook") {
        Lookup::Value(s) => {
            v.push(Check::FileExists { path: s });
        },
        _ => {},
    }
    proof {
        assert(checks_model(v@) =~= base + spec_defaults_checks(section@));
    }
}

} // verus!
