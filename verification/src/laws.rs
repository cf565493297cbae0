//! Laws of the resolver, stated over the specification functions and proved
//! once and for all.  Each holds for every document, not just the tested
//! ones; the ensures of the executable functions tie them to run time.

use vstd::prelude::*;
use crate::branch::{
    branch_method_invalid_error, branch_method_wrong_type_error, branch_wf, combine_error,
    spec_branch_checks, spec_branch_statics_ok, spec_combine, spec_key_value, spec_resolve_branch,
    BranchModel,
};
use crate::checks::OutcomeModel;
use crate::config::{
    spec_assoc_from, spec_branches_checks, spec_checks, spec_lookup_branch, spec_resolve,
    spec_resolve_branches,
};
use crate::defaults::{
    defaults_method_invalid_error, defaults_method_wrong_type_error, spec_default_playbook_key,
    spec_defaults_checks, spec_defaults_statics_ok, spec_method_lookup, spec_method_resolves,
    spec_method_value, spec_resolve_defaults,
};
use crate::doc::{spec_lookup, BranchEntryModel, BranchesModel, DocModel, LookupModel, SectionModel};
use crate::error::{spec_branch_key_subject, ErrorModel};
use crate::method::{spec_parse_method, DeployMethod};
use crate::tasks::AnsibleTaskModel;

verus! {

/// Every branch record a successful branch resolution yields satisfies the
/// §3 invariant, and carries the method the section resolved to.
pub proof fn lemma_resolve_branch_wf(
    name: Seq<char>,
    node: SectionModel,
    dm: DeployMethod,
    dpb: Option<Seq<char>>,
    outs: Seq<OutcomeModel>,
    i: int,
)
    requires
        spec_resolve_branch(name, node, dm, dpb, outs, i) is Ok,
    ensures
        branch_wf(spec_resolve_branch(name, node, dm, dpb, outs, i)->Ok_0.0),
        spec_resolve_branch(name, node, dm, dpb, outs, i)->Ok_0.0.method == spec_method_value(
            node,
            dm,
        ),
{
}

/// LAW (inheritance): a section without a `method` key resolves to the
/// fallback it was given — the repository default for a branch, `Makefile`
/// for the `defaults` section itself.
pub proof fn lemma_method_inherits(node: SectionModel, dm: DeployMethod)
    requires
        spec_lookup(node, "method"@) is Missing,
    ensures
        spec_method_resolves(node),
        spec_method_value(node, dm) == dm,
{
}

/// LAW (inheritance, at the branch): a branch whose section has no `method`
/// key and resolves successfully carries the default method.
pub proof fn lemma_branch_inherits_default(
    name: Seq<char>,
    node: SectionModel,
    dm: DeployMethod,
    dpb: Option<Seq<char>>,
    outs: Seq<OutcomeModel>,
    i: int,
)
    requires
        spec_lookup(node, "method"@) is Missing,
        spec_resolve_branch(name, node, dm, dpb, outs, i) is Ok,
    ensures
        spec_resolve_branch(name, node, dm, dpb, outs, i)->Ok_0.0.method == dm,
{
}

/// LAW (synonyms): `"make"` and `"makefile"` denote the same method,
/// `"ansible"` the other, and every other string is rejected.
pub proof fn lemma_method_synonyms()
    ensures
        spec_parse_method("make"@) == Some(DeployMethod::Makefile),
        spec_parse_method("makefile"@) == Some(DeployMethod::Makefile),
        spec_parse_method("ansible"@) == Some(DeployMethod::Ansible),
        forall|s: Seq<char>|
            !(s == "ansible"@ || s == "makefile"@ || s == "make"@) ==> spec_parse_method(s)
                is None,
{
    reveal_strlit("ansible");
    reveal_strlit("makefile");
    reveal_strlit("make");
    assert("ansible"@.len() == 7);
    assert("makefile"@.len() == 8);
    assert("make"@.len() == 4);
    assert("make"@ != "ansible"@);
    assert("makefile"@ != "ansible"@);
}

/// LAW (playbook fallback): an ansible branch with an inventory but no
/// playbook of its own that resolves successfully took the repository-wide
/// default playbook.
pub proof fn lemma_playbook_fallback_uses_default(
    name: Seq<char>,
    node: SectionModel,
    dm: DeployMethod,
    dpb: Option<Seq<char>>,
    outs: Seq<OutcomeModel>,
    i: int,
)
    requires
        spec_method_resolves(node),
        spec_method_value(node, dm) == DeployMethod::Ansible,
        spec_lookup(node, "playbook"@) is Missing,
        spec_lookup(node, "inventory"@) is Value,
        dpb is Some,
        spec_resolve_branch(name, node, dm, dpb, outs, i) is Ok,
    ensures
        spec_resolve_branch(name, node, dm, dpb, outs, i)->Ok_0.0.ansible_task == Some(
            AnsibleTaskModel {
                playbook: dpb->Some_0,
                inventory: spec_lookup(node, "inventory"@)->Value_0,
            },
        ),
{
}

/// LAW (playbook fallback, negative half): the same branch without a
/// repository-wide default playbook fails with the combination error,
/// attributed to the branch.
pub proof fn lemma_playbook_fallback_needs_default(
    name: Seq<char>,
    node: SectionModel,
    dm: DeployMethod,
    outs: Seq<OutcomeModel>,
    i: int,
)
    requires
        node matches SectionModel::Table(_),
        spec_method_resolves(node),
        spec_method_value(node, dm) == DeployMethod::Ansible,
        spec_lookup(node, "playbook"@) is Missing,
        spec_lookup(node, "inventory"@) is Value,
        outs[i] == OutcomeModel::Pass,
    ensures
        spec_resolve_branch(name, node, dm, None, outs, i) == Err::<(BranchModel, int), ErrorModel>(
            combine_error(name),
        ),
{
}

/// LAW (type errors name their key): a branch section whose `notify_url` is
/// present but not a string, and which is sound up to that point, fails
/// with the type error naming `branch.<name>.notify_url` exactly.
pub proof fn lemma_notify_wrong_type_names_key(
    name: Seq<char>,
    node: SectionModel,
    dm: DeployMethod,
    dpb: Option<Seq<char>>,
    outs: Seq<OutcomeModel>,
    i: int,
)
    requires
        node matches SectionModel::Table(_),
        spec_method_resolves(node),
        !(spec_lookup(node, "playbook"@) is WrongType),
        !(spec_lookup(node, "inventory"@) is WrongType),
        spec_combine(
            name,
            spec_method_value(node, dm),
            spec_key_value(node, "playbook"@),
            spec_key_value(node, "inventory"@),
            dpb,
        ) is Ok,
        spec_method_value(node, dm) == DeployMethod::Makefile ==> spec_lookup(
            node,
            "task"@,
        ) is Value,
        spec_lookup(node, "notify_url"@) is WrongType,
        0 <= i,
        i + spec_branch_checks(node, dm).len() <= outs.len(),
        forall|k: int| i <= k < outs.len() ==> outs[k] == OutcomeModel::Pass,
    ensures
        spec_resolve_branch(name, node, dm, dpb, outs, i) == Err::<(BranchModel, int), ErrorModel>(
            ErrorModel {
                desc: "branch 'notify_url' not a string"@,
                subject: Some(spec_branch_key_subject(name, "notify_url"@)),
            },
        ),
{
}

/// LAW (branches are required): a document whose `branches` section is
/// absent, not a table, or an empty table never loads.
pub proof fn lemma_branches_required(doc: DocModel, root: Seq<char>, outs: Seq<OutcomeModel>)
    requires
        match doc.branches {
            None => true,
            Some(BranchesModel::NotTable) => true,
            Some(BranchesModel::Table(bs)) => bs.len() == 0,
        },
    ensures
        spec_resolve(doc, root, outs) is Err,
{
}

/// Two sections that agree on every key the resolver reads, except that a
/// `"make"` method in the first may stand as `"makefile"` in the second.
pub open spec fn method_synonym_sections(s1: SectionModel, s2: SectionModel) -> bool {
    &&& (s1 matches SectionModel::Table(_) <==> s2 matches SectionModel::Table(_))
    &&& (spec_lookup(s1, "method"@) == spec_lookup(s2, "method"@) || (spec_lookup(s1, "method"@)
        == LookupModel::Value("make"@) && spec_lookup(s2, "method"@) == LookupModel::Value(
        "makefile"@,
    )))
    &&& spec_lookup(s1, "playbook"@) == spec_lookup(s2, "playbook"@)
    &&& spec_lookup(s1, "inventory"@) == spec_lookup(s2, "inventory"@)
    &&& spec_lookup(s1, "task"@) == spec_lookup(s2, "task"@)
    &&& spec_lookup(s1, "notify_url"@) == spec_lookup(s2, "notify_url"@)
}

/// Synonymous sections resolve their method identically.
pub proof fn lemma_synonym_method(
    s1: SectionModel,
    s2: SectionModel,
    fallback: DeployMethod,
    wrong: ErrorModel,
    invalid: ErrorModel,
)
    requires
        method_synonym_sections(s1, s2),
    ensures
        spec_method_resolves(s1) == spec_method_resolves(s2),
        spec_method_value(s1, fallback) == spec_method_value(s2, fallback),
        spec_method_lookup(s1, fallback, wrong, invalid) == spec_method_lookup(
            s2,
            fallback,
            wrong,
            invalid,
        ),
{
    reveal_strlit("ansible");
    reveal_strlit("makefile");
    reveal_strlit("make");
    assert("ansible"@.len() == 7);
    assert("makefile"@.len() == 8);
    assert("make"@.len() == 4);
    assert("make"@ != "ansible"@);
    assert("makefile"@ != "ansible"@);
}

/// Synonymous branch sections resolve identically, demand the same checks,
/// and have the same static soundness.
pub proof fn lemma_synonym_branch(
    name: Seq<char>,
    n1: SectionModel,
    n2: SectionModel,
    dm: DeployMethod,
    dpb: Option<Seq<char>>,
    outs: Seq<OutcomeModel>,
    i: int,
)
    requires
        method_synonym_sections(n1, n2),
    ensures
        spec_resolve_branch(name, n1, dm, dpb, outs, i) == spec_resolve_branch(
            name,
            n2,
            dm,
            dpb,
            outs,
            i,
        ),
        spec_branch_checks(n1, dm) == spec_branch_checks(n2, dm),
        spec_branch_statics_ok(name, n1, dm, dpb) == spec_branch_statics_ok(name, n2, dm, dpb),
{
    lemma_synonym_method(
        n1,
        n2,
        dm,
        branch_method_wrong_type_error(name),
        branch_method_invalid_error(name),
    );
}

/// Synonymous `defaults` sections resolve identically in every respect the
/// rest of the load depends on.
pub proof fn lemma_synonym_defaults(
    s1: SectionModel,
    s2: SectionModel,
    outs: Seq<OutcomeModel>,
    i: int,
)
    requires
        method_synonym_sections(s1, s2),
    ensures
        spec_resolve_defaults(s1, outs, i) == spec_resolve_defaults(s2, outs, i),
        spec_defaults_checks(s1) == spec_defaults_checks(s2),
        spec_defaults_statics_ok(s1) == spec_defaults_statics_ok(s2),
        spec_default_playbook_key(s1) == spec_default_playbook_key(s2),
        spec_method_value(s1, DeployMethod::Makefile) == spec_method_value(
            s2,
            DeployMethod::Makefile,
        ),
{
    lemma_synonym_method(
        s1,
        s2,
        DeployMethod::Makefile,
        defaults_method_wrong_type_error(),
        defaults_method_invalid_error(),
    );
}

/// Pointwise-synonymous branch lists resolve identically and demand the
/// same checks.
pub proof fn lemma_synonym_branch_list(
    b1: Seq<BranchEntryModel>,
    b2: Seq<BranchEntryModel>,
    j: int,
    dm: DeployMethod,
    dpb: Option<Seq<char>>,
    outs: Seq<OutcomeModel>,
    i: int,
    acc: Seq<(Seq<char>, BranchModel)>,
)
    requires
        b1.len() == b2.len(),
        forall|k: int|
            0 <= k < b1.len() ==> (#[trigger] b1[k]).name == b2[k].name
                && method_synonym_sections(b1[k].node, b2[k].node),
        0 <= j <= b1.len(),
    ensures
        spec_resolve_branches(b1, j, dm, dpb, outs, i, acc) == spec_resolve_branches(
            b2,
            j,
            dm,
            dpb,
            outs,
            i,
            acc,
        ),
        spec_branches_checks(b1, j, dm, dpb) == spec_branches_checks(b2, j, dm, dpb),
    decreases b1.len() - j,
{
    if j < b1.len() {
        lemma_synonym_branch(b1[j].name, b1[j].node, b2[j].node, dm, dpb, outs, i);
        match spec_resolve_branch(b1[j].name, b1[j].node, dm, dpb, outs, i) {
            Ok((b, i2)) => {
                lemma_synonym_branch_list(
                    b1,
                    b2,
                    j + 1,
                    dm,
                    dpb,
                    outs,
                    i2,
                    acc.push((b1[j].name, b)),
                );
            },
            Err(_) => {
                lemma_synonym_branch_list(b1, b2, j + 1, dm, dpb, outs, i, acc);
            },
        }
    }
}

/// Two documents identical but for `"make"` written as `"makefile"` in some
/// method values (and agreeing on everything the resolver reads).
pub open spec fn method_synonym_docs(d1: DocModel, d2: DocModel) -> bool {
    &&& (match (d1.defaults, d2.defaults) {
        (None, None) => true,
        (Some(a), Some(b)) => method_synonym_sections(a, b),
        _ => false,
    })
    &&& (match (d1.branches, d2.branches) {
        (None, None) => true,
        (Some(BranchesModel::NotTable), Some(BranchesModel::NotTable)) => true,
        (Some(BranchesModel::Table(x)), Some(BranchesModel::Table(y))) => x.len() == y.len()
            && forall|k: int|
            0 <= k < x.len() ==> (#[trigger] x[k]).name == y[k].name && method_synonym_sections(
                x[k].node,
                y[k].node,
            ),
        _ => false,
    })
}

/// LAW (synonyms, whole documents): two documents identical but for
/// `"make"` written as `"makefile"` demand the same checks and load to the
/// same result for the same outcomes — the same error, or configurations
/// equal in every field.
pub proof fn lemma_method_synonym_documents(
    d1: DocModel,
    d2: DocModel,
    root: Seq<char>,
    outs: Seq<OutcomeModel>,
)
    requires
        method_synonym_docs(d1, d2),
    ensures
        spec_checks(d1) == spec_checks(d2),
        spec_resolve(d1, root, outs) == spec_resolve(d2, root, outs),
{
    match (d1.defaults, d2.defaults) {
        (Some(a), Some(b)) => {
            lemma_synonym_defaults(a, b, outs, 0);
            match (d1.branches, d2.branches) {
                (Some(BranchesModel::Table(x)), Some(BranchesModel::Table(y))) => {
                    lemma_synonym_branch_list(
                        x,
                        y,
                        0,
                        spec_method_value(a, DeployMethod::Makefile),
                        spec_default_playbook_key(a),
                        outs,
                        0,
                        Seq::empty(),
                    );
                    match spec_resolve_defaults(a, outs, 0) {
                        Ok((d, i)) => {
                            lemma_synonym_branch_list(
                                x,
                                y,
                                0,
                                d.method,
                                d.playbook,
                                outs,
                                i,
                                Seq::empty(),
                            );
                        },
                        Err(_) => {},
                    }
                },
                _ => {},
            }
        },
        _ => {},
    }
}

/// The shape of a successful branch-list resolution: one record per entry,
/// after those already accumulated, each named after its entry and
/// satisfying the §3 invariant.
pub proof fn lemma_resolve_branches_shape(
    bs: Seq<BranchEntryModel>,
    j: int,
    dm: DeployMethod,
    dpb: Option<Seq<char>>,
    outs: Seq<OutcomeModel>,
    i: int,
    acc: Seq<(Seq<char>, BranchModel)>,
)
    requires
        0 <= j <= bs.len(),
        spec_resolve_branches(bs, j, dm, dpb, outs, i, acc) is Ok,
    ensures
        ({
            let r = spec_resolve_branches(bs, j, dm, dpb, outs, i, acc)->Ok_0.0;
            &&& r.len() == acc.len() + (bs.len() - j)
            &&& forall|k: int| 0 <= k < acc.len() ==> r[k] == acc[k]
            &&& forall|k: int|
                acc.len() <= k < r.len() ==> r[k].0 == bs[j + (k - acc.len())].name && branch_wf(
                    r[k].1,
                )
        }),
    decreases bs.len() - j,
{
    if j == bs.len() {
    } else {
        match spec_resolve_branch(bs[j].name, bs[j].node, dm, dpb, outs, i) {
            Err(_) => {
                assert(false);
            },
            Ok((b, i2)) => {
                lemma_resolve_branch_wf(bs[j].name, bs[j].node, dm, dpb, outs, i);
                lemma_resolve_branches_shape(
                    bs,
                    j + 1,
                    dm,
                    dpb,
                    outs,
                    i2,
                    acc.push((bs[j].name, b)),
                );
            },
        }
    }
}

/// Looking up a name that occurs in the list finds a record.
pub proof fn lemma_assoc_from_present(
    bs: Seq<(Seq<char>, BranchModel)>,
    i: int,
    name: Seq<char>,
)
    requires
        0 <= i,
        exists|k: int| i <= k < bs.len() && bs[k].0 == name,
    ensures
        spec_assoc_from(bs, i, name) is Some,
    decreases bs.len() - i,
{
    let k = choose|k: int| i <= k < bs.len() && bs[k].0 == name;
    if bs[i].0 == name {
    } else {
        assert(i + 1 <= k < bs.len() && bs[k].0 == name);
        lemma_assoc_from_present(bs, i + 1, name);
    }
}

/// LAW (coverage): a successful load yields one branch record per declared
/// branch, each satisfying the §3 invariant, and `lookup_branch` finds
/// every declared name.
pub proof fn lemma_load_covers_branches(doc: DocModel, root: Seq<char>, outs: Seq<OutcomeModel>)
    requires
        spec_resolve(doc, root, outs) is Ok,
    ensures
        doc.branches matches Some(BranchesModel::Table(bs)),
        ({
            let c = spec_resolve(doc, root, outs)->Ok_0;
            let bs = doc.branches->Some_0->Table_0;
            &&& c.branches.len() == bs.len()
            &&& forall|k: int|
                0 <= k < bs.len() ==> c.branches[k].0 == bs[k].name && branch_wf(c.branches[k].1)
            &&& forall|k: int|
                0 <= k < bs.len() ==> spec_lookup_branch(c, bs[k].name) is Some
        }),
{
    let c = spec_resolve(doc, root, outs)->Ok_0;
    let bs = doc.branches->Some_0->Table_0;
    let defs = doc.defaults->Some_0;
    let d = spec_resolve_defaults(defs, outs, 0)->Ok_0.0;
    let i = spec_resolve_defaults(defs, outs, 0)->Ok_0.1;
    lemma_resolve_branches_shape(bs, 0, d.method, d.playbook, outs, i, Seq::empty());
    assert forall|k: int| 0 <= k < bs.len() implies spec_lookup_branch(c, bs[k].name) is Some by {
        assert(c.branches[k].0 == bs[k].name);
        lemma_assoc_from_present(c.branches, 0, bs[k].name);
    }
}

} // verus!
