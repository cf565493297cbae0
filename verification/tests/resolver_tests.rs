use repo_config::checks::{Check, CheckOutcome};
use repo_config::config::{checks_needed, RepoConfig};
use repo_config::error::ConfigError;
use repo_config::method::DeployMethod;
use repo_config::toml_read::parse_document;

fn load_all_pass(text: &str, root: &str) -> Result<RepoConfig, ConfigError> {
    let doc = parse_document(text)?;
    let checks = checks_needed(&doc);
    let mut outcomes: Vec<CheckOutcome> = Vec::new();
    for _ in 0..checks.len() {
        outcomes.push(CheckOutcome::Pass);
    }
    RepoConfig::resolve(&doc, root, &outcomes)
}

const VALID_DOC: &str = "[defaults]\n\
    method = \"ansible\"\n\
    task = \"deploy\"\n\
    playbook = \"ansible/deploy.yml\"\n\
    \n\
    [branches.production]\n\
    playbook = \"ansible/production.yml\"\n\
    inventory = \"ansible/inventory/production\"\n\
    \n\
    [branches.staging]\n\
    inventory = \"ansible/inventory/staging\"\n\
    notify_url = \"http://example.org\"\n\
    \n\
    [branches.brian-test-branch]\n\
    method = \"makefile\"\n\
    task = \"self-deploy\"\n";

#[test]
fn test_valid_configuration() {
    let config = load_all_pass(VALID_DOC, "./src/test/repo_config").unwrap();

    assert_eq!(config.default_method.to_string(), "ansible");
    assert!(config.default_task.is_some());
    assert_eq!(config.default_task.as_ref().unwrap().to_string(), "deploy");
    assert!(config.default_playbook.is_some());
    assert_eq!(config.default_playbook.as_ref().unwrap().path().as_str(), "ansible/deploy.yml");
    assert!(config.default_notify_url.is_none());

    // production config
    {
        let branch = config.lookup_branch(&String::from("production")).unwrap();
        let ansible_task = branch.ansible_task().unwrap();
        assert_eq!(ansible_task.playbook, "ansible/production.yml");
        assert_eq!(ansible_task.inventory, "ansible/inventory/production");
        assert_eq!(branch.method, DeployMethod::Ansible);
        assert!(branch.make_task().is_none());
        assert!(branch.notify_url.is_none());
    }
    // staging config
    {
        let branch = config.lookup_branch(&String::from("staging")).unwrap();
        let notify_url = branch.notify_url.clone().unwrap();
        let ansible_task = branch.ansible_task().unwrap();
        assert_eq!(ansible_task.inventory, "ansible/inventory/staging");
        assert_eq!(ansible_task.playbook, "ansible/deploy.yml");
        assert_eq!(branch.method, DeployMethod::Ansible);
        assert!(branch.make_task().is_none());
        assert_eq!(notify_url, "http://example.org");
    }
    // brian-test-branch config
    {
        let branch = config.lookup_branch(&String::from("brian-test-branch")).unwrap();
        assert!(branch.ansible_task().is_none());
        assert_eq!(branch.method.to_string(), "makefile");
        assert!(branch.notify_url.is_none());
        assert_eq!(branch.make_task().unwrap().to_string(), "self-deploy");
    }
}

#[test]
fn test_checks_follow_resolution_order() {
    let doc = parse_document(VALID_DOC).unwrap();
    let checks = checks_needed(&doc);
    // defaults first; then the branches in the order the parser's table
    // yields them (sorted by name: brian-test-branch, production, staging).
    assert_eq!(checks.len(), 6);
    assert!(matches!(&checks[0], Check::TaskDefined { name } if name.as_str() == "deploy"));
    assert!(matches!(&checks[1], Check::FileExists { path } if path.as_str() == "ansible/deploy.yml"));
    assert!(matches!(&checks[2], Check::TaskDefined { name } if name.as_str() == "self-deploy"));
    assert!(matches!(&checks[3], Check::FileExists { path } if path.as_str() == "ansible/production.yml"));
    assert!(
        matches!(&checks[4], Check::FileExists { path } if path.as_str() == "ansible/inventory/production")
    );
    assert!(
        matches!(&checks[5], Check::FileExists { path } if path.as_str() == "ansible/inventory/staging")
    );
}

#[test]
fn test_parse_error() {
    let err = load_all_pass("not == toml", ".").unwrap_err();
    assert_eq!(err.desc, "could not parse toml");
    assert_eq!(err.subject, None);
}

#[test]
fn test_missing_defaults_section() {
    let err = load_all_pass("[branches.x]\ntask = \"t\"\n", ".").unwrap_err();
    assert_eq!(err.desc, "missing 'defaults' section");
    assert_eq!(err.subject, Some(String::from("defaults")));
}

#[test]
fn test_missing_branches_section() {
    let err = load_all_pass("[defaults]\nmethod = \"makefile\"\n", ".").unwrap_err();
    assert_eq!(err.desc, "must configure at least one branch (missing [branches.*])");
    assert_eq!(err.subject, Some(String::from("branches.*")));
}

#[test]
fn test_empty_branches_table_rejected() {
    let err = load_all_pass("[defaults]\n[branches]\n", ".").unwrap_err();
    assert_eq!(err.desc, "must configure at least one branch (missing [branches.*])");
    assert_eq!(err.subject, Some(String::from("branches.*")));
}

#[test]
fn test_branches_not_a_table() {
    let err = load_all_pass("branches = 3\n[defaults]\n", ".").unwrap_err();
    assert_eq!(err.desc, "'branches' must be a table");
    assert_eq!(err.subject, Some(String::from("branches")));
}

#[test]
fn test_branch_entry_not_a_table() {
    let err = load_all_pass("[defaults]\n[branches]\nx = 3\n", ".").unwrap_err();
    assert_eq!(err.desc, "every 'branches' must be a table");
    assert_eq!(err.subject, Some(String::from("x")));
}

#[test]
fn test_method_make_is_makefile_synonym() {
    let doc = "[defaults]\n[branches.b]\nmethod = \"make\"\ntask = \"t\"\n";
    let config = load_all_pass(doc, ".").unwrap();
    let branch = config.lookup_branch(&String::from("b")).unwrap();
    assert_eq!(branch.method, DeployMethod::Makefile);
    assert_eq!(branch.method.to_string(), "makefile");
}

#[test]
fn test_make_and_makefile_documents_equivalent() {
    let with_make = "[defaults]\nmethod = \"make\"\ntask = \"build\"\n\
        [branches.b]\nmethod = \"make\"\ntask = \"t\"\nnotify_url = \"u\"\n";
    let with_makefile = "[defaults]\nmethod = \"makefile\"\ntask = \"build\"\n\
        [branches.b]\nmethod = \"makefile\"\ntask = \"t\"\nnotify_url = \"u\"\n";
    let c1 = load_all_pass(with_make, ".").unwrap();
    let c2 = load_all_pass(with_makefile, ".").unwrap();
    assert_eq!(c1.default_method, c2.default_method);
    assert_eq!(
        c1.default_task.as_ref().unwrap().to_string(),
        c2.default_task.as_ref().unwrap().to_string()
    );
    let b1 = c1.lookup_branch(&String::from("b")).unwrap();
    let b2 = c2.lookup_branch(&String::from("b")).unwrap();
    assert_eq!(b1.method, b2.method);
    assert_eq!(b1.make_task().unwrap().to_string(), b2.make_task().unwrap().to_string());
    assert_eq!(b1.notify_url, b2.notify_url);
}

#[test]
fn test_invalid_method_rejected() {
    let doc = "[defaults]\nmethod = \"rsync\"\n[branches.b]\ntask = \"t\"\n";
    let err = load_all_pass(doc, ".").unwrap_err();
    assert_eq!(err.desc, "invalid type, valid values are 'ansible' and 'makefile'");
    assert_eq!(err.subject, Some(String::from("defaults.method")));
}

#[test]
fn test_branch_invalid_method_names_branch_key() {
    let doc = "[defaults]\n[branches.b]\nmethod = \"rsync\"\ntask = \"t\"\n";
    let err = load_all_pass(doc, ".").unwrap_err();
    assert_eq!(err.desc, "invalid type, valid values are 'ansible' and 'makefile'");
    assert_eq!(err.subject, Some(String::from("branch.b.method")));
}

#[test]
fn test_branch_method_wrong_type_names_branch_key() {
    let doc = "[defaults]\n[branches.b]\nmethod = 9\ntask = \"t\"\n";
    let err = load_all_pass(doc, ".").unwrap_err();
    assert_eq!(err.desc, "branch 'method' not a string");
    assert_eq!(err.subject, Some(String::from("branch.b.method")));
}

#[test]
fn test_defaults_method_wrong_type() {
    let doc = "[defaults]\nmethod = 9\n[branches.b]\ntask = \"t\"\n";
    let err = load_all_pass(doc, ".").unwrap_err();
    assert_eq!(err.desc, "could not read 'defaults.method' as string");
    assert_eq!(err.subject, Some(String::from("defaults.method")));
}

#[test]
fn test_method_defaults_to_makefile() {
    // no defaults.method and no branch method: the effective method is
    // makefile, twice inherited.
    let doc = "[defaults]\n[branches.b]\ntask = \"t\"\n";
    let config = load_all_pass(doc, ".").unwrap();
    assert_eq!(config.default_method, DeployMethod::Makefile);
    let branch = config.lookup_branch(&String::from("b")).unwrap();
    assert_eq!(branch.method, DeployMethod::Makefile);
    assert_eq!(branch.make_task().unwrap().to_string(), "t");
}

#[test]
fn test_branch_inherits_default_method() {
    let doc = "[defaults]\nmethod = \"ansible\"\nplaybook = \"p.yml\"\n\
        [branches.b]\ninventory = \"inv\"\n";
    let config = load_all_pass(doc, ".").unwrap();
    let branch = config.lookup_branch(&String::from("b")).unwrap();
    assert_eq!(branch.method, DeployMethod::Ansible);
}

#[test]
fn test_playbook_falls_back_to_default() {
    let doc = "[defaults]\nmethod = \"ansible\"\nplaybook = \"p.yml\"\n\
        [branches.b]\ninventory = \"inv\"\n";
    let config = load_all_pass(doc, ".").unwrap();
    let branch = config.lookup_branch(&String::from("b")).unwrap();
    let task = branch.ansible_task().unwrap();
    assert_eq!(task.playbook, "p.yml");
    assert_eq!(task.inventory, "inv");
}

#[test]
fn test_playbook_fallback_needs_default() {
    let doc = "[defaults]\nmethod = \"ansible\"\n[branches.b]\ninventory = \"inv\"\n";
    let err = load_all_pass(doc, ".").unwrap_err();
    assert_eq!(
        err.desc,
        "could not combine default and branch config to find playbook + inventory combination"
    );
    assert_eq!(err.subject, Some(String::from("branch.b")));
}

#[test]
fn test_playbook_without_inventory_rejected() {
    let doc = "[defaults]\nmethod = \"ansible\"\n[branches.b]\nplaybook = \"p.yml\"\n";
    let err = load_all_pass(doc, ".").unwrap_err();
    assert_eq!(
        err.desc,
        "could not combine default and branch config to find playbook + inventory combination"
    );
    assert_eq!(err.subject, Some(String::from("branch.b")));
}

#[test]
fn test_makefile_branch_without_task_rejected() {
    let doc = "[defaults]\n[branches.b]\nnotify_url = \"u\"\n";
    let err = load_all_pass(doc, ".").unwrap_err();
    assert_eq!(err.desc, "cannot construct a task for branch between local config and defaults");
    assert_eq!(err.subject, Some(String::from("branch.b")));
}

#[test]
fn test_notify_url_wrong_type_names_key() {
    let doc = "[defaults]\n[branches.staging]\ntask = \"t\"\nnotify_url = 42\n";
    let err = load_all_pass(doc, ".").unwrap_err();
    assert_eq!(err.desc, "branch 'notify_url' not a string");
    assert_eq!(err.subject, Some(String::from("branch.staging.notify_url")));
}

#[test]
fn test_defaults_task_wrong_type() {
    let doc = "[defaults]\ntask = 5\n[branches.b]\ntask = \"t\"\n";
    let err = load_all_pass(doc, ".").unwrap_err();
    assert_eq!(err.desc, "could not read 'defaults.task' as string");
    assert_eq!(err.subject, Some(String::from("defaults.task")));
}

#[test]
fn test_branch_playbook_wrong_type() {
    let doc = "[defaults]\n[branches.b]\nplaybook = 1\ntask = \"t\"\n";
    let err = load_all_pass(doc, ".").unwrap_err();
    assert_eq!(err.desc, "branch 'playbook' not a string");
    assert_eq!(err.subject, Some(String::from("branch.b.playbook")));
}

#[test]
fn test_failed_check_error_propagates_verbatim() {
    let doc_text = "[defaults]\nplaybook = \"missing.yml\"\n[branches.b]\ntask = \"t\"\n";
    let doc = parse_document(doc_text).unwrap();
    let checks = checks_needed(&doc);
    assert_eq!(checks.len(), 2);
    assert!(matches!(&checks[0], Check::FileExists { path } if path.as_str() == "missing.yml"));
    let failure = ConfigError {
        desc: String::from("file does not exist"),
        subject: Some(String::from("missing.yml")),
    };
    let outcomes = vec![CheckOutcome::Fail(failure), CheckOutcome::Pass];
    let err = RepoConfig::resolve(&doc, ".", &outcomes).unwrap_err();
    assert_eq!(err.desc, "file does not exist");
    assert_eq!(err.subject, Some(String::from("missing.yml")));
}

#[test]
fn test_lookup_branch_unknown_name() {
    let config = load_all_pass("[defaults]\n[branches.b]\ntask = \"t\"\n", ".").unwrap();
    assert!(config.lookup_branch(&String::from("missing")).is_none());
    assert!(config.lookup_branch(&String::from("B")).is_none());
}

#[test]
fn test_notify_url_kept_verbatim() {
    let doc = "[defaults]\nnotify_url = \" spaced URL \"\n[branches.b]\ntask = \"t\"\n";
    let config = load_all_pass(doc, ".").unwrap();
    assert_eq!(config.default_notify_url, Some(String::from(" spaced URL ")));
}

#[test]
fn test_deploy_method_display_forms() {
    assert_eq!(DeployMethod::Ansible.to_string(), "ansible");
    assert_eq!(DeployMethod::Makefile.to_string(), "makefile");
}

#[test]
fn test_project_root_recorded() {
    let config = load_all_pass("[defaults]\n[branches.b]\ntask = \"t\"\n", "/srv/repo").unwrap();
    assert_eq!(config.project_root, "/srv/repo");
}

#[test]
fn test_defaults_not_a_table_reads_as_empty() {
    // a non-table `defaults` value satisfies the presence requirement but
    // yields no keys, so every lookup falls back.
    let doc = "defaults = 7\n[branches.b]\ntask = \"t\"\n";
    let config = load_all_pass(doc, ".").unwrap();
    assert_eq!(config.default_method, DeployMethod::Makefile);
    assert!(config.default_task.is_none());
}
