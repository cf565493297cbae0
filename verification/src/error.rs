//! The single error kind of the library: a human-readable description and an
//! optional subject — the dotted configuration-key path (or file path)
//! implicated.

use vstd::prelude::*;

verus! {

/// Spec-level shape of a [`ConfigError`].
pub struct ErrorModel {
    pub desc: Seq<char>,
    pub subject: Option<Seq<char>>,
}

/// A configuration-loading failure.  No error is retried or downgraded: any
/// failure aborts the whole load.
#[derive(Debug)]
pub struct ConfigError {
    pub desc: String,
    pub subject: Option<String>,
}

impl View for ConfigError {
    type V = ErrorModel;

    open spec fn view(&self) -> ErrorModel {
        ErrorModel {
            desc: self.desc@,
            subject: match self.subject {
                Some(s) => Some(s@),
                None => None,
            },
        }
    }
}

impl Clone for ConfigError {
    fn clone(&self) -> (r: Self)
        ensures
            r@ == self@,
    {
        ConfigError {
            desc: self.desc.clone(),
            subject: match &self.subject {
                Some(s) => Some(s.clone()),
                None => None,
            },
        }
    }
}

/// An error with no subject.
pub fn err_plain(desc: &str) -> (r: ConfigError)
    ensures
        r@ == (ErrorModel { desc: desc@, subject: None }),
{
    ConfigError { desc: String::from_str(desc), subject: None }
}

/// An error attributed to a fixed subject.
pub fn err_at(desc: &str, subject: &str) -> (r: ConfigError)
    ensures
        r@ == (ErrorModel { desc: desc@, subject: Some(subject@) }),
{
    ConfigError { desc: String::from_str(desc), subject: Some(String::from_str(subject)) }
}

/// An error attributed to a subject built at run time.
pub fn err_with(desc: &str, subject: String) -> (r: ConfigError)
    ensures
        r@ == (ErrorModel { desc: desc@, subject: Some(subject@) }),
{
    ConfigError { desc: String::from_str(desc), subject: Some(subject) }
}

/// The subject of errors attributed to a whole branch: `branch.<name>`.
pub open spec fn spec_branch_subject(name: Seq<char>) -> Seq<char> {
    "branch."@ + name
}

pub fn branch_subject(name: &String) -> (r: String)
    ensures
        r@ == spec_branch_subject(name@),
{
    String::from_str("branch.").concat(name.as_str())
}

/// The subject of errors attributed to one key of a branch section:
/// `branch.<name>.<key>`.
pub open spec fn spec_branch_key_subject(name: Seq<char>, key: Seq<char>) -> Seq<char> {
    "branch."@ + name + "."@ + key
}

pub fn branch_key_subject(name: &String, key: &str) -> (r: String)
    ensures
        r@ == spec_branch_key_subject(name@, key@),
{
    String::from_str("branch.").concat(name.as_str()).concat(".").concat(key)
}

} // verus!
