//! The deployment mechanism, as a closed variant with a canonical string
//! form.  `"make"` is accepted as a synonym of `"makefile"` on input only.

use vstd::prelude::*;

verus! {

/// How a branch is deployed: a playbook run, or a build-tool task.
#[derive(Clone, Copy, Debug, PartialEq, Eq, Structural)]
pub enum DeployMethod {
    Ansible,
    Makefile,
}

impl DeployMethod {
    /// The canonical string form, used for display and (with the `"make"`
    /// synonym) for parsing.
    pub open spec fn spec_string(self) -> Seq<char> {
        match self {
            DeployMethod::Ansible => "ansible"@,
            DeployMethod::Makefile => "makefile"@,
        }
    }

    /// Canonical display form: `"ansible"` or `"makefile"`.
    pub fn to_string(&self) -> (r: String)
        ensures
            r@ == self.spec_string(),
    {
        match self {
            DeployMethod::Ansible => String::from_str("ansible"),
            DeployMethod::Makefile => String::from_str("makefile"),
        }
    }
}

/// What a configured method string denotes: `"ansible"`, or `"makefile"`
/// (with `"make"` as an input-only synonym); anything else is rejected.
pub open spec fn spec_parse_method(s: Seq<char>) -> Option<DeployMethod> {
    if s == "ansible"@ {
        Some(DeployMethod::Ansible)
    } else if s == "makefile"@ || s == "make"@ {
        Some(DeployMethod::Makefile)
    } else {
        None
    }
}

/// Parse a method string; `None` for any string outside the accepted set.
pub fn parse_method(s: &String) -> (r: Option<DeployMethod>)
    ensures
        r == spec_parse_method(s@),
{
    if *s == String::from_str("ansible") {
        Some(DeployMethod::Ansible)
    } else if *s == String::from_str("makefile") || *s == String::from_str("make") {
        Some(DeployMethod::Makefile)
    } else {
        None
    }
}

} // verus!
