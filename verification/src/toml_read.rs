//! The trusted boundary to the document parser.  The configuration format
//! is TOML, and parsing it is the `toml` crate's work; this module gives
//! that work a name and hands the rest of the library a plain
//! [`Document`].  Everything past [`parse_document`] is verified.

use vstd::prelude::*;
use crate::doc::{BranchesNode, DocModel, Document, Entry, FieldValue, SectionNode};
use crate::error::{err_plain, ConfigError, ErrorModel};

verus! {

/// What the TOML parser yields from a document, reduced to the distinctions
/// this library reads (see [`crate::doc`]): `None` where the text is not
/// well-formed TOML.  The result depends on the text alone.
pub uninterp spec fn toml_doc(s: Seq<char>) -> Option<DocModel>;

/// Relies on the `toml` crate (`str::parse::<toml::Table>`): parses the
/// text and keeps the `defaults` entry of the root table, reduced to which
/// keys it holds and which of their values are strings.
#[verifier::external_body]
fn read_defaults(s: &str) -> (r: Option<Option<SectionNode>>)
    ensures
        match r {
            None => toml_doc(s@) is None,
            Some(d) => toml_doc(s@) matches Some(m) && m.defaults == match d {
                Some(x) => Some(x@),
                None => None,
            },
        },
{
    let root = match s.parse::<toml::Table>() { Ok(t) => t, Err(_) => return None };
    Some(root.get("defaults").map(|v| match v.as_table() {
        None => SectionNode::NotTable,
        Some(t) => SectionNode::Table(t.iter().map(|(k, x)| Entry {
            key: k.clone(),
            value: match x.as_str() {
                Some(y) => FieldValue::Text(y.to_owned()),
                None => FieldValue::NonText,
            },
        }).collect()),
    }))
}

/// Relies on the `toml` crate (`str::parse::<toml::Table>`): parses the
/// text and keeps the `branches` entry of the root table, reduced to its
/// entries (in the order the parser's table yields them), each to which
/// keys it holds and which of their values are strings.
#[verifier::external_body]
fn read_branches(s: &str) -> (r: Option<Option<BranchesNode>>)
    ensures
        match r {
            None => toml_doc(s@) is None,
            Some(b) => toml_doc(s@) matches Some(m) && m.branches == match b {
                Some(x) => Some(x@),
                None => None,
            },
        },
{
    let root = match s.parse::<toml::Table>() { Ok(t) => t, Err(_) => return None };
    Some(root.get("branches").map(|v| match v.as_table() {
        None => BranchesNode::NotTable,
        Some(t) => BranchesNode::Table(t.iter().map(|(k, b)| crate::doc::BranchEntry {
            name: k.clone(),
            node: match b.as_table() {
                None => SectionNode::NotTable,
                Some(bt) => SectionNode::Table(bt.iter().map(|(k2, x)| Entry {
                    key: k2.clone(),
                    value: match x.as_str() {
                        Some(y) => FieldValue::Text(y.to_owned()), None => FieldValue::NonText },
                }).collect()),
            },
        }).collect()),
    }))
}

/// Parse a configuration text into the document the resolver reads.
/// Malformed TOML is the one parse error, with no further detail available.
pub fn parse_document(s: &str) -> (r: Result<Document, ConfigError>)
    ensures
        match r {
            Ok(d) => toml_doc(s@) == Some(d@),
            Err(e) => toml_doc(s@) is None && e@ == (ErrorModel {
                desc: "could not parse toml"@,
                subject: None,
            }),
        },
{
    let defaults = read_defaults(s);
    let branches = read_branches(s);
    match (defaults, branches) {
        (Some(d), Some(b)) => Ok(Document { defaults: d, branches: b }),
        _ => Err(err_plain("could not parse toml")),
    }
}

} // verus!
