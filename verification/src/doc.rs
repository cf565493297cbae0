//! The configuration document, reduced to what the resolver reads: for each
//! named section, which keys are present and whether each value is a string;
//! and for `branches`, which entries are themselves tables.  Everything else
//! about a value is deliberately collapsed — the resolver only ever
//! distinguishes "string" from "not a string" and "table" from "not a table".

use vstd::prelude::*;

verus! {

/// A key's value, as far as the resolver reads it.
#[derive(Debug)]
pub enum FieldValue {
    /// A string value, kept verbatim (no trimming, no case folding).
    Text(String),
    /// Present, but of some other type.
    NonText,
}

/// Spec-level counterpart of [`FieldValue`].
pub enum FieldModel {
    Text(Seq<char>),
    NonText,
}

impl View for FieldValue {
    type V = FieldModel;

    open spec fn view(&self) -> FieldModel {
        match self {
            FieldValue::Text(s) => FieldModel::Text(s@),
            FieldValue::NonText => FieldModel::NonText,
        }
    }
}

/// One `key = value` pair of a section.
#[derive(Debug)]
pub struct Entry {
    pub key: String,
    pub value: FieldValue,
}

pub struct EntryModel {
    pub key: Seq<char>,
    pub value: FieldModel,
}

impl View for Entry {
    type V = EntryModel;

    open spec fn view(&self) -> EntryModel {
        EntryModel { key: self.key@, value: self.value@ }
    }
}

/// The value found under a section name: a table of entries, or some other
/// value (on which every key lookup comes back missing).
#[derive(Debug)]
pub enum SectionNode {
    Table(Vec<Entry>),
    NotTable,
}

pub enum SectionModel {
    Table(Seq<EntryModel>),
    NotTable,
}

impl View for SectionNode {
    type V = SectionModel;

    open spec fn view(&self) -> SectionModel {
        match self {
            SectionNode::Table(es) => SectionModel::Table(es@.map_values(|e: Entry| e@)),
            SectionNode::NotTable => SectionModel::NotTable,
        }
    }
}

/// One entry of the `branches` table: a branch name and its value.
#[derive(Debug)]
pub struct BranchEntry {
    pub name: String,
    pub node: SectionNode,
}

pub struct BranchEntryModel {
    pub name: Seq<char>,
    pub node: SectionModel,
}

impl View for BranchEntry {
    type V = BranchEntryModel;

    open spec fn view(&self) -> BranchEntryModel {
        BranchEntryModel { name: self.name@, node: self.node@ }
    }
}

/// The value found under `branches`: a table of branch entries (in the order
/// the parser yields them), or some other value.
#[derive(Debug)]
pub enum BranchesNode {
    Table(Vec<BranchEntry>),
    NotTable,
}

pub enum BranchesModel {
    Table(Seq<BranchEntryModel>),
    NotTable,
}

impl View for BranchesNode {
    type V = BranchesModel;

    open spec fn view(&self) -> BranchesModel {
        match self {
            BranchesNode::Table(bs) => BranchesModel::Table(bs@.map_values(|b: BranchEntry| b@)),
            BranchesNode::NotTable => BranchesModel::NotTable,
        }
    }
}

/// The whole document, reduced to the two sections the resolver reads.
/// `None` means the section name is absent from the document root.
#[derive(Debug)]
pub struct Document {
    pub defaults: Option<SectionNode>,
    pub branches: Option<BranchesNode>,
}

pub struct DocModel {
    pub defaults: Option<SectionModel>,
    pub branches: Option<BranchesModel>,
}

impl View for Document {
    type V = DocModel;

    open spec fn view(&self) -> DocModel {
        DocModel {
            defaults: match self.defaults {
                Some(s) => Some(s@),
                None => None,
            },
            branches: match self.branches {
                Some(b) => Some(b@),
                None => None,
            },
        }
    }
}

/// Tri-state result of looking a key up in a section: absent, present but
/// not a string, or present as a string (returned unmodified).
#[derive(Debug)]
pub enum Lookup {
    Missing,
    WrongType,
    Value(String),
}

pub enum LookupModel {
    Missing,
    WrongType,
    Value(Seq<char>),
}

impl View for Lookup {
    type V = LookupModel;

    open spec fn view(&self) -> LookupModel {
        match self {
            Lookup::Missing => LookupModel::Missing,
            Lookup::WrongType => LookupModel::WrongType,
            Lookup::Value(s) => LookupModel::Value(s@),
        }
    }
}

/// What scanning the entries for `key`, from position `i` on, yields: the
/// first entry with that key decides, and no entry means the key is missing.
pub open spec fn spec_lookup_from(es: Seq<EntryModel>, i: int, key: Seq<char>) -> LookupModel
    decreases es.len() - i,
{
    if i < 0 || i >= es.len() {
        LookupModel::Missing
    } else if es[i].key == key {
        match es[i].value {
            FieldModel::Text(t) => LookupModel::Value(t),
            FieldModel::NonText => LookupModel::WrongType,
        }
    } else {
        spec_lookup_from(es, i + 1, key)
    }
}

/// Field lookup over a section: missing / wrong type / string value.
/// A section that is not a table has every key missing.
pub open spec fn spec_lookup(s: SectionModel, key: Seq<char>) -> LookupModel {
    match s {
        SectionModel::NotTable => LookupModel::Missing,
        SectionModel::Table(es) => spec_lookup_from(es, 0, key),
    }
}

/// The one typed-extraction helper every configuration access goes through.
pub fn lookup_as_string(section: &SectionNode, key: &str) -> (r: Lookup)
    ensures
        r@ == spec_lookup(section@, key@),
{
    match section {
        SectionNode::NotTable => Lookup::Missing,
        SectionNode::Table(es) => {
            let k = String::from_str(key);
            let ghost esv = es@.map_values(|e: Entry| e@);
            let mut i: usize = 0;
            while i < es.len()
                invariant
                    i <= es.len(),
                    k@ == key@,
                    esv == es@.map_values(|e: Entry| e@),
                    esv.len() == es@.len(),
                    section@ == SectionModel::Table(esv),
                    spec_lookup_from(esv, 0, key@) == spec_lookup_from(esv, i as int, key@),
                decreases es.len() - i,
            {
                proof {
                    assert(esv[i as int] == es@[i as int]@);
                }
                if es[i].key == k {
                    match &es[i].value {
                        FieldValue::Text(t) => {
                            return Lookup::Value(t.clone());
                        },
                        FieldValue::NonText => {
                            return Lookup::WrongType;
                        },
                    }
                }
                i = i + 1;
            }
            Lookup::Missing
        },
    }
}

} // verus!
