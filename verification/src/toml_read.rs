//! Reading TOML configuration documents through the `toml` crate.
//!
//! The parser stays behind one trusted item; what it read is handed to the
//! verified configuration logic as plain values. Both whether a text parses
//! and the document read out of it are functions of the text alone, so both
//! carry names (`toml_parses`, `toml_doc_of`) that the trusted reader ties
//! to its result.

use vstd::prelude::*;

verus! {

/// Mathematical model of a [`RawValue`].
pub enum RawValueModel {
    Int { x: int },
    Text { s: Seq<char> },
    Bool { b: bool },
    Other,
}

/// A scalar read out of a parsed TOML document.
#[derive(Debug)]
pub enum RawValue {
    /// A TOML integer.
    Integer { v: i64 },
    /// A TOML string.
    Text { s: String },
    /// A TOML boolean.
    Boolean { b: bool },
    /// Any other shape: float, datetime, array or table.
    Other,
}

impl View for RawValue {
    type V = RawValueModel;

    open spec fn view(&self) -> RawValueModel {
        match *self {
            RawValue::Integer { v } => RawValueModel::Int { x: v as int },
            RawValue::Text { s } => RawValueModel::Text { s: s@ },
            RawValue::Boolean { b } => RawValueModel::Bool { b },
            RawValue::Other => RawValueModel::Other,
        }
    }
}

/// Mathematical model of a [`RawEntry`].
pub struct RawEntryModel {
    pub key: Seq<char>,
    pub value: RawValueModel,
}

/// One `key = value` pair of a configuration section.
pub struct RawEntry {
    pub key: String,
    pub value: RawValue,
}

impl View for RawEntry {
    type V = RawEntryModel;

    open spec fn view(&self) -> RawEntryModel {
        RawEntryModel { key: self.key@, value: self.value@ }
    }
}

/// Mathematical model of a [`RawSection`].
pub struct RawSectionModel {
    pub name: Seq<char>,
    pub entries: Option<Seq<RawEntryModel>>,
}

/// One top-level item of a configuration document. `entries` is nothing
/// when the item's value was not a table.
pub struct RawSection {
    pub name: String,
    pub entries: Option<Vec<RawEntry>>,
}

impl View for RawSection {
    type V = RawSectionModel;

    open spec fn view(&self) -> RawSectionModel {
        RawSectionModel {
            name: self.name@,
            entries: match self.entries {
                Option::Some(es) => Option::Some(es@.map_values(|e: RawEntry| e@)),
                Option::None => Option::None,
            },
        }
    }
}

/// A whole configuration document, flattened to plain values.
pub struct RawDocument {
    pub sections: Vec<RawSection>,
}

impl View for RawDocument {
    type V = Seq<RawSectionModel>;

    open spec fn view(&self) -> Seq<RawSectionModel> {
        self.sections@.map_values(|s: RawSection| s@)
    }
}

/// Whether `s` parses as a TOML document.
pub uninterp spec fn toml_parses(s: Seq<char>) -> bool;

/// The document a parseable text holds: each top-level key with, when its
/// value is a table, that table's scalar entries (in the parser's
/// deterministic key order).
pub uninterp spec fn toml_doc_of(s: Seq<char>) -> Seq<RawSectionModel>;

/// Relies on toml's document parser (`str::parse::<toml::Table>`) and its
/// map iteration (`Map::iter`, `Value::as_table`): whether a text parses,
/// and the document read out of it, depend on the text alone. Scalars move
/// over one for one; floats, datetimes, arrays and nested tables read as
/// `Other`. An empty text is a valid TOML document with no sections.
#[verifier::external_body]
pub fn read_toml_document(s: &str) -> (r: Option<RawDocument>)
    ensures
        (r is Some) == toml_parses(s@),
        r matches Some(d) ==> d@ == toml_doc_of(s@),
        r is None ==> s@.len() > 0,
        r matches Some(d) ==> (s@.len() == 0 ==> d@ == Seq::<RawSectionModel>::empty()),
{
    let table: toml::Table = match s.parse() { Ok(t) => t, Err(_) => return None };
    let sections = table.iter().map(|(name, value)| RawSection {
        name: name.clone(),
        entries: value.as_table().map(|sub| sub.iter().map(|(key, v)| RawEntry {
            key: key.clone(),
            value: match v {
                toml::Value::Integer(i) => RawValue::Integer { v: *i },
                toml::Value::String(x) => RawValue::Text { s: x.clone() },
                toml::Value::Boolean(b) => RawValue::Boolean { b: *b },
                _ => RawValue::Other,
            },
        }).collect()),
    }).collect();
    Some(RawDocument { sections })
}

} // verus!
