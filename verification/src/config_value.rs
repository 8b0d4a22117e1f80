//! The configuration document as plain values: what the configuration logic
//! reads of a parsed TOML document, and the call that parses one.
use vstd::prelude::*;

use crate::text::text_equals;

verus! {

/// The kind of a TOML value, as `toml::Value::type_str` names it.
#[derive(Clone, Copy, Debug, PartialEq, Eq, Structural)]
pub enum ValueKind {
    String,
    Integer,
    Float,
    Boolean,
    Datetime,
    Array,
    Table,
}

/// A TOML value as far as the configuration reads it: integers, floats (by
/// their IEEE-754 bit pattern), tables with their entries, and of any other
/// value only its kind.
#[derive(Debug)]
pub enum ConfigValue {
    Integer(i64),
    Float(u64),
    Table(Vec<(String, ConfigValue)>),
    Other(ValueKind),
}

/// The name `toml::Value::type_str` gives to each kind.
pub open spec fn kind_name(kind: ValueKind) -> Seq<char> {
    match kind {
        ValueKind::String => "string"@,
        ValueKind::Integer => "integer"@,
        ValueKind::Float => "float"@,
        ValueKind::Boolean => "boolean"@,
        ValueKind::Datetime => "datetime"@,
        ValueKind::Array => "array"@,
        ValueKind::Table => "table"@,
    }
}

impl ValueKind {
    /// The kind's name, as used in warnings (`toml::Value::type_str`).
    pub fn name(&self) -> (r: &'static str)
        ensures
            r@ == kind_name(*self),
    {
        match self {
            ValueKind::String => "string",
            ValueKind::Integer => "integer",
            ValueKind::Float => "float",
            ValueKind::Boolean => "boolean",
            ValueKind::Datetime => "datetime",
            ValueKind::Array => "array",
            ValueKind::Table => "table",
        }
    }
}

/// The kind of a value.
pub open spec fn kind_of(v: ConfigValue) -> ValueKind {
    match v {
        ConfigValue::Integer(_) => ValueKind::Integer,
        ConfigValue::Float(_) => ValueKind::Float,
        ConfigValue::Table(_) => ValueKind::Table,
        ConfigValue::Other(k) => k,
    }
}

impl ConfigValue {
    /// The value's kind (`toml::Value::type_str`).
    pub fn kind(&self) -> (r: ValueKind)
        ensures
            r == kind_of(*self),
    {
        match self {
            ConfigValue::Integer(_) => ValueKind::Integer,
            ConfigValue::Float(_) => ValueKind::Float,
            ConfigValue::Table(_) => ValueKind::Table,
            ConfigValue::Other(k) => *k,
        }
    }
}

/// The value of the first entry at or after `i` whose key is `key`.
pub open spec fn lookup_from(entries: Seq<(String, ConfigValue)>, key: Seq<char>, i: int) -> Option<
    ConfigValue,
>
    decreases entries.len() - i,
{
    if i < 0 || i >= entries.len() {
        None
    } else if entries[i].0@ == key {
        Some(entries[i].1)
    } else {
        lookup_from(entries, key, i + 1)
    }
}

/// The value stored under `key` in a table (`toml::Table::get`): the first
/// match, which in a parsed table is the only one (`lemma_lookup_finds_entry`).
pub open spec fn table_lookup(entries: Seq<(String, ConfigValue)>, key: Seq<char>) -> Option<
    ConfigValue,
> {
    lookup_from(entries, key, 0)
}

/// Looks `key` up in a table.
pub fn table_get<'a>(entries: &'a Vec<(String, ConfigValue)>, key: &str) -> (r: Option<
    &'a ConfigValue,
>)
    ensures
        match r {
            Some(v) => table_lookup(entries@, key@) == Some(*v),
            None => table_lookup(entries@, key@) is None,
        },
{
    let mut i: usize = 0;
    while i < entries.len()
        invariant
            i <= entries@.len(),
            table_lookup(entries@, key@) == lookup_from(entries@, key@, i as int),
        decreases entries@.len() - i,
    {
        if text_equals(entries[i].0.as_str(), key) {
            return Some(&entries[i].1);
        }
        i = i + 1;
    }
    None
}

/// No key appears twice among the entries.
pub open spec fn keys_distinct(entries: Seq<(String, ConfigValue)>) -> bool {
    forall|i: int, j: int| 0 <= i < j < entries.len() ==> entries[i].0@ != entries[j].0@
}

/// A document's table, and every table directly inside it, holds each key
/// once (as every TOML table does).
pub open spec fn document_keys_distinct(entries: Seq<(String, ConfigValue)>) -> bool {
    &&& keys_distinct(entries)
    &&& forall|i: int|
        0 <= i < entries.len() ==> (#[trigger] entries[i].1 matches ConfigValue::Table(inner)
            ==> keys_distinct(inner@))
}

proof fn lemma_lookup_from_reaches(entries: Seq<(String, ConfigValue)>, i: int, k: int)
    requires
        keys_distinct(entries),
        0 <= k <= i < entries.len(),
    ensures
        lookup_from(entries, entries[i].0@, k) == Some(entries[i].1),
    decreases i - k,
{
    if k < i {
        lemma_lookup_from_reaches(entries, i, k + 1);
    }
}

/// In a table whose keys are distinct, looking up the key of an entry finds
/// that entry: the first match is the only one.
pub proof fn lemma_lookup_finds_entry(entries: Seq<(String, ConfigValue)>, i: int)
    requires
        keys_distinct(entries),
        0 <= i < entries.len(),
    ensures
        table_lookup(entries, entries[i].0@) == Some(entries[i].1),
{
    lemma_lookup_from_reaches(entries, i, 0);
}

/// What `toml::from_str` reads from a document: its table, in this model, or
/// the text of the error it reports when the text is not a valid TOML
/// document (the error's message, which names the place and the fault).
pub uninterp spec fn toml_document(text: Seq<char>) -> Result<Vec<(String, ConfigValue)>, Seq<char>>;

#[verifier::external_type_specification]
#[verifier::external_body]
pub struct ExTomlValue(toml::Value);

/// Converts a `toml::Value` into the model, one variant for one, keeping the
/// entries of tables (in the order the table walks them) and the bit pattern
/// of floats. Only `parse_toml_document` calls it.
#[verifier::external_body]
fn model_of_toml_value(value: &toml::Value) -> ConfigValue {
    match value {
        toml::Value::Integer(v) => ConfigValue::Integer(*v),
        toml::Value::Float(v) => ConfigValue::Float(v.to_bits()),
        toml::Value::Table(t) => ConfigValue::Table(
            t.iter().map(|(k, v)| (k.clone(), model_of_toml_value(v))).collect(),
        ),
        toml::Value::String(_) => ConfigValue::Other(ValueKind::String),
        toml::Value::Boolean(_) => ConfigValue::Other(ValueKind::Boolean),
        toml::Value::Datetime(_) => ConfigValue::Other(ValueKind::Datetime),
        toml::Value::Array(_) => ConfigValue::Other(ValueKind::Array),
    }
}

/// A parse result with the error's message as text.
pub open spec fn parse_outcome(r: Result<Vec<(String, ConfigValue)>, String>) -> Result<
    Vec<(String, ConfigValue)>,
    Seq<char>,
> {
    match r {
        Ok(t) => Ok(t),
        Err(m) => Err(m@),
    }
}

/// Calls `toml::from_str` to read a TOML document into a table. The contract
/// names the table, or on a syntax error the error's message, as a function of
/// the text (the TOML grammar and the messages are not written out here), and
/// says that the table's keys, and those of the tables directly inside it, are
/// distinct (a `toml::Table` is a map).
#[verifier::external_body]
pub(crate) fn parse_toml_document(text: &str) -> (r: Result<Vec<(String, ConfigValue)>, String>)
    ensures
        toml_document(text@) == parse_outcome(r),
        r matches Ok(t) ==> document_keys_distinct(t@),
{
    match toml::from_str::<toml::Table>(text) {
        Ok(table) => Ok(table.iter().map(|(k, v)| (k.clone(), model_of_toml_value(v))).collect()),
        Err(err) => Err(err.to_string()),
    }
}

} // verus!
