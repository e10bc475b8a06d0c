//! Configuration documents as the `toml` crate parses them.
//!
//! The values of that crate are opaque to the verifier. This module names
//! their mathematical content and states, without proof, what the few
//! functions that the library calls on them return.

use vstd::prelude::*;

verus! {

/// What the library reads of a configuration value: the text of a string,
/// the fields of a table, and of any other value only that it is neither.
pub enum ValueView {
    Text(Seq<char>),
    Table(Map<Seq<char>, ValueView>),
    Other,
}

/// `toml::Value`, a value of a document: carried through, never looked
/// into.
#[verifier::external_type_specification]
#[verifier::external_body]
pub struct ExValue(toml::Value);

/// `toml::map::Map`, the collection behind `toml::Table`.
#[verifier::external_type_specification]
#[verifier::external_body]
#[verifier::reject_recursive_types(K)]
#[verifier::reject_recursive_types(V)]
pub struct ExMap<K, V>(toml::map::Map<K, V>);

/// `toml::de::Error`, the parser's report of a text that is no document.
#[verifier::external_type_specification]
#[verifier::external_body]
pub struct ExError(toml::de::Error);

/// The content of a `toml::Value`, as `as_str` and `as_table` show it.
pub uninterp spec fn value_view(value: toml::Value) -> ValueView;

/// What a `toml::Table` holds: its keys, each with the content of the value
/// stored under it.
pub uninterp spec fn table_view(table: toml::Table) -> Map<Seq<char>, ValueView>;

/// What `toml::from_str` makes of `text`: the content of the top-level
/// table if `text` is a document, nothing if it is not.
pub uninterp spec fn parsed_document(text: Seq<char>) -> Option<Map<Seq<char>, ValueView>>;

/// `toml::Value::as_str`: the text of a string value, and nothing for a value
/// of any other type.
pub assume_specification<'a>[ toml::Value::as_str ](value: &'a toml::Value) -> (r: Option<&'a str>)
    ensures
        match r {
            Some(text) => value_view(*value) == ValueView::Text(text@),
            None => !(value_view(*value) is Text),
        },
;

/// `toml::Value::as_table`: the table of a table value, and nothing for a
/// value of any other type.
pub assume_specification<'a>[ toml::Value::as_table ](value: &'a toml::Value) -> (r: Option<
    &'a toml::Table,
>)
    ensures
        match r {
            Some(table) => value_view(*value) == ValueView::Table(table_view(*table)),
            None => !(value_view(*value) is Table),
        },
;

/// `toml::map::Map::get`: the value stored under `key`, if the table has that
/// key.
#[verifier::external_body]
pub(crate) fn table_get<'a>(table: &'a toml::Table, key: &str) -> (r: Option<&'a toml::Value>)
    ensures
        match r {
            Some(value) => table_view(*table).dom().contains(key@) && value_view(*value)
                == table_view(*table)[key@],
            None => !table_view(*table).dom().contains(key@),
        },
{
    table.get(key)
}

/// `toml::map::Map::into_iter`: the entries of the table, each of them once.
/// Nothing is said of their order.
#[verifier::external_body]
pub(crate) fn table_entries(table: toml::Table) -> (r: Vec<(String, toml::Value)>)
    ensures
        forall|i: int|
            #![trigger r[i]]
            0 <= i < r.len() ==> table_view(table).dom().contains(r[i].0@) && value_view(r[i].1)
                == table_view(table)[r[i].0@],
        forall|name: Seq<char>| #[trigger]
            table_view(table).dom().contains(name) ==> exists|i: int|
                #![trigger r[i]]
                0 <= i < r.len() && r[i].0@ == name,
        forall|i: int, j: int|
            #![trigger r[i], r[j]]
            0 <= i < j < r.len() ==> r[i].0@ != r[j].0@,
{
    table.into_iter().collect()
}

/// `toml::from_str`, read as a table: a document that parses gives its
/// top-level table, and the same text always gives the same outcome.
#[verifier::external_body]
pub(crate) fn parse_document(contents: &str) -> (r: Result<toml::Table, toml::de::Error>)
    ensures
        match r {
            Ok(table) => parsed_document(contents@) == Some(table_view(table)),
            Err(_) => parsed_document(contents@) is None,
        },
{
    toml::from_str::<toml::Table>(contents)
}

} // verus!
