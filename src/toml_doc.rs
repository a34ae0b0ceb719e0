//! A view of a parsed TOML document, and the calls into `toml_edit` that read one.
use vstd::prelude::*;

verus! {

#[verifier::external_type_specification]
#[verifier::external_body]
pub struct ExItem(toml_edit::Item);

#[verifier::external_type_specification]
#[verifier::external_body]
pub struct ExTomlError(toml_edit::TomlError);

/// What a TOML item holds, as far as the toolchain file reads it.
pub enum TomlNode {
    /// A string.
    Text(Seq<char>),
    /// An array value, `[a, b]`.
    Array(Seq<TomlNode>),
    /// An array of tables, `[[t]]`.
    TableArray(Seq<TomlNode>),
    /// A table or an inline table, by key; keys bound to no item are absent.
    Table(Map<Seq<char>, TomlNode>),
    /// Any other value: a number, a boolean, a date, or no item.
    Scalar,
}

/// The root table that TOML parsing makes of a text, or `None` where the text
/// is not a TOML document.
pub uninterp spec fn toml_document(text: Seq<char>) -> Option<TomlNode>;

/// What a `toml_edit` item holds.
pub uninterp spec fn toml_node(item: toml_edit::Item) -> TomlNode;

/// Relies on `toml_edit::DocumentMut`'s `FromStr`: it parses the text as a TOML
/// document, and its root item is taken.
#[verifier::external_body]
pub(crate) fn parse_document(text: &str) -> (r: Result<toml_edit::Item, toml_edit::TomlError>)
    ensures
        r is Ok <==> toml_document(text@) is Some,
        r is Ok ==> toml_node(r->Ok_0) == toml_document(text@)->Some_0,
{
    text.parse::<toml_edit::DocumentMut>().map(toml_edit::DocumentMut::into_item)
}

/// Relies on `toml_edit::Item::get` with a key: the item under that key of a
/// table or an inline table, and `None` for any other item.
#[verifier::external_body]
pub(crate) fn item_key<'a>(item: &'a toml_edit::Item, key: &str) -> (r: Option<&'a toml_edit::Item>)
    ensures
        match toml_node(*item) {
            TomlNode::Table(m) => {
                &&& r is Some <==> m.contains_key(key@)
                &&& r is Some ==> toml_node(*r->0) == m[key@]
            },
            _ => r is None,
        },
{
    item.get(key)
}

/// Relies on `toml_edit::Item::get` with an index: the element at that place of
/// an array or an array of tables, and `None` for any other item.
#[verifier::external_body]
pub(crate) fn item_index<'a>(item: &'a toml_edit::Item, index: usize) -> (r: Option<&'a toml_edit::Item>)
    ensures
        match toml_node(*item) {
            TomlNode::Array(s) | TomlNode::TableArray(s) => {
                &&& r is Some <==> index < s.len()
                &&& r is Some ==> toml_node(*r->0) == s[index as int]
            },
            _ => r is None,
        },
{
    item.get(index)
}

/// Relies on `toml_edit::Item::as_str`: the text of a string item.
#[verifier::external_body]
pub(crate) fn item_str(item: &toml_edit::Item) -> (r: Option<&str>)
    ensures
        match toml_node(*item) {
            TomlNode::Text(s) => r is Some && r->0@ == s,
            _ => r is None,
        },
{
    item.as_str()
}

/// Relies on `toml_edit::Item::is_array`: true of an array value only.
#[verifier::external_body]
pub(crate) fn item_is_array(item: &toml_edit::Item) -> (r: bool)
    ensures
        r == toml_node(*item) is Array,
{
    item.is_array()
}

/// Relies on `toml_edit::Item::is_table_like`: true of a table or an inline table.
#[verifier::external_body]
pub(crate) fn item_is_table_like(item: &toml_edit::Item) -> (r: bool)
    ensures
        r == toml_node(*item) is Table,
{
    item.is_table_like()
}

} // verus!
