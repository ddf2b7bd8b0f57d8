//! Structured documents (JSON, TOML) as the descriptor and the commit
//! records use them. The documents themselves are read, changed and
//! written by `serde_json` and `toml`; this module says, over a tree of
//! plain values, what those operations do.

use vstd::prelude::*;

verus! {

/// A value of a structured document as a mathematical tree.
pub enum Node {
    /// A string.
    Text(Seq<char>),
    /// An object or table: its members in document order. No two members
    /// of a document share a key.
    Table(Seq<(Seq<char>, Node)>),
    /// An array.
    List(Seq<Node>),
    /// Any other value (null, a boolean, a number, a date), by the form
    /// in which its format writes it.
    Scalar(Seq<char>),
}

/// `at` is the first place in `members` that holds `key`.
pub open spec fn is_first(members: Seq<(Seq<char>, Node)>, key: Seq<char>, at: int) -> bool {
    &&& 0 <= at < members.len()
    &&& members[at].0 == key
    &&& forall|j: int| 0 <= j < at ==> members[j].0 != key
}

/// Some member of `members` has the key `key`.
pub open spec fn has_key(members: Seq<(Seq<char>, Node)>, key: Seq<char>) -> bool {
    exists|at: int| is_first(members, key, at)
}

/// The place of the member with the key `key`.
pub open spec fn place_of(members: Seq<(Seq<char>, Node)>, key: Seq<char>) -> int {
    choose|at: int| is_first(members, key, at)
}

/// The member `key` of `node`, where `node` is a table that has one.
pub open spec fn member(node: Node, key: Seq<char>) -> Option<Node> {
    match node {
        Node::Table(members) => if has_key(members, key) {
            Some(members[place_of(members, key)].1)
        } else {
            None
        },
        _ => None,
    }
}

/// The string that `node` holds, where it is a string.
pub open spec fn text_of(node: Node) -> Option<Seq<char>> {
    match node {
        Node::Text(s) => Some(s),
        _ => None,
    }
}

/// `node` with the value of its member `key` replaced by `value`; the
/// member keeps its place. A node without such a member stays as it is.
pub open spec fn with_member(node: Node, key: Seq<char>, value: Node) -> Node {
    match node {
        Node::Table(members) => if has_key(members, key) {
            Node::Table(members.update(place_of(members, key), (key, value)))
        } else {
            node
        },
        _ => node,
    }
}

/// The keys of the members of a table, in their order.
pub open spec fn keys(node: Node) -> Seq<Seq<char>> {
    match node {
        Node::Table(members) => Seq::new(members.len(), |i: int| members[i].0),
        _ => Seq::empty(),
    }
}

/// Replacing the value of a member changes what is found under its key
/// to the new value, and nothing under any other key. No member is
/// added, removed or moved.
pub proof fn lemma_with_member(node: Node, key: Seq<char>, value: Node)
    requires
        member(node, key) is Some,
    ensures
        member(with_member(node, key, value), key) == Some(value),
        forall|other: Seq<char>|
            other != key ==> member(with_member(node, key, value), other) == member(node, other),
        keys(with_member(node, key, value)) == keys(node),
{
    assert(keys(with_member(node, key, value)) =~= keys(node));
    let members = node->Table_0;
    let at = place_of(members, key);
    let after = members.update(at, (key, value));
    assert(is_first(after, key, at));
    assert forall|other: Seq<char>| other != key implies member(
        with_member(node, key, value),
        other,
    ) == member(node, other) by {
        if has_key(members, other) {
            let there = place_of(members, other);
            assert forall|j: int| 0 <= j < there implies after[j].0 != other by {
                assert(members[j].0 != other);
            }
            assert(is_first(after, other, there));
        }
        if has_key(after, other) {
            let there = place_of(after, other);
            assert forall|j: int| 0 <= j < there implies members[j].0 != other by {
                assert(after[j].0 != other);
            }
            assert(is_first(members, other, there));
        }
    }
}

/// A JSON value as `serde_json` holds it.
#[verifier::external_type_specification]
#[verifier::external_body]
pub struct ExJsonValue(serde_json::Value);

/// The error with which `serde_json` refuses to read or write.
#[verifier::external_type_specification]
#[verifier::external_body]
pub struct ExJsonError(serde_json::Error);

/// A TOML value as `toml` holds it.
#[verifier::external_type_specification]
#[verifier::external_body]
pub struct ExTomlValue(toml::Value);

/// The error with which `toml` refuses to read a text.
#[verifier::external_type_specification]
#[verifier::external_body]
pub struct ExTomlReadError(toml::de::Error);

/// The error with which `toml` refuses to write a value.
#[verifier::external_type_specification]
#[verifier::external_body]
pub struct ExTomlWriteError(toml::ser::Error);

/// The tree that a JSON value holds.
pub uninterp spec fn json_node(value: serde_json::Value) -> Node;

/// The tree that `serde_json::from_str` reads from `text`, or `None`
/// where it refuses the text.
pub uninterp spec fn json_read(text: Seq<char>) -> Option<Node>;

/// The text that `serde_json::to_string_pretty` writes for `node`, or
/// `None` where it refuses.
pub uninterp spec fn json_written(node: Node) -> Option<Seq<char>>;

/// The tree that a TOML value holds.
pub uninterp spec fn toml_node(value: toml::Value) -> Node;

/// The tree that `toml::from_str` reads from `text`, or `None` where it
/// refuses the text.
pub uninterp spec fn toml_read(text: Seq<char>) -> Option<Node>;

/// The text that `toml::to_string` writes for `node`, or `None` where it
/// refuses.
pub uninterp spec fn toml_written(node: Node) -> Option<Seq<char>>;

/// Calls `serde_json::from_str` for a `Value`. Reading is a function of
/// the text alone: the tree of the value that comes back is `json_read`
/// of the text, and an error comes back where `json_read` has none.
#[verifier::external_body]
pub(crate) fn json_parse(text: &str) -> (out: Result<serde_json::Value, serde_json::Error>)
    ensures
        match out {
            Ok(doc) => json_read(text@) == Some(json_node(doc)),
            Err(_) => json_read(text@) is None,
        },
{
    serde_json::from_str::<serde_json::Value>(text)
}

/// Calls `serde_json::Value::get` with a string key. It finds the member
/// of that key in an object, and nothing in any other value.
#[verifier::external_body]
pub(crate) fn json_get<'a>(doc: &'a serde_json::Value, key: &str) -> (out: Option<
    &'a serde_json::Value,
>)
    ensures
        match out {
            Some(found) => member(json_node(*doc), key@) == Some(json_node(*found)),
            None => member(json_node(*doc), key@) is None,
        },
{
    doc.get(key)
}

/// Calls `serde_json::Value::as_str`. It gives the string of a string
/// value, and nothing for any other value.
#[verifier::external_body]
pub(crate) fn json_as_str<'a>(value: &'a serde_json::Value) -> (out: Option<&'a str>)
    ensures
        match out {
            Some(s) => text_of(json_node(*value)) == Some(s@),
            None => text_of(json_node(*value)) is None,
        },
{
    value.as_str()
}

/// Assigns a string through `serde_json::Value`'s index by key. On an
/// object that has the key, the member keeps its place and gets the
/// string as its value; nothing else changes. The index panics on values
/// that are neither an object nor null, and adds a member where the key
/// is absent: both are left out here.
#[verifier::external_body]
pub(crate) fn json_set(doc: &mut serde_json::Value, key: &str, text: &str)
    requires
        member(json_node(*old(doc)), key@) is Some,
    ensures
        json_node(*final(doc)) == with_member(json_node(*old(doc)), key@, Node::Text(text@)),
{
    doc[key] = serde_json::Value::String(text.to_string());
}

/// Calls `serde_json::to_string_pretty`. Writing is a function of the
/// tree alone: the text that comes back is `json_written` of the tree,
/// and an error comes back where `json_written` has none.
#[verifier::external_body]
pub(crate) fn json_pretty(doc: &serde_json::Value) -> (out: Result<String, serde_json::Error>)
    ensures
        match out {
            Ok(text) => json_written(json_node(*doc)) == Some(text@),
            Err(_) => json_written(json_node(*doc)) is None,
        },
{
    serde_json::to_string_pretty(doc)
}

/// Calls `toml::from_str` for a `Value`. Reading is a function of the
/// text alone: the tree of the value that comes back is `toml_read` of
/// the text, and an error comes back where `toml_read` has none.
#[verifier::external_body]
pub(crate) fn toml_parse(text: &str) -> (out: Result<toml::Value, toml::de::Error>)
    ensures
        match out {
            Ok(doc) => toml_read(text@) == Some(toml_node(doc)),
            Err(_) => toml_read(text@) is None,
        },
{
    toml::from_str::<toml::Value>(text)
}

/// Calls `toml::Value::get` with a string key. It finds the member of
/// that key in a table, and nothing in any other value.
#[verifier::external_body]
pub(crate) fn toml_get<'a>(doc: &'a toml::Value, key: &str) -> (out: Option<&'a toml::Value>)
    ensures
        match out {
            Some(found) => member(toml_node(*doc), key@) == Some(toml_node(*found)),
            None => member(toml_node(*doc), key@) is None,
        },
{
    doc.get(key)
}

/// Calls `toml::Value::as_str`. It gives the string of a string value,
/// and nothing for any other value.
#[verifier::external_body]
pub(crate) fn toml_as_str<'a>(value: &'a toml::Value) -> (out: Option<&'a str>)
    ensures
        match out {
            Some(s) => text_of(toml_node(*value)) == Some(s@),
            None => text_of(toml_node(*value)) is None,
        },
{
    value.as_str()
}

/// Assigns a string through `toml::Value`'s index by key, twice: to the
/// member `key` of the member `table`. Both members keep their places
/// and nothing else changes. The index panics where a member is absent:
/// that is left out here.
#[verifier::external_body]
pub(crate) fn toml_set(doc: &mut toml::Value, table: &str, key: &str, text: &str)
    requires
        member(toml_node(*old(doc)), table@) is Some,
        member(member(toml_node(*old(doc)), table@)->Some_0, key@) is Some,
    ensures
        toml_node(*final(doc)) == with_member(
            toml_node(*old(doc)),
            table@,
            with_member(member(toml_node(*old(doc)), table@)->Some_0, key@, Node::Text(text@)),
        ),
{
    doc[table][key] = toml::Value::String(text.to_string());
}

/// Calls `toml::to_string`. Writing is a function of the tree alone: the
/// text that comes back is `toml_written` of the tree, and an error comes
/// back where `toml_written` has none.
#[verifier::external_body]
pub(crate) fn toml_render(doc: &toml::Value) -> (out: Result<String, toml::ser::Error>)
    ensures
        match out {
            Ok(text) => toml_written(toml_node(*doc)) == Some(text@),
            Err(_) => toml_written(toml_node(*doc)) is None,
        },
{
    toml::to_string(doc)
}

} // verus!
