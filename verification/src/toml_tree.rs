//! TOML tables of the `toml` crate, and what this library relies on of them.
//!
//! A table is seen as the sequence of its entries in iteration order. An entry is
//! a key with a node: either another table, or a value that is not a table.

use vstd::prelude::*;

verus! {

/// Declares `toml::map::Map`, the type behind `toml::Table`. Nothing is said of
/// its fields.
#[verifier::external_type_specification]
#[verifier::external_body]
#[verifier::reject_recursive_types(K)]
#[verifier::reject_recursive_types(V)]
pub struct ExTomlMap<K, V>(toml::map::Map<K, V>);

/// Declares `toml::Value`. Nothing is said of its variants.
#[verifier::external_type_specification]
#[verifier::external_body]
pub struct ExTomlValue(toml::Value);

/// What stands behind a key: a table with its entries, or any other value.
pub enum TomlNode {
    Leaf(toml::Value),
    Table(Seq<(Seq<char>, TomlNode)>),
}

/// The entries of a table in iteration order.
pub uninterp spec fn table_entries(table: toml::Table) -> Seq<(Seq<char>, TomlNode)>;

/// A value as a node.
pub uninterp spec fn value_node(value: toml::Value) -> TomlNode;

/// The node behind `key`, if there is one.
pub open spec fn lookup(entries: Seq<(Seq<char>, TomlNode)>, key: Seq<char>) -> Option<TomlNode>
    decreases entries.len(),
{
    if entries.len() == 0 {
        None
    } else if entries[0].0 == key {
        Some(entries[0].1)
    } else {
        lookup(entries.drop_first(), key)
    }
}

/// Looking up a key gives what the first entry with that key has, and nothing exactly if
/// no entry has it.
pub proof fn lemma_lookup_finds_the_entry(
    entries: Seq<(Seq<char>, TomlNode)>,
    key: Seq<char>,
    i: int,
)
    ensures
        lookup(entries, key) is None <==> forall|j: int|
            0 <= j < entries.len() ==> (#[trigger] entries[j]).0 != key,
        0 <= i < entries.len() && entries[i].0 == key && (forall|j: int|
            0 <= j < i ==> (#[trigger] entries[j]).0 != key) ==> lookup(entries, key) == Some(
            entries[i].1,
        ),
    decreases entries.len(),
{
    if entries.len() > 0 && entries[0].0 != key {
        let rest = entries.drop_first();
        lemma_lookup_finds_the_entry(rest, key, i - 1);
        assert forall|j: int| 0 <= j < rest.len() implies rest[j] == #[trigger] entries[j + 1] by {}
        if lookup(entries, key) is None {
            assert forall|j: int| 0 <= j < entries.len() implies (#[trigger] entries[j]).0
                != key by {
                if j > 0 {
                    assert(rest[j - 1] == entries[j]);
                }
            }
        }
        if forall|j: int| 0 <= j < entries.len() ==> (#[trigger] entries[j]).0 != key {
            assert forall|j: int| 0 <= j < rest.len() implies (#[trigger] rest[j]).0 != key by {
                assert(rest[j] == entries[j + 1]);
            }
        }
        if 0 <= i < entries.len() && entries[i].0 == key && (forall|j: int|
            0 <= j < i ==> (#[trigger] entries[j]).0 != key) {
            assert(rest[i - 1] == entries[i]);
            assert forall|j: int| 0 <= j < i - 1 implies (#[trigger] rest[j]).0 != key by {
                assert(rest[j] == entries[j + 1]);
            }
        }
    } else if entries.len() > 0 {
        assert(entries[0].0 == key);
    }
}

/// No key occurs twice in the table, nor in any table below it.
pub open spec fn keys_distinct(entries: Seq<(Seq<char>, TomlNode)>) -> bool
    decreases entries,
{
    &&& forall|i: int, j: int| 0 <= i < j < entries.len() ==> entries[i].0 != entries[j].0
    &&& forall|i: int|
        0 <= i < entries.len() ==> match (#[trigger] entries[i]).1 {
            TomlNode::Leaf(_) => true,
            TomlNode::Table(sub) => keys_distinct(sub),
        }
}

/// Calls `toml::map::Map::new`: the new table has no entries.
#[verifier::external_body]
pub(crate) fn new_table() -> (r: toml::Table)
    ensures
        table_entries(r).len() == 0,
{
    toml::Table::new()
}

/// Calls `toml::map::Map::iter` and collects what it yields: one pair for each
/// entry, in iteration order. No key occurs twice, in this table or in one below it.
#[verifier::external_body]
pub(crate) fn entries(table: &toml::Table) -> (r: Vec<(&String, &toml::Value)>)
    ensures
        r@.len() == table_entries(*table).len(),
        forall|i: int|
            #![trigger r@[i]]
            #![trigger table_entries(*table)[i]]
            0 <= i < r@.len() ==> (r@[i].0@, value_node(*r@[i].1)) == table_entries(*table)[i],
        keys_distinct(Seq::new(r@.len(), |i: int| (r@[i].0@, value_node(*r@[i].1)))),
{
    table.iter().collect()
}

/// Calls `toml::map::Map::get`: the value of the entry with this key, if the table
/// has such an entry.
#[verifier::external_body]
pub(crate) fn get<'a>(table: &'a toml::Table, key: &str) -> (r: Option<&'a toml::Value>)
    ensures
        match r {
            Some(value) => lookup(table_entries(*table), key@) == Some(value_node(*value)),
            None => lookup(table_entries(*table), key@) is None,
        },
{
    table.get(key)
}

/// Calls `toml::Value::as_table`: the table, if the value is one.
#[verifier::external_body]
pub(crate) fn as_table(value: &toml::Value) -> (r: Option<&toml::Table>)
    ensures
        match r {
            Some(table) => value_node(*value) == TomlNode::Table(table_entries(*table)),
            None => value_node(*value) == TomlNode::Leaf(*value),
        },
{
    value.as_table()
}

/// Calls the `clone` of `toml::map::Map`: an equal table.
#[verifier::external_body]
pub(crate) fn clone_table(table: &toml::Table) -> (r: toml::Table)
    ensures
        r == *table,
{
    table.clone()
}

} // verus!
