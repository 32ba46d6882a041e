//! Per-ECU communication parameter overrides.

use vstd::prelude::*;
use crate::config::layers::{
    figment_settings, layered_at, layered_settings, lemma_overrides_hold, merge_toml, node_at,
    overrides_hold, reads_back, setting_at, table_text, to_text, toml_settings, value_setting,
    without_reserved_keys, Setting,
};
use crate::text::{concat, join, joined, texts};
use crate::toml_tree::{
    as_table, clone_table, entries, get, keys_distinct, lemma_lookup_finds_the_entry, lookup,
    new_table, table_entries, value_node, TomlNode,
};

verus! {

/// The path of `key` below `prefix`. At the top, where `prefix` is empty, it is the
/// key itself.
pub open spec fn full_path(prefix: Seq<char>, key: Seq<char>) -> Seq<char> {
    if prefix.len() == 0 {
        key
    } else {
        prefix + "."@ + key
    }
}

/// The paths of the keys of `input` that `reference` does not know, in the order of
/// the entries. Where both have a table behind a key, its keys are held against each
/// other in the same way. A known key whose value is not a table on both sides is
/// accepted.
pub open spec fn unknown_keys(
    input: Seq<(Seq<char>, TomlNode)>,
    reference: Seq<(Seq<char>, TomlNode)>,
    prefix: Seq<char>,
) -> Seq<Seq<char>>
    decreases input,
{
    if input.len() == 0 {
        Seq::empty()
    } else {
        let path = full_path(prefix, input.last().0);
        unknown_keys(input.drop_last(), reference, prefix) + match lookup(
            reference,
            input.last().0,
        ) {
            None => seq![path],
            Some(TomlNode::Leaf(_)) => Seq::empty(),
            Some(TomlNode::Table(ref_sub)) => match input.last().1 {
                TomlNode::Leaf(_) => Seq::empty(),
                TomlNode::Table(input_sub) => unknown_keys(input_sub, ref_sub, path),
            },
        }
    }
}

/// `path` leads through keys of `input`, each with a table behind it on both sides, to
/// a key of `input` that `reference` does not have at that place.
pub open spec fn is_unknown_path(
    input: Seq<(Seq<char>, TomlNode)>,
    reference: Seq<(Seq<char>, TomlNode)>,
    path: Seq<Seq<char>>,
) -> bool
    decreases path.len(), 1int,
{
    path.len() > 0 && exists|i: int|
        0 <= i < input.len() && (#[trigger] input[i]).0 == path[0] && goes_unknown(
            input[i].1,
            reference,
            path,
        )
}

/// From the key that `path` starts with, and that has `node` behind it, the path leads
/// to a key that `reference` does not have at that place.
pub open spec fn goes_unknown(
    node: TomlNode,
    reference: Seq<(Seq<char>, TomlNode)>,
    path: Seq<Seq<char>>,
) -> bool
    decreases path.len(), 0int,
{
    path.len() > 0 && match lookup(reference, path[0]) {
        None => path.len() == 1,
        Some(TomlNode::Leaf(_)) => false,
        Some(TomlNode::Table(ref_sub)) => match node {
            TomlNode::Leaf(_) => false,
            TomlNode::Table(input_sub) => is_unknown_path(input_sub, ref_sub, path.drop_first()),
        },
    }
}

/// A path below `prefix` as it is written in messages.
pub open spec fn dotted(prefix: Seq<char>, path: Seq<Seq<char>>) -> Seq<char>
    decreases path.len(),
{
    if path.len() == 0 {
        prefix
    } else {
        dotted(full_path(prefix, path[0]), path.drop_first())
    }
}

proof fn lemma_unknown_path_of_prefix(
    input: Seq<(Seq<char>, TomlNode)>,
    reference: Seq<(Seq<char>, TomlNode)>,
    path: Seq<Seq<char>>,
)
    requires
        input.len() > 0,
        is_unknown_path(input.drop_last(), reference, path),
    ensures
        is_unknown_path(input, reference, path),
{
    let shorter = input.drop_last();
    let i = choose|i: int|
        0 <= i < shorter.len() && (#[trigger] shorter[i]).0 == path[0] && goes_unknown(
            shorter[i].1,
            reference,
            path,
        );
    assert(input[i] == shorter[i]);
}

/// Every key that is reported is unknown to the reference: it ends a path that the
/// reference does not have.
pub proof fn lemma_reported_keys_are_unknown(
    input: Seq<(Seq<char>, TomlNode)>,
    reference: Seq<(Seq<char>, TomlNode)>,
    prefix: Seq<char>,
    reported: Seq<char>,
)
    requires
        unknown_keys(input, reference, prefix).contains(reported),
    ensures
        exists|path: Seq<Seq<char>>|
            is_unknown_path(input, reference, path) && #[trigger] dotted(prefix, path) == reported,
    decreases input,
{
    if input.len() > 0 {
        let before = unknown_keys(input.drop_last(), reference, prefix);
        let key = input.last().0;
        let full = full_path(prefix, key);
        if before.contains(reported) {
            lemma_reported_keys_are_unknown(input.drop_last(), reference, prefix, reported);
            let path = choose|path: Seq<Seq<char>>|
                is_unknown_path(input.drop_last(), reference, path) && #[trigger] dotted(
                    prefix,
                    path,
                ) == reported;
            lemma_unknown_path_of_prefix(input, reference, path);
        } else {
            let all = unknown_keys(input, reference, prefix);
            let at = choose|k: int| 0 <= k < all.len() && all[k] == reported;
            if at < before.len() {
                assert(before[at] == reported);
            }
            match lookup(reference, key) {
                None => {
                    let path = seq![key];
                    assert(all[at] == full);
                    assert(path.drop_first() =~= Seq::empty());
                    assert(dotted(full, path.drop_first()) == full);
                    assert(dotted(prefix, path) == reported);
                    assert(input[input.len() - 1].0 == path[0]);
                    assert(is_unknown_path(input, reference, path));
                },
                Some(TomlNode::Leaf(_)) => {},
                Some(TomlNode::Table(ref_sub)) => match input.last().1 {
                    TomlNode::Leaf(_) => {},
                    TomlNode::Table(input_sub) => {
                        let below = unknown_keys(input_sub, ref_sub, full);
                        assert(below[at - before.len()] == reported);
                        lemma_reported_keys_are_unknown(input_sub, ref_sub, full, reported);
                        let tail = choose|path: Seq<Seq<char>>|
                            is_unknown_path(input_sub, ref_sub, path) && #[trigger] dotted(
                                full,
                                path,
                            ) == reported;
                        let path = seq![key] + tail;
                        assert(path.drop_first() =~= tail);
                        assert(dotted(prefix, path) == reported);
                        assert(input[input.len() - 1].0 == path[0]);
                        assert(is_unknown_path(input, reference, path));
                    },
                },
            }
        }
    }
}

/// Every unknown key is reported: a path that the reference does not have is in the
/// list.
pub proof fn lemma_unknown_keys_are_reported(
    input: Seq<(Seq<char>, TomlNode)>,
    reference: Seq<(Seq<char>, TomlNode)>,
    prefix: Seq<char>,
    path: Seq<Seq<char>>,
)
    requires
        is_unknown_path(input, reference, path),
    ensures
        unknown_keys(input, reference, prefix).contains(dotted(prefix, path)),
    decreases input,
{
    let i = choose|i: int|
        0 <= i < input.len() && (#[trigger] input[i]).0 == path[0] && goes_unknown(
            input[i].1,
            reference,
            path,
        );
    let all = unknown_keys(input, reference, prefix);
    let before = unknown_keys(input.drop_last(), reference, prefix);
    let reported = dotted(prefix, path);
    if i < input.len() - 1 {
        assert(input.drop_last()[i] == input[i]);
        assert(is_unknown_path(input.drop_last(), reference, path));
        lemma_unknown_keys_are_reported(input.drop_last(), reference, prefix, path);
        let at = choose|k: int| 0 <= k < before.len() && before[k] == reported;
        assert(all[at] == reported);
    } else {
        let full = full_path(prefix, path[0]);
        assert(input.last() == input[i]);
        match lookup(reference, path[0]) {
            None => {
                assert(path.drop_first() =~= Seq::empty());
                assert(dotted(full, path.drop_first()) == full);
                assert(all[before.len() as int] == full);
            },
            Some(TomlNode::Leaf(_)) => {},
            Some(TomlNode::Table(ref_sub)) => match input[i].1 {
                TomlNode::Leaf(_) => {},
                TomlNode::Table(input_sub) => {
                    let below = unknown_keys(input_sub, ref_sub, full);
                    lemma_unknown_keys_are_reported(input_sub, ref_sub, full, path.drop_first());
                    let at = choose|k: int| 0 <= k < below.len() && below[k] == reported;
                    assert(all[before.len() + at] == reported);
                },
            },
        }
    }
}

proof fn lemma_lookup_of_entry(entries: Seq<(Seq<char>, TomlNode)>, i: int)
    requires
        0 <= i < entries.len(),
        forall|i: int, j: int| 0 <= i < j < entries.len() ==> entries[i].0 != entries[j].0,
    ensures
        lookup(entries, entries[i].0) == Some(entries[i].1),
    decreases entries.len(),
{
    if i > 0 {
        let rest = entries.drop_first();
        assert(rest[i - 1] == entries[i]);
        lemma_lookup_of_entry(rest, i - 1);
    }
}

proof fn lemma_part_of_reference_is_known(
    input: Seq<(Seq<char>, TomlNode)>,
    reference: Seq<(Seq<char>, TomlNode)>,
    prefix: Seq<char>,
)
    requires
        keys_distinct(reference),
        forall|i: int| 0 <= i < input.len() ==> reference.contains(#[trigger] input[i]),
    ensures
        unknown_keys(input, reference, prefix).len() == 0,
    decreases input,
{
    if input.len() > 0 {
        let shorter = input.drop_last();
        assert forall|i: int| 0 <= i < shorter.len() implies reference.contains(
            #[trigger] shorter[i],
        ) by {
            assert(shorter[i] == input[i]);
        }
        lemma_part_of_reference_is_known(shorter, reference, prefix);
        let last = input[input.len() - 1];
        assert(reference.contains(last));
        let at = choose|k: int| 0 <= k < reference.len() && reference[k] == last;
        lemma_lookup_of_entry(reference, at);
        match last.1 {
            TomlNode::Leaf(_) => {},
            TomlNode::Table(sub) => {
                assert(keys_distinct(sub));
                assert forall|i: int| 0 <= i < sub.len() implies sub.contains(
                    #[trigger] sub[i],
                ) by {}
                lemma_part_of_reference_is_known(sub, sub, full_path(prefix, last.0));
            },
        }
    }
}

/// A table has no keys that are unknown to itself.
pub proof fn lemma_own_keys_are_known(entries: Seq<(Seq<char>, TomlNode)>, prefix: Seq<char>)
    requires
        keys_distinct(entries),
    ensures
        unknown_keys(entries, entries, prefix).len() == 0,
{
    assert forall|i: int| 0 <= i < entries.len() implies entries.contains(
        #[trigger] entries[i],
    ) by {}
    lemma_part_of_reference_is_known(entries, entries, prefix);
}

/// Each entry is judged by itself: what is unknown of two lists of entries is what is
/// unknown of the first, and then what is unknown of the second.
pub proof fn lemma_entries_are_judged_one_by_one(
    a: Seq<(Seq<char>, TomlNode)>,
    b: Seq<(Seq<char>, TomlNode)>,
    reference: Seq<(Seq<char>, TomlNode)>,
    prefix: Seq<char>,
)
    ensures
        unknown_keys(Seq::empty(), reference, prefix) == Seq::<Seq<char>>::empty(),
        unknown_keys(a + b, reference, prefix) == unknown_keys(a, reference, prefix)
            + unknown_keys(b, reference, prefix),
    decreases b.len(),
{
    if b.len() == 0 {
        assert(a + b =~= a);
        assert(unknown_keys(a, reference, prefix) + unknown_keys(b, reference, prefix)
            =~= unknown_keys(a, reference, prefix));
    } else {
        lemma_entries_are_judged_one_by_one(a, b.drop_last(), reference, prefix);
        assert((a + b).drop_last() =~= a + b.drop_last());
        assert((a + b).last() == b.last());
        assert(unknown_keys(a + b, reference, prefix) =~= unknown_keys(a, reference, prefix)
            + unknown_keys(b, reference, prefix));
    }
}

/// How one entry is judged. A key that the reference does not have is reported, after the
/// prefix and a dot where there is a prefix. A key that the reference has is not; where
/// both have a table behind it, what is unknown of that table is reported, below the key.
pub proof fn lemma_judgement_of_one_entry(
    key: Seq<char>,
    node: TomlNode,
    reference: Seq<(Seq<char>, TomlNode)>,
    prefix: Seq<char>,
    at: int,
)
    ensures
        (forall|j: int| 0 <= j < reference.len() ==> (#[trigger] reference[j]).0 != key)
            ==> unknown_keys(seq![(key, node)], reference, prefix) == seq![
            if prefix.len() == 0 {
                key
            } else {
                prefix + seq!['.'] + key
            },
        ],
        0 <= at < reference.len() && reference[at].0 == key && (forall|j: int|
            0 <= j < at ==> (#[trigger] reference[j]).0 != key) ==> unknown_keys(
            seq![(key, node)],
            reference,
            prefix,
        ) == if node is Table && reference[at].1 is Table {
            unknown_keys(
                node->Table_0,
                reference[at].1->Table_0,
                if prefix.len() == 0 {
                    key
                } else {
                    prefix + seq!['.'] + key
                },
            )
        } else {
            Seq::empty()
        },
{
    reveal_strlit(".");
    assert("."@ =~= seq!['.']);
    lemma_lookup_finds_the_entry(reference, key, at);
    let one = seq![(key, node)];
    assert(one.drop_last() =~= Seq::<(Seq<char>, TomlNode)>::empty());
    assert(unknown_keys(one.drop_last(), reference, prefix) == Seq::<Seq<char>>::empty());
    assert(one.last() == (key, node));
    let below = unknown_keys(one, reference, prefix);
    if lookup(reference, key) is None {
        assert(below =~= seq![full_path(prefix, key)]);
    } else if node is Table && lookup(reference, key)->0 is Table {
        assert(below =~= unknown_keys(
            node->Table_0,
            lookup(reference, key)->0->Table_0,
            full_path(prefix, key),
        ));
    } else {
        assert(below =~= Seq::<Seq<char>>::empty());
    }
}

/// Every key of `input` is a key of `reference`, and wherever both have a table behind a
/// key, the same holds of these tables.
pub open spec fn covered(
    input: Seq<(Seq<char>, TomlNode)>,
    reference: Seq<(Seq<char>, TomlNode)>,
) -> bool
    decreases input,
{
    forall|i: int|
        0 <= i < input.len() ==> match lookup(reference, (#[trigger] input[i]).0) {
            None => false,
            Some(TomlNode::Leaf(_)) => true,
            Some(TomlNode::Table(ref_sub)) => match input[i].1 {
                TomlNode::Leaf(_) => true,
                TomlNode::Table(input_sub) => covered(input_sub, ref_sub),
            },
        }
}

/// No key is reported exactly if the reference covers the table.
pub proof fn lemma_nothing_unknown_iff_covered(
    input: Seq<(Seq<char>, TomlNode)>,
    reference: Seq<(Seq<char>, TomlNode)>,
    prefix: Seq<char>,
)
    ensures
        unknown_keys(input, reference, prefix).len() == 0 <==> covered(input, reference),
    decreases input,
{
    if input.len() > 0 {
        let shorter = input.drop_last();
        let last = input[input.len() - 1];
        lemma_nothing_unknown_iff_covered(shorter, reference, prefix);
        if let Some(TomlNode::Table(ref_sub)) = lookup(reference, last.0) {
            if let TomlNode::Table(input_sub) = last.1 {
                lemma_nothing_unknown_iff_covered(
                    input_sub,
                    ref_sub,
                    full_path(prefix, last.0),
                );
            }
        }
        if covered(input, reference) {
            assert forall|i: int| 0 <= i < shorter.len() implies match lookup(
                reference,
                (#[trigger] shorter[i]).0,
            ) {
                None => false,
                Some(TomlNode::Leaf(_)) => true,
                Some(TomlNode::Table(ref_sub)) => match shorter[i].1 {
                    TomlNode::Leaf(_) => true,
                    TomlNode::Table(input_sub) => covered(input_sub, ref_sub),
                },
            } by {
                assert(shorter[i] == input[i]);
            }
            assert(covered(shorter, reference));
        }
        if covered(shorter, reference) {
            assert forall|i: int| 0 <= i < shorter.len() implies shorter[i]
                == #[trigger] input[i] by {}
        }
    }
}

/// Lists the keys of `input` that do not occur in `reference`, as dotted paths below
/// `prefix`. A table has no keys that are unknown to itself.
pub fn find_unknown_keys(input: &toml::Table, reference: &toml::Table, prefix: &str) -> (unknown:
    Vec<String>)
    ensures
        texts(unknown@) == unknown_keys(
            table_entries(*input),
            table_entries(*reference),
            prefix@,
        ),
        unknown@.len() == 0 <==> covered(table_entries(*input), table_entries(*reference)),
        table_entries(*input) == table_entries(*reference) ==> unknown@.len() == 0,
    decreases table_entries(*input),
{
    let mut unknown: Vec<String> = Vec::new();
    let all = entries(input);
    let ghost nodes = table_entries(*input);
    assert(keys_distinct(nodes)) by {
        assert(nodes =~= Seq::new(
            all@.len(),
            |i: int| (all@[i].0@, value_node(*all@[i].1)),
        ));
    }
    let mut i: usize = 0;
    assert(nodes.take(0) =~= Seq::empty());
    while i < all.len()
        invariant
            i <= all.len(),
            nodes == table_entries(*input),
            all@.len() == nodes.len(),
            keys_distinct(nodes),
            forall|j: int|
                #![trigger all@[j]]
                0 <= j < all@.len() ==> (all@[j].0@, value_node(*all@[j].1)) == nodes[j],
            texts(unknown@) == unknown_keys(
                nodes.take(i as int),
                table_entries(*reference),
                prefix@,
            ),
        decreases all.len() - i,
    {
        let key: &String = all[i].0;
        let value: &toml::Value = all[i].1;
        let ghost seen = texts(unknown@);
        let ghost next = nodes.take(i + 1);
        assert(next.drop_last() =~= nodes.take(i as int));
        assert(next.last() == nodes[i as int]);
        let full: String = if prefix.is_empty() {
            key.clone()
        } else {
            concat(concat(prefix, ".").as_str(), key.as_str())
        };
        match get(reference, key.as_str()) {
            None => {
                unknown.push(full);
                assert(texts(unknown@) =~= seen.push(full@));
            },
            Some(ref_value) => {
                match (as_table(value), as_table(ref_value)) {
                    (Some(input_sub), Some(ref_sub)) => {
                        assert(nodes[i as int].1 == TomlNode::Table(table_entries(*input_sub)));
                        assert(decreases_to!(nodes => nodes[i as int]));
                        assert(decreases_to!(nodes[i as int] => nodes[i as int].1));
                        assert(decreases_to!(nodes[i as int].1 => nodes[i as int].1->Table_0));
                        let mut below = find_unknown_keys(input_sub, ref_sub, full.as_str());
                        let ghost added = texts(below@);
                        unknown.append(&mut below);
                        assert(texts(unknown@) =~= seen + added);
                    },
                    _ => {},
                }
            },
        }
        assert(texts(unknown@) =~= unknown_keys(next, table_entries(*reference), prefix@));
        i = i + 1;
    }
    assert(nodes.take(all.len() as int) =~= nodes);
    proof {
        assert(texts(unknown@).len() == unknown@.len());
        lemma_nothing_unknown_iff_covered(nodes, table_entries(*reference), prefix@);
        if nodes == table_entries(*reference) {
            lemma_own_keys_are_known(nodes, prefix@);
        }
    }
    unknown
}

/// Per-ECU communication parameter overrides.
///
/// Holds only the keys that were written explicitly, so that they can be layered on
/// top of the global communication parameters.
#[derive(Debug)]
pub struct EcuComParams(pub toml::Table);

/// Why a table of overrides is rejected.
#[derive(Debug)]
pub enum EcuComParamsError {
    /// Writing the table, layering it over the defaults, reading the parameters or
    /// serialising them failed, with this text.
    Rejected(String),
    /// The parameters do not serialise to a table.
    NotATable,
    /// These keys are not communication parameters.
    UnknownFields(Vec<String>),
}

impl EcuComParamsError {
    /// What the error reads as.
    pub open spec fn text(self) -> Seq<char> {
        match self {
            EcuComParamsError::Rejected(text) => text@,
            EcuComParamsError::NotATable => "Serialized ComParams is not a table"@,
            EcuComParamsError::UnknownFields(list) =>
                "unknown com_param field(s) (possible typo): "@ + joined(texts(list@), ", "@),
        }
    }

    /// The message for the user. For unknown keys it names each of them.
    pub fn message(&self) -> (r: String)
        ensures
            r@ == self.text(),
            self matches EcuComParamsError::Rejected(text) ==> r@ == text@,
            self is NotATable ==> r@ == "Serialized ComParams is not a table"@,
            self matches EcuComParamsError::UnknownFields(list) ==> r@
                == "unknown com_param field(s) (possible typo): "@ + joined(
                texts(list@),
                seq![',', ' '],
            ),
    {
        proof {
            reveal_strlit(", ");
            assert(", "@ =~= seq![',', ' ']);
        }
        match self {
            EcuComParamsError::Rejected(text) => text.clone(),
            EcuComParamsError::NotATable => "Serialized ComParams is not a table".to_owned(),
            EcuComParamsError::UnknownFields(list) => concat(
                "unknown com_param field(s) (possible typo): ",
                join(list, ", ").as_str(),
            ),
        }
    }
}

impl Clone for EcuComParams {
    fn clone(&self) -> (r: Self)
        ensures
            r == *self,
    {
        EcuComParams(clone_table(&self.0))
    }
}

impl Default for EcuComParams {
    /// No overrides.
    fn default() -> (r: Self)
        ensures
            table_entries(r.0).len() == 0,
    {
        EcuComParams(new_table())
    }
}

impl EcuComParams {
    /// Overrides that set every parameter, from the serialised form of fully typed
    /// parameters.
    ///
    /// Fails with the text of the error where serialising failed, and where the
    /// serialised form is not a table.
    pub fn try_from(serialized: Result<toml::Value, String>) -> (r: Result<
        EcuComParams,
        EcuComParamsError,
    >)
        ensures
            match serialized {
                Err(text) => r == Err::<EcuComParams, _>(EcuComParamsError::Rejected(text)),
                Ok(value) => match value_node(value) {
                    TomlNode::Leaf(_) => r == Err::<EcuComParams, _>(EcuComParamsError::NotATable),
                    TomlNode::Table(set) => r matches Ok(params) && table_entries(params.0) == set,
                },
            },
    {
        let value = match serialized {
            Err(text) => return Err(EcuComParamsError::Rejected(text)),
            Ok(value) => value,
        };
        match as_table(&value) {
            None => Err(EcuComParamsError::NotATable),
            Some(table) => Ok(EcuComParams(clone_table(table))),
        }
    }

    /// Layers a table of overrides on top of `parameters`. What the table sets replaces
    /// what `parameters` has; the rest stays.
    ///
    /// Fails with the text of the error where the table cannot be written as TOML.
    pub fn layered_over(table: &toml::Table, parameters: figment::Figment) -> (r: Result<
        figment::Figment,
        EcuComParamsError,
    >)
        ensures
            match table_text(table_entries(*table)) {
                Ok(text) => r matches Ok(layers) && figment_settings(layers) == layered_settings(
                    figment_settings(parameters),
                    toml_settings(text),
                ),
                Err(text) => r matches Err(EcuComParamsError::Rejected(error)) && error@ == text,
            },
            r matches Ok(layers) ==> without_reserved_keys(table_entries(*table))
                && figment_settings(layers) is Some ==> overrides_hold(
                table_entries(*table),
                figment_settings(parameters)->0,
                figment_settings(layers)->0,
            ),
    {
        match to_text(table) {
            Ok(text) => {
                let layers = merge_toml(parameters, text.as_str());
                proof {
                    if without_reserved_keys(table_entries(*table)) && figment_settings(
                        layers,
                    ) is Some {
                        assert(reads_back(
                            table_entries(*table),
                            toml_settings(text@)->0,
                            |value: toml::Value| value_setting(value),
                        ));
                        lemma_overrides_hold(
                            table_entries(*table),
                            toml_settings(text@)->0,
                            figment_settings(parameters)->0,
                            figment_settings(layers)->0,
                        );
                    }
                }
                Ok(layers)
            },
            Err(text) => Err(EcuComParamsError::Rejected(text)),
        }
    }

    /// `r` is what becomes of a table of overrides, by what came of its round trip.
    pub open spec fn decided_by(
        table: toml::Table,
        round_trip: Result<toml::Value, String>,
        r: Result<EcuComParams, EcuComParamsError>,
    ) -> bool {
        match round_trip {
            Err(text) => r == Err::<EcuComParams, _>(EcuComParamsError::Rejected(text)),
            Ok(value) => match value_node(value) {
                TomlNode::Leaf(_) => r == Err::<EcuComParams, _>(EcuComParamsError::NotATable),
                TomlNode::Table(reference) => {
                    let unknown = unknown_keys(table_entries(table), reference, Seq::empty());
                    if unknown.len() == 0 {
                        r == Ok::<_, EcuComParamsError>(EcuComParams(table))
                    } else {
                        r matches Err(EcuComParamsError::UnknownFields(list)) && texts(list@)
                            == unknown
                    }
                },
            },
        }
    }

    /// Accepts a table of overrides, or rejects it. The table is layered over
    /// `defaults`; `read` reads the result as typed parameters and serialises those
    /// again.
    pub fn checked<R>(table: toml::Table, defaults: figment::Figment, read: R) -> (r: Result<
        EcuComParams,
        EcuComParamsError,
    >) where R: FnOnce(figment::Figment) -> Result<toml::Value, String>
        requires
            forall|layers: figment::Figment| call_requires(read, (layers,)),
        ensures
            match table_text(table_entries(table)) {
                Err(text) => r matches Err(EcuComParamsError::Rejected(error)) && error@ == text,
                Ok(text) => exists|
                    layers: figment::Figment,
                    round_trip: Result<toml::Value, String>,
                |
                    {
                        &&& figment_settings(layers) == layered_settings(
                            figment_settings(defaults),
                            toml_settings(text),
                        )
                        &&& #[trigger] call_ensures(read, (layers,), round_trip)
                        &&& EcuComParams::decided_by(table, round_trip, r)
                        &&& r is Ok <==> (round_trip matches Ok(value) && value_node(value) is Table
                            && covered(table_entries(table), value_node(value)->Table_0))
                        &&& r matches Ok(params) ==> params.0 == table
                        &&& round_trip matches Err(cause) ==> r == Err::<EcuComParams, _>(
                            EcuComParamsError::Rejected(cause),
                        )
                        &&& round_trip matches Ok(value) ==> value_node(value) is Table ==> (r is Ok
                            <==> forall|path: Seq<Seq<char>>|
                            !#[trigger] is_unknown_path(
                                table_entries(table),
                                value_node(value)->Table_0,
                                path,
                            ))
                    },
            },
    {
        match EcuComParams::layered_over(&table, defaults) {
            Err(error) => Err(error),
            Ok(layers) => {
                let round_trip = read(layers);
                EcuComParams::validated(table, round_trip)
            },
        }
    }

    /// Accepts a table of overrides, or rejects it.
    ///
    /// `round_trip` is what came of layering the table over the default parameters,
    /// reading the result as typed parameters and serialising those again. A key of
    /// the table that is missing there would be dropped silently when the overrides
    /// are applied, so such a table is rejected, with all such keys named.
    pub fn validated(table: toml::Table, round_trip: Result<toml::Value, String>) -> (r: Result<
        EcuComParams,
        EcuComParamsError,
    >)
        ensures
            EcuComParams::decided_by(table, round_trip, r),
            round_trip matches Err(text) ==> r == Err::<EcuComParams, _>(
                EcuComParamsError::Rejected(text),
            ),
            round_trip matches Ok(value) ==> value_node(value) is Leaf ==> r == Err::<
                EcuComParams,
                _,
            >(EcuComParamsError::NotATable),
            r is Ok <==> (round_trip matches Ok(value) && value_node(value) is Table && covered(
                table_entries(table),
                value_node(value)->Table_0,
            )),
            r matches Ok(params) ==> params.0 == table,
            round_trip matches Ok(value) ==> value_node(value) is Table ==> (r is Ok <==> forall|
                path: Seq<Seq<char>>,
            |
                !#[trigger] is_unknown_path(
                    table_entries(table),
                    value_node(value)->Table_0,
                    path,
                )),
            round_trip matches Ok(value) ==> value_node(value) is Table && r is Err ==> (
            r matches Err(EcuComParamsError::UnknownFields(list)) && list@.len() > 0 && (forall|
                path: Seq<Seq<char>>,
            | #[trigger]
                is_unknown_path(table_entries(table), value_node(value)->Table_0, path) ==> texts(
                    list@,
                ).contains(dotted(Seq::empty(), path))) && texts(list@) == unknown_keys(
                table_entries(table),
                value_node(value)->Table_0,
                Seq::empty(),
            )),
    {
        proof {
            reveal_strlit("");
            assert(""@ =~= Seq::<char>::empty());
        }
        let value = match round_trip {
            Err(text) => return Err(EcuComParamsError::Rejected(text)),
            Ok(value) => value,
        };
        let reference = match as_table(&value) {
            None => return Err(EcuComParamsError::NotATable),
            Some(reference) => reference,
        };
        let unknown = find_unknown_keys(&table, reference, "");
        proof {
            assert(texts(unknown@).len() == unknown@.len());
            lemma_accepted_iff_nothing_unknown(
                table_entries(table),
                table_entries(*reference),
            );
        }
        if unknown.len() > 0 {
            return Err(EcuComParamsError::UnknownFields(unknown));
        }
        Ok(EcuComParams(table))
    }
}

/// Nothing is reported exactly if the reference covers the table, and exactly if no path
/// of the table leads to a key that the reference does not have. Every such path is
/// reported.
pub proof fn lemma_accepted_iff_nothing_unknown(
    input: Seq<(Seq<char>, TomlNode)>,
    reference: Seq<(Seq<char>, TomlNode)>,
)
    ensures
        unknown_keys(input, reference, Seq::empty()).len() == 0 <==> covered(input, reference),
        covered(input, reference) <==> forall|path: Seq<Seq<char>>|
            !#[trigger] is_unknown_path(input, reference, path),
        forall|path: Seq<Seq<char>>| #[trigger]
            is_unknown_path(input, reference, path) ==> unknown_keys(
                input,
                reference,
                Seq::empty(),
            ).contains(dotted(Seq::empty(), path)),
{
    let unknown = unknown_keys(input, reference, Seq::empty());
    lemma_nothing_unknown_iff_covered(input, reference, Seq::empty());
    assert forall|path: Seq<Seq<char>>| #[trigger]
        is_unknown_path(input, reference, path) implies unknown.contains(
        dotted(Seq::empty(), path),
    ) by {
        lemma_unknown_keys_are_reported(input, reference, Seq::empty(), path);
    }
    if unknown.len() > 0 {
        assert(unknown.contains(unknown[0]));
        lemma_reported_keys_are_unknown(input, reference, Seq::empty(), unknown[0]);
    } else {
        assert forall|path: Seq<Seq<char>>|
            !#[trigger] is_unknown_path(input, reference, path) by {
            if is_unknown_path(input, reference, path) {
                assert(unknown.contains(dotted(Seq::empty(), path)));
            }
        }
    }
}

/// A table of overrides is accepted exactly if the parameters that were read cover it, and
/// is accepted as it is. Otherwise every key that would be dropped is named.
pub proof fn lemma_typos_are_rejected(
    table: toml::Table,
    round_trip: Result<toml::Value, String>,
    r: Result<EcuComParams, EcuComParamsError>,
)
    requires
        EcuComParams::decided_by(table, round_trip, r),
    ensures
        round_trip matches Err(text) ==> r == Err::<EcuComParams, _>(
            EcuComParamsError::Rejected(text),
        ),
        round_trip matches Ok(value) ==> value_node(value) is Leaf ==> r == Err::<EcuComParams, _>(
            EcuComParamsError::NotATable,
        ),
        r is Ok <==> (round_trip matches Ok(value) && value_node(value) is Table && covered(
            table_entries(table),
            value_node(value)->Table_0,
        )),
        r matches Ok(params) ==> params.0 == table,
        round_trip matches Ok(value) ==> value_node(value) is Table ==> (r is Ok <==> forall|
            path: Seq<Seq<char>>,
        |
            !#[trigger] is_unknown_path(table_entries(table), value_node(value)->Table_0, path)),
        round_trip matches Ok(value) ==> value_node(value) is Table && r is Err ==> (
        r matches Err(EcuComParamsError::UnknownFields(list)) && list@.len() > 0 && (forall|
            path: Seq<Seq<char>>,
        | #[trigger]
            is_unknown_path(table_entries(table), value_node(value)->Table_0, path) ==> texts(
                list@,
            ).contains(dotted(Seq::empty(), path))) && texts(list@) == unknown_keys(
            table_entries(table),
            value_node(value)->Table_0,
            Seq::empty(),
        )),
{
    if round_trip is Ok && value_node(round_trip->Ok_0) is Table {
        lemma_accepted_iff_nothing_unknown(
            table_entries(table),
            value_node(round_trip->Ok_0)->Table_0,
        );
        if let Err(EcuComParamsError::UnknownFields(list)) = r {
            assert(texts(list@).len() == list@.len());
        }
    }
}

/// Overrides made of fully typed parameters set every one of them: whatever the global
/// parameters are, each value that the parameters serialise to holds once the overrides
/// are layered over the global ones. `params` are the overrides, and `effective` what
/// layering them over `global` gives. Only a value that is read back as a section, where
/// the global parameters have a section too, is united with that.
pub proof fn lemma_typed_overrides_hold(
    serialized: toml::Value,
    params: EcuComParams,
    global: Map<Seq<char>, Setting>,
    effective: Map<Seq<char>, Setting>,
    path: Seq<Seq<char>>,
    value: toml::Value,
)
    requires
        value_node(serialized) == TomlNode::Table(table_entries(params.0)),
        overrides_hold(table_entries(params.0), global, effective),
        node_at(value_node(serialized)->Table_0, path) == Some(TomlNode::Leaf(value)),
    ensures
        setting_at(Setting::Section(effective), path) == Some(
            layered_at(setting_at(Setting::Section(global), path), value_setting(value)),
        ),
        !(setting_at(Setting::Section(global), path) matches Some(Setting::Section(_)))
            || value_setting(value) is Plain ==> setting_at(Setting::Section(effective), path)
            == Some(value_setting(value)),
{
}

} // verus!
