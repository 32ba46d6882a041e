//! Layers of settings: overrides on top of the values that hold otherwise.

use figment::providers::Format;
use vstd::prelude::*;
use crate::toml_tree::{lookup, table_entries, TomlNode};

verus! {

/// Declares `figment::Figment`. Nothing is said of its fields.
#[verifier::external_type_specification]
#[verifier::external_body]
pub struct ExFigment(figment::Figment);

/// Declares `figment::value::Value`. Nothing is said of its variants.
#[verifier::external_type_specification]
#[verifier::external_body]
pub struct ExFigmentValue(figment::value::Value);

/// What is set for a key: a section with settings of its own, or a value that is not a
/// section.
pub enum Setting {
    Plain(figment::value::Value),
    Section(Map<Seq<char>, Setting>),
}

/// The settings that a figment holds in its default profile, without the tags that say
/// where each of them came from. There are none if one of its providers failed.
pub uninterp spec fn figment_settings(figment: figment::Figment) -> Option<
    Map<Seq<char>, Setting>,
>;

/// The settings that the TOML provider of `figment` reads from a text, without tags, if
/// it can read the text.
pub uninterp spec fn toml_settings(text: Seq<char>) -> Option<Map<Seq<char>, Setting>>;

/// The text that `toml::to_string` gives for a table with these entries, or the text of
/// its error.
pub uninterp spec fn table_text(entries: Seq<(Seq<char>, TomlNode)>) -> Result<
    Seq<char>,
    Seq<char>,
>;

/// The setting that the TOML provider of `figment` reads, without tags, where
/// `toml::to_string` wrote a value that is not a table.
pub uninterp spec fn value_setting(value: toml::Value) -> Setting;

/// The keys that `figment` keeps for itself: a dictionary with one of them is not read
/// as a section.
pub open spec fn is_reserved(key: Seq<char>) -> bool {
    key == "___figment_value_id"@ || key == "___figment_value_value"@
}

/// The table has no reserved key, nor has any table below it.
pub open spec fn without_reserved_keys(entries: Seq<(Seq<char>, TomlNode)>) -> bool
    decreases entries,
{
    forall|i: int|
        0 <= i < entries.len() ==> !is_reserved((#[trigger] entries[i]).0) && match entries[i].1 {
            TomlNode::Leaf(_) => true,
            TomlNode::Table(sub) => without_reserved_keys(sub),
        }
}

/// Calls `toml::to_string`: the text of the table, or the error written as text. Where
/// the TOML provider of `figment` can read the text, it reads a setting where the table
/// has a value, and none where the table has nothing; reserved keys are left aside. Which
/// text or error a given table has, which texts the provider can read, and what it reads
/// for a value is left unsaid.
#[verifier::external_body]
pub(crate) fn to_text(table: &toml::Table) -> (r: Result<String, String>)
    ensures
        match r {
            Ok(text) => table_text(table_entries(*table)) == Ok::<Seq<char>, Seq<char>>(text@),
            Err(error) => table_text(table_entries(*table)) == Err::<Seq<char>, Seq<char>>(
                error@,
            ),
        },
        r matches Ok(text) ==> without_reserved_keys(table_entries(*table)) ==> (toml_settings(
            text@,
        ) matches Some(settings) ==> reads_back(
            table_entries(*table),
            settings,
            |value: toml::Value| value_setting(value),
        )),
{
    toml::to_string(table).map_err(|e| e.to_string())
}

/// One setting on top of another. Two sections are united, key by key; otherwise the
/// upper setting replaces the lower one.
pub open spec fn layered(lower: Setting, upper: Setting) -> Setting
    decreases upper,
{
    match (lower, upper) {
        (Setting::Section(below), Setting::Section(above)) => Setting::Section(
            Map::new(
                |key: Seq<char>| below.contains_key(key) || above.contains_key(key),
                |key: Seq<char>|
                    if !above.contains_key(key) {
                        below[key]
                    } else if !below.contains_key(key) {
                        above[key]
                    } else {
                        layered(below[key], above[key])
                    },
            ),
        ),
        _ => upper,
    }
}

/// All settings of one layer on top of those of another. If one of the layers could not
/// be read, there are none.
pub open spec fn layered_settings(
    lower: Option<Map<Seq<char>, Setting>>,
    upper: Option<Map<Seq<char>, Setting>>,
) -> Option<Map<Seq<char>, Setting>> {
    match (lower, upper) {
        (Some(below), Some(above)) => Some(
            layered(Setting::Section(below), Setting::Section(above))->Section_0,
        ),
        _ => None,
    }
}

/// Calls `figment::Figment::merge` with the provider that
/// `figment::providers::Toml::string` makes of the text: dictionaries are united and
/// merged key by key, any other value is replaced by the incoming one. Which settings
/// a given text holds, and the tags, are left unsaid.
#[verifier::external_body]
pub(crate) fn merge_toml(figment: figment::Figment, text: &str) -> (r: figment::Figment)
    ensures
        figment_settings(r) == layered_settings(figment_settings(figment), toml_settings(text@)),
{
    figment.merge(figment::providers::Toml::string(text))
}

/// What is set at the end of a path of keys.
pub open spec fn setting_at(setting: Setting, path: Seq<Seq<char>>) -> Option<Setting>
    decreases path.len(),
{
    if path.len() == 0 {
        Some(setting)
    } else {
        match setting {
            Setting::Plain(_) => None,
            Setting::Section(settings) => if settings.contains_key(path[0]) {
                setting_at(settings[path[0]], path.drop_first())
            } else {
                None
            },
        }
    }
}

/// A layer sets nothing at a path: it has no key of the path at the place where it
/// leaves the sections of the layer.
pub open spec fn leaves_unset(layer: Setting, path: Seq<Seq<char>>) -> bool
    decreases path.len(),
{
    path.len() > 0 && match layer {
        Setting::Plain(_) => false,
        Setting::Section(settings) => settings.contains_key(path[0]) ==> leaves_unset(
            settings[path[0]],
            path.drop_first(),
        ),
    }
}

/// A value that the upper layer sets is what holds.
pub proof fn lemma_set_value_overrides(
    lower: Setting,
    upper: Setting,
    path: Seq<Seq<char>>,
    value: figment::value::Value,
)
    requires
        setting_at(upper, path) == Some(Setting::Plain(value)),
    ensures
        setting_at(layered(lower, upper), path) == Some(Setting::Plain(value)),
{
    lemma_layered_at_path(lower, upper, path, Setting::Plain(value));
}

proof fn lemma_nothing_at_unset_path(layer: Setting, path: Seq<Seq<char>>)
    requires
        leaves_unset(layer, path),
    ensures
        setting_at(layer, path) is None,
    decreases path.len(),
{
    if let Setting::Section(settings) = layer {
        if settings.contains_key(path[0]) {
            lemma_nothing_at_unset_path(settings[path[0]], path.drop_first());
        }
    }
}

/// What the upper layer leaves unset stays as the lower layer has it.
pub proof fn lemma_unset_value_is_retained(lower: Setting, upper: Setting, path: Seq<Seq<char>>)
    requires
        leaves_unset(upper, path),
    ensures
        setting_at(layered(lower, upper), path) == setting_at(lower, path),
    decreases path.len(),
{
    lemma_nothing_at_unset_path(upper, path);
    if let (Setting::Section(below), Setting::Section(above)) = (lower, upper) {
        if below.contains_key(path[0]) && above.contains_key(path[0]) {
            lemma_unset_value_is_retained(below[path[0]], above[path[0]], path.drop_first());
        }
    }
}

/// What a table has at the end of a path of keys.
pub open spec fn node_at(
    entries: Seq<(Seq<char>, TomlNode)>,
    path: Seq<Seq<char>>,
) -> Option<TomlNode>
    decreases path.len(),
{
    if path.len() == 0 {
        None
    } else {
        match lookup(entries, path[0]) {
            Some(TomlNode::Table(sub)) if path.len() > 1 => node_at(sub, path.drop_first()),
            Some(TomlNode::Leaf(_)) if path.len() > 1 => None,
            node => node,
        }
    }
}

/// A table has nothing at a path: at the place where the path leaves its tables, it has
/// no key of the path.
pub open spec fn table_leaves_unset(
    entries: Seq<(Seq<char>, TomlNode)>,
    path: Seq<Seq<char>>,
) -> bool
    decreases path.len(),
{
    path.len() > 0 && match lookup(entries, path[0]) {
        None => true,
        Some(TomlNode::Leaf(_)) => false,
        Some(TomlNode::Table(sub)) => table_leaves_unset(sub, path.drop_first()),
    }
}

/// `settings` are what is read back of a table with these entries: where the table has a
/// value, what `read` gives for it, and nothing where the table has nothing.
pub open spec fn reads_back(
    entries: Seq<(Seq<char>, TomlNode)>,
    settings: Map<Seq<char>, Setting>,
    read: spec_fn(toml::Value) -> Setting,
) -> bool {
    &&& forall|path: Seq<Seq<char>>|
        #[trigger] node_at(entries, path) matches Some(TomlNode::Leaf(value)) ==> setting_at(
            Setting::Section(settings),
            path,
        ) == Some(read(value))
    &&& forall|path: Seq<Seq<char>>| #[trigger]
        table_leaves_unset(entries, path) ==> leaves_unset(Setting::Section(settings), path)
}

/// What holds at a place where `global` has a setting or none, and a layer on top sets
/// `upper`.
pub open spec fn layered_at(global: Option<Setting>, upper: Setting) -> Setting {
    match global {
        Some(lower) => layered(lower, upper),
        None => upper,
    }
}

/// `effective` is what a table of overrides makes of `global`: a value that the table
/// sets holds, and what it leaves unset stays. Only where both are sections, as a date
/// and time is once it is read back, they are united.
pub open spec fn overrides_hold(
    entries: Seq<(Seq<char>, TomlNode)>,
    global: Map<Seq<char>, Setting>,
    effective: Map<Seq<char>, Setting>,
) -> bool {
    &&& forall|path: Seq<Seq<char>>|
        #[trigger] node_at(entries, path) matches Some(TomlNode::Leaf(value)) ==> setting_at(
            Setting::Section(effective),
            path,
        ) == Some(layered_at(setting_at(Setting::Section(global), path), value_setting(value)))
    &&& forall|path: Seq<Seq<char>>| #[trigger]
        table_leaves_unset(entries, path) ==> setting_at(Setting::Section(effective), path)
            == setting_at(Setting::Section(global), path)
}

/// Whatever the upper layer sets at a path is layered over what the lower layer has
/// there.
pub proof fn lemma_layered_at_path(
    lower: Setting,
    upper: Setting,
    path: Seq<Seq<char>>,
    setting: Setting,
)
    requires
        setting_at(upper, path) == Some(setting),
    ensures
        setting_at(layered(lower, upper), path) == Some(
            layered_at(setting_at(lower, path), setting),
        ),
    decreases path.len(),
{
    if path.len() > 0 {
        if let (Setting::Section(below), Setting::Section(above)) = (lower, upper) {
            if below.contains_key(path[0]) {
                lemma_layered_at_path(below[path[0]], above[path[0]], path.drop_first(), setting);
            }
        }
    }
}

/// What a table of overrides sets holds once it is layered over other settings, and what
/// it leaves unset stays as it was there.
pub proof fn lemma_overrides_hold(
    entries: Seq<(Seq<char>, TomlNode)>,
    written: Map<Seq<char>, Setting>,
    global: Map<Seq<char>, Setting>,
    effective: Map<Seq<char>, Setting>,
)
    requires
        reads_back(entries, written, |value: toml::Value| value_setting(value)),
        layered_settings(Some(global), Some(written)) == Some(effective),
    ensures
        overrides_hold(entries, global, effective),
{
    let lower = Setting::Section(global);
    let upper = Setting::Section(written);
    assert(layered(lower, upper) == Setting::Section(effective));
    assert forall|path: Seq<Seq<char>>|
        #[trigger] node_at(entries, path) matches Some(TomlNode::Leaf(value)) implies setting_at(
        Setting::Section(effective),
        path,
    ) == Some(
        layered_at(
            setting_at(Setting::Section(global), path),
            value_setting(node_at(entries, path)->0->Leaf_0),
        ),
    ) by {
        let value = node_at(entries, path)->0->Leaf_0;
        lemma_layered_at_path(lower, upper, path, value_setting(value));
    }
    assert forall|path: Seq<Seq<char>>| #[trigger]
        table_leaves_unset(entries, path) implies setting_at(Setting::Section(effective), path)
        == setting_at(Setting::Section(global), path) by {
        lemma_unset_value_is_retained(lower, upper, path);
    }
}

/// An empty layer changes nothing.
pub proof fn lemma_empty_layer_changes_nothing(lower: Map<Seq<char>, Setting>)
    ensures
        layered_settings(Some(lower), Some(Map::empty())) == Some(lower),
{
    assert(layered(Setting::Section(lower), Setting::Section(Map::empty()))->Section_0 =~= lower);
}

/// Two sections are united: a key is there if one of them has it, with the setting of the
/// one that has it, and with one setting layered over the other where both have it. A
/// setting that is not a section replaces, and is replaced.
pub proof fn lemma_layers_are_united(lower: Setting, upper: Setting, key: Seq<char>)
    ensures
        lower is Plain || upper is Plain ==> layered(lower, upper) == upper,
        lower is Section && upper is Section ==> {
            let below = lower->Section_0;
            let above = upper->Section_0;
            let all = layered(lower, upper)->Section_0;
            &&& layered(lower, upper) is Section
            &&& all.contains_key(key) <==> below.contains_key(key) || above.contains_key(key)
            &&& above.contains_key(key) && !below.contains_key(key) ==> all[key] == above[key]
            &&& below.contains_key(key) && !above.contains_key(key) ==> all[key] == below[key]
            &&& below.contains_key(key) && above.contains_key(key) ==> all[key] == layered(
                below[key],
                above[key],
            )
        },
{
}

/// All settings of two layers together: there are none if one of the layers could not be
/// read, and otherwise each key is there that one of them has.
pub proof fn lemma_all_settings_are_layered(
    lower: Option<Map<Seq<char>, Setting>>,
    upper: Option<Map<Seq<char>, Setting>>,
    key: Seq<char>,
)
    ensures
        layered_settings(lower, upper) is Some <==> lower is Some && upper is Some,
        layered_settings(lower, upper) matches Some(all) ==> {
            let below = lower->0;
            let above = upper->0;
            &&& all.contains_key(key) <==> below.contains_key(key) || above.contains_key(key)
            &&& !above.contains_key(key) && below.contains_key(key) ==> all[key] == below[key]
            &&& above.contains_key(key) && (!below.contains_key(key) || above[key] is Plain)
                ==> all[key] == above[key]
        },
{
    if lower is Some && upper is Some {
        lemma_layers_are_united(
            Setting::Section(lower->0),
            Setting::Section(upper->0),
            key,
        );
        if lower->0.contains_key(key) && upper->0.contains_key(key) {
            lemma_layers_are_united(lower->0[key], upper->0[key], key);
        }
    }
}

/// A path is followed key by key, through sections.
pub proof fn lemma_paths_are_followed(setting: Setting, key: Seq<char>, rest: Seq<Seq<char>>)
    ensures
        setting_at(setting, Seq::empty()) == Some(setting),
        setting is Plain ==> setting_at(setting, seq![key] + rest) is None,
        setting is Section ==> setting_at(setting, seq![key] + rest)
            == if setting->Section_0.contains_key(key) {
            setting_at(setting->Section_0[key], rest)
        } else {
            None
        },
{
    assert((seq![key] + rest).drop_first() =~= rest);
    assert((seq![key] + rest)[0] == key);
}

} // verus!
