//! The settings that the index is to have, and the calls that give them to
//! it.

use vstd::prelude::*;
use vstd::string::*;

verus! {

/// The attribute by which the documents are keyed, ordered and ranked last.
pub const NUM_ATTRIBUTE: &'static str = "num";

/// The order that puts the newest comic first.
pub const NEWEST_FIRST: &'static str = "num:desc";

/// The views of the texts of `texts`.
pub open spec fn texts_view(texts: Seq<String>) -> Seq<Seq<char>> {
    texts.map_values(|text: String| text@)
}

/// Settings of the index: the ranking rules in their order, and the
/// attributes by which results can be sorted.
#[derive(Debug, Clone, PartialEq, Eq)]
pub struct IndexSettings {
    pub ranking_rules: Vec<String>,
    pub sortable_attributes: Vec<String>,
}

/// [`IndexSettings`] with its texts as sequences of characters.
pub struct IndexSettingsView {
    pub ranking_rules: Seq<Seq<char>>,
    pub sortable_attributes: Seq<Seq<char>>,
}

impl View for IndexSettings {
    type V = IndexSettingsView;

    open spec fn view(&self) -> IndexSettingsView {
        IndexSettingsView {
            ranking_rules: texts_view(self.ranking_rules@),
            sortable_attributes: texts_view(self.sortable_attributes@),
        }
    }
}

/// The settings that every run gives to the index: the engine's own rules
/// in their usual order, then the newest comic first to break ties; results
/// can be sorted by number.
pub open spec fn target_settings() -> IndexSettingsView {
    IndexSettingsView {
        ranking_rules: seq![
            "words"@,
            "typo"@,
            "proximity"@,
            "attribute"@,
            "sort"@,
            "exactness"@,
            NEWEST_FIRST@,
        ],
        sortable_attributes: seq![NUM_ATTRIBUTE@],
    }
}

impl IndexSettings {
    /// The settings that every run gives to the index.
    pub fn target() -> (settings: IndexSettings)
        ensures
            settings@ == target_settings(),
    {
        let ranking_rules = vec![
            String::from_str("words"),
            String::from_str("typo"),
            String::from_str("proximity"),
            String::from_str("attribute"),
            String::from_str("sort"),
            String::from_str("exactness"),
            String::from_str(NEWEST_FIRST),
        ];
        let sortable_attributes = vec![String::from_str(NUM_ATTRIBUTE)];
        assert(texts_view(ranking_rules@) =~= target_settings().ranking_rules);
        assert(texts_view(sortable_attributes@) =~= target_settings().sortable_attributes);
        IndexSettings { ranking_rules, sortable_attributes }
    }
}

/// One change of the index's settings. The engine replaces the setting as a
/// whole, so a call can be repeated without harm.
#[derive(Debug, Clone, PartialEq, Eq)]
pub enum SettingsCall {
    SetRankingRules(Vec<String>),
    SetSortableAttributes(Vec<String>),
}

/// A [`SettingsCall`] with its texts as sequences of characters.
pub enum SettingsCallView {
    SetRankingRules(Seq<Seq<char>>),
    SetSortableAttributes(Seq<Seq<char>>),
}

impl View for SettingsCall {
    type V = SettingsCallView;

    open spec fn view(&self) -> SettingsCallView {
        match *self {
            SettingsCall::SetRankingRules(rules) => SettingsCallView::SetRankingRules(
                texts_view(rules@),
            ),
            SettingsCall::SetSortableAttributes(attributes) => {
                SettingsCallView::SetSortableAttributes(texts_view(attributes@))
            },
        }
    }
}

/// The views of the calls of `calls`.
pub open spec fn calls_view(calls: Seq<SettingsCall>) -> Seq<SettingsCallView> {
    calls.map_values(|call: SettingsCall| call@)
}

/// The calls that give `settings` to an index, in the order in which they
/// are made.
pub open spec fn configure_calls(settings: IndexSettingsView) -> Seq<SettingsCallView> {
    seq![
        SettingsCallView::SetRankingRules(settings.ranking_rules),
        SettingsCallView::SetSortableAttributes(settings.sortable_attributes),
    ]
}

/// Turns the wanted settings into the calls that establish them. Each call
/// is to be made, and its completion awaited, before the next.
pub fn configure_index(settings: IndexSettings) -> (calls: Vec<SettingsCall>)
    ensures
        calls_view(calls@) == configure_calls(settings@),
{
    let calls = vec![
        SettingsCall::SetRankingRules(settings.ranking_rules),
        SettingsCall::SetSortableAttributes(settings.sortable_attributes),
    ];
    assert(calls_view(calls@) =~= configure_calls(settings@));
    calls
}

/// What the engine holds as the settings of an index: the ranking rules in
/// their order, and the set of sortable attributes.
#[verifier::ext_equal]
pub struct EngineSettings {
    pub ranking_rules: Seq<Seq<char>>,
    pub sortable_attributes: Set<Seq<char>>,
}

/// What the engine holds once it has `settings`.
pub open spec fn established(settings: IndexSettingsView) -> EngineSettings {
    EngineSettings {
        ranking_rules: settings.ranking_rules,
        sortable_attributes: settings.sortable_attributes.to_set(),
    }
}

/// The engine's settings after one completed call: the setting that the call
/// names is replaced, the other is kept.
pub open spec fn apply_call(engine: EngineSettings, call: SettingsCallView) -> EngineSettings {
    match call {
        SettingsCallView::SetRankingRules(rules) => EngineSettings {
            ranking_rules: rules,
            ..engine
        },
        SettingsCallView::SetSortableAttributes(attributes) => EngineSettings {
            sortable_attributes: attributes.to_set(),
            ..engine
        },
    }
}

/// The engine's settings after `calls`, each completed before the next.
pub open spec fn apply_calls(engine: EngineSettings, calls: Seq<SettingsCallView>)
    -> EngineSettings
    decreases calls.len(),
{
    if calls.len() == 0 {
        engine
    } else {
        apply_calls(apply_call(engine, calls[0]), calls.drop_first())
    }
}

/// Whatever the index had before, the calls for `settings` leave it with
/// exactly `settings`.
pub proof fn lemma_configuration_converges(engine: EngineSettings, settings: IndexSettingsView)
    ensures
        apply_calls(engine, configure_calls(settings)) == established(settings),
{
    let calls = configure_calls(settings);
    let first = apply_call(engine, calls[0]);
    assert(calls.drop_first() =~= seq![calls[1]]);
    assert(calls.drop_first().drop_first() =~= Seq::<SettingsCallView>::empty());
    assert(apply_calls(first, calls.drop_first()) == apply_call(first, calls[1])) by {
        reveal_with_fuel(apply_calls, 2);
    }
}

/// Configuring twice is configuring once: the second round of calls changes
/// nothing.
pub proof fn lemma_configuration_is_idempotent(
    engine: EngineSettings,
    settings: IndexSettingsView,
)
    ensures
        apply_calls(apply_calls(engine, configure_calls(settings)), configure_calls(settings))
            == apply_calls(engine, configure_calls(settings)),
{
    lemma_configuration_converges(engine, settings);
    lemma_configuration_converges(established(settings), settings);
}

} // verus!
