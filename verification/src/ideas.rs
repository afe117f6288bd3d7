//! Idea sets: the national ideas of a country, each a named list of raw
//! modifier entries.
use vstd::prelude::*;
use crate::pool::{lemma_position, position};
use crate::document::{Document, Entry, Field, view_fields};
use crate::table::Table;
use crate::text::{lowercase, lowercase_of, text_eq, texts};

verus! {

/// One raw modifier entry: the internal field name and its raw value.
#[derive(Debug, Default, PartialEq, Eq)]
pub struct Effect {
    pub key: String,
    pub value: String,
}

/// One idea of an idea set.
#[derive(Debug, Default, PartialEq, Eq)]
pub struct Idea {
    pub name: String,
    pub description: String,
    pub effects: Vec<Effect>,
}

/// The ideas of one country or group of countries.
#[derive(Debug, PartialEq, Eq)]
pub struct IdeaSet {
    pub tags: Vec<String>,
    pub name: String,
    pub start: Vec<Effect>,
    pub bonus: Vec<Effect>,
    pub ideas: Vec<Idea>,
}

/// The mathematical model of an [`Effect`].
pub struct EffectView {
    pub key: Seq<char>,
    pub value: Seq<char>,
}

/// The mathematical model of an [`Idea`].
pub struct IdeaView {
    pub name: Seq<char>,
    pub description: Seq<char>,
    pub effects: Seq<EffectView>,
}

/// The mathematical model of an [`IdeaSet`].
pub struct IdeaSetView {
    pub tags: Seq<Seq<char>>,
    pub name: Seq<char>,
    pub start: Seq<EffectView>,
    pub bonus: Seq<EffectView>,
    pub ideas: Seq<IdeaView>,
}

impl View for Effect {
    type V = EffectView;

    open spec fn view(&self) -> EffectView {
        EffectView { key: self.key@, value: self.value@ }
    }
}

/// The models of a list of effects, in order.
pub open spec fn view_effects(effects: Seq<Effect>) -> Seq<EffectView> {
    effects.map_values(|e: Effect| e@)
}

impl View for Idea {
    type V = IdeaView;

    open spec fn view(&self) -> IdeaView {
        IdeaView {
            name: self.name@,
            description: self.description@,
            effects: view_effects(self.effects@),
        }
    }
}

/// The models of a list of ideas, in order.
pub open spec fn view_ideas(ideas: Seq<Idea>) -> Seq<IdeaView> {
    ideas.map_values(|i: Idea| i@)
}

impl View for IdeaSet {
    type V = IdeaSetView;

    open spec fn view(&self) -> IdeaSetView {
        IdeaSetView {
            tags: texts(self.tags@),
            name: self.name@,
            start: view_effects(self.start@),
            bonus: view_effects(self.bonus@),
            ideas: view_ideas(self.ideas@),
        }
    }
}

/// The idea set that holds nothing.
pub open spec fn empty_idea_set() -> IdeaSetView {
    IdeaSetView {
        tags: Seq::empty(),
        name: Seq::empty(),
        start: Seq::empty(),
        bonus: Seq::empty(),
        ideas: Seq::empty(),
    }
}

impl Default for IdeaSet {
    fn default() -> (set: IdeaSet)
        ensures
            set@ == empty_idea_set(),
    {
        let set = IdeaSet {
            tags: Vec::new(),
            name: String::new(),
            start: Vec::new(),
            bonus: Vec::new(),
            ideas: Vec::new(),
        };
        assert(texts(set.tags@) =~= Seq::<Seq<char>>::empty());
        assert(view_effects(set.start@) =~= Seq::<EffectView>::empty());
        assert(view_effects(set.bonus@) =~= Seq::<EffectView>::empty());
        assert(view_ideas(set.ideas@) =~= Seq::<IdeaView>::empty());
        set
    }
}

/// The key of an effect, as a function.
pub open spec fn effect_key() -> spec_fn(EffectView) -> Seq<char> {
    |e: EffectView| e.key
}

/// Puts `effect` in the place of the effect with the same key, or at the end
/// where there is none.
pub open spec fn put(effects: Seq<EffectView>, effect: EffectView) -> Seq<EffectView> {
    match position(effects, effect_key(), effect.key) {
        Some(i) => effects.update(i, effect),
        None => effects.push(effect),
    }
}

/// Stores `value` under `key` in a list of effects, in place of what was
/// stored under that key.
pub fn put_effect(effects: &mut Vec<Effect>, key: String, value: String)
    ensures
        view_effects(final(effects)@) == put(
            view_effects(old(effects)@),
            EffectView { key: key@, value: value@ },
        ),
{
    let ghost before = view_effects(effects@);
    let mut i: usize = 0;
    while i < effects.len()
        invariant
            i <= effects.len(),
            effects@ == old(effects)@,
            before == view_effects(effects@),
            forall|j: int| 0 <= j < i ==> effects@[j].key@ != key@,
        decreases effects.len() - i,
    {
        if text_eq(effects[i].key.as_str(), key.as_str()) {
            proof {
                lemma_position(before, effect_key(), key@);
                assert((effect_key())(before[i as int]) == key@);
                assert forall|j: int| 0 <= j < i implies (effect_key())(#[trigger] before[j])
                    != key@ by {
                    assert(before[j].key == effects@[j].key@);
                }
            }
            let effect = Effect { key, value };
            effects.set(i, effect);
            assert(view_effects(effects@) =~= before.update(i as int, effect@));
            return ;
        }
        i += 1;
    }
    proof {
        lemma_position(before, effect_key(), key@);
        assert forall|j: int| 0 <= j < before.len() implies (effect_key())(#[trigger] before[j])
            != key@ by {
            assert(before[j].key == effects@[j].key@);
        }
    }
    let effect = Effect { key, value };
    effects.push(effect);
    assert(view_effects(effects@) =~= before.push(effect@));
}

/// The idea sets of all countries, by tag.
pub struct CountryIdeaSets {
    pub idea_sets: Table<IdeaSet>,
}

fn copy_effects(effects: &Vec<Effect>) -> (copy: Vec<Effect>)
    ensures
        view_effects(copy@) == view_effects(effects@),
{
    let mut copy: Vec<Effect> = Vec::new();
    let mut i: usize = 0;
    while i < effects.len()
        invariant
            i <= effects.len(),
            copy@.len() == i,
            forall|j: int| 0 <= j < i ==> (#[trigger] copy@[j])@ == effects@[j]@,
        decreases effects.len() - i,
    {
        copy.push(Effect { key: effects[i].key.clone(), value: effects[i].value.clone() });
        i += 1;
    }
    assert(view_effects(copy@) =~= view_effects(effects@));
    copy
}

fn copy_tags(tags: &Vec<String>) -> (copy: Vec<String>)
    ensures
        texts(copy@) == texts(tags@),
{
    let mut copy: Vec<String> = Vec::new();
    let mut i: usize = 0;
    while i < tags.len()
        invariant
            i <= tags.len(),
            copy@.len() == i,
            forall|j: int| 0 <= j < i ==> copy@[j]@ == tags@[j]@,
        decreases tags.len() - i,
    {
        copy.push(tags[i].clone());
        i += 1;
    }
    assert(texts(copy@) =~= texts(tags@));
    copy
}

impl IdeaSet {
    /// A copy of this idea set.
    pub fn duplicate(&self) -> (copy: IdeaSet)
        ensures
            copy@ == self@,
    {
        let mut ideas: Vec<Idea> = Vec::new();
        let mut i: usize = 0;
        while i < self.ideas.len()
            invariant
                i <= self.ideas.len(),
                ideas@.len() == i,
                forall|j: int| 0 <= j < i ==> (#[trigger] ideas@[j])@ == self.ideas@[j]@,
            decreases self.ideas.len() - i,
        {
            let idea = &self.ideas[i];
            ideas.push(
                Idea {
                    name: idea.name.clone(),
                    description: idea.description.clone(),
                    effects: copy_effects(&idea.effects),
                },
            );
            i += 1;
        }
        assert(view_ideas(ideas@) =~= view_ideas(self.ideas@));
        IdeaSet {
            tags: copy_tags(&self.tags),
            name: self.name.clone(),
            start: copy_effects(&self.start),
            bonus: copy_effects(&self.bonus),
            ideas,
        }
    }
}

/// The effects that the fields of a block add to a list: each field whose
/// value is text is stored under its name.
pub open spec fn text_effects(effects: Seq<EffectView>, block: Seq<Entry>) -> Seq<EffectView>
    decreases block.len(),
{
    if block.len() == 0 {
        effects
    } else {
        match block.last().value.text() {
            Some(value) => put(
                text_effects(effects, block.drop_last()),
                EffectView { key: block.last().key, value },
            ),
            None => text_effects(effects, block.drop_last()),
        }
    }
}

/// The effects of the blocks named `key` among the fields of an idea set.
pub open spec fn effects_under(fields: Seq<Entry>, key: Seq<char>) -> Seq<EffectView>
    decreases fields.len(),
{
    if fields.len() == 0 {
        Seq::empty()
    } else if fields.last().key == key {
        match fields.last().value.object() {
            Some(block) => text_effects(effects_under(fields.drop_last(), key), block),
            None => effects_under(fields.drop_last(), key),
        }
    } else {
        effects_under(fields.drop_last(), key)
    }
}

/// The tags that the fields of an `OR` block name: the texts of the fields
/// whose name is `tag`, whatever the case of its letters.
pub open spec fn tags_under_or(block: Seq<Entry>) -> Seq<Seq<char>>
    decreases block.len(),
{
    if block.len() == 0 {
        Seq::empty()
    } else {
        match block.last().value.text() {
            Some(tag) => if lowercase_of(block.last().key) == "tag"@ {
                tags_under_or(block.drop_last()).push(tag)
            } else {
                tags_under_or(block.drop_last())
            },
            None => tags_under_or(block.drop_last()),
        }
    }
}

/// The tags that the fields of a `trigger` block name: those of its `OR`
/// blocks and of its own `tag` fields, in order.
pub open spec fn tags_in_trigger(block: Seq<Entry>) -> Seq<Seq<char>>
    decreases block.len(),
{
    if block.len() == 0 {
        Seq::empty()
    } else if block.last().key == "OR"@ {
        match block.last().value.object() {
            Some(inner) => tags_in_trigger(block.drop_last()) + tags_under_or(inner),
            None => tags_in_trigger(block.drop_last()),
        }
    } else if block.last().key == "tag"@ {
        match block.last().value.text() {
            Some(tag) => tags_in_trigger(block.drop_last()).push(tag),
            None => tags_in_trigger(block.drop_last()),
        }
    } else {
        tags_in_trigger(block.drop_last())
    }
}

/// The tags that the `trigger` blocks among the fields of an idea set name.
pub open spec fn set_tags(fields: Seq<Entry>) -> Seq<Seq<char>>
    decreases fields.len(),
{
    if fields.len() == 0 {
        Seq::empty()
    } else if fields.last().key == "trigger"@ {
        match fields.last().value.object() {
            Some(block) => set_tags(fields.drop_last()) + tags_in_trigger(block),
            None => set_tags(fields.drop_last()),
        }
    } else {
        set_tags(fields.drop_last())
    }
}

/// Whether `key` names a part of an idea set that is no idea.
pub open spec fn is_part(key: Seq<char>) -> bool {
    key == "start"@ || key == "bonus"@ || key == "free"@ || key == "trigger"@
}

/// The idea that a field of an idea set defines, where it is no other part
/// and holds an object.
pub open spec fn idea_of(entry: Entry) -> Option<IdeaView> {
    match entry.value.object() {
        Some(block) => if is_part(entry.key) {
            None
        } else {
            Some(
                IdeaView {
                    name: entry.key,
                    description: Seq::empty(),
                    effects: text_effects(Seq::empty(), block),
                },
            )
        },
        None => None,
    }
}

/// The ideas among the fields of an idea set, in order.
pub open spec fn ideas_in(fields: Seq<Entry>) -> Seq<IdeaView>
    decreases fields.len(),
{
    if fields.len() == 0 {
        Seq::empty()
    } else {
        match idea_of(fields.last()) {
            Some(idea) => ideas_in(fields.drop_last()).push(idea),
            None => ideas_in(fields.drop_last()),
        }
    }
}

/// The idea set that one top-level field of the ideas file defines.
pub open spec fn idea_set_of(top: Entry) -> IdeaSetView {
    match top.value.object() {
        Some(fields) => IdeaSetView {
            tags: set_tags(fields),
            name: top.key,
            start: effects_under(fields, "start"@),
            bonus: effects_under(fields, "bonus"@),
            ideas: ideas_in(fields),
        },
        None => IdeaSetView { name: top.key, ..empty_idea_set() },
    }
}

/// The table with `set` stored under each of the first `n` of its tags.
pub open spec fn stored_under(
    table: Map<Seq<char>, IdeaSetView>,
    set: IdeaSetView,
    n: int,
) -> Map<Seq<char>, IdeaSetView>
    decreases n,
{
    if n <= 0 {
        table
    } else {
        stored_under(table, set, n - 1).insert(set.tags[n - 1], set)
    }
}

/// The tags of a table after `set` has been stored under the first `n` of
/// its tags: the tags that are new to the table come behind its own.
pub open spec fn stored_tags(
    tags: Seq<Seq<char>>,
    table: Map<Seq<char>, IdeaSetView>,
    set: IdeaSetView,
    n: int,
) -> Seq<Seq<char>>
    decreases n,
{
    if n <= 0 {
        tags
    } else if stored_under(table, set, n - 1).contains_key(set.tags[n - 1]) {
        stored_tags(tags, table, set, n - 1)
    } else {
        stored_tags(tags, table, set, n - 1).push(set.tags[n - 1])
    }
}

/// The tags of the idea sets of the ideas file, in the order in which they
/// first come.
pub open spec fn idea_tags_of(document: Seq<Entry>) -> Seq<Seq<char>>
    decreases document.len(),
{
    if document.len() == 0 {
        Seq::empty()
    } else {
        stored_tags(
            idea_tags_of(document.drop_last()),
            idea_sets_of(document.drop_last()),
            idea_set_of(document.last()),
            idea_set_of(document.last()).tags.len() as int,
        )
    }
}

/// The idea sets of the ideas file by tag: each set is stored under each of
/// its tags, in the place of an earlier set under the same tag.
pub open spec fn idea_sets_of(document: Seq<Entry>) -> Map<Seq<char>, IdeaSetView>
    decreases document.len(),
{
    if document.len() == 0 {
        Map::empty()
    } else {
        stored_under(
            idea_sets_of(document.drop_last()),
            idea_set_of(document.last()),
            idea_set_of(document.last()).tags.len() as int,
        )
    }
}

/// Stores each field of a block whose value is text under its name.
pub fn add_text_effects(effects: &mut Vec<Effect>, block: &Vec<Field>)
    ensures
        view_effects(final(effects)@) == text_effects(
            view_effects(old(effects)@),
            view_fields(block@),
        ),
{
    let ghost start = view_effects(effects@);
    let ghost entries = view_fields(block@);
    let mut i: usize = 0;
    while i < block.len()
        invariant
            i <= block.len(),
            entries == view_fields(block@),
            view_effects(effects@) == text_effects(start, entries.take(i as int)),
        decreases block.len() - i,
    {
        assert(entries.take(i + 1).drop_last() =~= entries.take(i as int));
        match block[i].value.as_text() {
            Some(value) => {
                put_effect(effects, block[i].key.clone(), value.clone());
            },
            None => {},
        }
        i += 1;
    }
    assert(entries.take(i as int) =~= entries);
}

fn read_effects_under(fields: &Vec<Field>, key: &str) -> (effects: Vec<Effect>)
    ensures
        view_effects(effects@) == effects_under(view_fields(fields@), key@),
{
    let ghost entries = view_fields(fields@);
    let mut effects: Vec<Effect> = Vec::new();
    let mut i: usize = 0;
    assert(view_effects(effects@) =~= Seq::<EffectView>::empty());
    while i < fields.len()
        invariant
            i <= fields.len(),
            entries == view_fields(fields@),
            view_effects(effects@) == effects_under(entries.take(i as int), key@),
        decreases fields.len() - i,
    {
        assert(entries.take(i + 1).drop_last() =~= entries.take(i as int));
        if text_eq(fields[i].key.as_str(), key) {
            match fields[i].value.as_object() {
                Some(block) => {
                    add_text_effects(&mut effects, block);
                },
                None => {},
            }
        }
        i += 1;
    }
    assert(entries.take(i as int) =~= entries);
    effects
}

fn add_tags_under_or(tags: &mut Vec<String>, block: &Vec<Field>)
    ensures
        texts(final(tags)@) == texts(old(tags)@) + tags_under_or(view_fields(block@)),
{
    let ghost start = texts(tags@);
    let ghost entries = view_fields(block@);
    let mut i: usize = 0;
    assert(texts(tags@) =~= start + Seq::<Seq<char>>::empty());
    while i < block.len()
        invariant
            i <= block.len(),
            entries == view_fields(block@),
            texts(tags@) == start + tags_under_or(entries.take(i as int)),
        decreases block.len() - i,
    {
        assert(entries.take(i + 1).drop_last() =~= entries.take(i as int));
        match block[i].value.as_text() {
            Some(tag) => {
                let lower = lowercase(block[i].key.as_str());
                if text_eq(lower.as_str(), "tag") {
                    let ghost before = texts(tags@);
                    tags.push(tag.clone());
                    assert(texts(tags@) =~= before.push(tag@));
                    assert(texts(tags@) =~= start + tags_under_or(entries.take(i + 1)));
                }
            },
            None => {},
        }
        i += 1;
    }
    assert(entries.take(i as int) =~= entries);
}

fn add_trigger_tags(tags: &mut Vec<String>, block: &Vec<Field>)
    ensures
        texts(final(tags)@) == texts(old(tags)@) + tags_in_trigger(view_fields(block@)),
{
    let ghost start = texts(tags@);
    let ghost entries = view_fields(block@);
    let mut i: usize = 0;
    assert(texts(tags@) =~= start + Seq::<Seq<char>>::empty());
    while i < block.len()
        invariant
            i <= block.len(),
            entries == view_fields(block@),
            texts(tags@) == start + tags_in_trigger(entries.take(i as int)),
        decreases block.len() - i,
    {
        assert(entries.take(i + 1).drop_last() =~= entries.take(i as int));
        let ghost done = tags_in_trigger(entries.take(i as int));
        if text_eq(block[i].key.as_str(), "OR") {
            match block[i].value.as_object() {
                Some(inner) => {
                    add_tags_under_or(tags, inner);
                    assert(texts(tags@) =~= start + (done + tags_under_or(view_fields(inner@))));
                },
                None => {},
            }
        } else if text_eq(block[i].key.as_str(), "tag") {
            match block[i].value.as_text() {
                Some(tag) => {
                    let ghost before = texts(tags@);
                    tags.push(tag.clone());
                    assert(texts(tags@) =~= before.push(tag@));
                    assert(texts(tags@) =~= start + done.push(tag@));
                },
                None => {},
            }
        }
        i += 1;
    }
    assert(entries.take(i as int) =~= entries);
}

fn read_set_tags(fields: &Vec<Field>) -> (tags: Vec<String>)
    ensures
        texts(tags@) == set_tags(view_fields(fields@)),
{
    let ghost entries = view_fields(fields@);
    let mut tags: Vec<String> = Vec::new();
    let mut i: usize = 0;
    assert(texts(tags@) =~= Seq::<Seq<char>>::empty());
    while i < fields.len()
        invariant
            i <= fields.len(),
            entries == view_fields(fields@),
            texts(tags@) == set_tags(entries.take(i as int)),
        decreases fields.len() - i,
    {
        assert(entries.take(i + 1).drop_last() =~= entries.take(i as int));
        if text_eq(fields[i].key.as_str(), "trigger") {
            match fields[i].value.as_object() {
                Some(block) => {
                    add_trigger_tags(&mut tags, block);
                },
                None => {},
            }
        }
        i += 1;
    }
    assert(entries.take(i as int) =~= entries);
    tags
}

fn is_part_key(key: &str) -> (yes: bool)
    ensures
        yes == is_part(key@),
{
    text_eq(key, "start") || text_eq(key, "bonus") || text_eq(key, "free") || text_eq(
        key,
        "trigger",
    )
}

fn read_ideas(fields: &Vec<Field>) -> (ideas: Vec<Idea>)
    ensures
        view_ideas(ideas@) == ideas_in(view_fields(fields@)),
{
    let ghost entries = view_fields(fields@);
    let mut ideas: Vec<Idea> = Vec::new();
    let mut i: usize = 0;
    assert(view_ideas(ideas@) =~= Seq::<IdeaView>::empty());
    while i < fields.len()
        invariant
            i <= fields.len(),
            entries == view_fields(fields@),
            view_ideas(ideas@) == ideas_in(entries.take(i as int)),
        decreases fields.len() - i,
    {
        assert(entries.take(i + 1).drop_last() =~= entries.take(i as int));
        match fields[i].value.as_object() {
            Some(block) => {
                if !is_part_key(fields[i].key.as_str()) {
                    let mut effects: Vec<Effect> = Vec::new();
                    assert(view_effects(effects@) =~= Seq::<EffectView>::empty());
                    add_text_effects(&mut effects, block);
                    let idea = Idea {
                        name: fields[i].key.clone(),
                        description: String::new(),
                        effects,
                    };
                    let ghost before = view_ideas(ideas@);
                    ideas.push(idea);
                    assert(view_ideas(ideas@) =~= before.push(idea@));
                }
            },
            None => {},
        }
        i += 1;
    }
    assert(entries.take(i as int) =~= entries);
    ideas
}

/// Reads the idea set that one top-level field of the ideas file defines.
pub fn read_idea_set(top: &Field) -> (set: IdeaSet)
    ensures
        set@ == idea_set_of(top@),
{
    match top.value.as_object() {
        Some(fields) => IdeaSet {
            tags: read_set_tags(fields),
            name: top.key.clone(),
            start: read_effects_under(fields, "start"),
            bonus: read_effects_under(fields, "bonus"),
            ideas: read_ideas(fields),
        },
        None => {
            let mut set = IdeaSet::default();
            set.name = top.key.clone();
            set
        },
    }
}

/// Reads the ideas file: the idea set of each country, by tag.
pub fn parse_ideas(document: &Document) -> (sets: CountryIdeaSets)
    ensures
        sets.idea_sets.wf(),
        sets.idea_sets.key_list() == idea_tags_of(document@),
        forall|tag: Seq<char>|
            sets.idea_sets@.contains_key(tag) <==> idea_sets_of(document@).contains_key(tag),
        forall|tag: Seq<char>| #[trigger]
            sets.idea_sets@.contains_key(tag) ==> sets.idea_sets@[tag]@ == idea_sets_of(
                document@,
            )[tag],
{
    let ghost entries = document@;
    let mut table: Table<IdeaSet> = Table::new();
    let mut i: usize = 0;
    while i < document.fields.len()
        invariant
            i <= document.fields.len(),
            entries == document@,
            table.wf(),
            table.key_list() == idea_tags_of(entries.take(i as int)),
            forall|tag: Seq<char>|
                table@.contains_key(tag) <==> idea_sets_of(entries.take(i as int)).contains_key(
                    tag,
                ),
            forall|tag: Seq<char>| #[trigger]
                table@.contains_key(tag) ==> table@[tag]@ == idea_sets_of(
                    entries.take(i as int),
                )[tag],
        decreases document.fields.len() - i,
    {
        assert(entries.take(i + 1).drop_last() =~= entries.take(i as int));
        let set = read_idea_set(&document.fields[i]);
        let ghost before = idea_sets_of(entries.take(i as int));
        let ghost tags_before = idea_tags_of(entries.take(i as int));
        let mut k: usize = 0;
        while k < set.tags.len()
            invariant
                k <= set.tags.len(),
                table.wf(),
                table.key_list() == stored_tags(tags_before, before, set@, k as int),
                forall|tag: Seq<char>|
                    table@.contains_key(tag) <==> stored_under(
                        before,
                        set@,
                        k as int,
                    ).contains_key(tag),
                forall|tag: Seq<char>| #[trigger]
                    table@.contains_key(tag) ==> table@[tag]@ == stored_under(
                        before,
                        set@,
                        k as int,
                    )[tag],
            decreases set.tags.len() - k,
        {
            assert(set@.tags[k as int] == set.tags@[k as int]@);
            table.insert(set.tags[k].clone(), set.duplicate());
            k += 1;
        }
        i += 1;
    }
    assert(entries.take(i as int) =~= entries);
    CountryIdeaSets { idea_sets: table }
}

} // verus!
