//! Great projects: monuments with up to three tiers, each tier with its
//! upgrade time, its cost and its modifiers.
use vstd::prelude::*;
use crate::document::{
    Document, Entry, Field, last, latest_number, latest_text, read_latest_number, read_latest_text,
    view_fields,
};
use crate::graphics::{SpriteType, SpriteTypeView};
use crate::ideas::{add_text_effects, Effect, EffectView, text_effects, view_effects};
use crate::text::{text_eq, text_or_empty, view_contents};
use crate::tree::{parse_document, parsed_document};

verus! {

/// A great project.
#[derive(Debug, Default, PartialEq, Eq)]
pub struct GreatProject {
    pub id: String,
    pub start: Option<u64>,
    pub starting_tier: Option<u64>,
    pub project_type: String,
    pub sprite: Option<SpriteType>,
    pub tier_1: Option<Tier>,
    pub tier_2: Option<Tier>,
    pub tier_3: Option<Tier>,
}

/// One tier of a great project.
#[derive(Debug, Default, PartialEq, Eq)]
pub struct Tier {
    pub upgrade_time: Option<u64>,
    pub cost_to_upgrade: Option<u64>,
    pub province_modifiers: Vec<Effect>,
    pub area_modifier: Vec<Effect>,
    pub region_modifier: Vec<Effect>,
    pub country_modifiers: Vec<Effect>,
}

/// The mathematical model of a [`Tier`].
pub struct TierView {
    pub upgrade_time: Option<u64>,
    pub cost_to_upgrade: Option<u64>,
    pub province_modifiers: Seq<EffectView>,
    pub area_modifier: Seq<EffectView>,
    pub region_modifier: Seq<EffectView>,
    pub country_modifiers: Seq<EffectView>,
}

/// The mathematical model of a [`GreatProject`].
pub struct GreatProjectView {
    pub id: Seq<char>,
    pub start: Option<u64>,
    pub starting_tier: Option<u64>,
    pub project_type: Seq<char>,
    pub sprite: Option<SpriteTypeView>,
    pub tier_1: Option<TierView>,
    pub tier_2: Option<TierView>,
    pub tier_3: Option<TierView>,
}

impl View for Tier {
    type V = TierView;

    open spec fn view(&self) -> TierView {
        TierView {
            upgrade_time: self.upgrade_time,
            cost_to_upgrade: self.cost_to_upgrade,
            province_modifiers: view_effects(self.province_modifiers@),
            area_modifier: view_effects(self.area_modifier@),
            region_modifier: view_effects(self.region_modifier@),
            country_modifiers: view_effects(self.country_modifiers@),
        }
    }
}

/// The model of an optional tier.
pub open spec fn view_tier(tier: Option<Tier>) -> Option<TierView> {
    match tier {
        Some(t) => Some(t@),
        None => None,
    }
}

impl View for GreatProject {
    type V = GreatProjectView;

    open spec fn view(&self) -> GreatProjectView {
        GreatProjectView {
            id: self.id@,
            start: self.start,
            starting_tier: self.starting_tier,
            project_type: self.project_type@,
            sprite: match self.sprite {
                Some(s) => Some(s@),
                None => None,
            },
            tier_1: view_tier(self.tier_1),
            tier_2: view_tier(self.tier_2),
            tier_3: view_tier(self.tier_3),
        }
    }
}

/// The models of a list of great projects, in order.
pub open spec fn view_projects(projects: Seq<GreatProject>) -> Seq<GreatProjectView> {
    projects.map_values(|p: GreatProject| p@)
}

/// The number under `inner` in the blocks named `outer`: that of the last
/// such block that holds one.
pub open spec fn nested_number(fields: Seq<Entry>, outer: Seq<char>, inner: Seq<char>) -> Option<
    u64,
>
    decreases fields.len(),
{
    if fields.len() == 0 {
        None
    } else if fields.last().key == outer {
        match fields.last().value.object() {
            Some(block) => if latest_number(block, inner) is Some {
                latest_number(block, inner)
            } else {
                nested_number(fields.drop_last(), outer, inner)
            },
            None => nested_number(fields.drop_last(), outer, inner),
        }
    } else {
        nested_number(fields.drop_last(), outer, inner)
    }
}

/// The modifiers of the last block named `key`: each of its fields whose
/// value is text, stored under its name.
pub open spec fn block_modifiers(fields: Seq<Entry>, key: Seq<char>) -> Seq<EffectView>
    decreases fields.len(),
{
    if fields.len() == 0 {
        Seq::empty()
    } else if fields.last().key == key {
        match fields.last().value.object() {
            Some(block) => text_effects(Seq::empty(), block),
            None => block_modifiers(fields.drop_last(), key),
        }
    } else {
        block_modifiers(fields.drop_last(), key)
    }
}

/// The tier that the fields of a tier block define.
pub open spec fn tier_of(fields: Seq<Entry>) -> TierView {
    TierView {
        upgrade_time: nested_number(fields, "upgrade_time"@, "months"@),
        cost_to_upgrade: nested_number(fields, "cost_to_upgrade"@, "factor"@),
        province_modifiers: block_modifiers(fields, "province_modifiers"@),
        area_modifier: block_modifiers(fields, "area_modifier"@),
        region_modifier: block_modifiers(fields, "region_modifier"@),
        country_modifiers: block_modifiers(fields, "country_modifiers"@),
    }
}

/// The tier under `key`: that of the last block of that name.
pub open spec fn tier_under(fields: Seq<Entry>, key: Seq<char>) -> Option<TierView>
    decreases fields.len(),
{
    if fields.len() == 0 {
        None
    } else if fields.last().key == key {
        match fields.last().value.object() {
            Some(block) => Some(tier_of(block)),
            None => tier_under(fields.drop_last(), key),
        }
    } else {
        tier_under(fields.drop_last(), key)
    }
}

/// The great project that one top-level field of a project file defines.
pub open spec fn project_of(top: Entry) -> GreatProjectView {
    match top.value.object() {
        Some(fields) => GreatProjectView {
            id: top.key,
            start: latest_number(fields, "start"@),
            starting_tier: latest_number(fields, "starting_tier"@),
            project_type: text_or_empty(latest_text(fields, "type"@)),
            sprite: None,
            tier_1: tier_under(fields, "tier_1"@),
            tier_2: tier_under(fields, "tier_2"@),
            tier_3: tier_under(fields, "tier_3"@),
        },
        None => GreatProjectView {
            id: top.key,
            start: None,
            starting_tier: None,
            project_type: Seq::empty(),
            sprite: None,
            tier_1: None,
            tier_2: None,
            tier_3: None,
        },
    }
}

/// The great projects of a project file, one for each top-level field.
pub open spec fn projects_of(document: Seq<Entry>) -> Seq<GreatProjectView> {
    document.map_values(|top: Entry| project_of(top))
}

fn read_nested_number(fields: &Vec<Field>, outer: &str, inner: &str) -> (number: Option<u64>)
    ensures
        number == nested_number(view_fields(fields@), outer@, inner@),
{
    let ghost entries = view_fields(fields@);
    let mut number: Option<u64> = None;
    let mut i: usize = 0;
    while i < fields.len()
        invariant
            i <= fields.len(),
            entries == view_fields(fields@),
            number == nested_number(entries.take(i as int), outer@, inner@),
        decreases fields.len() - i,
    {
        assert(entries.take(i + 1).drop_last() =~= entries.take(i as int));
        if text_eq(fields[i].key.as_str(), outer) {
            match fields[i].value.as_object() {
                Some(block) => {
                    match read_latest_number(block, inner) {
                        Some(n) => {
                            number = Some(n);
                        },
                        None => {},
                    }
                },
                None => {},
            }
        }
        i += 1;
    }
    assert(entries.take(i as int) =~= entries);
    number
}

/// Reads the modifiers of a block: each of its fields whose value is text,
/// stored under its name.
fn extract_modifiers(block: &Vec<Field>) -> (effects: Vec<Effect>)
    ensures
        view_effects(effects@) == text_effects(Seq::empty(), view_fields(block@)),
{
    let mut effects: Vec<Effect> = Vec::new();
    assert(view_effects(effects@) =~= Seq::<EffectView>::empty());
    add_text_effects(&mut effects, block);
    effects
}

fn read_block_modifiers(fields: &Vec<Field>, key: &str) -> (effects: Vec<Effect>)
    ensures
        view_effects(effects@) == block_modifiers(view_fields(fields@), key@),
{
    let ghost entries = view_fields(fields@);
    let mut effects: Vec<Effect> = Vec::new();
    let mut i: usize = 0;
    assert(view_effects(effects@) =~= Seq::<EffectView>::empty());
    while i < fields.len()
        invariant
            i <= fields.len(),
            entries == view_fields(fields@),
            view_effects(effects@) == block_modifiers(entries.take(i as int), key@),
        decreases fields.len() - i,
    {
        assert(entries.take(i + 1).drop_last() =~= entries.take(i as int));
        if text_eq(fields[i].key.as_str(), key) {
            match fields[i].value.as_object() {
                Some(block) => {
                    effects = extract_modifiers(block);
                },
                None => {},
            }
        }
        i += 1;
    }
    assert(entries.take(i as int) =~= entries);
    effects
}

/// Reads the tier that the fields of a tier block define.
pub fn parse_tier(fields: &Vec<Field>) -> (tier: Tier)
    ensures
        tier@ == tier_of(view_fields(fields@)),
{
    Tier {
        upgrade_time: read_nested_number(fields, "upgrade_time", "months"),
        cost_to_upgrade: read_nested_number(fields, "cost_to_upgrade", "factor"),
        province_modifiers: read_block_modifiers(fields, "province_modifiers"),
        area_modifier: read_block_modifiers(fields, "area_modifier"),
        region_modifier: read_block_modifiers(fields, "region_modifier"),
        country_modifiers: read_block_modifiers(fields, "country_modifiers"),
    }
}

fn read_tier_under(fields: &Vec<Field>, key: &str) -> (tier: Option<Tier>)
    ensures
        view_tier(tier) == tier_under(view_fields(fields@), key@),
{
    let ghost entries = view_fields(fields@);
    let mut tier: Option<Tier> = None;
    let mut i: usize = 0;
    while i < fields.len()
        invariant
            i <= fields.len(),
            entries == view_fields(fields@),
            view_tier(tier) == tier_under(entries.take(i as int), key@),
        decreases fields.len() - i,
    {
        assert(entries.take(i + 1).drop_last() =~= entries.take(i as int));
        if text_eq(fields[i].key.as_str(), key) {
            match fields[i].value.as_object() {
                Some(block) => {
                    tier = Some(parse_tier(block));
                },
                None => {},
            }
        }
        i += 1;
    }
    assert(entries.take(i as int) =~= entries);
    tier
}

fn read_project(top: &Field) -> (project: GreatProject)
    ensures
        project@ == project_of(top@),
{
    match top.value.as_object() {
        Some(fields) => GreatProject {
            id: top.key.clone(),
            start: read_latest_number(fields, "start"),
            starting_tier: read_latest_number(fields, "starting_tier"),
            project_type: match read_latest_text(fields, "type") {
                Some(t) => t,
                None => String::new(),
            },
            sprite: None,
            tier_1: read_tier_under(fields, "tier_1"),
            tier_2: read_tier_under(fields, "tier_2"),
            tier_3: read_tier_under(fields, "tier_3"),
        },
        None => GreatProject {
            id: top.key.clone(),
            start: None,
            starting_tier: None,
            project_type: String::new(),
            sprite: None,
            tier_1: None,
            tier_2: None,
            tier_3: None,
        },
    }
}

/// Reads the great projects of a parsed project file.
pub fn great_projects(document: &Document) -> (projects: Vec<GreatProject>)
    ensures
        view_projects(projects@) == projects_of(document@),
{
    let mut projects: Vec<GreatProject> = Vec::new();
    let mut i: usize = 0;
    while i < document.fields.len()
        invariant
            i <= document.fields.len(),
            projects@.len() == i,
            forall|j: int| 0 <= j < i ==> (#[trigger] projects@[j])@ == project_of(document@[j]),
        decreases document.fields.len() - i,
    {
        projects.push(read_project(&document.fields[i]));
        i += 1;
    }
    assert(view_projects(projects@) =~= projects_of(document@));
    projects
}

/// Parses a project file; nothing where the file does not parse.
pub fn parse_great_projects(data: &[u8]) -> (projects: Option<Vec<GreatProject>>)
    ensures
        projects is Some <==> parsed_document(data@) is Some,
        projects matches Some(p) ==> parsed_document(data@) matches Some(d) && view_projects(p@)
            == projects_of(d),
{
    match parse_document(data) {
        Some(document) => Some(great_projects(&document)),
        None => None,
    }
}

/// The great projects that a list of project files gives, in order.
pub open spec fn projects_in_files(files: Seq<Seq<u8>>) -> Seq<GreatProjectView>
    decreases files.len(),
{
    if files.len() == 0 {
        Seq::empty()
    } else {
        match parsed_document(files.last()) {
            Some(document) => projects_in_files(files.drop_last()) + projects_of(document),
            None => projects_in_files(files.drop_last()),
        }
    }
}

/// Reads a list of files, each given by its content; a file that does not
/// parse is passed over.
pub fn parse_all_great_projects(files: &Vec<Vec<u8>>) -> (list: Vec<GreatProject>)
    ensures
        view_projects(list@) == projects_in_files(view_contents(files@)),
{
    let ghost all = view_contents(files@);
    let mut list: Vec<GreatProject> = Vec::new();
    let mut i: usize = 0;
    assert(view_projects(list@) =~= Seq::<GreatProjectView>::empty());
    while i < files.len()
        invariant
            i <= files.len(),
            all == view_contents(files@),
            view_projects(list@) == projects_in_files(all.take(i as int)),
        decreases files.len() - i,
    {
        assert(all.take(i + 1).drop_last() =~= all.take(i as int));
        assert(all.take(i + 1).last() == files@[i as int]@);
        match parse_document(files[i].as_slice()) {
            Some(document) => {
                let mut more = great_projects(&document);
                let ghost before = view_projects(list@);
                let ghost added = view_projects(more@);
                list.append(&mut more);
                assert(view_projects(list@) =~= before + added);
            },
            None => {},
        }
        i += 1;
    }
    assert(all.take(i as int) =~= all);
    list
}

} // verus!
