//! Mission trees: the settings of each tree and the missions that it holds.
use vstd::prelude::*;
use crate::document::{
    contains_key, Document, Entry, Field, has_key, latest_number, latest_text, listed_texts,
    read_latest_number, read_latest_text, read_listed_texts, read_yes, says_yes,
};
use crate::text::{optional_text, text_eq, texts};
use crate::tree::{parse_document, parsed_document};

verus! {

/// One tree of a mission file.
#[derive(Debug, Default, PartialEq, Eq)]
pub struct MissionTree {
    pub generic: bool,
    pub ai: bool,
    pub has_country_shield: bool,
    pub slot: Option<u64>,
    pub missions: Vec<Mission>,
}

/// One mission of a tree.
#[derive(Debug, Default, PartialEq, Eq)]
pub struct Mission {
    pub id: String,
    pub icon: Option<String>,
    pub position: Option<u64>,
    pub completed_by: Option<String>,
    pub required_missions: Vec<String>,
    pub trigger: Option<String>,
    pub effect: Option<String>,
}

/// The mathematical model of a [`Mission`].
pub struct MissionView {
    pub id: Seq<char>,
    pub icon: Option<Seq<char>>,
    pub position: Option<u64>,
    pub completed_by: Option<Seq<char>>,
    pub required_missions: Seq<Seq<char>>,
    pub trigger: Option<Seq<char>>,
    pub effect: Option<Seq<char>>,
}

/// The mathematical model of a [`MissionTree`].
pub struct MissionTreeView {
    pub generic: bool,
    pub ai: bool,
    pub has_country_shield: bool,
    pub slot: Option<u64>,
    pub missions: Seq<MissionView>,
}

impl View for Mission {
    type V = MissionView;

    open spec fn view(&self) -> MissionView {
        MissionView {
            id: self.id@,
            icon: optional_text(self.icon),
            position: self.position,
            completed_by: optional_text(self.completed_by),
            required_missions: texts(self.required_missions@),
            trigger: optional_text(self.trigger),
            effect: optional_text(self.effect),
        }
    }
}

/// The models of a list of missions, in order.
pub open spec fn view_missions(missions: Seq<Mission>) -> Seq<MissionView> {
    missions.map_values(|m: Mission| m@)
}

impl View for MissionTree {
    type V = MissionTreeView;

    open spec fn view(&self) -> MissionTreeView {
        MissionTreeView {
            generic: self.generic,
            ai: self.ai,
            has_country_shield: self.has_country_shield,
            slot: self.slot,
            missions: view_missions(self.missions@),
        }
    }
}

/// The models of a list of mission trees, in order.
pub open spec fn view_mission_trees(trees: Seq<MissionTree>) -> Seq<MissionTreeView> {
    trees.map_values(|t: MissionTree| t@)
}

/// Whether `key` names a setting of a tree, and so no mission.
pub open spec fn is_setting(key: Seq<char>) -> bool {
    key == "generic"@ || key == "ai"@ || key == "slot"@ || key == "has_country_shield"@ || key
        == "potential"@ || key == "potential_on_load"@
}

/// The mission that a field of a tree defines: the field is a mission where
/// it is no setting and holds an object with a `position` or a `trigger`.
pub open spec fn mission_of(entry: Entry) -> Option<MissionView> {
    match entry.value.object() {
        Some(fields) => if !is_setting(entry.key) && (has_key(fields, "position"@) || has_key(
            fields,
            "trigger"@,
        )) {
            Some(
                MissionView {
                    id: entry.key,
                    icon: latest_text(fields, "icon"@),
                    position: latest_number(fields, "position"@),
                    completed_by: None,
                    required_missions: listed_texts(fields, "required_missions"@),
                    trigger: None,
                    effect: None,
                },
            )
        } else {
            None
        },
        None => None,
    }
}

/// The missions among the fields of a tree, in order.
pub open spec fn missions_in(fields: Seq<Entry>) -> Seq<MissionView>
    decreases fields.len(),
{
    if fields.len() == 0 {
        Seq::empty()
    } else {
        match mission_of(fields.last()) {
            Some(mission) => missions_in(fields.drop_last()).push(mission),
            None => missions_in(fields.drop_last()),
        }
    }
}

/// The tree that one top-level field of a mission file defines. A flag is
/// set where some field of its name says `yes`; the slot is the last number
/// given.
pub open spec fn mission_tree_of(top: Entry) -> MissionTreeView {
    match top.value.object() {
        Some(fields) => MissionTreeView {
            generic: says_yes(fields, "generic"@),
            ai: says_yes(fields, "ai"@),
            has_country_shield: says_yes(fields, "has_country_shield"@),
            slot: latest_number(fields, "slot"@),
            missions: missions_in(fields),
        },
        None => MissionTreeView {
            generic: false,
            ai: false,
            has_country_shield: false,
            slot: None,
            missions: Seq::empty(),
        },
    }
}

/// The trees of a mission file, one for each top-level field, in order.
pub open spec fn mission_trees_of(document: Seq<Entry>) -> Seq<MissionTreeView> {
    document.map_values(|top: Entry| mission_tree_of(top))
}

fn is_setting_key(key: &str) -> (yes: bool)
    ensures
        yes == is_setting(key@),
{
    text_eq(key, "generic") || text_eq(key, "ai") || text_eq(key, "slot") || text_eq(
        key,
        "has_country_shield",
    ) || text_eq(key, "potential") || text_eq(key, "potential_on_load")
}

fn read_mission(field: &Field) -> (mission: Option<Mission>)
    ensures
        mission is Some <==> mission_of(field@) is Some,
        mission matches Some(m) ==> mission_of(field@) == Some(m@),
{
    match field.value.as_object() {
        Some(fields) => {
            if !is_setting_key(field.key.as_str()) && (contains_key(fields, "position")
                || contains_key(fields, "trigger")) {
                Some(
                    Mission {
                        id: field.key.clone(),
                        icon: read_latest_text(fields, "icon"),
                        position: read_latest_number(fields, "position"),
                        completed_by: None,
                        required_missions: read_listed_texts(fields, "required_missions"),
                        trigger: None,
                        effect: None,
                    },
                )
            } else {
                None
            }
        },
        None => None,
    }
}

fn read_missions(fields: &Vec<Field>) -> (missions: Vec<Mission>)
    ensures
        view_missions(missions@) == missions_in(crate::document::view_fields(fields@)),
{
    let ghost entries = crate::document::view_fields(fields@);
    let mut missions: Vec<Mission> = Vec::new();
    let mut i: usize = 0;
    assert(view_missions(missions@) =~= Seq::<MissionView>::empty());
    while i < fields.len()
        invariant
            i <= fields.len(),
            entries == crate::document::view_fields(fields@),
            view_missions(missions@) == missions_in(entries.take(i as int)),
        decreases fields.len() - i,
    {
        assert(entries.take(i + 1).drop_last() =~= entries.take(i as int));
        match read_mission(&fields[i]) {
            Some(mission) => {
                let ghost before = view_missions(missions@);
                missions.push(mission);
                assert(view_missions(missions@) =~= before.push(mission@));
            },
            None => {},
        }
        i += 1;
    }
    assert(entries.take(i as int) =~= entries);
    missions
}

fn read_mission_tree(top: &Field) -> (tree: MissionTree)
    ensures
        tree@ == mission_tree_of(top@),
{
    match top.value.as_object() {
        Some(fields) => MissionTree {
            generic: read_yes(fields, "generic"),
            ai: read_yes(fields, "ai"),
            has_country_shield: read_yes(fields, "has_country_shield"),
            slot: read_latest_number(fields, "slot"),
            missions: read_missions(fields),
        },
        None => {
            let tree = MissionTree {
                generic: false,
                ai: false,
                has_country_shield: false,
                slot: None,
                missions: Vec::new(),
            };
            assert(view_missions(tree.missions@) =~= Seq::<MissionView>::empty());
            tree
        },
    }
}

/// Reads the trees of a parsed mission file.
pub fn mission_trees(document: &Document) -> (trees: Vec<MissionTree>)
    ensures
        view_mission_trees(trees@) == mission_trees_of(document@),
{
    let mut trees: Vec<MissionTree> = Vec::new();
    let mut i: usize = 0;
    while i < document.fields.len()
        invariant
            i <= document.fields.len(),
            trees@.len() == i,
            forall|j: int| 0 <= j < i ==> (#[trigger] trees@[j])@ == mission_tree_of(document@[j]),
        decreases document.fields.len() - i,
    {
        trees.push(read_mission_tree(&document.fields[i]));
        i += 1;
    }
    assert(view_mission_trees(trees@) =~= mission_trees_of(document@));
    trees
}

/// Parses a mission file into its trees; nothing where the file does not
/// parse.
pub fn parse_mission_file(data: &[u8]) -> (trees: Option<Vec<MissionTree>>)
    ensures
        trees is Some <==> parsed_document(data@) is Some,
        trees matches Some(t) ==> parsed_document(data@) matches Some(d) && view_mission_trees(t@)
            == mission_trees_of(d),
{
    match parse_document(data) {
        Some(document) => Some(mission_trees(&document)),
        None => None,
    }
}

} // verus!
