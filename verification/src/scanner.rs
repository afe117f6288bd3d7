//! The pattern scanner: a recursive walk over a document tree that collects
//! the text found under fields with given key names.
//!
//! The walk descends only into containers. A policy names the keys that are
//! looked for, the keys whose subtrees are never entered, and whether the
//! first hit inside an object ends the walk of that object.
use vstd::prelude::*;
use crate::document::{Document, Entry, Field, first, first_of, Node, Value, view_fields};
use crate::tags::TagSet;
use crate::text::{contains_text, text_eq, texts};

verus! {

/// What a scan looks for and what it leaves out.
pub struct ScanPolicy {
    /// The keys whose values are collected.
    pub targets: Vec<String>,
    /// The keys whose subtrees are never entered.
    pub opaque: Vec<String>,
    /// Whether the first target key found in an object ends the walk of that
    /// object.
    pub first_match_wins: bool,
}

/// The mathematical model of a [`ScanPolicy`].
pub struct Policy {
    pub targets: Seq<Seq<char>>,
    pub opaque: Seq<Seq<char>>,
    pub first_match_wins: bool,
}

impl View for ScanPolicy {
    type V = Policy;

    open spec fn view(&self) -> Policy {
        Policy {
            targets: texts(self.targets@),
            opaque: texts(self.opaque@),
            first_match_wins: self.first_match_wins,
        }
    }
}

/// What a target field contributes: its text, or nothing where the value is
/// not text.
pub open spec fn hit(value: Node) -> Set<Seq<char>> {
    match value.text() {
        Some(t) => set![t],
        None => Set::empty(),
    }
}

/// The texts that a scan of `node` finds.
pub open spec fn found_in(node: Node, policy: Policy) -> Set<Seq<char>>
    decreases node,
{
    match node {
        Node::Scalar { .. } => Set::empty(),
        Node::Container { fields, .. } => found_in_fields(fields, policy),
    }
}

/// The texts that a scan of the fields of one object finds, walking them in
/// order.
pub open spec fn found_in_fields(fields: Seq<Entry>, policy: Policy) -> Set<Seq<char>>
    decreases fields,
{
    if fields.len() == 0 {
        Set::empty()
    } else if policy.opaque.contains(fields.first().key) {
        found_in_fields(fields.drop_first(), policy)
    } else if policy.targets.contains(fields.first().key) {
        if policy.first_match_wins {
            hit(fields.first().value)
        } else {
            hit(fields.first().value).union(found_in_fields(fields.drop_first(), policy))
        }
    } else {
        found_in(fields.first().value, policy).union(
            found_in_fields(fields.drop_first(), policy),
        )
    }
}

/// Scans `value` and adds what it finds to `found`.
pub fn scan(value: &Value, policy: &ScanPolicy, found: &mut TagSet)
    requires
        old(found).wf(),
    ensures
        final(found).wf(),
        final(found)@ == old(found)@.union(found_in(value@, policy@)),
    decreases value,
{
    match value.as_object() {
        None => {
            assert(found@.union(Set::<Seq<char>>::empty()) =~= found@);
        },
        Some(fields) => {
            let ghost entries = view_fields(fields@);
            let mut i: usize = 0;
            assert(entries.skip(0) =~= entries);
            while i < fields.len()
                invariant
                    i <= fields.len(),
                    entries == view_fields(fields@),
                    value@.object() == Some(entries),
                    decreases_to!(value => fields@),
                    found.wf(),
                    found@.union(found_in_fields(entries.skip(i as int), policy@)) == old(
                        found,
                    )@.union(found_in_fields(entries, policy@)),
                decreases fields.len() - i,
            {
                let ghost rest = entries.skip(i as int);
                let ghost before = found@;
                assert(rest.first() == entries[i as int]);
                assert(rest.drop_first() =~= entries.skip(i + 1));
                let field = &fields[i];
                if contains_text(&policy.opaque, field.key.as_str()) {
                } else if contains_text(&policy.targets, field.key.as_str()) {
                    match field.value.as_text() {
                        Some(t) => {
                            found.insert(t.clone());
                            assert(found@ =~= before.union(hit(rest.first().value)));
                        },
                        None => {
                            assert(found@ =~= before.union(hit(rest.first().value)));
                        },
                    }
                    if policy.first_match_wins {
                        assert(found_in_fields(rest, policy@) == hit(rest.first().value));
                        return ;
                    }
                    assert(found@.union(found_in_fields(entries.skip(i + 1), policy@))
                        =~= before.union(found_in_fields(rest, policy@)));
                } else {
                    scan(&field.value, policy, found);
                    assert(found@.union(found_in_fields(entries.skip(i + 1), policy@))
                        =~= before.union(found_in_fields(rest, policy@)));
                }
                i += 1;
            }
            assert(found@.union(Set::<Seq<char>>::empty()) =~= found@);
        },
    }
}

/// The union of what a scan finds in the value of each of `fields`.
pub open spec fn found_in_each(fields: Seq<Entry>, policy: Policy) -> Set<Seq<char>>
    decreases fields.len(),
{
    if fields.len() == 0 {
        Set::empty()
    } else {
        found_in_each(fields.drop_last(), policy).union(found_in(fields.last().value, policy))
    }
}

/// Scans the value of each of `fields` and adds what it finds to `found`.
pub fn scan_each(fields: &Vec<Field>, policy: &ScanPolicy, found: &mut TagSet)
    requires
        old(found).wf(),
    ensures
        final(found).wf(),
        final(found)@ == old(found)@.union(found_in_each(view_fields(fields@), policy@)),
{
    let ghost entries = view_fields(fields@);
    let mut i: usize = 0;
    assert(found@.union(found_in_each(entries.take(0), policy@)) =~= found@);
    while i < fields.len()
        invariant
            i <= fields.len(),
            entries == view_fields(fields@),
            found.wf(),
            found@ == old(found)@.union(found_in_each(entries.take(i as int), policy@)),
        decreases fields.len() - i,
    {
        assert(entries.take(i + 1).drop_last() =~= entries.take(i as int));
        scan(&fields[i].value, policy, found);
        assert(found@ =~= old(found)@.union(found_in_each(entries.take(i + 1), policy@)));
        i += 1;
    }
    assert(entries.take(i as int) =~= entries);
}

/// The key of the trigger that lists the tags which were never end-game tags.
pub open spec fn end_game_trigger() -> Seq<char> {
    "was_never_end_game_tag_trigger"@
}

/// The policy for end-game tags: collect `tag` and `was_tag` everywhere.
pub open spec fn end_game_policy() -> Policy {
    Policy { targets: seq!["tag"@, "was_tag"@], opaque: seq![], first_match_wins: false }
}

/// The policy for formable tags: collect `change_tag`, stop at the first one
/// in an object, and stay out of `potential`, `provinces_to_highlight` and
/// `allow`.
pub open spec fn formable_policy() -> Policy {
    Policy {
        targets: seq!["change_tag"@],
        opaque: seq!["potential"@, "provinces_to_highlight"@, "allow"@],
        first_match_wins: true,
    }
}

/// The policy for mission tags: collect `tag` and `was_tag`, and stay out of
/// `NOT`.
pub open spec fn mission_policy() -> Policy {
    Policy { targets: seq!["tag"@, "was_tag"@], opaque: seq!["NOT"@], first_match_wins: false }
}

fn list_of_two(a: &str, b: &str) -> (list: Vec<String>)
    ensures
        texts(list@) == seq![a@, b@],
{
    let mut list: Vec<String> = Vec::new();
    list.push(a.to_owned());
    list.push(b.to_owned());
    assert(texts(list@) =~= seq![a@, b@]);
    list
}

fn make_end_game_policy() -> (policy: ScanPolicy)
    ensures
        policy@ == end_game_policy(),
{
    let policy = ScanPolicy {
        targets: list_of_two("tag", "was_tag"),
        opaque: Vec::new(),
        first_match_wins: false,
    };
    assert(texts(policy.opaque@) =~= seq![]);
    policy
}

fn make_formable_policy() -> (policy: ScanPolicy)
    ensures
        policy@ == formable_policy(),
{
    let mut targets: Vec<String> = Vec::new();
    targets.push("change_tag".to_owned());
    let mut opaque: Vec<String> = Vec::new();
    opaque.push("potential".to_owned());
    opaque.push("provinces_to_highlight".to_owned());
    opaque.push("allow".to_owned());
    assert(texts(targets@) =~= seq!["change_tag"@]);
    assert(texts(opaque@) =~= seq!["potential"@, "provinces_to_highlight"@, "allow"@]);
    ScanPolicy { targets, opaque, first_match_wins: true }
}

fn make_mission_policy() -> (policy: ScanPolicy)
    ensures
        policy@ == mission_policy(),
{
    let mut opaque: Vec<String> = Vec::new();
    opaque.push("NOT".to_owned());
    assert(texts(opaque@) =~= seq!["NOT"@]);
    ScanPolicy { targets: list_of_two("tag", "was_tag"), opaque, first_match_wins: false }
}

/// The end-game tags that `document` names: what a scan finds under its first
/// `was_never_end_game_tag_trigger` field.
pub open spec fn end_game_tags_of(document: Seq<Entry>) -> Set<Seq<char>> {
    match first_of(document, end_game_trigger()) {
        Some(trigger) => found_in(trigger, end_game_policy()),
        None => Set::empty(),
    }
}

/// The tags that the end-game trigger of the scripted-triggers file names.
pub fn end_game_tags(document: &Document) -> (tags: TagSet)
    ensures
        tags.wf(),
        tags@ == end_game_tags_of(document@),
{
    let mut tags = TagSet::new();
    match first(&document.fields, "was_never_end_game_tag_trigger") {
        Some(trigger) => {
            let policy = make_end_game_policy();
            scan(trigger, &policy, &mut tags);
            assert(tags@ =~= end_game_tags_of(document@));
        },
        None => {},
    }
    tags
}

/// What one top-level field of a decision or event file contributes to the
/// formable tags: a scan of each field of the object that it holds.
pub open spec fn formable_tags_of_entry(top: Entry) -> Set<Seq<char>> {
    match top.value.object() {
        Some(inner) => found_in_each(inner, formable_policy()),
        None => Set::empty(),
    }
}

/// The formable tags that one decision or event file names.
pub open spec fn formable_tags_of_document(document: Seq<Entry>) -> Set<Seq<char>>
    decreases document.len(),
{
    if document.len() == 0 {
        Set::empty()
    } else {
        formable_tags_of_document(document.drop_last()).union(
            formable_tags_of_entry(document.last()),
        )
    }
}

/// The formable tags that a set of decision and event files names.
pub open spec fn formable_tags_of(documents: Seq<Document>) -> Set<Seq<char>>
    decreases documents.len(),
{
    if documents.len() == 0 {
        Set::empty()
    } else {
        formable_tags_of(documents.drop_last()).union(
            formable_tags_of_document(documents.last()@),
        )
    }
}

/// Adds the formable tags of one decision or event file to `tags`.
pub fn add_formable_tags(document: &Document, tags: &mut TagSet)
    requires
        old(tags).wf(),
    ensures
        final(tags).wf(),
        final(tags)@ == old(tags)@.union(formable_tags_of_document(document@)),
{
    let policy = make_formable_policy();
    let ghost entries = document@;
    let mut i: usize = 0;
    assert(tags@.union(formable_tags_of_document(entries.take(0))) =~= tags@);
    while i < document.fields.len()
        invariant
            i <= document.fields.len(),
            entries == document@,
            policy@ == formable_policy(),
            tags.wf(),
            tags@ == old(tags)@.union(formable_tags_of_document(entries.take(i as int))),
        decreases document.fields.len() - i,
    {
        assert(entries.take(i + 1).drop_last() =~= entries.take(i as int));
        match document.fields[i].value.as_object() {
            Some(inner) => {
                scan_each(inner, &policy, tags);
            },
            None => {},
        }
        assert(tags@ =~= old(tags)@.union(formable_tags_of_document(entries.take(i + 1))));
        i += 1;
    }
    assert(entries.take(i as int) =~= entries);
}

/// The tags that some decision or event turns a country into.
pub fn formable_tags(documents: &Vec<Document>) -> (tags: TagSet)
    ensures
        tags.wf(),
        tags@ == formable_tags_of(documents@),
{
    let mut tags = TagSet::new();
    let mut i: usize = 0;
    while i < documents.len()
        invariant
            i <= documents.len(),
            tags.wf(),
            tags@ == formable_tags_of(documents@.take(i as int)),
        decreases documents.len() - i,
    {
        assert(documents@.take(i + 1).drop_last() =~= documents@.take(i as int));
        add_formable_tags(&documents[i], &mut tags);
        i += 1;
    }
    assert(documents@.take(i as int) =~= documents@);
    tags
}

/// The mission tags that one mission tree names: a scan of each of its
/// `potential` fields.
pub open spec fn mission_tags_of_tree(tree: Seq<Entry>) -> Set<Seq<char>>
    decreases tree.len(),
{
    if tree.len() == 0 {
        Set::empty()
    } else if tree.last().key == "potential"@ {
        mission_tags_of_tree(tree.drop_last()).union(
            found_in(tree.last().value, mission_policy()),
        )
    } else {
        mission_tags_of_tree(tree.drop_last())
    }
}

/// What one top-level field of a mission file contributes to the mission
/// tags.
pub open spec fn mission_tags_of_entry(top: Entry) -> Set<Seq<char>> {
    match top.value.object() {
        Some(tree) => mission_tags_of_tree(tree),
        None => Set::empty(),
    }
}

/// The mission tags that one mission file names.
pub open spec fn mission_tags_of_document(document: Seq<Entry>) -> Set<Seq<char>>
    decreases document.len(),
{
    if document.len() == 0 {
        Set::empty()
    } else {
        mission_tags_of_document(document.drop_last()).union(
            mission_tags_of_entry(document.last()),
        )
    }
}

/// The mission tags that a set of mission files names.
pub open spec fn mission_tags_of(documents: Seq<Document>) -> Set<Seq<char>>
    decreases documents.len(),
{
    if documents.len() == 0 {
        Set::empty()
    } else {
        mission_tags_of(documents.drop_last()).union(mission_tags_of_document(documents.last()@))
    }
}

fn add_tree_tags(tree: &Vec<Field>, policy: &ScanPolicy, tags: &mut TagSet)
    requires
        old(tags).wf(),
        policy@ == mission_policy(),
    ensures
        final(tags).wf(),
        final(tags)@ == old(tags)@.union(mission_tags_of_tree(view_fields(tree@))),
{
    let ghost entries = view_fields(tree@);
    let mut i: usize = 0;
    assert(tags@.union(mission_tags_of_tree(entries.take(0))) =~= tags@);
    while i < tree.len()
        invariant
            i <= tree.len(),
            entries == view_fields(tree@),
            policy@ == mission_policy(),
            tags.wf(),
            tags@ == old(tags)@.union(mission_tags_of_tree(entries.take(i as int))),
        decreases tree.len() - i,
    {
        assert(entries.take(i + 1).drop_last() =~= entries.take(i as int));
        if text_eq(tree[i].key.as_str(), "potential") {
            scan(&tree[i].value, policy, tags);
        }
        assert(tags@ =~= old(tags)@.union(mission_tags_of_tree(entries.take(i + 1))));
        i += 1;
    }
    assert(entries.take(i as int) =~= entries);
}

/// Adds the mission tags of one mission file to `tags`.
pub fn add_mission_tags(document: &Document, tags: &mut TagSet)
    requires
        old(tags).wf(),
    ensures
        final(tags).wf(),
        final(tags)@ == old(tags)@.union(mission_tags_of_document(document@)),
{
    let policy = make_mission_policy();
    let ghost entries = document@;
    let mut i: usize = 0;
    assert(tags@.union(mission_tags_of_document(entries.take(0))) =~= tags@);
    while i < document.fields.len()
        invariant
            i <= document.fields.len(),
            entries == document@,
            policy@ == mission_policy(),
            tags.wf(),
            tags@ == old(tags)@.union(mission_tags_of_document(entries.take(i as int))),
        decreases document.fields.len() - i,
    {
        assert(entries.take(i + 1).drop_last() =~= entries.take(i as int));
        match document.fields[i].value.as_object() {
            Some(tree) => {
                add_tree_tags(tree, &policy, tags);
            },
            None => {},
        }
        assert(tags@ =~= old(tags)@.union(mission_tags_of_document(entries.take(i + 1))));
        i += 1;
    }
    assert(entries.take(i as int) =~= entries);
}

/// The tags that the eligibility conditions of some mission tree name.
pub fn tags_with_missions(documents: &Vec<Document>) -> (tags: TagSet)
    ensures
        tags.wf(),
        tags@ == mission_tags_of(documents@),
{
    let mut tags = TagSet::new();
    let mut i: usize = 0;
    while i < documents.len()
        invariant
            i <= documents.len(),
            tags.wf(),
            tags@ == mission_tags_of(documents@.take(i as int)),
        decreases documents.len() - i,
    {
        assert(documents@.take(i + 1).drop_last() =~= documents@.take(i as int));
        add_mission_tags(&documents[i], &mut tags);
        i += 1;
    }
    assert(documents@.take(i as int) =~= documents@);
    tags
}

/// A scan finds nothing in an object all of whose fields are opaque.
pub proof fn lemma_opaque_hides(fields: Seq<Entry>, policy: Policy)
    requires
        forall|i: int| 0 <= i < fields.len() ==> policy.opaque.contains(#[trigger] fields[i].key),
    ensures
        found_in_fields(fields, policy) == Set::<Seq<char>>::empty(),
    decreases fields.len(),
{
    if fields.len() > 0 {
        assert(policy.opaque.contains(fields[0].key));
        assert forall|i: int| 0 <= i < fields.drop_first().len() implies policy.opaque.contains(
            #[trigger] fields.drop_first()[i].key,
        ) by {
            assert(fields.drop_first()[i] == fields[i + 1]);
        }
        lemma_opaque_hides(fields.drop_first(), policy);
    }
}

/// A scan that does not stop at the first hit finds the text of every target
/// field of an object.
pub proof fn lemma_target_found(fields: Seq<Entry>, policy: Policy, i: int, text: Seq<char>)
    requires
        !policy.first_match_wins,
        0 <= i < fields.len(),
        !policy.opaque.contains(fields[i].key),
        policy.targets.contains(fields[i].key),
        fields[i].value.text() == Some(text),
    ensures
        found_in_fields(fields, policy).contains(text),
    decreases fields.len(),
{
    if i > 0 {
        assert(fields.drop_first()[i - 1] == fields[i]);
        lemma_target_found(fields.drop_first(), policy, i - 1, text);
    }
}

/// A scan that does not stop at the first hit finds in an object what it
/// finds in the value of each field that is neither opaque nor a target.
pub proof fn lemma_scan_descends(fields: Seq<Entry>, policy: Policy, i: int, text: Seq<char>)
    requires
        !policy.first_match_wins,
        0 <= i < fields.len(),
        !policy.opaque.contains(fields[i].key),
        !policy.targets.contains(fields[i].key),
        found_in(fields[i].value, policy).contains(text),
    ensures
        found_in_fields(fields, policy).contains(text),
    decreases fields.len(),
{
    if i > 0 {
        assert(fields.drop_first()[i - 1] == fields[i]);
        lemma_scan_descends(fields.drop_first(), policy, i - 1, text);
    }
}

/// Whether the path `path` leads from `node` to the text `text`: each step
/// of the path names a field of the object that the walk is in; no field on
/// the path is opaque, the last is a target that holds the text, and none
/// before it is a target.
pub open spec fn leads_to(node: Node, path: Seq<int>, policy: Policy, text: Seq<char>) -> bool
    decreases path.len(),
{
    match node.object() {
        Some(fields) => path.len() > 0 && 0 <= path[0] < fields.len() && !policy.opaque.contains(
            fields[path[0]].key,
        ) && if path.len() == 1 {
            policy.targets.contains(fields[path[0]].key) && fields[path[0]].value.text() == Some(
                text,
            )
        } else {
            !policy.targets.contains(fields[path[0]].key) && leads_to(
                fields[path[0]].value,
                path.drop_first(),
                policy,
                text,
            )
        },
        None => false,
    }
}

/// A scan that does not stop at the first hit finds every text that a path
/// leads to.
pub proof fn lemma_path_is_found(node: Node, path: Seq<int>, policy: Policy, text: Seq<char>)
    requires
        !policy.first_match_wins,
        leads_to(node, path, policy, text),
    ensures
        found_in(node, policy).contains(text),
    decreases path.len(),
{
    let fields = node.object().unwrap();
    if path.len() == 1 {
        lemma_target_found(fields, policy, path[0], text);
    } else {
        lemma_path_is_found(fields[path[0]].value, path.drop_first(), policy, text);
        lemma_scan_descends(fields, policy, path[0], text);
    }
}

/// A scan finds a text only where a path leads to it.
pub proof fn lemma_found_has_path(node: Node, policy: Policy, text: Seq<char>) -> (path: Seq<int>)
    requires
        !policy.first_match_wins,
        found_in(node, policy).contains(text),
    ensures
        leads_to(node, path, policy, text),
    decreases node, 0int,
{
    match node {
        Node::Scalar { .. } => {
            assert(found_in(node, policy) == Set::<Seq<char>>::empty());
            Seq::empty()
        },
        Node::Container { fields, .. } => lemma_found_in_fields_has_path(fields, policy, text),
    }
}

/// A scan of the fields of an object finds a text only where a path leads
/// to it through one of the fields.
proof fn lemma_found_in_fields_has_path(fields: Seq<Entry>, policy: Policy, text: Seq<char>) -> (path:
    Seq<int>)
    requires
        !policy.first_match_wins,
        found_in_fields(fields, policy).contains(text),
    ensures
        path.len() > 0,
        0 <= path[0] < fields.len(),
        !policy.opaque.contains(fields[path[0]].key),
        if path.len() == 1 {
            policy.targets.contains(fields[path[0]].key) && fields[path[0]].value.text() == Some(
                text,
            )
        } else {
            !policy.targets.contains(fields[path[0]].key) && leads_to(
                fields[path[0]].value,
                path.drop_first(),
                policy,
                text,
            )
        },
    decreases fields, 1int,
{
    if fields.len() == 0 {
        assert(found_in_fields(fields, policy) == Set::<Seq<char>>::empty());
        seq![0int]
    } else {
        let rest = fields.drop_first();
        let here = !policy.opaque.contains(fields.first().key) && if policy.targets.contains(
            fields.first().key,
        ) {
            fields.first().value.text() == Some(text)
        } else {
            found_in(fields.first().value, policy).contains(text)
        };
        if here {
            if policy.targets.contains(fields.first().key) {
                seq![0int]
            } else {
                let below = lemma_found_has_path(fields.first().value, policy, text);
                let path = seq![0int] + below;
                assert(path.drop_first() =~= below);
                path
            }
        } else {
            let later = lemma_found_in_fields_has_path(rest, policy, text);
            let path = seq![later[0] + 1] + later.drop_first();
            assert(rest[later[0]] == fields[later[0] + 1]);
            assert(path.drop_first() =~= later.drop_first());
            path
        }
    }
}

} // verus!
