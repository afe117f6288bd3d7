use anbennar_wiki::document::{Document, Field, Value};
use anbennar_wiki::scanner::{end_game_tags, formable_tags, scan, ScanPolicy, tags_with_missions};
use anbennar_wiki::tags::TagSet;
use anbennar_wiki::tree::parse_document;

fn policy(targets: &[&str], opaque: &[&str], first_match_wins: bool) -> ScanPolicy {
    ScanPolicy {
        targets: targets.iter().map(|s| s.to_string()).collect(),
        opaque: opaque.iter().map(|s| s.to_string()).collect(),
        first_match_wins,
    }
}

fn trigger_tree() -> Value {
    Value::object(vec![Field::new(
        "OR",
        Value::object(vec![
            Field::new("tag", Value::scalar("AAA")),
            Field::new("tag", Value::scalar("BBB")),
        ]),
    )])
}

#[test]
fn scan_finds_tags_under_or() {
    let mut found = TagSet::new();
    scan(&trigger_tree(), &policy(&["tag"], &[], false), &mut found);
    assert_eq!(found.len(), 2);
    assert!(found.contains("AAA"));
    assert!(found.contains("BBB"));
}

#[test]
fn scan_stays_out_of_opaque_keys() {
    let mut found = TagSet::new();
    scan(&trigger_tree(), &policy(&["tag"], &["OR"], false), &mut found);
    assert!(found.is_empty());
    assert_eq!(found.len(), 0);
}

#[test]
fn scan_of_parsed_text_finds_tags_under_or() {
    let document = parse_document(b"trigger = { OR = { tag = \"AAA\" tag = \"BBB\" } }").unwrap();
    let mut found = TagSet::new();
    scan(&document.fields[0].value, &policy(&["tag"], &[], false), &mut found);
    assert_eq!(found.items(), &vec!["AAA".to_string(), "BBB".to_string()]);
    let mut none = TagSet::new();
    scan(&document.fields[0].value, &policy(&["tag"], &["OR"], false), &mut none);
    assert!(none.is_empty());
}

#[test]
fn scan_collapses_duplicates() {
    let document = parse_document(b"a = { tag = AAA b = { tag = AAA was_tag = CCC } }").unwrap();
    let mut found = TagSet::new();
    scan(&document.fields[0].value, &policy(&["tag", "was_tag"], &[], false), &mut found);
    assert_eq!(found.items(), &vec!["AAA".to_string(), "CCC".to_string()]);
}

#[test]
fn scan_skips_a_target_that_is_no_text() {
    let document = parse_document(b"a = { tag = { x = y } tag = BBB }").unwrap();
    let mut found = TagSet::new();
    scan(&document.fields[0].value, &policy(&["tag"], &[], false), &mut found);
    assert_eq!(found.items(), &vec!["BBB".to_string()]);
}

#[test]
fn scan_ignores_scalars_and_arrays() {
    let document = parse_document(b"a = tag b = { tag other }").unwrap();
    let mut found = TagSet::new();
    scan(&document.fields[0].value, &policy(&["tag"], &[], false), &mut found);
    scan(&document.fields[1].value, &policy(&["tag"], &[], false), &mut found);
    assert!(found.is_empty());
}

#[test]
fn first_match_ends_the_walk_of_an_object() {
    let document = parse_document(
        b"d = { effect = { change_tag = Z35 other = { change_tag = Z36 } } later = { change_tag = Z37 } }",
    )
    .unwrap();
    let mut found = TagSet::new();
    scan(&document.fields[0].value, &policy(&["change_tag"], &[], true), &mut found);
    assert_eq!(found.items(), &vec!["Z35".to_string(), "Z37".to_string()]);
}

#[test]
fn end_game_tags_reads_the_trigger() {
    let document = Document {
        fields: vec![
            Field::new("other", trigger_tree()),
            Field::new("was_never_end_game_tag_trigger", trigger_tree()),
        ],
    };
    let tags = end_game_tags(&document);
    assert!(tags.contains("AAA"));
    assert!(tags.contains("BBB"));
    assert_eq!(tags.len(), 2);
}

#[test]
fn end_game_tags_of_a_file_without_the_trigger() {
    let document = parse_document(b"some_trigger = { tag = Z01 }").unwrap();
    assert!(end_game_tags(&document).is_empty());
}

#[test]
fn test_parse_end_game_tags() {
    let document = parse_document(
        b"x = { tag = A00 }\nwas_never_end_game_tag_trigger = { NOT = { was_tag = Z01 tag = Z02 } }\nwas_never_end_game_tag_trigger = { tag = Z03 }",
    )
    .unwrap();
    let tags = end_game_tags(&document);
    assert!(tags.len() > 0);
    assert!(tags.contains("Z01"));
    assert_eq!(tags.items(), &vec!["Z01".to_string(), "Z02".to_string()]);
}

#[test]
fn test_parse_formable_tags() {
    let decisions = parse_document(
        b"country_decisions = { form_rosande = { potential = { change_tag = A01 } allow = { change_tag = A02 } provinces_to_highlight = { change_tag = A03 } effect = { change_tag = Z35 add_prestige = 25 } } }",
    )
    .unwrap();
    let events = parse_document(
        b"namespace = flavor\ncountry_event = { id = flavor.1 option = { name = x change_tag = Z01 hidden_effect = { change_tag = Z99 } } }",
    )
    .unwrap();
    let tags = formable_tags(&vec![decisions, events]);
    assert!(tags.len() > 0);
    assert!(tags.contains("Z35"));
    assert!(tags.contains("Z01"));
    assert!(!tags.contains("A01"));
    assert!(!tags.contains("A02"));
    assert!(!tags.contains("A03"));
    assert!(!tags.contains("Z99"));
    assert_eq!(tags.len(), 2);
}

#[test]
fn test_tags_with_missions() {
    let missions = parse_document(
        b"tree_one = { slot = 1 generic = no potential = { OR = { tag = Z43 was_tag = U08 } NOT = { tag = A01 } } some_mission = { trigger = { tag = B02 } } }",
    )
    .unwrap();
    let tags = tags_with_missions(&vec![missions]);
    assert!(tags.contains("Z43"));
    assert!(tags.contains("U08"));
    assert!(!tags.contains("A01"));
    assert!(!tags.contains("B02"));
    assert_eq!(tags.len(), 2);
}

#[test]
fn tag_set_extend_and_insert() {
    let mut a = TagSet::new();
    assert!(a.insert("X".to_string()));
    assert!(!a.insert("X".to_string()));
    let mut b = TagSet::new();
    b.insert("Y".to_string());
    b.insert("X".to_string());
    a.extend(&b);
    assert_eq!(a.items(), &vec!["X".to_string(), "Y".to_string()]);
}
