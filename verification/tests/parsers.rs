use anbennar_wiki::continents::{parse_continents, parse_continents_inverse};
use anbennar_wiki::countries::{history_tag, parse_country_histories, parse_history_for_tag};
use anbennar_wiki::events::{Event, event_set, parse_events};
use anbennar_wiki::governments::{
    governments, parse_government, parse_government_reform_file, parse_government_reforms,
    parse_governments,
};
use anbennar_wiki::greatprojects::{parse_all_great_projects, parse_great_projects};
use anbennar_wiki::ideas::{Effect, parse_ideas, put_effect, read_idea_set};
use anbennar_wiki::lexicon::Lexicon;
use anbennar_wiki::map::{parse_province_histories, province_id};
use anbennar_wiki::missions::{mission_trees, parse_mission_file};
use anbennar_wiki::tree::parse_document;

fn effect(key: &str, value: &str) -> Effect {
    Effect { key: key.to_string(), value: value.to_string() }
}

fn strings(list: &[&str]) -> Vec<String> {
    list.iter().map(|s| s.to_string()).collect()
}

#[test]
fn test_mission_parse() {
    let data = b"adenica_missions = {\n slot = 1\n generic = no\n ai = yes\n has_country_shield = yes\n potential = { tag = A33 }\n potential_on_load = { has_dlc = x }\n retake_taxwick = {\n  icon = mission_conquer\n  position = 2\n  required_missions = { first_step second_step }\n  provinces_to_highlight = { province_id = 1 }\n  trigger = { owns = 1 }\n  effect = { add_prestige = 10 }\n }\n no_mission = { icon = only_an_icon }\n second = { trigger = { } required_missions = { } }\n}\nspare = yes\n";
    let actual = parse_mission_file(data).unwrap();
    for tree in &actual {
        assert_eq!(tree.generic, false);
    }
    assert_eq!(actual.len(), 2);
    let tree = &actual[0];
    assert!(tree.ai);
    assert!(tree.has_country_shield);
    assert_eq!(tree.slot, Some(1));
    assert_eq!(tree.missions.len(), 2);
    let mission = &tree.missions[0];
    assert_eq!(mission.id, "retake_taxwick");
    assert_eq!(mission.icon, Some("mission_conquer".to_string()));
    assert_eq!(mission.position, Some(2));
    assert_eq!(mission.required_missions, strings(&["first_step", "second_step"]));
    assert_eq!(mission.completed_by, None);
    assert_eq!(mission.trigger, None);
    assert_eq!(mission.effect, None);
    assert_eq!(tree.missions[1].id, "second");
    assert_eq!(tree.missions[1].position, None);
    assert!(actual[1].missions.is_empty());
    assert_eq!(actual[1].slot, None);
}

#[test]
fn test_all_missions_parse() {
    let files: Vec<&[u8]> = vec![
        b"a = { slot = 2 m1 = { position = 1 } m2 = { position = 2 } }",
        b"b = { generic = yes m3 = { trigger = { } } }",
    ];
    for data in files {
        let trees = parse_mission_file(data).unwrap();
        for tree in trees {
            for mission in tree.missions {
                assert!(!mission.id.is_empty())
            }
        }
    }
    assert!(parse_mission_file(b"a{b=}").is_none());
    let document = parse_document(b"b = { generic = yes generic = no }").unwrap();
    assert!(mission_trees(&document)[0].generic);
}

#[test]
fn test_governments_parse() {
    let data = b"monarchy = {\n basic_reform = monarchy_mechanic\n color = { 1 2 3 }\n reform_levels = {\n  power_structure = { reforms = { feudalism_reform autocracy_reform } }\n  noble_privileges = { reforms = { strengthen_noble_privileges } }\n  empty_level = { }\n }\n}\npre_dharma_mapping = { }\n";
    let list = parse_government(data).unwrap();
    assert_eq!(list.len(), 2);
    assert_eq!(list[0].id, "monarchy");
    assert_eq!(list[0].reform_levels.len(), 3);
    assert_eq!(list[0].reform_levels[0].id, "power_structure");
    assert_eq!(list[0].reform_levels[0].reforms, strings(&["feudalism_reform", "autocracy_reform"]));
    assert_eq!(list[0].reform_levels[1].reforms, strings(&["strengthen_noble_privileges"]));
    assert!(list[0].reform_levels[2].reforms.is_empty());
    assert_eq!(list[0].basic_reform, "");
    assert!(list[0].color.is_empty());
    assert_eq!(list[1].id, "pre_dharma_mapping");
    assert!(list[1].reform_levels.is_empty());
    assert!(parse_government(b"a{b=}").is_none());
}

#[test]
fn a_second_block_of_tiers_counts_from_one_again() {
    let document = parse_document(
        b"g = { reform_levels = { a = { } b = { } c = { } } reform_levels = { x = { reforms = { r } } } }",
    )
    .unwrap();
    let list = governments(&document);
    let ids: Vec<&str> = list[0].reform_levels.iter().map(|l| l.id.as_str()).collect();
    assert_eq!(ids, vec!["x", "b", "c"]);
    assert_eq!(list[0].reform_levels[0].reforms, strings(&["r"]));
}

#[test]
fn test_government_reform_parse() {
    let data = b"defaults_reform = { icon = none }\nfeudalism_reform = {\n icon = \"feudalism\"\n potential = { has_reform = feudalism_reform OR = { tag = A01 } }\n modifiers = { Discipline = 0.05 not_a_modifier = 1 vassal_income = { } advisor_pool = 1 }\n modifiers = { discipline = 0.1 }\n}\nbare_reform = yes\n";
    let mut localisations = Lexicon::new();
    localisations.insert("feudalism_reform".to_string(), "Feudal Nobility".to_string());
    localisations.insert("feudalism_reform_desc".to_string(), "Lords and vassals.".to_string());
    let reforms = parse_government_reform_file(data, Some(&localisations)).unwrap();
    for reform in &reforms {
        assert!(!reform.id.is_empty());
    }
    assert_eq!(reforms.len(), 2);
    let feudal = &reforms[0];
    assert_eq!(feudal.id, "feudalism_reform");
    assert_eq!(feudal.name, Some("Feudal Nobility".to_string()));
    assert_eq!(feudal.desc, Some("Lords and vassals.".to_string()));
    assert_eq!(feudal.icon, Some("feudalism".to_string()));
    assert_eq!(
        feudal.modifiers,
        vec![effect("Discipline", "0.05"), effect("advisor_pool", "1"), effect("discipline", "0.1")]
    );
    let potential = feudal.potential.as_ref().unwrap().as_object().unwrap();
    assert_eq!(potential.len(), 2);
    assert_eq!(potential[0].key, "has_reform");
    assert_eq!(feudal.basic_reform, None);
    assert_eq!(feudal.monarchy, None);
    assert_eq!(reforms[1].id, "bare_reform");
    assert_eq!(reforms[1].name, None);
    assert!(reforms[1].modifiers.is_empty());
    assert!(reforms[1].potential.is_none());
    let unnamed = parse_government_reform_file(data, None).unwrap();
    assert_eq!(unnamed[0].name, None);
    assert_eq!(unnamed[0].desc, None);
}

#[test]
fn files_that_do_not_parse_are_passed_over() {
    let files = vec![b"a = { }".to_vec(), b"a{b=}".to_vec(), b"b = { } c = { }".to_vec()];
    let governments = parse_governments(&files);
    let ids: Vec<&str> = governments.iter().map(|g| g.id.as_str()).collect();
    assert_eq!(ids, vec!["a", "b", "c"]);
    let reforms = parse_government_reforms(&files, None);
    assert_eq!(reforms.len(), 3);
    let projects = parse_all_great_projects(&files);
    assert_eq!(projects.len(), 3);
}

#[test]
fn test_great_projects() {
    let data = b"teal_keep = {\n start = 123\n starting_tier = 1\n type = monument\n tier_1 = {\n  upgrade_time = { months = 120 }\n  cost_to_upgrade = { factor = 1000 }\n  province_modifiers = { local_defensiveness = 0.1 }\n  area_modifier = { }\n  country_modifiers = { prestige = 0.5 prestige = 1 }\n  on_upgraded = { }\n }\n tier_2 = yes\n tier_3 = { upgrade_time = { months = soon } }\n}\nbare = 1\n";
    let projects = parse_great_projects(data).unwrap();
    assert_eq!(projects.len(), 2);
    let keep = &projects[0];
    assert_eq!(keep.id, "teal_keep");
    assert_eq!(keep.start, Some(123));
    assert_eq!(keep.starting_tier, Some(1));
    assert_eq!(keep.project_type, "monument");
    assert!(keep.sprite.is_none());
    let tier = keep.tier_1.as_ref().unwrap();
    assert_eq!(tier.upgrade_time, Some(120));
    assert_eq!(tier.cost_to_upgrade, Some(1000));
    assert_eq!(tier.province_modifiers, vec![effect("local_defensiveness", "0.1")]);
    assert!(tier.area_modifier.is_empty());
    assert!(tier.region_modifier.is_empty());
    assert_eq!(tier.country_modifiers, vec![effect("prestige", "1")]);
    assert!(keep.tier_2.is_none());
    assert_eq!(keep.tier_3.as_ref().unwrap().upgrade_time, None);
    assert_eq!(projects[1].id, "bare");
    assert_eq!(projects[1].start, None);
    assert_eq!(projects[1].project_type, "");
}

#[test]
fn test_idea_parse() {
    let document = parse_document(
        b"A01_ideas = {\n start = { cavalry_power = 0.1 prestige = 1 }\n bonus = { discipline = 0.05 }\n trigger = { OR = { tag = A01 TAG = A02 was_tag = A03 } tag = A04 }\n free = yes\n i1 = { morale = 0.1 } i2 = { a = 1 custom = { } } i3 = { } i4 = { } i5 = { } i6 = { } i7 = { b = 2 b = 3 }\n}\nloose = yes\n",
    )
    .unwrap();
    let actual = parse_ideas(&document);
    assert_eq!(actual.idea_sets.len(), 3);
    for i in 0..actual.idea_sets.len() {
        let set = actual.idea_sets.value_at(i);
        assert_ne!(set.name, "");
        assert_ne!(set.start.len(), 0);
        assert_ne!(set.tags.len(), 0);
        assert_eq!(set.ideas.len(), 7);
    }
    let set = actual.idea_sets.get("A02").unwrap();
    assert_eq!(set.name, "A01_ideas");
    assert_eq!(set.tags, strings(&["A01", "A02", "A04"]));
    assert_eq!(set.start, vec![effect("cavalry_power", "0.1"), effect("prestige", "1")]);
    assert_eq!(set.bonus, vec![effect("discipline", "0.05")]);
    assert_eq!(set.ideas[0].name, "i1");
    assert_eq!(set.ideas[0].description, "");
    assert_eq!(set.ideas[0].effects, vec![effect("morale", "0.1")]);
    assert_eq!(set.ideas[1].effects, vec![effect("a", "1")]);
    assert_eq!(set.ideas[6].effects, vec![effect("b", "3")]);
    assert!(actual.idea_sets.get("A03").is_none());
    let loose = read_idea_set(&document.fields[1]);
    assert_eq!(loose.name, "loose");
    assert!(loose.tags.is_empty());
    assert!(loose.ideas.is_empty());
}

#[test]
fn an_effect_is_stored_in_the_place_of_one_with_the_same_key() {
    let mut effects = vec![effect("a", "1"), effect("b", "2")];
    put_effect(&mut effects, "a".to_string(), "3".to_string());
    put_effect(&mut effects, "c".to_string(), "4".to_string());
    assert_eq!(effects, vec![effect("a", "3"), effect("b", "2"), effect("c", "4")]);
}

#[test]
fn test_events_parse() {
    let files = vec![
        b"namespace = flavor_lorent\ncountry_event = { id = flavor_lorent.1 title = first title = flavor_lorent.1.t desc = x }\nprovince_event = { id = p.1 title = p.1.t }\ncountry_event = { id = flavor_lorent.2 }\ncountry_event = { id = flavor_lorent.3 title = t3 }".to_vec(),
        b"namespace = empty".to_vec(),
        b"a{b=}".to_vec(),
    ];
    let event_sets = parse_events(&files);
    assert!(event_sets.len() > 0);
    assert_eq!(event_sets.len(), 1);
    assert_eq!(
        event_sets[0].events,
        vec![
            Event { id: "flavor_lorent.1".to_string(), title: "flavor_lorent.1.t".to_string() },
            Event { id: "flavor_lorent.3".to_string(), title: "t3".to_string() },
        ]
    );
    assert!(event_set(&parse_document(b"namespace = empty").unwrap()).events.is_empty());
}

#[test]
fn test_parse_continents() {
    let document = parse_document(
        b"europe = { 3 1 2 }\nasia = { 10 2 }\nnew_world = { }\nisland_check_provinces = yes\nafrica = { 5 x 4 }",
    )
    .unwrap();
    let continents = parse_continents(&document);
    let expected: Vec<(u64, String)> = vec![
        (1, "europe".to_string()),
        (2, "asia".to_string()),
        (3, "europe".to_string()),
        (4, "africa".to_string()),
        (5, "africa".to_string()),
        (10, "asia".to_string()),
    ];
    assert_eq!(continents, expected);
}

#[test]
fn test_parse_continents_inverse() {
    let document =
        parse_document(b"europe = { 3 1 2 }\nasia = { 10 2 }\nafrica = { 5 4 }").unwrap();
    let inverse = parse_continents_inverse(&parse_continents(&document));
    let expected: Vec<(String, Vec<u64>)> = vec![
        ("europe".to_string(), vec![1, 3]),
        ("asia".to_string(), vec![2, 10]),
        ("africa".to_string(), vec![4, 5]),
    ];
    assert_eq!(inverse, expected);
    assert!(parse_continents_inverse(&Vec::new()).is_empty());
}

#[test]
fn test_parse_province_histories() {
    assert_eq!(province_id("123 - Adenica"), Some(123));
    assert_eq!(province_id("45-Blayscrest"), Some(45));
    assert_eq!(province_id("7"), Some(7));
    assert_eq!(province_id("+8"), Some(8));
    assert_eq!(province_id(" 9"), None);
    assert_eq!(province_id("Adenica"), None);
    assert_eq!(province_id("x - 3"), None);
    assert_eq!(province_id(""), None);
    assert_eq!(province_id("99999999999999999999"), None);
    let files = vec![
        ("1 - Adenica".to_string(), b"owner = A01".to_vec()),
        ("readme".to_string(), b"owner = A02".to_vec()),
        ("2 - Broken".to_string(), b"a{b=}".to_vec()),
        ("1-Again".to_string(), b"owner = A03\nbase_tax = 4".to_vec()),
        ("3".to_string(), b"".to_vec()),
    ];
    let histories = parse_province_histories(&files);
    assert_eq!(histories.len(), 2);
    assert_eq!(histories[&1].owner, Some("A03".to_string()));
    assert_eq!(histories[&1].base_tax, Some(4));
    assert_eq!(histories[&3].owner, None);
    assert!(!histories.contains_key(&2));
}

#[test]
fn test_parse_country_histories() {
    assert_eq!(history_tag("A01 - Lorent.txt"), "A01");
    assert_eq!(history_tag("B02-Second.txt"), "B02");
    assert_eq!(history_tag("plain.txt"), "plain.txt");
    assert_eq!(history_tag(" - x"), "");
    let files = vec![
        ("A01 - Lorent.txt".to_string(), b"government = monarchy".to_vec()),
        ("B02 - Broken.txt".to_string(), b"a{b=}".to_vec()),
        ("A01 - Again.txt".to_string(), b"government = republic".to_vec()),
        ("A010 - Other.txt".to_string(), b"government = tribal".to_vec()),
    ];
    let histories = parse_country_histories(&files);
    assert_eq!(histories.len(), 2);
    assert_eq!(histories.get("A01").unwrap().government, "republic");
    assert_eq!(histories.get("A010").unwrap().government, "tribal");
    assert!(histories.get("B02").is_none());
    let lorent = parse_history_for_tag("A01", &files).unwrap();
    assert_eq!(lorent.government, "monarchy");
    assert!(parse_history_for_tag("B02", &files).is_none());
    assert!(parse_history_for_tag("C03", &files).is_none());
    assert_eq!(parse_history_for_tag("A010", &files).unwrap().government, "tribal");
}
