use std::collections::HashMap;

use anbennar_wiki::lexicon::Lexicon;
use anbennar_wiki::map::{
    Area, Province, Region,
    area_definitions, AreaDefinition, assemble, build_areas, claim_areas, parse_map,
    parse_map_strict, province_history, ProvinceHistory, region_definitions, RegionDefinition,
    super_region_definitions, SuperRegion, SuperRegionDefinition, UnresolvedReference,
};
use anbennar_wiki::tree::parse_document;

fn lexicon(entries: &[(&str, &str)]) -> Lexicon {
    let mut lexicon = Lexicon::new();
    for (key, value) in entries {
        lexicon.insert(key.to_string(), value.to_string());
    }
    lexicon
}

fn area(id: &str, provinces: &[u64]) -> AreaDefinition {
    AreaDefinition { id: id.to_string(), provinces: provinces.to_vec() }
}

fn region(id: &str, areas: &[&str]) -> RegionDefinition {
    RegionDefinition { id: id.to_string(), areas: areas.iter().map(|a| a.to_string()).collect() }
}

fn super_region(id: &str, members: &[&str]) -> SuperRegionDefinition {
    SuperRegionDefinition {
        id: id.to_string(),
        members: members.iter().map(|m| m.to_string()).collect(),
    }
}

/// (super-region, region, area, province) of every province, in order.
fn shape(hierarchy: &[SuperRegion]) -> Vec<(String, String, String, u64)> {
    let mut rows = Vec::new();
    for s in hierarchy {
        for r in &s.regions {
            for a in &r.areas {
                for p in &a.provinces {
                    rows.push((s.id.clone(), r.id.clone(), a.id.clone(), p.id));
                }
            }
        }
    }
    rows
}

fn row(s: &str, r: &str, a: &str, p: u64) -> (String, String, String, u64) {
    (s.to_string(), r.to_string(), a.to_string(), p)
}

#[test]
fn one_super_region_one_region_one_area_two_provinces() {
    let names = lexicon(&[
        ("PROV1", "Adenica"),
        ("PROV2", "Blayscrest"),
        ("PROV_ADJ1", "Adenican"),
        ("adenica_area_name", "Adenica Area"),
        ("r1_name", "Region One"),
        ("sr1", "Super One"),
    ]);
    let mut histories = HashMap::new();
    histories.insert(
        2u64,
        province_history(&parse_document(b"owner = A01\nbase_tax = 3\nis_city = yes").unwrap()),
    );
    let assembly = assemble(
        &vec![area("adenica_area", &[1, 2])],
        &vec![region("r1", &["adenica_area"])],
        &vec![super_region("sr1", &["r1"])],
        &names,
        &histories,
    );
    assert!(assembly.unresolved.is_empty());
    let hierarchy = assembly.super_regions;
    assert_eq!(hierarchy.len(), 1);
    assert_eq!(hierarchy[0].id, "sr1");
    assert_eq!(hierarchy[0].name, "Super One");
    assert!(!hierarchy[0].restrict_charter);
    assert_eq!(hierarchy[0].regions.len(), 1);
    assert_eq!(hierarchy[0].regions[0].id, "r1");
    assert_eq!(hierarchy[0].regions[0].name, "Region One");
    assert_eq!(hierarchy[0].regions[0].areas.len(), 1);
    let taken = &hierarchy[0].regions[0].areas[0];
    assert_eq!(taken.id, "adenica_area");
    assert_eq!(taken.name, "Adenica Area");
    assert_eq!(taken.provinces.len(), 2);
    assert_eq!(taken.provinces[0].id, 1);
    assert_eq!(taken.provinces[0].name, "Adenica");
    assert_eq!(taken.provinces[0].adj, "Adenican");
    assert!(taken.provinces[0].history.is_none());
    assert_eq!(taken.provinces[1].id, 2);
    assert_eq!(taken.provinces[1].name, "Blayscrest");
    assert_eq!(taken.provinces[1].adj, "");
    let history = taken.provinces[1].history.as_ref().unwrap();
    assert_eq!(history.owner, Some("A01".to_string()));
    assert_eq!(history.base_tax, Some(3));
    assert_eq!(history.is_city, Some(true));
    assert_eq!(history.culture, None);
}

#[test]
fn a_region_whose_area_does_not_exist_is_absent() {
    let assembly = assemble(
        &vec![area("a1", &[1])],
        &vec![region("r1", &["a1"]), region("r2", &["missing_area"])],
        &vec![super_region("sr1", &["r1", "r2"])],
        &Lexicon::new(),
        &HashMap::new(),
    );
    assert_eq!(shape(&assembly.super_regions), vec![row("sr1", "r1", "a1", 1)]);
    assert_eq!(assembly.unresolved, vec!["missing_area".to_string(), "r2".to_string()]);
}

#[test]
fn a_second_claim_of_the_same_unit_does_not_resolve() {
    let assembly = assemble(
        &vec![area("a1", &[1, 2, 2]), area("a2", &[2, 3]), area("a1", &[4])],
        &vec![region("r1", &["a1", "a2"]), region("r2", &["a1"]), region("r3", &["a2"])],
        &vec![
            super_region("sr1", &["r1", "restrict_charter"]),
            super_region("sr2", &["r1"]),
            super_region("sr3", &["restrict_charter"]),
        ],
        &Lexicon::new(),
        &HashMap::new(),
    );
    assert_eq!(
        shape(&assembly.super_regions),
        vec![row("sr1", "r1", "a1", 1), row("sr1", "r1", "a1", 2), row("sr1", "r1", "a2", 3)]
    );
    assert!(assembly.super_regions[0].restrict_charter);
    assert_eq!(
        assembly.unresolved,
        vec!["a1".to_string(), "a2".to_string(), "r1".to_string()]
    );
}

#[test]
fn units_that_no_parent_claims_are_dropped() {
    let assembly = assemble(
        &vec![area("a1", &[1]), area("orphan_area", &[2]), area("empty_area", &[])],
        &vec![region("r1", &["a1", "empty_area"]), region("orphan_region", &["orphan_area"])],
        &vec![super_region("sr1", &["r1"]), super_region("empty_sr", &[])],
        &Lexicon::new(),
        &HashMap::new(),
    );
    assert_eq!(assembly.super_regions.len(), 1);
    assert_eq!(assembly.super_regions[0].regions[0].areas.len(), 2);
    assert_eq!(shape(&assembly.super_regions), vec![row("sr1", "r1", "a1", 1)]);
    assert!(assembly.unresolved.is_empty());
}

#[test]
fn assembling_twice_gives_the_same_hierarchy() {
    let areas = vec![area("a1", &[3, 1]), area("a2", &[2]), area("a3", &[5, 4])];
    let regions = vec![region("r1", &["a2", "a1"]), region("r2", &["a3", "a9"])];
    let supers = vec![super_region("s1", &["r2"]), super_region("s2", &["r1", "r2"])];
    let names = lexicon(&[("PROV3", "Three"), ("a1_name", "Area One")]);
    let first = assemble(&areas, &regions, &supers, &names, &HashMap::new());
    let second = assemble(&areas, &regions, &supers, &names, &HashMap::new());
    assert_eq!(shape(&first.super_regions), shape(&second.super_regions));
    assert_eq!(first.unresolved, second.unresolved);
    assert_eq!(
        shape(&first.super_regions),
        vec![
            row("s1", "r2", "a3", 5),
            row("s1", "r2", "a3", 4),
            row("s2", "r1", "a2", 2),
            row("s2", "r1", "a1", 3),
            row("s2", "r1", "a1", 1),
        ]
    );
    assert_eq!(first.super_regions[1].regions[0].areas[1].provinces[0].name, "Three");
    assert_eq!(first.super_regions[1].regions[0].areas[1].name, "Area One");
}

#[test]
fn the_map_files_are_read_into_definitions() {
    let areas = parse_document(
        b"adenica_area = { 1 2 }\ncolored_area = { color = { 10 20 30 } 3 4 }\nempty_area = { }\nodd_area = yes",
    )
    .unwrap();
    assert_eq!(
        area_definitions(&areas),
        vec![
            area("adenica_area", &[1, 2]),
            area("colored_area", &[3, 4]),
            area("empty_area", &[]),
            area("odd_area", &[]),
        ]
    );
    let regions = parse_document(
        b"r1 = { areas = { adenica_area colored_area } monsoon = { 00.06.01 00.09.30 } }\nr2 = { }\nr3 = { areas = { a } areas = { b } }",
    )
    .unwrap();
    assert_eq!(
        region_definitions(&regions),
        vec![region("r1", &["adenica_area", "colored_area"]), region("r2", &[]), region("r3", &["a", "b"])]
    );
    let supers = parse_document(b"sr1 = { r1 restrict_charter }\nsr2 = { }").unwrap();
    assert_eq!(
        super_region_definitions(&supers),
        vec![super_region("sr1", &["r1", "restrict_charter"]), super_region("sr2", &[])]
    );
}

#[test]
fn test_parse_map() {
    let areas = parse_document(b"adenica_area = { 1 2 }\nother_area = { 3 }").unwrap();
    let regions =
        parse_document(b"r1 = { areas = { adenica_area } }\nr2 = { areas = { nowhere } }").unwrap();
    let supers = parse_document(b"sr1 = { r1 restrict_charter }").unwrap();
    let names = lexicon(&[("PROV1", "Adenica"), ("PROV2", "Blayscrest")]);
    let map = parse_map(&areas, &regions, &supers, &names, &HashMap::new());
    assert_eq!(
        shape(&map),
        vec![row("sr1", "r1", "adenica_area", 1), row("sr1", "r1", "adenica_area", 2)]
    );
    assert!(map[0].restrict_charter);
    assert_eq!(map[0].regions[0].areas[0].provinces[1].name, "Blayscrest");
    let strict = parse_map_strict(&areas, &regions, &supers, &names, &HashMap::new());
    assert_eq!(strict.err(), Some(UnresolvedReference { id: "nowhere".to_string() }));
    let sound_regions = parse_document(b"r1 = { areas = { adenica_area } }").unwrap();
    let strict = parse_map_strict(&areas, &sound_regions, &supers, &names, &HashMap::new());
    assert_eq!(shape(&strict.unwrap()), shape(&map));
}

#[test]
fn province_history_takes_the_last_owner_and_the_first_culture() {
    let history: ProvinceHistory = province_history(
        &parse_document(
            b"owner = A01\nculture = first\nowner = B02\nculture = second\ntrade_goods = grain\ntrade_goods = { }\nbase_tax = x\nis_city = no\n1444.1.1 = { owner = C03 }",
        )
        .unwrap(),
    );
    assert_eq!(history.owner, Some("B02".to_string()));
    assert_eq!(history.culture, Some("first".to_string()));
    assert_eq!(history.trade_goods, None);
    assert_eq!(history.base_tax, None);
    assert_eq!(history.is_city, Some(false));
    assert_eq!(history.controller, None);
}

#[test]
fn membership_is_exclusive_and_no_group_is_empty() {
    let assembly = assemble(
        &vec![
            area("a1", &[1, 2, 2, 3]),
            area("a2", &[3, 4]),
            area("a3", &[1, 5]),
            area("a2", &[6]),
            area("a4", &[]),
        ],
        &vec![
            region("r1", &["a1", "a2", "a1"]),
            region("r2", &["a2", "a3"]),
            region("r1", &["a4"]),
            region("r3", &["a4", "a9"]),
            region("r4", &[]),
        ],
        &vec![
            super_region("s1", &["r1", "r2", "r1"]),
            super_region("s2", &["r2", "restrict_charter"]),
            super_region("s1", &["r3", "r4"]),
        ],
        &Lexicon::new(),
        &HashMap::new(),
    );
    let rows = shape(&assembly.super_regions);
    let mut provinces: Vec<u64> = rows.iter().map(|r| r.3).collect();
    provinces.sort();
    assert_eq!(provinces, vec![1, 2, 3, 4, 5]);
    let mut areas = Vec::new();
    let mut regions = Vec::new();
    for s in &assembly.super_regions {
        assert!(!s.regions.is_empty());
        for r in &s.regions {
            assert!(!r.areas.is_empty());
            regions.push(r.id.clone());
            for a in &r.areas {
                areas.push(a.id.clone());
            }
        }
    }
    areas.sort();
    regions.sort();
    assert_eq!(areas, vec!["a1", "a2", "a3"]);
    assert_eq!(regions, vec!["r1", "r2"]);
    let ids: Vec<&str> = assembly.super_regions.iter().map(|s| s.id.as_str()).collect();
    assert_eq!(ids, vec!["s1"]);
    assert_eq!(
        assembly.unresolved,
        vec!["a1", "a2", "a4", "a9", "r1", "r2", "r3", "r4"]
    );
}

#[test]
fn a_claim_takes_a_unit_out_of_the_pool() {
    let mut pool = build_areas(
        &vec![area("a1", &[1]), area("a2", &[2]), area("a3", &[3])],
        &Lexicon::new(),
        &HashMap::new(),
    );
    let mut unresolved = vec!["earlier".to_string()];
    let references = vec!["a3".to_string(), "a1".to_string(), "a3".to_string()];
    let taken = claim_areas(&references, &mut pool, &mut unresolved);
    let taken_ids: Vec<&str> = taken.iter().map(|a| a.id.as_str()).collect();
    let left: Vec<&str> = pool.iter().map(|a| a.id.as_str()).collect();
    assert_eq!(taken_ids, vec!["a3", "a1"]);
    assert_eq!(left, vec!["a2"]);
    assert_eq!(unresolved, vec!["earlier", "a3"]);
}

#[test]
fn units_are_what_their_identifiers_say() {
    let province = |id: u64, name: &str| Province {
        id,
        name: name.to_string(),
        adj: String::new(),
        history: None,
    };
    assert!(province(1, "Adenica") == province(1, "Blayscrest"));
    assert!(province(1, "Adenica") != province(2, "Adenica"));
    let area = |id: &str, name: &str, provinces: Vec<Province>| Area {
        id: id.to_string(),
        name: name.to_string(),
        provinces,
    };
    assert!(area("a", "One", vec![province(1, "x")]) == area("a", "Two", vec![]));
    assert!(area("a", "One", vec![]) != area("b", "One", vec![]));
    let region = |id: &str, name: &str| Region {
        id: id.to_string(),
        name: name.to_string(),
        areas: vec![],
    };
    assert!(region("r", "One") == region("r", "Two"));
    assert!(region("r", "One") != region("s", "One"));
}
