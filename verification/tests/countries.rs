use anbennar_wiki::countries::{
    country_history, enrich, parse_countries, parse_history_for_tag, CountryHistory,
};
use anbennar_wiki::lexicon::Lexicon;
use anbennar_wiki::table::Table;
use anbennar_wiki::tags::TagSet;
use anbennar_wiki::tree::parse_document;

fn lexicon(entries: &[(&str, &str)]) -> Lexicon {
    let mut lexicon = Lexicon::new();
    for (key, value) in entries {
        lexicon.insert(key.to_string(), value.to_string());
    }
    lexicon
}

fn tags(list: &[&str]) -> Vec<(String, String)> {
    list.iter().map(|t| (t.to_string(), format!("countries/{}.txt", t))).collect()
}

fn history_of(text: &str) -> CountryHistory {
    country_history(&parse_document(text.as_bytes()).unwrap())
}

#[test]
fn test_parse_countries() {
    let mut histories = Table::new();
    histories.insert(
        "A01".to_string(),
        history_of("government = monarchy\nprimary_culture = high_lorentish\nreligion = regent_court"),
    );
    histories.insert("Z99".to_string(), history_of("government = republic"));
    let names = lexicon(&[
        ("A01", "Lorent"),
        ("A01_ADJ", "Lorentish"),
        ("B02", ""),
        ("high_lorentish", "High Lorentish"),
        ("Z99", "Nowhere"),
    ]);
    let mut end_game = TagSet::new();
    end_game.insert("A01".to_string());
    let countries = parse_countries(&tags(&["A01", "B02", "C03"]), &histories, &names, &end_game);
    for country in &countries {
        assert_ne!(country.tag, "");
        assert_ne!(country.name, "");
    }
    assert_eq!(countries.len(), 1);
    let lorent = &countries[0];
    assert_eq!(lorent.tag, "A01");
    assert_eq!(lorent.name, "Lorent");
    assert_eq!(lorent.adjective, "Lorentish");
    assert_eq!(lorent.history.government, "monarchy");
    assert_eq!(lorent.history.primary_culture, "High Lorentish");
    assert_eq!(lorent.history.religion, "regent_court");
    assert!(lorent.end_game_tag);
}

#[test]
fn a_tag_without_a_name_or_outside_the_tag_list_is_left_out() {
    let mut histories = Table::new();
    histories.insert("H01".to_string(), history_of("government = monarchy"));
    histories.insert("T01".to_string(), history_of("government = tribal"));
    let names = lexicon(&[("H01", "History Only"), ("L01", "Listed")]);
    let countries = parse_countries(&tags(&["T01", "L01"]), &histories, &names, &TagSet::new());
    assert_eq!(countries.len(), 1);
    assert_eq!(countries[0].tag, "L01");
    assert_eq!(countries[0].name, "Listed");
    assert_eq!(countries[0].adjective, "");
    assert_eq!(countries[0].history, CountryHistory::default());
    assert!(!countries[0].end_game_tag);
}

#[test]
fn a_tag_that_is_listed_twice_gives_one_country() {
    let mut histories = Table::new();
    histories.insert("A01".to_string(), history_of("government = monarchy"));
    let names = lexicon(&[("A01", "Lorent"), ("B02", "Second")]);
    let countries =
        parse_countries(&tags(&["A01", "B02", "A01"]), &histories, &names, &TagSet::new());
    assert_eq!(countries.len(), 2);
    assert_eq!(countries[0].tag, "A01");
    assert_eq!(countries[1].tag, "B02");
    assert_eq!(countries[0].history.government, "");
}

#[test]
fn test_parse_history_for_tag() {
    let files = vec![
        (
            "A01 - Lorent.txt".to_string(),
            b"government = monarchy\nprimary_culture = high_lorentish\ncapital = 67".to_vec(),
        ),
        (
            "F21 - Birzartanses.txt".to_string(),
            b"primary_culture = bahari\nadd_accepted_culture = bahari\nreligion = bulwari_sun_cult\nadd_accepted_culture = kuzarami\nhistorical_rival = F22\nsetup_vision = yes\ngovernment_rank = 2\n1444.1.1 = { add_accepted_culture = hidden }".to_vec(),
        ),
    ];
    let lorent = parse_history_for_tag("A01", &files).unwrap();
    assert_eq!(lorent.primary_culture, "high_lorentish");
    assert_eq!(lorent.capital, 67);
    let birzartanses = parse_history_for_tag("F21", &files).unwrap();
    assert_eq!(birzartanses.accepted_cultures, vec!["bahari", "kuzarami"]);
    assert_eq!(birzartanses.historical_rivals, vec!["F22"]);
    assert!(birzartanses.setup_vision);
    assert_eq!(birzartanses.government_rank, 2);
    assert!(birzartanses.historical_friends.is_empty());
}

#[test]
fn a_history_field_of_the_wrong_shape_leaves_its_default() {
    let history = history_of("government = { a = b }\ncapital = north\nsetup_vision = maybe\nreligion = first\nreligion = second");
    assert_eq!(history.government, "");
    assert_eq!(history.capital, 0);
    assert!(!history.setup_vision);
    assert_eq!(history.religion, "first");
}

#[test]
fn an_unlocalised_culture_stays_as_it_is() {
    let names = lexicon(&[("A01", "Lorent"), ("regent_court", "Regent Court")]);
    let history = history_of("primary_culture = high_lorentish\nreligion = regent_court");
    let mut end_game = TagSet::new();
    end_game.insert("B02".to_string());
    let country = enrich("A01", history, &names, &end_game).unwrap();
    assert_eq!(country.history.primary_culture, "high_lorentish");
    assert_eq!(country.history.religion, "Regent Court");
    assert_eq!(country.adjective, "");
    assert!(!country.end_game_tag);
    assert!(enrich("B02", CountryHistory::default(), &names, &end_game).is_none());
}
