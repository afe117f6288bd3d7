use anbennar_wiki::countries::parse_country_tags;
use anbennar_wiki::lexicon::Lexicon;
use anbennar_wiki::localisation::{
    colourise, Localisations, parse_all_localisations, parse_country_localisations,
    parse_localisation_file,
};

#[test]
fn test_parse_localisation_file() {
    let data = "l_english:\n Z35:0 \"R\u{f3}sande\"\n Z35_ADJ:0 \"R\u{f3}sanda\"\n";
    let parsed = parse_localisation_file(data);
    assert_eq!(parsed.get("Z35").unwrap_or(&"".to_string()), &"R\u{f3}sande".to_string());
    assert_eq!(parsed.get("Z35_ADJ").unwrap_or(&"".to_string()), &"R\u{f3}sanda".to_string());
    let data = "l_english:\n dwarven_pantheon.4.t:0 \"A Title\"\n dwarven_pantheon.4.d:0 \"The hold's priests say \\\"wait\\\".\\nThe king says: go.\"\n";
    let parsed = parse_localisation_file(data);
    assert_eq!(
        parsed.get("dwarven_pantheon.4.d").unwrap_or(&"".to_string()),
        "The hold's priests say \\\"wait\\\".\\nThe king says: go."
    );
}

#[test]
fn test_parse_single() {
    // test an entry with unusual properties
    let data = "l_english:\n   ABC:00001     \t\"HEL\"LO\\n\" \t  # this is a comment";
    let parsed = parse_localisation_file(data);
    assert_eq!(parsed.get("ABC").unwrap(), "HEL\"LO\\n");
}

#[test]
fn test_inline_comments() {
    let data = "l_english:\n aw_haunted_house.120.t:0 \"The Starless Night\" # the title\n aw_haunted_house.120.d:0 \"Dark.\"\n";
    let parsed = parse_localisation_file(data);
    assert_eq!(parsed.get("aw_haunted_house.120.t").unwrap(), "The Starless Night");
}

#[test]
fn lines_that_hold_no_entry_are_passed_over() {
    let data = "FIRST:0 \"the first line is passed over\"\r\n\r\n# COMMENT:0 \"x\"\r\nno colon here\r\n:0 \"no key\"\r\n KEY:0 \"value\"\r\nSHORT:0 x\nEMPTY:\nKEY2:1 \"a: b\"";
    let parsed = parse_localisation_file(data);
    assert_eq!(parsed.len(), 4);
    assert!(parsed.get("FIRST").is_none());
    assert_eq!(parsed.get("KEY").unwrap(), "value");
    assert_eq!(parsed.get("SHORT").unwrap(), "");
    assert_eq!(parsed.get("EMPTY").unwrap(), "");
    assert_eq!(parsed.get("KEY2").unwrap(), "a: b");
}

#[test]
fn a_later_entry_replaces_an_earlier_one() {
    let parsed = parse_localisation_file("l_english:\n A:0 \"one\"\n B:0 \"two\"\n A:0 \"three\"");
    assert_eq!(parsed.len(), 2);
    assert_eq!(parsed.get("A").unwrap(), "three");
    assert_eq!(parsed.key_at(0), "A");
    assert_eq!(parsed.key_at(1), "B");
    assert_eq!(parsed.value_at(0), "three");
}

#[test]
fn the_value_is_cut_as_the_format_asks() {
    let parsed = parse_localisation_file(
        "l_english:\n A:0 \"plain\"\n B:12 unquoted text\n C:0 \"one\" and \"two\" # c\n D:0 \"\"\n E:\u{662}\u{663} \"digits of another script\"\n F:0 \"R\u{f3}\"",
    );
    assert_eq!(parsed.get("A").unwrap(), "plain");
    assert_eq!(parsed.get("B").unwrap(), "unquoted text");
    assert_eq!(parsed.get("C").unwrap(), "one\" and \"two");
    assert_eq!(parsed.get("D").unwrap(), "");
    assert_eq!(parsed.get("E").unwrap(), "digits of another script");
    assert_eq!(parsed.get("F").unwrap(), "R\u{f3}");
}

#[test]
fn test_parse_all_localisations() {
    let files = vec![
        "l_english:\n regent_court:0 \"Regent Court\"\n shared:0 \"first\"".to_string(),
        "l_english:\n dwarven_pantheon:0 \"Dwarven Pantheon\"\n shared:0 \"second\"".to_string(),
    ];
    let parsed = parse_all_localisations(&files);
    assert_eq!(parsed.get("regent_court").unwrap(), "Regent Court");
    assert_eq!(parsed.get("dwarven_pantheon").unwrap(), "Dwarven Pantheon");
    assert_eq!(parsed.get("shared").unwrap(), "second");
    assert_eq!(parsed.len(), 3);
}

#[test]
fn lexicon_extend_prefers_the_other_table() {
    let mut a = Lexicon::new();
    a.insert("k".to_string(), "old".to_string());
    a.insert("only_a".to_string(), "a".to_string());
    let mut b = Lexicon::new();
    b.insert("k".to_string(), "new".to_string());
    b.insert("only_b".to_string(), "b".to_string());
    a.extend(&b);
    assert_eq!(a.get("k").unwrap(), "new");
    assert_eq!(a.text("only_a"), "a");
    assert_eq!(a.text("only_b"), "b");
    assert_eq!(a.text("missing"), "");
    assert_eq!(a.len(), 3);
}

#[test]
fn test_parse_country_localisations() {
    let parsed = parse_localisation_file(
        "l_english:\n A01:0 \"Lorent\"\n A01_ADJ:0 \"Lorentish\"\n B02_ADJ:0 \"Second\"\n B02:0 \"Two\"\n some_long_key:0 \"ignored\"\n",
    );
    let countries = parse_country_localisations(&parsed);
    assert_eq!(countries.len(), 2);
    for country in &countries {
        assert_ne!(country.tag, "");
        assert_ne!(country.name, "");
        assert_ne!(country.adjective, "");
    }
    assert_eq!(countries[0].tag, "A01");
    assert_eq!(countries[0].name, "Lorent");
    assert_eq!(countries[0].adjective, "Lorentish");
    assert_eq!(countries[1].tag, "B02");
    assert_eq!(countries[1].name, "Two");
    assert_eq!(countries[1].adjective, "Second");
}

#[test]
fn a_country_without_a_name_is_added_only_for_its_adjective() {
    let parsed = parse_localisation_file("l_english:\n C03:0 \"\"\n D04:0 \"\"\n D04_ADJ:0 \"Fourth\"\n");
    let countries = parse_country_localisations(&parsed);
    assert_eq!(countries.len(), 1);
    assert_eq!(countries[0].tag, "D04");
    assert_eq!(countries[0].name, "");
    assert_eq!(countries[0].adjective, "Fourth");
}

#[test]
fn test_colourise() {
    let start = "The \u{a7}YKingdom of Lorent\u{a7}! stands. \u{a7}RWar\u{a7}! and \u{a7}Gpeace\u{a7}!.".to_string();
    assert_eq!(
        colourise(&start),
        "The <span class=\"yellow\">Kingdom of Lorent</span> stands. <span class=\"red\">War</span> and <span class=\"green\">peace</span>."
    );
}

#[test]
fn colourise_knows_every_colour_and_leaves_the_rest() {
    let codes = [
        ('W', "white"),
        ('B', "blue"),
        ('G', "green"),
        ('R', "red"),
        ('b', "black"),
        ('g', "grey"),
        ('Y', "yellow"),
        ('M', "marine"),
        ('T', "teal"),
        ('O', "orange"),
        ('l', "lime"),
        ('J', "jade"),
        ('P', "purple"),
        ('V', "violet"),
    ];
    for (code, class) in codes {
        let input = format!("\u{a7}{}x\u{a7}!", code);
        assert_eq!(colourise(&input), format!("<span class=\"{}\">x</span>", class));
    }
    assert_eq!(colourise(&"plain".to_string()), "plain");
    assert_eq!(colourise(&"\u{a7}Zx\u{a7}!".to_string()), "\u{a7}Zx\u{a7}!");
    assert_eq!(colourise(&"\u{a7}Y\u{a7}!".to_string()), "\u{a7}Y\u{a7}!");
}

#[test]
fn test_parse_country_tags() {
    let tags = parse_country_tags(
        "# Countries\nA01 = \"countries/Lorent.txt\"\n\n  B02\t= \"countries/Second.txt\" # note\nNPC = \"countries/NPC.txt\"\nC03 = countries/unquoted.txt\nD04 = \"one quote\nE5\n",
    );
    assert_eq!(
        tags,
        vec![
            ("A01".to_string(), "countries/Lorent.txt".to_string()),
            ("B02".to_string(), "countries/Second.txt".to_string()),
        ]
    );
    assert!(parse_country_tags("").is_empty());
}

#[test]
fn the_tables_start_empty() {
    let tables = Localisations::default();
    assert_eq!(tables.countries.len(), 0);
    assert_eq!(tables.ideas.len(), 0);
    assert_eq!(tables.cultures.len(), 0);
}

#[test]
fn test_parse_idea_localisations() {
    let parsed = parse_localisation_file(
        "l_english:\n A01_romance_and_chivalry:0 \"Romance & Chivalry\"\n A01_romance_and_chivalry_desc:0 \"Knights.\"\n",
    );
    assert_eq!(parsed.get("A01_romance_and_chivalry").unwrap(), "Romance & Chivalry");
}

#[test]
fn test_parse_culture_localisations() {
    let parsed = parse_localisation_file(
        "\u{feff}l_english:\n moon_elf:0 \"Moon Elf\"\n stalboric:0 \"Stalb\u{f3}ric\"\n",
    );
    assert_eq!(parsed.get("moon_elf").unwrap(), "Moon Elf");
    assert_eq!(parsed.get("stalboric").unwrap(), "Stalb\u{f3}ric");
}

#[test]
fn test_parse_religion_localisations() {
    let parsed = parse_localisation_file(
        "l_english:\n regent_court:0 \"Regent Court\"\n suhans_praxis:0 \"Suhan's Praxis\"\n",
    );
    assert_eq!(parsed.get("regent_court").unwrap(), "Regent Court");
    assert_eq!(parsed.get("suhans_praxis").unwrap(), "Suhan's Praxis");
}
