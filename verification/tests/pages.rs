use anbennar_wiki::continents::parse_continents;
use anbennar_wiki::countries::{Country, parse_countries};
use anbennar_wiki::governments::{government_reforms, governments};
use anbennar_wiki::ideas::parse_ideas;
use anbennar_wiki::lexicon::Lexicon;
use anbennar_wiki::map::parse_map;
use anbennar_wiki::pages::{
    continent_name, country_detail_page, country_list_page, flag_file, flag_upload_name,
    government_page, icon_upload_name, idea_page, is_listed, province_list_page,
    racial_modifiers_page,
};
use anbennar_wiki::sorting::sort_by_tag;
use anbennar_wiki::table::Table;
use anbennar_wiki::tags::TagSet;
use anbennar_wiki::tree::parse_document;
use anbennar_wiki::utils::{get_git_changed_files, git_log_arguments};
use std::collections::HashMap;

fn lexicon(entries: &[(&str, &str)]) -> Lexicon {
    let mut lexicon = Lexicon::new();
    for (key, value) in entries {
        lexicon.insert(key.to_string(), value.to_string());
    }
    lexicon
}

fn tags(list: &[&str]) -> TagSet {
    let mut set = TagSet::new();
    for tag in list {
        set.insert(tag.to_string());
    }
    set
}

fn countries() -> Vec<Country> {
    let list: Vec<(String, String)> =
        ["Z35", "A01", "B02"].iter().map(|t| (t.to_string(), String::new())).collect();
    let names = lexicon(&[
        ("A01", "Lorent"),
        ("Z35", "R\u{f3}sande"),
        ("B02", "Second"),
        ("high_lorentish", "High Lorentish"),
    ]);
    let mut histories = Table::new();
    histories.insert(
        "A01".to_string(),
        anbennar_wiki::countries::country_history(
            &parse_document(b"primary_culture = high_lorentish\nreligion = regent_court").unwrap(),
        ),
    );
    let mut countries = parse_countries(&list, &histories, &names, &tags(&["Z35"]));
    countries[2].name = String::new();
    countries
}

#[test]
fn the_list_of_countries() {
    let mut list = countries();
    sort_by_tag(&mut list);
    let order: Vec<&str> = list.iter().map(|c| c.tag.as_str()).collect();
    assert_eq!(order, vec!["A01", "B02", "Z35"]);
    assert!(is_listed(&list[0]));
    assert!(!is_listed(&list[1]));
    let page = country_list_page(&list, &tags(&["A01"]), &tags(&["Z35"]));
    assert_eq!(page.title, "Countries");
    assert_eq!(
        page.body,
        "{| class=\"wikitable sortable\" style=\"text-align: center;\"\n|-\n! Flag !! Tag !! Name !! Culture !! Religion !! Continent !! Missions !! Formable !! End-game Tag\n|-\n| [[File:A01 Flag.png|link=Lorent|center|64x64px]] || A01 || [[Lorent]] || [[High Lorentish]] || [[regent_court]] || || \u{2705} || \u{274c} || \u{274c}\n|-\n| [[File:Z35 Flag.png|link=Rosande|center|64x64px]] || Z35 || [[Rosande]] || [[]] || [[]] || || \u{274c} || \u{2705} || \u{2705}\n|}\n"
    );
}

#[test]
fn countries_with_the_same_tag_keep_their_order() {
    let mut list = countries();
    let mut twin = countries();
    twin[1].name = "Second Lorent".to_string();
    list.push(twin.remove(1));
    sort_by_tag(&mut list);
    let names: Vec<&str> = list.iter().map(|c| c.name.as_str()).collect();
    assert_eq!(names, vec!["Lorent", "Second Lorent", "", "R\u{f3}sande"]);
}

#[test]
fn the_detail_page_of_a_country() {
    let list = countries();
    let ideas = parse_ideas(
        &parse_document(b"Z35_ideas = { trigger = { tag = Z35 } start = { prestige = 1 } }")
            .unwrap(),
    );
    let names = lexicon(&[("Z35_ideas", "R\u{f3}sande Ideas")]);
    let page = country_detail_page(&list[0], &ideas, &names, &tags(&["Z35"]));
    assert_eq!(page.title, "Rosande");
    assert_eq!(
        page.body,
        "{{Country Detail\n|tag=Z35\n|name=Rosande\n|primary_culture=\n|religion=\n|idea_group=Rosande Ideas\n}}\n\n[[Category:Countries with missions]]\n"
    );
    let page = country_detail_page(&list[1], &ideas, &names, &tags(&[]));
    assert_eq!(page.title, "Lorent");
    assert_eq!(
        page.body,
        "{{Country Detail\n|tag=A01\n|name=Lorent\n|primary_culture=High Lorentish\n|religion=regent_court\n|idea_group=\n}}\n"
    );
}

#[test]
fn the_names_of_flags_and_icons() {
    assert_eq!(flag_file("A01"), "./anbennar/gfx/flags/A01.tga");
    assert_eq!(flag_upload_name("A01"), "A01_Flag.png");
    assert_eq!(icon_upload_name("feudalism.png"), "gov_feudalism.png");
}

#[test]
fn the_page_of_an_idea_set() {
    let document = parse_document(
        b"Z35_ideas = {\n start = { discipline = 0.05 unknown_thing = 1 advisor_pool = 1 }\n bonus = { prestige = 1 army_tradition = 0.5 }\n trigger = { tag = Z35 }\n first_idea = { cavalry_power = 0.1 infantry_power = -0.1 }\n second_idea = { }\n}\nunnamed_ideas = { trigger = { tag = U01 } }",
    )
    .unwrap();
    let sets = parse_ideas(&document);
    let names = lexicon(&[
        ("Z35_ideas", "R\u{f3}sande Ideas"),
        ("first_idea", "First Idea"),
        ("first_idea_desc", "A beginning."),
        ("unnamed_ideas", ""),
    ]);
    let named = idea_page(sets.idea_sets.get("Z35").unwrap(), &names).unwrap();
    assert_eq!(named.page.title, "Rosande Ideas");
    assert_eq!(named.redirect_from, Some("R\u{f3}sande Ideas".to_string()));
    assert_eq!(
        named.page.body,
        "{{National Ideas\n<!-- R\u{f3}sande Ideas -->\n|tradition1name=Discipline\n|tradition1effect=+5%\n|tradition2name=Possible Advisors\n|tradition2effect=+1\n|idea1name=First Idea\n|idea1desc=A beginning.\n|idea1effect={{Modifier|type=bonus|value=+10%|description=Cavalry Combat Ability }}<br />{{Modifier|type=bonus|value=-10%|description=Infantry Combat Ability }}\n|idea2name=second_idea\n|idea2desc=\n|idea2effect=\n|ambitioneffect={{Modifier|type=bonus|value=+1|description=Yearly Prestige }}{{Modifier|type=bonus|value=+0.5|description=Yearly Army Tradition }}}}\n\n<noinclude>[[Category:Country Ideas]]</noinclude>\n"
    );
    assert!(idea_page(sets.idea_sets.get("U01").unwrap(), &names).is_none());
    assert!(idea_page(sets.idea_sets.get("Z35").unwrap(), &Lexicon::new()).is_none());
    let plain_names = lexicon(&[("Z35_ideas", "Plain")]);
    let named = idea_page(sets.idea_sets.get("Z35").unwrap(), &plain_names).unwrap();
    assert_eq!(named.page.title, "Plain");
    assert_eq!(named.redirect_from, None);
}

#[test]
fn the_page_of_racial_modifiers() {
    let document = parse_document(
        b"elven_administration = {\n picture = \"elf\"\n discipline = 0.05\n advisor_cost = 0.1\n advisor_pool = -1\n adm_tech_cost_modifier = -0.05\n not_known = 1\n prestige = { }\n can_fabricate_for_vassals = yes\n}\nelven_military = { }\nhalf_elven_military = { land_morale = 0.1 }\nelven_culture = { discipline = 1 }\nmilitary = 1\n",
    )
    .unwrap();
    let page = racial_modifiers_page(&document);
    assert_eq!(page.title, "Racial_Modifiers");
    assert_eq!(
        page.body,
        "=== Elven Administration ===\n* {{subst:Modifier |type=bonus|value=+5%|description=Discipline }}\n* {{subst:Modifier |type=malus|value=+10%|description=Advisor Cost }}\n* {{subst:Modifier |type=malus|value=-1|description=Possible Advisors }}\n* {{subst:Modifier |type=bonus|value=-5%|description=Administrative Technology Cost }}\n* {{subst:Modifier |type=bonus|value=yes|description=May Fabricate Claims for Subjects }}\n\n=== Elven Military ===\n\n=== Half Elven Military ===\n* {{subst:Modifier |type=bonus|value=+10%|description=Morale of Armies }}\n\n"
    );
}

#[test]
fn the_page_of_a_government() {
    let list = governments(
        &parse_document(
            b"monarchy = { reform_levels = { power_structure = { reforms = { feudalism_reform unnamed_reform missing_reform autocracy_reform } } second_tier = { } } }\npre_dharma_mapping = { }",
        )
        .unwrap(),
    );
    let names = lexicon(&[
        ("power_structure", "Power Structure"),
        ("feudalism_reform", "Feudal Nobility"),
        ("feudalism_reform_desc", "Lords.\\nAnd vassals."),
        ("autocracy_reform", "Autocracy"),
    ]);
    let reforms = government_reforms(
        &parse_document(
            b"feudalism_reform = { icon = \"feudalism\" potential = { has_dlc = x } modifiers = { discipline = 0.05 advisor_cost = 0.1 prestige = yes } }\nunnamed_reform = { }\nautocracy_reform = { }",
        )
        .unwrap(),
        Some(&names),
    );
    let potentials = lexicon(&[("feudalism_reform", "<ul><li>Has DLC Enabled: x</li></ul>")]);
    let page = government_page(&list[0], &reforms, &names, &potentials).unwrap();
    assert_eq!(page.title, "Monarchy");
    assert_eq!(
        page.body,
        "=== Tier 1: Power Structure ===\n{| class=\"reformtable\" \n|-\n! Icon !! Name !! Potential !! Effects !! Description\n|-\n|| [[File:gov_feudalism.png]] || Feudal Nobility \n|| <ul><li>Has DLC Enabled: x</li></ul>|| \n* {{subst:Modifier |type=bonus|value=+5%|description=Discipline }}\n* {{subst:Modifier |type=malus|value=+10%|description=Advisor Cost }}\n|| Lords.<br>And vassals.\n|-\n|| [[File:gov_placeholder.png]] || Autocracy \n|| || \n||\n|}\n=== Tier 2:  ===\n{| class=\"reformtable\" \n|-\n! Icon !! Name !! Potential !! Effects !! Description\n|}\n"
    );
    assert!(government_page(&list[1], &reforms, &names, &potentials).is_none());
}

#[test]
fn the_list_of_provinces() {
    assert_eq!(continent_name("africa"), "Sarhal");
    assert_eq!(continent_name("europe"), "Cannor");
    assert_eq!(continent_name("serpentspine"), "Serpentspine");
    assert_eq!(continent_name("asia"), "Haless");
    assert_eq!(continent_name("north_america"), "North Aelantir");
    assert_eq!(continent_name("south_america"), "South Aelantir");
    assert_eq!(continent_name("oceania"), "Insyaa");
    assert_eq!(continent_name("new_world"), "");
    let names = lexicon(&[
        ("PROV1", "Adenica"),
        ("PROV2", "Blay|crest"),
        ("PROV3", "Far"),
        ("adenica_area_name", "Adenica Area"),
        ("r1_name", "Region One"),
        ("sr1", "Super One"),
    ]);
    let hierarchy = parse_map(
        &parse_document(b"adenica_area = { 2 1 } far_area = { 3 }").unwrap(),
        &parse_document(b"r1 = { areas = { adenica_area far_area } }").unwrap(),
        &parse_document(b"sr1 = { r1 }").unwrap(),
        &names,
        &HashMap::new(),
    );
    let continents =
        parse_continents(&parse_document(b"europe = { 1 2 9 } unknown = { 3 }").unwrap());
    let page = province_list_page(&hierarchy, &continents);
    assert_eq!(page.title, "Geographical list of provinces");
    assert_eq!(
        page.body,
        "{| class=\"wikitable sortable\" style=\"font-size:95%; text-align:left\"\n! ID !! Name !! Continent !! Subcontinent !! Region !! Area\n|-\n| 1 || Adenica || Cannor || Super One || Region One || Adenica Area\n|-\n| 2 || Blay<nowiki>|</nowiki>crest || Cannor || Super One || Region One || Adenica Area\n|-\n| 3 || Far ||  || Super One || Region One || \n|-\n|}\n"
    );
}

#[test]
fn test_git_file_changes() {
    let files = get_git_changed_files(
        "\ngfx/interface/great_projects/great_project_teal_keep.dds\n\ngfx/interface/great_projects/great_project_teal_keep.dds\n",
    );
    assert_eq!(files.len(), 1);
    assert_eq!(
        files.first().unwrap(),
        &"gfx/interface/great_projects/great_project_teal_keep.dds".to_string()
    );
    assert_eq!(get_git_changed_files("b\na\n\nc\na"), vec!["a", "b", "c"]);
    assert!(get_git_changed_files("").is_empty());
    assert_eq!(
        git_log_arguments("d51ea5f..48d1f3b", "gfx/"),
        vec!["log", "--pretty=format:", "--name-only", "d51ea5f..48d1f3b", "gfx/"]
    );
}
