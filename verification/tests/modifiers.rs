use anbennar_wiki::amount::{Amount, parse_amount};
use anbennar_wiki::modifier_table::find_modifier;
use anbennar_wiki::modifiers::{
    describe, get_modifier, localise_strings, Modifier, ModifierFormat, ModifierNormal,
    try_localise_strings,
};

fn amount(text: &str) -> Amount {
    parse_amount(text).unwrap()
}

#[test]
fn test_get_modifier() {
    let modifier = get_modifier(&"discipline".to_string());
    assert!(modifier.is_some());
    let modifier = get_modifier(&"disciplined".to_string());
    assert!(!modifier.is_some());
}

#[test]
fn test_readable() {
    let modifier = get_modifier(&"reduced_liberty_desire".to_string());
    assert_eq!(modifier.unwrap().to_human_readable(amount("10")), "-10%");

    let modifier = get_modifier(&"reduced_liberty_desire".to_string());
    assert_eq!(modifier.unwrap().to_human_readable(amount("-10")), "+10%");

    let modifier = get_modifier(&"ae_impact".to_string());
    assert_eq!(modifier.unwrap().to_human_readable(amount("-0.1")), "-10%");

    let modifier = get_modifier(&"ae_impact".to_string());
    assert_eq!(modifier.unwrap().to_human_readable(amount("0.1")), "+10%");

    let modifier = get_modifier(&"accept_vassalization_reasons".to_string());
    assert_eq!(modifier.unwrap().to_human_readable(amount("10")), "+10");

    let modifier = get_modifier(&"burghers_loyalty_modifier".to_string());
    assert_eq!(modifier.unwrap().to_human_readable(amount("0.1")), "+10%");

    let modifier = get_modifier(&"burghers_loyalty_modifier".to_string());
    assert_eq!(modifier.unwrap().to_human_readable(amount("-0.1")), "-10%");

    let modifier = get_modifier(&"adm_tech_cost_modifier".to_string());
    assert_eq!(modifier.unwrap().to_human_readable(amount("-0.1")), "-10%");

    let modifier = get_modifier(&"adm_tech_cost_modifier".to_string());
    assert_eq!(modifier.unwrap().to_human_readable(amount("0.1")), "+10%");
}

#[test]
fn test_modifier_localisation() {
    let localised = localise_strings(&"discipline".to_string(), &"0.05".to_string());
    assert_eq!(localised, ("Discipline".to_string(), "+5%".to_string()));
    let localised = localise_strings(&"advisor_pool".to_string(), &"-1".to_string());
    assert_eq!(localised, ("Possible Advisors".to_string(), "-1".to_string()));
}

#[test]
fn percentage_round_trip_and_inverted_sign() {
    let normal = Modifier {
        id: "some_modifier",
        name: "Some Modifier",
        format: ModifierFormat::Percent,
        normal: ModifierNormal::Positive,
        multiplier: 100,
    };
    assert_eq!(normal.to_human_readable(amount("0.10")), "+10%");
    let inverted = Modifier { id: "reduced_liberty_desire_on_same_continent", ..normal };
    assert_eq!(inverted.to_human_readable(amount("0.10")), "-10%");
    assert_eq!(inverted.to_human_readable(amount("-0.10")), "+10%");
}

#[test]
fn lookup_ignores_case() {
    let lower = get_modifier(&"discipline".to_string()).unwrap();
    let upper = get_modifier(&"DISCIPLINE".to_string()).unwrap();
    let mixed = get_modifier(&"Discipline".to_string()).unwrap();
    assert_eq!(lower.id, "discipline");
    assert_eq!(upper.id, "discipline");
    assert_eq!(mixed.name, "Discipline");
    assert_eq!(lower.format, ModifierFormat::Percent);
    assert_eq!(lower.normal, ModifierNormal::Positive);
    assert_eq!(lower.multiplier, 100);
}

#[test]
fn the_table_is_matched_as_it_stands() {
    assert!(find_modifier("discipline").is_some());
    assert!(find_modifier("Discipline").is_none());
    assert!(find_modifier("").is_none());
    let first = find_modifier("accept_vassalization_reasons").unwrap();
    assert_eq!(first.name, "Vassalization Acceptance");
    assert_eq!(first.format, ModifierFormat::Flat);
    assert_eq!(first.multiplier, 1);
    let last = find_modifier("years_of_nationalism").unwrap();
    assert_eq!(last.name, "Years of Separatism");
    assert_eq!(last.normal, ModifierNormal::Negative);
    let toggle = find_modifier("can_fabricate_for_vassals").unwrap();
    assert_eq!(toggle.format, ModifierFormat::NoValue);
}

#[test]
fn a_modifier_without_magnitude_reads_as_nothing() {
    let toggle = find_modifier("can_fabricate_for_vassals").unwrap();
    assert_eq!(toggle.to_human_readable(amount("1")), "");
}

#[test]
fn flat_values_are_exact() {
    let flat = find_modifier("army_tradition").unwrap();
    assert_eq!(flat.to_human_readable(amount("0.5")), "+0.5");
    assert_eq!(flat.to_human_readable(amount("-0.25")), "-0.25");
    assert_eq!(flat.to_human_readable(amount("1.50")), "+1.5");
    assert_eq!(flat.to_human_readable(amount("2.0")), "+2");
    assert_eq!(flat.to_human_readable(amount("0.05")), "+0.05");
    assert_eq!(flat.to_human_readable(amount("10.005")), "+10.005");
    assert_eq!(flat.to_human_readable(amount("0")), "+0");
    assert_eq!(flat.to_human_readable(amount("-0")), "+0");
}

#[test]
fn percentages_round_to_the_nearest_integer() {
    let percent = find_modifier("discipline").unwrap();
    assert_eq!(percent.to_human_readable(amount("0.125")), "+13%");
    assert_eq!(percent.to_human_readable(amount("0.124")), "+12%");
    assert_eq!(percent.to_human_readable(amount("0.1249")), "+12%");
    assert_eq!(percent.to_human_readable(amount("-0.005")), "-1%");
    assert_eq!(percent.to_human_readable(amount("-0.004")), "-0%");
    assert_eq!(percent.to_human_readable(amount("1")), "+100%");
    assert_eq!(percent.to_human_readable(amount("0")), "+0%");
}

#[test]
fn amounts_are_read_from_numerals() {
    assert_eq!(parse_amount("0.05"), Some(Amount { negative: false, mantissa: 5, scale: 2 }));
    assert_eq!(parse_amount("-1"), Some(Amount { negative: true, mantissa: 1, scale: 0 }));
    assert_eq!(parse_amount("+12.50"), Some(Amount { negative: false, mantissa: 1250, scale: 2 }));
    assert_eq!(parse_amount(".5"), Some(Amount { negative: false, mantissa: 5, scale: 1 }));
    assert_eq!(parse_amount("5."), Some(Amount { negative: false, mantissa: 5, scale: 0 }));
    assert_eq!(parse_amount(""), None);
    assert_eq!(parse_amount("-"), None);
    assert_eq!(parse_amount("."), None);
    assert_eq!(parse_amount("1.2.3"), None);
    assert_eq!(parse_amount("yes"), None);
    assert_eq!(parse_amount("1e3"), None);
    assert_eq!(parse_amount("--1"), None);
    assert_eq!(
        parse_amount("18446744073709551615"),
        Some(Amount { negative: false, mantissa: u64::MAX, scale: 0 })
    );
    assert_eq!(parse_amount("18446744073709551616"), None);
    assert_eq!(parse_amount("0.0000000000000000001"), None);
}

#[test]
fn a_value_that_is_no_numeral_stays_as_it_stands() {
    let modifier = find_modifier("discipline").unwrap();
    assert_eq!(describe(modifier, "yes"), ("Discipline".to_string(), "yes".to_string()));
}

#[test]
fn an_unknown_modifier_is_not_localised() {
    assert_eq!(try_localise_strings(&"disciplined".to_string(), &"1".to_string()), None);
    assert_eq!(
        try_localise_strings(&"Advisor_Pool".to_string(), &"2".to_string()),
        Some(("Possible Advisors".to_string(), "+2".to_string()))
    );
}
