//! The wiki pages: what each page says, as text. Sending a page to the wiki
//! is left to the caller.
use vstd::prelude::*;
use crate::amount::{amount_of, parse_amount};
use crate::countries::{Country, CountryView, view_countries};
use crate::document::{Document, Entry, Field, view_fields};
use crate::governments::{
    Government, GovernmentReform, GovernmentReformView, ReformLevel, ReformLevelView, view_levels,
    view_reforms,
};
use crate::map::{
    Area, AreaView, ProvinceView, Region, RegionView, SuperRegion, SuperRegionView, view_areas,
    view_provinces, view_regions, view_super_regions,
};
use crate::continents::view_assignments;
use crate::utils::{title_case, title_cased};
use crate::ideas::{
    CountryIdeaSets, Effect, EffectView, Idea, IdeaSet, IdeaSetView, IdeaView, view_effects,
    view_ideas,
};
use crate::lexicon::{Lexicon, lookup};
use crate::tags::TagSet;
use crate::modifiers::{
    describe, get_modifier, Modifier, modifier_for, ModifierNormal, readable, value_text,
};
use crate::text::{
    chars_of, decimal_chars, decimal_text, push_chars, push_text, string_of, text_eq, uppercase,
    uppercase_of,
};

verus! {

/// A page of the wiki: its title and its text.
#[derive(Debug, PartialEq, Eq)]
pub struct Page {
    pub title: String,
    pub body: String,
}

/// The ASCII transliteration that `deunicode::deunicode` gives for a text.
pub uninterp spec fn deunicoded(text: Seq<char>) -> Seq<char>;

/// Trusted: `deunicode::deunicode`. The contract names the result, which
/// depends on the text alone, and says what the documentation promises of
/// it: it is ASCII, and a text of characters below the delete character
/// comes back as it is.
#[verifier::external_body]
fn plain(text: &str) -> (ascii: String)
    ensures
        ascii@ == deunicoded(text@),
        forall|i: int| 0 <= i < ascii@.len() ==> (ascii@[i] as u32) < 0x80,
        (forall|i: int| 0 <= i < text@.len() ==> (text@[i] as u32) < 0x7f) ==> ascii@ == text@,
{
    deunicode::deunicode(text)
}

/// Whether a country is listed: its name does not transliterate to
/// nothing.
pub fn is_listed(country: &Country) -> (yes: bool)
    ensures
        yes == (deunicoded(country.name@).len() > 0),
{
    !plain(country.name.as_str()).as_str().is_empty()
}

/// The mark for yes and the mark for no.
pub open spec fn mark(yes: bool) -> Seq<char> {
    if yes {
        seq!['\u{2705}']
    } else {
        seq!['\u{274c}']
    }
}

/// The head of the list of countries.
pub open spec fn country_list_head() -> Seq<char> {
    "{| class=\"wikitable sortable\" style=\"text-align: center;\"\n"@ + "|-\n"@
        + "! Flag !! Tag !! Name !! Culture !! Religion !! Continent !! Missions !! Formable !! End-game Tag\n"@
}

/// The row of a country in the list of countries; nothing for a country
/// whose name transliterates to nothing.
pub open spec fn country_row(country: CountryView, missions: bool, formable: bool) -> Seq<char> {
    if deunicoded(country.name).len() == 0 {
        Seq::empty()
    } else {
        "|-\n"@ + "| [[File:"@ + country.tag + " Flag.png|link="@ + deunicoded(country.name)
            + "|center|64x64px]] || "@ + country.tag + " || [["@ + deunicoded(country.name)
            + "]] || [["@ + deunicoded(country.history.primary_culture) + "]] || [["@
            + deunicoded(country.history.religion) + "]] || || "@ + mark(missions) + " || "@
            + mark(formable) + " || "@ + mark(country.end_game_tag) + "\n"@
    }
}

/// The rows of a list of countries, in order.
pub open spec fn country_rows(
    countries: Seq<CountryView>,
    mission_tags: Set<Seq<char>>,
    formable_tags: Set<Seq<char>>,
) -> Seq<char>
    decreases countries.len(),
{
    if countries.len() == 0 {
        Seq::empty()
    } else {
        country_rows(countries.drop_last(), mission_tags, formable_tags) + country_row(
            countries.last(),
            mission_tags.contains(countries.last().tag),
            formable_tags.contains(countries.last().tag),
        )
    }
}

/// The text of the list of countries.
pub open spec fn country_list(
    countries: Seq<CountryView>,
    mission_tags: Set<Seq<char>>,
    formable_tags: Set<Seq<char>>,
) -> Seq<char> {
    country_list_head() + country_rows(countries, mission_tags, formable_tags) + "|}\n"@
}

fn mark_chars(yes: bool) -> (chars: Vec<char>)
    ensures
        chars@ == mark(yes),
{
    let mut chars: Vec<char> = Vec::new();
    if yes {
        chars.push('\u{2705}');
    } else {
        chars.push('\u{274c}');
    }
    assert(chars@ =~= mark(yes));
    chars
}

fn country_row_chars(country: &Country, missions: bool, formable: bool) -> (row: Vec<char>)
    ensures
        row@ == country_row(country@, missions, formable),
{
    let name = plain(country.name.as_str());
    if name.as_str().is_empty() {
        return Vec::new();
    }
    let culture = plain(country.history.primary_culture.as_str());
    let religion = plain(country.history.religion.as_str());
    let mut out = chars_of("|-\n");
    push_text(&mut out, "| [[File:");
    push_text(&mut out, country.tag.as_str());
    push_text(&mut out, " Flag.png|link=");
    push_text(&mut out, name.as_str());
    push_text(&mut out, "|center|64x64px]] || ");
    push_text(&mut out, country.tag.as_str());
    push_text(&mut out, " || [[");
    push_text(&mut out, name.as_str());
    push_text(&mut out, "]] || [[");
    push_text(&mut out, culture.as_str());
    push_text(&mut out, "]] || [[");
    push_text(&mut out, religion.as_str());
    push_text(&mut out, "]] || || ");
    push_chars(&mut out, &mark_chars(missions));
    push_text(&mut out, " || ");
    push_chars(&mut out, &mark_chars(formable));
    push_text(&mut out, " || ");
    push_chars(&mut out, &mark_chars(country.end_game_tag));
    push_text(&mut out, "\n");
    out
}

/// Builds the list of countries: a table with one row for each country
/// whose name does not transliterate to nothing, in the order given.
pub fn country_list_page(countries: &Vec<Country>, mission_tags: &TagSet, formable_tags: &TagSet)
    -> (page: Page)
    ensures
        page.title@ == "Countries"@,
        page.body@ == country_list(view_countries(countries@), mission_tags@, formable_tags@),
{
    let ghost all = view_countries(countries@);
    let mut out = chars_of("{| class=\"wikitable sortable\" style=\"text-align: center;\"\n");
    push_text(&mut out, "|-\n");
    push_text(
        &mut out,
        "! Flag !! Tag !! Name !! Culture !! Religion !! Continent !! Missions !! Formable !! End-game Tag\n",
    );
    assert(out@ =~= country_list_head() + country_rows(all.take(0), mission_tags@, formable_tags@));
    let mut i: usize = 0;
    while i < countries.len()
        invariant
            i <= countries.len(),
            all == view_countries(countries@),
            out@ == country_list_head() + country_rows(
                all.take(i as int),
                mission_tags@,
                formable_tags@,
            ),
        decreases countries.len() - i,
    {
        assert(all.take(i + 1).drop_last() =~= all.take(i as int));
        assert(all.take(i + 1).last() == countries@[i as int]@);
        let country = &countries[i];
        let missions = mission_tags.contains(country.tag.as_str());
        let formable = formable_tags.contains(country.tag.as_str());
        let row = country_row_chars(country, missions, formable);
        let ghost rows = country_rows(all.take(i as int), mission_tags@, formable_tags@);
        push_chars(&mut out, &row);
        assert(out@ =~= country_list_head() + (rows + row@));
        i += 1;
    }
    assert(all.take(i as int) =~= all);
    push_text(&mut out, "|}\n");
    Page { title: "Countries".to_owned(), body: string_of(&out) }
}

/// The name of the idea group of the country `tag`: the display string of
/// the name of its idea set, and nothing where it has none.
pub open spec fn idea_group_of(
    tag: Seq<char>,
    sets: Map<Seq<char>, IdeaSet>,
    idea_localisations: Map<Seq<char>, Seq<char>>,
) -> Seq<char> {
    if sets.contains_key(tag) {
        lookup(idea_localisations, sets[tag].name@)
    } else {
        Seq::empty()
    }
}

/// The note of a country with missions.
pub open spec fn missions_note(missions: bool) -> Seq<char> {
    if missions {
        "\n[[Category:Countries with missions]]\n"@
    } else {
        ""@
    }
}

/// The text of the detail page of a country.
pub open spec fn country_detail(country: CountryView, idea_group: Seq<char>, missions: bool)
    -> Seq<char> {
    "{{Country Detail\n|tag="@ + country.tag + "\n|name="@ + deunicoded(country.name)
        + "\n|primary_culture="@ + deunicoded(country.history.primary_culture) + "\n|religion="@
        + deunicoded(country.history.religion) + "\n|idea_group="@ + deunicoded(idea_group)
        + "\n}}\n"@ + missions_note(missions)
}

/// Builds the detail page of a country, under its transliterated name.
pub fn country_detail_page(
    country: &Country,
    ideas: &CountryIdeaSets,
    idea_localisations: &Lexicon,
    mission_tags: &TagSet,
) -> (page: Page)
    requires
        ideas.idea_sets.wf(),
        idea_localisations.wf(),
    ensures
        page.title@ == deunicoded(country.name@),
        page.body@ == country_detail(
            country@,
            idea_group_of(country.tag@, ideas.idea_sets@, idea_localisations@),
            mission_tags@.contains(country.tag@),
        ),
{
    let idea_group = match ideas.idea_sets.get(country.tag.as_str()) {
        Some(set) => idea_localisations.text(set.name.as_str()),
        None => String::new(),
    };
    let name = plain(country.name.as_str());
    let culture = plain(country.history.primary_culture.as_str());
    let religion = plain(country.history.religion.as_str());
    let group = plain(idea_group.as_str());
    let mut out = chars_of("{{Country Detail\n|tag=");
    push_text(&mut out, country.tag.as_str());
    push_text(&mut out, "\n|name=");
    push_text(&mut out, name.as_str());
    push_text(&mut out, "\n|primary_culture=");
    push_text(&mut out, culture.as_str());
    push_text(&mut out, "\n|religion=");
    push_text(&mut out, religion.as_str());
    push_text(&mut out, "\n|idea_group=");
    push_text(&mut out, group.as_str());
    push_text(&mut out, "\n}}\n");
    let missions = mission_tags.contains(country.tag.as_str());
    push_text(
        &mut out,
        if missions {
            "\n[[Category:Countries with missions]]\n"
        } else {
            ""
        },
    );
    Page { title: name, body: string_of(&out) }
}

/// The path of the flag of the country `tag`.
pub fn flag_file(tag: &str) -> (path: String)
    ensures
        path@ == "./anbennar/gfx/flags/"@ + tag@ + ".tga"@,
{
    let mut out = chars_of("./anbennar/gfx/flags/");
    push_text(&mut out, tag);
    push_text(&mut out, ".tga");
    string_of(&out)
}

/// The name under which the flag of the country `tag` is uploaded.
pub fn flag_upload_name(tag: &str) -> (name: String)
    ensures
        name@ == tag@ + "_Flag.png"@,
{
    let mut out = chars_of(tag);
    push_text(&mut out, "_Flag.png");
    string_of(&out)
}

/// The name under which the icon `file_name` of a government reform is
/// uploaded.
pub fn icon_upload_name(file_name: &str) -> (name: String)
    ensures
        name@ == "gov_"@ + file_name@,
{
    let mut out = chars_of("gov_");
    push_text(&mut out, file_name);
    string_of(&out)
}

/// A page together with the title that redirects to it, where the page
/// stands under a transliterated title.
#[derive(Debug, PartialEq, Eq)]
pub struct NamedPage {
    pub page: Page,
    pub redirect_from: Option<String>,
}

/// The markup of one modifier: its value and its description.
pub open spec fn modifier_markup(description: Seq<char>, value: Seq<char>) -> Seq<char> {
    "{{Modifier|type=bonus|value="@ + value + "|description="@ + description + " }}"@
}

/// The tradition with the number `number`: the name and the value of a
/// starting effect.
pub open spec fn tradition(number: nat, name: Seq<char>, value: Seq<char>) -> Seq<char> {
    "|tradition"@ + decimal_text(number) + "name="@ + name + "\n"@ + "|tradition"@ + decimal_text(
        number,
    ) + "effect="@ + value + "\n"@
}

/// The number of effects that the table knows.
pub open spec fn known_count(effects: Seq<EffectView>) -> nat
    decreases effects.len(),
{
    if effects.len() == 0 {
        0
    } else if modifier_for(effects.last().key) is Some {
        known_count(effects.drop_last()) + 1
    } else {
        known_count(effects.drop_last())
    }
}

/// The traditions of an idea set: one for each starting effect that the
/// table knows, numbered from one.
pub open spec fn traditions(effects: Seq<EffectView>) -> Seq<char>
    decreases effects.len(),
{
    if effects.len() == 0 {
        Seq::empty()
    } else {
        match modifier_for(effects.last().key) {
            Some(modifier) => traditions(effects.drop_last()) + tradition(
                known_count(effects.drop_last()) + 1,
                modifier.name@,
                value_text(modifier, effects.last().value),
            ),
            None => traditions(effects.drop_last()),
        }
    }
}

/// What stands before the markup of an effect: the separator, but for the
/// first effect.
pub open spec fn lead(first: bool, separator: Seq<char>) -> Seq<char> {
    if first {
        ""@
    } else {
        separator
    }
}

/// The markup of the effects that the table knows, with `separator` between
/// them.
pub open spec fn effects_markup(effects: Seq<EffectView>, separator: Seq<char>) -> Seq<char>
    decreases effects.len(),
{
    if effects.len() == 0 {
        Seq::empty()
    } else {
        match modifier_for(effects.last().key) {
            Some(modifier) => effects_markup(effects.drop_last(), separator) + (lead(
                known_count(effects.drop_last()) == 0,
                separator,
            ) + modifier_markup(modifier.name@, value_text(modifier, effects.last().value))),
            None => effects_markup(effects.drop_last(), separator),
        }
    }
}

/// The text stored under `key`, or `fallback` where there is none.
pub open spec fn lookup_or(table: Map<Seq<char>, Seq<char>>, key: Seq<char>, fallback: Seq<char>)
    -> Seq<char> {
    if table.contains_key(key) {
        table[key]
    } else {
        fallback
    }
}

/// The part of the page for the idea with the number `number`: its
/// localised name and description, and its effects.
pub open spec fn idea_markup(idea: IdeaView, number: nat, table: Map<Seq<char>, Seq<char>>)
    -> Seq<char> {
    "|idea"@ + decimal_text(number) + "name="@ + lookup_or(table, idea.name, idea.name) + "\n"@
        + "|idea"@ + decimal_text(number) + "desc="@ + lookup_or(
        table,
        idea.name + "_desc"@,
        idea.description,
    ) + "\n"@ + "|idea"@ + decimal_text(number) + "effect="@ + effects_markup(
        idea.effects,
        "<br />"@,
    ) + "\n"@
}

/// The parts of the page for a list of ideas, numbered from one.
pub open spec fn ideas_markup(ideas: Seq<IdeaView>, table: Map<Seq<char>, Seq<char>>) -> Seq<char>
    decreases ideas.len(),
{
    if ideas.len() == 0 {
        Seq::empty()
    } else {
        ideas_markup(ideas.drop_last(), table) + idea_markup(ideas.last(), ideas.len(), table)
    }
}

/// The text of the page of an idea set with the display name `name`.
pub open spec fn idea_page_body(set: IdeaSetView, name: Seq<char>, table: Map<Seq<char>, Seq<char>>)
    -> Seq<char> {
    "{{National Ideas\n"@ + "<!-- "@ + name + " -->\n"@ + traditions(set.start) + ideas_markup(
        set.ideas,
        table,
    ) + "|ambitioneffect="@ + effects_markup(set.bonus, ""@)
        + "}}\n\n<noinclude>[[Category:Country Ideas]]</noinclude>\n"@
}

fn tradition_chars(number: u128, name: &str, value: &str) -> (chars: Vec<char>)
    ensures
        chars@ == tradition(number as nat, name@, value@),
{
    let digits = decimal_chars(number);
    let mut out = chars_of("|tradition");
    push_chars(&mut out, &digits);
    push_text(&mut out, "name=");
    push_text(&mut out, name);
    push_text(&mut out, "\n");
    push_text(&mut out, "|tradition");
    push_chars(&mut out, &digits);
    push_text(&mut out, "effect=");
    push_text(&mut out, value);
    push_text(&mut out, "\n");
    out
}

fn traditions_chars(effects: &Vec<Effect>) -> (chars: Vec<char>)
    ensures
        chars@ == traditions(view_effects(effects@)),
{
    let ghost all = view_effects(effects@);
    let mut out: Vec<char> = Vec::new();
    let mut known: usize = 0;
    let mut i: usize = 0;
    while i < effects.len()
        invariant
            i <= effects.len(),
            all == view_effects(effects@),
            known == known_count(all.take(i as int)),
            known <= i,
            out@ == traditions(all.take(i as int)),
        decreases effects.len() - i,
    {
        assert(all.take(i + 1).drop_last() =~= all.take(i as int));
        assert(all.take(i + 1).last() == effects@[i as int]@);
        match get_modifier(&effects[i].key) {
            Some(modifier) => {
                let pair = describe(modifier, effects[i].value.as_str());
                let part = tradition_chars(known as u128 + 1, pair.0.as_str(), pair.1.as_str());
                push_chars(&mut out, &part);
                known += 1;
            },
            None => {},
        }
        i += 1;
    }
    assert(all.take(i as int) =~= all);
    out
}

fn modifier_chars(description: &str, value: &str) -> (chars: Vec<char>)
    ensures
        chars@ == modifier_markup(description@, value@),
{
    let mut out = chars_of("{{Modifier|type=bonus|value=");
    push_text(&mut out, value);
    push_text(&mut out, "|description=");
    push_text(&mut out, description);
    push_text(&mut out, " }}");
    out
}

fn effects_chars(effects: &Vec<Effect>, separator: &str) -> (chars: Vec<char>)
    ensures
        chars@ == effects_markup(view_effects(effects@), separator@),
{
    let ghost all = view_effects(effects@);
    let mut out: Vec<char> = Vec::new();
    let mut first = true;
    let mut i: usize = 0;
    while i < effects.len()
        invariant
            i <= effects.len(),
            all == view_effects(effects@),
            first == (known_count(all.take(i as int)) == 0),
            out@ == effects_markup(all.take(i as int), separator@),
        decreases effects.len() - i,
    {
        assert(all.take(i + 1).drop_last() =~= all.take(i as int));
        assert(all.take(i + 1).last() == effects@[i as int]@);
        match get_modifier(&effects[i].key) {
            Some(modifier) => {
                let pair = describe(modifier, effects[i].value.as_str());
                let mut part = chars_of(
                    if first {
                        ""
                    } else {
                        separator
                    },
                );
                push_chars(&mut part, &modifier_chars(pair.0.as_str(), pair.1.as_str()));
                push_chars(&mut out, &part);
                first = false;
            },
            None => {},
        }
        i += 1;
    }
    assert(all.take(i as int) =~= all);
    out
}

fn idea_chars(idea: &Idea, number: u128, table: &Lexicon) -> (chars: Vec<char>)
    requires
        table.wf(),
    ensures
        chars@ == idea_markup(idea@, number as nat, table@),
{
    let name = match table.get(idea.name.as_str()) {
        Some(n) => n.clone(),
        None => idea.name.clone(),
    };
    let mut key = chars_of(idea.name.as_str());
    push_text(&mut key, "_desc");
    let description = match table.get(string_of(&key).as_str()) {
        Some(d) => d.clone(),
        None => idea.description.clone(),
    };
    let digits = decimal_chars(number);
    let effects = effects_chars(&idea.effects, "<br />");
    let mut out = chars_of("|idea");
    push_chars(&mut out, &digits);
    push_text(&mut out, "name=");
    push_text(&mut out, name.as_str());
    push_text(&mut out, "\n");
    push_text(&mut out, "|idea");
    push_chars(&mut out, &digits);
    push_text(&mut out, "desc=");
    push_text(&mut out, description.as_str());
    push_text(&mut out, "\n");
    push_text(&mut out, "|idea");
    push_chars(&mut out, &digits);
    push_text(&mut out, "effect=");
    push_chars(&mut out, &effects);
    push_text(&mut out, "\n");
    out
}

fn ideas_chars(ideas: &Vec<Idea>, table: &Lexicon) -> (chars: Vec<char>)
    requires
        table.wf(),
    ensures
        chars@ == ideas_markup(view_ideas(ideas@), table@),
{
    let ghost all = view_ideas(ideas@);
    let mut out: Vec<char> = Vec::new();
    let mut i: usize = 0;
    while i < ideas.len()
        invariant
            i <= ideas.len(),
            table.wf(),
            all == view_ideas(ideas@),
            out@ == ideas_markup(all.take(i as int), table@),
        decreases ideas.len() - i,
    {
        assert(all.take(i + 1).drop_last() =~= all.take(i as int));
        assert(all.take(i + 1).last() == ideas@[i as int]@);
        let part = idea_chars(&ideas[i], i as u128 + 1, table);
        push_chars(&mut out, &part);
        i += 1;
    }
    assert(all.take(i as int) =~= all);
    out
}

/// Builds the page of an idea set: its traditions, its ideas and its
/// ambition, each modifier under its human-facing name; a modifier that the
/// table does not know is left out. The page stands under the
/// transliterated display name of the set, and the display name redirects
/// to it where the two differ. A set without a display name has no page.
pub fn idea_page(set: &IdeaSet, idea_localisations: &Lexicon) -> (named: Option<NamedPage>)
    requires
        idea_localisations.wf(),
    ensures
        named is Some <==> lookup(idea_localisations@, set.name@).len() > 0,
        named matches Some(n) ==> {
            let name = lookup(idea_localisations@, set.name@);
            &&& n.page.title@ == deunicoded(name)
            &&& n.page.body@ == idea_page_body(set@, name, idea_localisations@)
            &&& n.redirect_from is Some <==> deunicoded(name) != name
            &&& n.redirect_from matches Some(from) ==> from@ == name
        },
{
    let name = idea_localisations.text(set.name.as_str());
    if name.as_str().is_empty() {
        return None;
    }
    let start = traditions_chars(&set.start);
    let ideas = ideas_chars(&set.ideas, idea_localisations);
    let bonus = effects_chars(&set.bonus, "");
    let mut out = chars_of("{{National Ideas\n");
    push_text(&mut out, "<!-- ");
    push_text(&mut out, name.as_str());
    push_text(&mut out, " -->\n");
    push_chars(&mut out, &start);
    push_chars(&mut out, &ideas);
    push_text(&mut out, "|ambitioneffect=");
    push_chars(&mut out, &bonus);
    push_text(&mut out, "}}\n\n<noinclude>[[Category:Country Ideas]]</noinclude>\n");
    let title = plain(name.as_str());
    let redirect_from = if text_eq(title.as_str(), name.as_str()) {
        None
    } else {
        Some(name)
    };
    Some(NamedPage { page: Page { title, body: string_of(&out) }, redirect_from })
}

/// A key as a title: each `_` is a space, and the first character of the
/// key and of each word behind a `_` is in upper case.
pub open spec fn titled(key: Seq<char>) -> Seq<char>
    decreases key.len(),
{
    if key.len() == 0 {
        Seq::empty()
    } else if key.last() == '_' {
        titled(key.drop_last()).push(' ')
    } else if key.len() == 1 || key[key.len() - 2] == '_' {
        titled(key.drop_last()) + uppercase_of(key.last())
    } else {
        titled(key.drop_last()).push(key.last())
    }
}

/// Whether `text` ends with `end`.
pub open spec fn ends_with(text: Seq<char>, end: Seq<char>) -> bool {
    end.len() <= text.len() && text.skip(text.len() - end.len()) == end
}

/// Whether a modifier with this sign convention and a value of this sign is
/// bad for the country.
pub open spec fn is_malus(normal: ModifierNormal, negative: bool) -> bool {
    (negative && normal == ModifierNormal::Positive) || (!negative && normal
        == ModifierNormal::Negative)
}

/// The class of a modifier line.
pub open spec fn colour(malus: bool) -> Seq<char> {
    if malus {
        "malus"@
    } else {
        "bonus"@
    }
}

/// One line of a list of modifiers.
pub open spec fn modifier_line(class: Seq<char>, value: Seq<char>, description: Seq<char>) -> Seq<
    char,
> {
    "* {{subst:Modifier |type="@ + class + "|value="@ + value + "|description="@ + description
        + " }}\n"@
}

/// The line of one field of a racial modifier: nothing for the picture, for
/// a field that the table does not know and for a value that is no text; a
/// value that is no numeral stands as it is, as a bonus.
pub open spec fn racial_line(entry: Entry) -> Seq<char> {
    if entry.key == "picture"@ {
        Seq::empty()
    } else {
        match (modifier_for(entry.key), entry.value.text()) {
            (Some(modifier), Some(text)) => match amount_of(text) {
                Some(amount) => modifier_line(
                    colour(is_malus(modifier.normal, amount.negative)),
                    readable(modifier, amount),
                    modifier.name@,
                ),
                None => modifier_line(colour(false), text, modifier.name@),
            },
            _ => Seq::empty(),
        }
    }
}

/// The lines of the fields of a racial modifier, in order.
pub open spec fn racial_lines(fields: Seq<Entry>) -> Seq<char>
    decreases fields.len(),
{
    if fields.len() == 0 {
        Seq::empty()
    } else {
        racial_lines(fields.drop_last()) + racial_line(fields.last())
    }
}

/// The section of one top-level field of the racial modifiers file: a field
/// whose name ends with `administration` or `military` and that holds an
/// object has one, under its name as a title.
pub open spec fn racial_section(top: Entry) -> Seq<char> {
    match top.value.object() {
        Some(fields) => if ends_with(top.key, "administration"@) || ends_with(
            top.key,
            "military"@,
        ) {
            "=== "@ + titled(top.key) + " ===\n"@ + racial_lines(fields) + "\n"@
        } else {
            Seq::empty()
        },
        None => Seq::empty(),
    }
}

/// The text of the page of racial modifiers.
pub open spec fn racial_modifiers(document: Seq<Entry>) -> Seq<char>
    decreases document.len(),
{
    if document.len() == 0 {
        Seq::empty()
    } else {
        racial_modifiers(document.drop_last()) + racial_section(document.last())
    }
}

fn title_chars(key: &str) -> (chars: Vec<char>)
    ensures
        chars@ == titled(key@),
{
    let text = chars_of(key);
    let mut out: Vec<char> = Vec::new();
    let mut i: usize = 0;
    while i < text.len()
        invariant
            i <= text.len(),
            text@ == key@,
            out@ == titled(text@.take(i as int)),
        decreases text.len() - i,
    {
        let ghost next = text@.take(i + 1);
        assert(next.drop_last() =~= text@.take(i as int));
        assert(next.last() == text@[i as int]);
        if i > 0 {
            assert(next[next.len() - 2] == text@[i - 1]);
        }
        if text[i] == '_' {
            out.push(' ');
        } else if i == 0 || text[i - 1] == '_' {
            let upper = uppercase(text[i]);
            push_chars(&mut out, &upper);
        } else {
            out.push(text[i]);
        }
        i += 1;
    }
    assert(text@.take(i as int) =~= text@);
    out
}

fn text_ends_with(text: &str, end: &str) -> (yes: bool)
    ensures
        yes == ends_with(text@, end@),
{
    let all = chars_of(text);
    let tail = chars_of(end);
    if tail.len() > all.len() {
        return false;
    }
    let offset = all.len() - tail.len();
    let mut i: usize = 0;
    while i < tail.len()
        invariant
            i <= tail.len() <= all.len(),
            offset == all.len() - tail.len(),
            all@ == text@,
            tail@ == end@,
            forall|j: int| 0 <= j < i ==> all@[offset + j] == tail@[j],
        decreases tail.len() - i,
    {
        if all[offset + i] != tail[i] {
            assert(all@.skip(offset as int)[i as int] != tail@[i as int]);
            return false;
        }
        i += 1;
    }
    assert(all@.skip(offset as int) =~= tail@);
    true
}

fn colour_name(malus: bool) -> (name: &'static str)
    ensures
        name@ == colour(malus),
{
    if malus {
        "malus"
    } else {
        "bonus"
    }
}

fn modifier_line_chars(class: &str, value: &str, description: &str) -> (chars: Vec<char>)
    ensures
        chars@ == modifier_line(class@, value@, description@),
{
    let mut out = chars_of("* {{subst:Modifier |type=");
    push_text(&mut out, class);
    push_text(&mut out, "|value=");
    push_text(&mut out, value);
    push_text(&mut out, "|description=");
    push_text(&mut out, description);
    push_text(&mut out, " }}\n");
    out
}

fn malus(normal: ModifierNormal, negative: bool) -> (yes: bool)
    ensures
        yes == is_malus(normal, negative),
{
    (negative && normal == ModifierNormal::Positive) || (!negative && normal
        == ModifierNormal::Negative)
}

fn racial_line_chars(entry: &Field) -> (chars: Vec<char>)
    ensures
        chars@ == racial_line(entry@),
{
    if text_eq(entry.key.as_str(), "picture") {
        return Vec::new();
    }
    match (get_modifier(&entry.key), entry.value.as_text()) {
        (Some(modifier), Some(text)) => match parse_amount(text.as_str()) {
            Some(amount) => {
                let value = modifier.to_human_readable(amount);
                modifier_line_chars(
                    colour_name(malus(modifier.normal, amount.negative)),
                    value.as_str(),
                    modifier.name,
                )
            },
            None => modifier_line_chars(colour_name(false), text.as_str(), modifier.name),
        },
        _ => Vec::new(),
    }
}

fn racial_section_chars(top: &Field) -> (chars: Vec<char>)
    ensures
        chars@ == racial_section(top@),
{
    match top.value.as_object() {
        Some(fields) => {
            if text_ends_with(top.key.as_str(), "administration") || text_ends_with(
                top.key.as_str(),
                "military",
            ) {
                let ghost entries = view_fields(fields@);
                let mut lines: Vec<char> = Vec::new();
                let mut i: usize = 0;
                while i < fields.len()
                    invariant
                        i <= fields.len(),
                        entries == view_fields(fields@),
                        lines@ == racial_lines(entries.take(i as int)),
                    decreases fields.len() - i,
                {
                    assert(entries.take(i + 1).drop_last() =~= entries.take(i as int));
                    let line = racial_line_chars(&fields[i]);
                    push_chars(&mut lines, &line);
                    i += 1;
                }
                assert(entries.take(i as int) =~= entries);
                let mut out = chars_of("=== ");
                push_chars(&mut out, &title_chars(top.key.as_str()));
                push_text(&mut out, " ===\n");
                push_chars(&mut out, &lines);
                push_text(&mut out, "\n");
                out
            } else {
                Vec::new()
            }
        },
        None => Vec::new(),
    }
}

/// Builds the page of racial modifiers from the parsed file of racial
/// modifiers.
pub fn racial_modifiers_page(document: &Document) -> (page: Page)
    ensures
        page.title@ == "Racial_Modifiers"@,
        page.body@ == racial_modifiers(document@),
{
    let ghost entries = document@;
    let mut out: Vec<char> = Vec::new();
    let mut i: usize = 0;
    while i < document.fields.len()
        invariant
            i <= document.fields.len(),
            entries == document@,
            out@ == racial_modifiers(entries.take(i as int)),
        decreases document.fields.len() - i,
    {
        assert(entries.take(i + 1).drop_last() =~= entries.take(i as int));
        let section = racial_section_chars(&document.fields[i]);
        push_chars(&mut out, &section);
        i += 1;
    }
    assert(entries.take(i as int) =~= entries);
    Page { title: "Racial_Modifiers".to_owned(), body: string_of(&out) }
}

/// The text with each backslash that an `n` follows turned, together with
/// the `n`, into a line break.
pub open spec fn with_breaks(text: Seq<char>) -> Seq<char>
    decreases text.len(),
{
    if text.len() == 0 {
        Seq::empty()
    } else if text.len() >= 2 && text[0] == '\\' && text[1] == 'n' {
        "<br>"@ + with_breaks(text.skip(2))
    } else {
        seq![text[0]] + with_breaks(text.skip(1))
    }
}

/// The text with each `|` wrapped so that it is no markup.
pub open spec fn with_plain_bars(text: Seq<char>) -> Seq<char>
    decreases text.len(),
{
    if text.len() == 0 {
        Seq::empty()
    } else if text.last() == '|' {
        with_plain_bars(text.drop_last()) + "<nowiki>|</nowiki>"@
    } else {
        with_plain_bars(text.drop_last()).push(text.last())
    }
}

fn with_breaks_chars(text: &str) -> (chars: Vec<char>)
    ensures
        chars@ == with_breaks(text@),
{
    let all = chars_of(text);
    let mut out: Vec<char> = Vec::new();
    let mut i: usize = 0;
    assert(all@.skip(0) =~= all@);
    while i < all.len()
        invariant
            i <= all.len(),
            all@ == text@,
            out@ + with_breaks(all@.skip(i as int)) == with_breaks(all@),
        decreases all.len() - i,
    {
        let ghost rest = all@.skip(i as int);
        let ghost before = out@;
        assert(rest[0] == all@[i as int]);
        if i + 1 < all.len() && all[i] == '\\' && all[i + 1] == 'n' {
            assert(rest[1] == all@[i + 1]);
            assert(rest.skip(2) =~= all@.skip(i + 2));
            push_text(&mut out, "<br>");
            assert(out@ + with_breaks(all@.skip(i + 2)) =~= before + with_breaks(rest));
            i += 2;
        } else {
            if i + 1 < all.len() {
                assert(rest[1] == all@[i + 1]);
            }
            assert(rest.skip(1) =~= all@.skip(i + 1));
            out.push(all[i]);
            assert(out@ + with_breaks(all@.skip(i + 1)) =~= before + with_breaks(rest));
            i += 1;
        }
    }
    assert(out@ + Seq::<char>::empty() =~= out@);
    out
}

fn with_plain_bars_chars(text: &str) -> (chars: Vec<char>)
    ensures
        chars@ == with_plain_bars(text@),
{
    let all = chars_of(text);
    let mut out: Vec<char> = Vec::new();
    let mut i: usize = 0;
    while i < all.len()
        invariant
            i <= all.len(),
            all@ == text@,
            out@ == with_plain_bars(all@.take(i as int)),
        decreases all.len() - i,
    {
        assert(all@.take(i + 1).drop_last() =~= all@.take(i as int));
        if all[i] == '|' {
            push_text(&mut out, "<nowiki>|</nowiki>");
        } else {
            out.push(all[i]);
        }
        i += 1;
    }
    assert(all@.take(i as int) =~= all@);
    out
}

/// The cell for the icon of a reform.
pub open spec fn icon_cell(icon: Option<Seq<char>>) -> Seq<char> {
    match icon {
        Some(name) => "|| [[File:gov_"@ + name + ".png]] "@,
        None => "|| [[File:gov_placeholder.png]] "@,
    }
}

/// The cell for the description of a reform.
pub open spec fn description_cell(description: Option<Seq<char>>) -> Seq<char> {
    match description {
        Some(text) => "| "@ + with_breaks(text) + "\n"@,
        None => "|\n"@,
    }
}

/// One modifier of a reform, on a line of its own in front of which the
/// line breaks.
pub open spec fn reform_modifier(class: Seq<char>, value: Seq<char>, description: Seq<char>)
    -> Seq<char> {
    "\n* {{subst:Modifier |type="@ + class + "|value="@ + value + "|description="@ + description
        + " }}"@
}

/// The line of one modifier of a reform: nothing for a modifier that the
/// table does not know and for a value that is no numeral.
pub open spec fn reform_modifier_line(effect: EffectView) -> Seq<char> {
    match (modifier_for(effect.key), amount_of(effect.value)) {
        (Some(modifier), Some(amount)) => reform_modifier(
            colour(is_malus(modifier.normal, amount.negative)),
            readable(modifier, amount),
            modifier.name@,
        ),
        _ => Seq::empty(),
    }
}

/// The lines of the modifiers of a reform, in order.
pub open spec fn reform_modifier_lines(effects: Seq<EffectView>) -> Seq<char>
    decreases effects.len(),
{
    if effects.len() == 0 {
        Seq::empty()
    } else {
        reform_modifier_lines(effects.drop_last()) + reform_modifier_line(effects.last())
    }
}

/// The row of a reform with the name `name` in the table of its tier;
/// `potential` is the markup of its condition.
pub open spec fn reform_row(reform: GovernmentReformView, name: Seq<char>, potential: Seq<char>)
    -> Seq<char> {
    "|-\n"@ + icon_cell(reform.icon) + "|| "@ + name + " \n"@ + "|| "@ + potential + "|| "@
        + reform_modifier_lines(reform.modifiers) + "\n|"@ + description_cell(reform.desc)
}

/// The reform named `id`: the last of the list with that identifier.
pub open spec fn reform_named(reforms: Seq<GovernmentReformView>, id: Seq<char>) -> Option<
    GovernmentReformView,
>
    decreases reforms.len(),
{
    if reforms.len() == 0 {
        None
    } else if reforms.last().id == id {
        Some(reforms.last())
    } else {
        reform_named(reforms.drop_last(), id)
    }
}

/// The row of the reform that a tier names: nothing where there is no such
/// reform or where it has no name.
pub open spec fn named_reform_row(
    reforms: Seq<GovernmentReformView>,
    id: Seq<char>,
    potentials: Map<Seq<char>, Seq<char>>,
) -> Seq<char> {
    match reform_named(reforms, id) {
        Some(reform) => match reform.name {
            Some(name) => reform_row(reform, name, lookup(potentials, reform.id)),
            None => Seq::empty(),
        },
        None => Seq::empty(),
    }
}

/// The rows of the reforms that a tier names, in order.
pub open spec fn reform_rows(
    ids: Seq<Seq<char>>,
    reforms: Seq<GovernmentReformView>,
    potentials: Map<Seq<char>, Seq<char>>,
) -> Seq<char>
    decreases ids.len(),
{
    if ids.len() == 0 {
        Seq::empty()
    } else {
        reform_rows(ids.drop_last(), reforms, potentials) + named_reform_row(
            reforms,
            ids.last(),
            potentials,
        )
    }
}

/// The section of the tier with the number `number`.
pub open spec fn tier_section(
    number: nat,
    level: ReformLevelView,
    reforms: Seq<GovernmentReformView>,
    localisations: Map<Seq<char>, Seq<char>>,
    potentials: Map<Seq<char>, Seq<char>>,
) -> Seq<char> {
    "=== Tier "@ + decimal_text(number) + ": "@ + lookup(localisations, level.id) + " ===\n"@
        + "{| class=\"reformtable\" \n|-\n! Icon !! Name !! Potential !! Effects !! Description\n"@
        + reform_rows(level.reforms, reforms, potentials) + "|}\n"@
}

/// The sections of the tiers of a government, numbered from one.
pub open spec fn tier_sections(
    levels: Seq<ReformLevelView>,
    reforms: Seq<GovernmentReformView>,
    localisations: Map<Seq<char>, Seq<char>>,
    potentials: Map<Seq<char>, Seq<char>>,
) -> Seq<char>
    decreases levels.len(),
{
    if levels.len() == 0 {
        Seq::empty()
    } else {
        tier_sections(levels.drop_last(), reforms, localisations, potentials) + tier_section(
            levels.len(),
            levels.last(),
            reforms,
            localisations,
            potentials,
        )
    }
}

fn reform_modifier_chars(class: &str, value: &str, description: &str) -> (chars: Vec<char>)
    ensures
        chars@ == reform_modifier(class@, value@, description@),
{
    let mut out = chars_of("\n* {{subst:Modifier |type=");
    push_text(&mut out, class);
    push_text(&mut out, "|value=");
    push_text(&mut out, value);
    push_text(&mut out, "|description=");
    push_text(&mut out, description);
    push_text(&mut out, " }}");
    out
}

fn reform_modifier_lines_chars(effects: &Vec<Effect>) -> (chars: Vec<char>)
    ensures
        chars@ == reform_modifier_lines(view_effects(effects@)),
{
    let ghost all = view_effects(effects@);
    let mut out: Vec<char> = Vec::new();
    let mut i: usize = 0;
    while i < effects.len()
        invariant
            i <= effects.len(),
            all == view_effects(effects@),
            out@ == reform_modifier_lines(all.take(i as int)),
        decreases effects.len() - i,
    {
        assert(all.take(i + 1).drop_last() =~= all.take(i as int));
        assert(all.take(i + 1).last() == effects@[i as int]@);
        match (get_modifier(&effects[i].key), parse_amount(effects[i].value.as_str())) {
            (Some(modifier), Some(amount)) => {
                let value = modifier.to_human_readable(amount);
                let line = reform_modifier_chars(
                    colour_name(malus(modifier.normal, amount.negative)),
                    value.as_str(),
                    modifier.name,
                );
                push_chars(&mut out, &line);
            },
            _ => {},
        }
        i += 1;
    }
    assert(all.take(i as int) =~= all);
    out
}

fn icon_cell_chars(icon: &Option<String>) -> (chars: Vec<char>)
    ensures
        chars@ == icon_cell(crate::text::optional_text(*icon)),
{
    match icon {
        Some(name) => {
            let mut out = chars_of("|| [[File:gov_");
            push_text(&mut out, name.as_str());
            push_text(&mut out, ".png]] ");
            out
        },
        None => chars_of("|| [[File:gov_placeholder.png]] "),
    }
}

fn description_cell_chars(description: &Option<String>) -> (chars: Vec<char>)
    ensures
        chars@ == description_cell(crate::text::optional_text(*description)),
{
    match description {
        Some(text) => {
            let mut out = chars_of("| ");
            push_chars(&mut out, &with_breaks_chars(text.as_str()));
            push_text(&mut out, "\n");
            out
        },
        None => chars_of("|\n"),
    }
}

fn reform_row_chars(reform: &GovernmentReform, name: &str, potential: &str) -> (chars: Vec<char>)
    ensures
        chars@ == reform_row(reform@, name@, potential@),
{
    let mut out = chars_of("|-\n");
    push_chars(&mut out, &icon_cell_chars(&reform.icon));
    push_text(&mut out, "|| ");
    push_text(&mut out, name);
    push_text(&mut out, " \n");
    push_text(&mut out, "|| ");
    push_text(&mut out, potential);
    push_text(&mut out, "|| ");
    push_chars(&mut out, &reform_modifier_lines_chars(&reform.modifiers));
    push_text(&mut out, "\n|");
    push_chars(&mut out, &description_cell_chars(&reform.desc));
    out
}

fn find_reform<'a>(reforms: &'a Vec<GovernmentReform>, id: &str) -> (found: Option<
    &'a GovernmentReform,
>)
    ensures
        found is Some <==> reform_named(view_reforms(reforms@), id@) is Some,
        found matches Some(r) ==> reform_named(view_reforms(reforms@), id@) == Some(r@),
{
    let ghost all = view_reforms(reforms@);
    let mut found: Option<&'a GovernmentReform> = None;
    let mut i: usize = 0;
    while i < reforms.len()
        invariant
            i <= reforms.len(),
            all == view_reforms(reforms@),
            found is Some <==> reform_named(all.take(i as int), id@) is Some,
            found matches Some(r) ==> reform_named(all.take(i as int), id@) == Some(r@),
        decreases reforms.len() - i,
    {
        assert(all.take(i + 1).drop_last() =~= all.take(i as int));
        assert(all.take(i + 1).last() == reforms@[i as int]@);
        if text_eq(reforms[i].id.as_str(), id) {
            found = Some(&reforms[i]);
        }
        i += 1;
    }
    assert(all.take(i as int) =~= all);
    found
}

fn named_reform_row_chars(reforms: &Vec<GovernmentReform>, id: &str, potentials: &Lexicon)
    -> (chars: Vec<char>)
    requires
        potentials.wf(),
    ensures
        chars@ == named_reform_row(view_reforms(reforms@), id@, potentials@),
{
    match find_reform(reforms, id) {
        Some(reform) => match &reform.name {
            Some(name) => {
                let potential = potentials.text(reform.id.as_str());
                reform_row_chars(reform, name.as_str(), potential.as_str())
            },
            None => Vec::new(),
        },
        None => Vec::new(),
    }
}

fn tier_section_chars(
    number: u128,
    level: &ReformLevel,
    reforms: &Vec<GovernmentReform>,
    localisations: &Lexicon,
    potentials: &Lexicon,
) -> (chars: Vec<char>)
    requires
        localisations.wf(),
        potentials.wf(),
    ensures
        chars@ == tier_section(
            number as nat,
            level@,
            view_reforms(reforms@),
            localisations@,
            potentials@,
        ),
{
    let ghost ids = crate::text::texts(level.reforms@);
    let mut rows: Vec<char> = Vec::new();
    let mut i: usize = 0;
    while i < level.reforms.len()
        invariant
            i <= level.reforms.len(),
            potentials.wf(),
            ids == crate::text::texts(level.reforms@),
            rows@ == reform_rows(ids.take(i as int), view_reforms(reforms@), potentials@),
        decreases level.reforms.len() - i,
    {
        assert(ids.take(i + 1).drop_last() =~= ids.take(i as int));
        assert(ids.take(i + 1).last() == level.reforms@[i as int]@);
        let row = named_reform_row_chars(reforms, level.reforms[i].as_str(), potentials);
        push_chars(&mut rows, &row);
        i += 1;
    }
    assert(ids.take(i as int) =~= ids);
    let name = localisations.text(level.id.as_str());
    let mut out = chars_of("=== Tier ");
    push_chars(&mut out, &decimal_chars(number));
    push_text(&mut out, ": ");
    push_text(&mut out, name.as_str());
    push_text(&mut out, " ===\n");
    push_text(
        &mut out,
        "{| class=\"reformtable\" \n|-\n! Icon !! Name !! Potential !! Effects !! Description\n",
    );
    push_chars(&mut out, &rows);
    push_text(&mut out, "|}\n");
    out
}

/// Builds the page of a government: for each tier a table of its reforms,
/// each with its icon, its name, the markup of its condition, its modifiers
/// and its description. `potentials` holds the markup of the condition of
/// each reform by the reform's identifier. The page stands under the
/// identifier of the government with its first character in upper case.
/// The mapping of the governments of old has no page.
pub fn government_page(
    government: &Government,
    reforms: &Vec<GovernmentReform>,
    localisations: &Lexicon,
    potentials: &Lexicon,
) -> (page: Option<Page>)
    requires
        localisations.wf(),
        potentials.wf(),
    ensures
        page is Some <==> government.id@ != "pre_dharma_mapping"@,
        page matches Some(p) ==> p.title@ == title_cased(government.id@) && p.body@
            == tier_sections(
            view_levels(government.reform_levels@),
            view_reforms(reforms@),
            localisations@,
            potentials@,
        ),
{
    if text_eq(government.id.as_str(), "pre_dharma_mapping") {
        return None;
    }
    let ghost levels = view_levels(government.reform_levels@);
    let mut out: Vec<char> = Vec::new();
    let mut i: usize = 0;
    while i < government.reform_levels.len()
        invariant
            i <= government.reform_levels.len(),
            localisations.wf(),
            potentials.wf(),
            levels == view_levels(government.reform_levels@),
            out@ == tier_sections(
                levels.take(i as int),
                view_reforms(reforms@),
                localisations@,
                potentials@,
            ),
        decreases government.reform_levels.len() - i,
    {
        assert(levels.take(i + 1).drop_last() =~= levels.take(i as int));
        assert(levels.take(i + 1).last() == government.reform_levels@[i as int]@);
        let section = tier_section_chars(
            i as u128 + 1,
            &government.reform_levels[i],
            reforms,
            localisations,
            potentials,
        );
        push_chars(&mut out, &section);
        i += 1;
    }
    assert(levels.take(i as int) =~= levels);
    Some(Page { title: title_case(government.id.as_str()), body: string_of(&out) })
}

/// A province with the names of the area, the region and the super-region
/// that it lies in.
pub struct Place {
    pub id: u64,
    pub name: Seq<char>,
    pub area: Seq<char>,
    pub region: Seq<char>,
    pub subcontinent: Seq<char>,
}

/// The places of the provinces of an area, in order.
pub open spec fn places_of_area(area: AreaView, region: Seq<char>, subcontinent: Seq<char>) -> Seq<
    Place,
> {
    area.provinces.map_values(
        |p: ProvinceView| Place { id: p.id, name: p.name, area: area.name, region, subcontinent },
    )
}

/// The places of the provinces of a list of areas, in order.
pub open spec fn places_of_areas(areas: Seq<AreaView>, region: Seq<char>, subcontinent: Seq<char>)
    -> Seq<Place>
    decreases areas.len(),
{
    if areas.len() == 0 {
        Seq::empty()
    } else {
        places_of_areas(areas.drop_last(), region, subcontinent) + places_of_area(
            areas.last(),
            region,
            subcontinent,
        )
    }
}

/// The places of the provinces of a list of regions, in order.
pub open spec fn places_of_regions(regions: Seq<RegionView>, subcontinent: Seq<char>) -> Seq<Place>
    decreases regions.len(),
{
    if regions.len() == 0 {
        Seq::empty()
    } else {
        places_of_regions(regions.drop_last(), subcontinent) + places_of_areas(
            regions.last().areas,
            regions.last().name,
            subcontinent,
        )
    }
}

/// The places of the provinces of a hierarchy, in order.
pub open spec fn places_of(hierarchy: Seq<SuperRegionView>) -> Seq<Place>
    decreases hierarchy.len(),
{
    if hierarchy.len() == 0 {
        Seq::empty()
    } else {
        places_of(hierarchy.drop_last()) + places_of_regions(
            hierarchy.last().regions,
            hierarchy.last().name,
        )
    }
}

/// The place of the province `id`: the last of the list with that
/// identifier.
pub open spec fn place_of(places: Seq<Place>, id: u64) -> Option<Place>
    decreases places.len(),
{
    if places.len() == 0 {
        None
    } else if places.last().id == id {
        Some(places.last())
    } else {
        place_of(places.drop_last(), id)
    }
}

/// The name of a continent in the world of the game; nothing for a
/// continent that has none.
pub open spec fn continent_label(continent: Seq<char>) -> Seq<char> {
    if continent == "africa"@ {
        "Sarhal"@
    } else if continent == "europe"@ {
        "Cannor"@
    } else if continent == "serpentspine"@ {
        "Serpentspine"@
    } else if continent == "asia"@ {
        "Haless"@
    } else if continent == "north_america"@ {
        "North Aelantir"@
    } else if continent == "south_america"@ {
        "South Aelantir"@
    } else if continent == "oceania"@ {
        "Insyaa"@
    } else {
        ""@
    }
}

/// The row of a province in the list of provinces.
pub open spec fn province_row(place: Place, continent: Seq<char>) -> Seq<char> {
    "| "@ + decimal_text(place.id as nat) + " || "@ + with_plain_bars(place.name) + " || "@
        + continent_label(continent) + " || "@ + place.subcontinent + " || "@ + place.region
        + " || "@ + with_plain_bars(place.area) + "\n"@ + "|-\n"@
}

/// The rows of the provinces that lie on a continent, in the order of the
/// assignments; a province that the hierarchy does not hold has no row.
pub open spec fn province_rows(continents: Seq<(u64, Seq<char>)>, places: Seq<Place>) -> Seq<char>
    decreases continents.len(),
{
    if continents.len() == 0 {
        Seq::empty()
    } else {
        match place_of(places, continents.last().0) {
            Some(place) => province_rows(continents.drop_last(), places) + province_row(
                place,
                continents.last().1,
            ),
            None => province_rows(continents.drop_last(), places),
        }
    }
}

/// The head of the list of provinces.
pub open spec fn province_list_head() -> Seq<char> {
    "{| class=\"wikitable sortable\" style=\"font-size:95%; text-align:left\"\n"@
        + "! ID !! Name !! Continent !! Subcontinent !! Region !! Area\n"@ + "|-\n"@
}

/// The text of the list of provinces.
pub open spec fn province_list(continents: Seq<(u64, Seq<char>)>, hierarchy: Seq<SuperRegionView>)
    -> Seq<char> {
    province_list_head() + province_rows(continents, places_of(hierarchy)) + "|}\n"@
}

/// Puts the raw name of a continent into the name that it has in the world
/// of the game.
pub fn continent_name(continent: &str) -> (label: &'static str)
    ensures
        label@ == continent_label(continent@),
{
    if text_eq(continent, "africa") {
        "Sarhal"
    } else if text_eq(continent, "europe") {
        "Cannor"
    } else if text_eq(continent, "serpentspine") {
        "Serpentspine"
    } else if text_eq(continent, "asia") {
        "Haless"
    } else if text_eq(continent, "north_america") {
        "North Aelantir"
    } else if text_eq(continent, "south_america") {
        "South Aelantir"
    } else if text_eq(continent, "oceania") {
        "Insyaa"
    } else {
        ""
    }
}

/// A province of the hierarchy, by the places of its super-region, its
/// region, its area and itself.
struct Located {
    s: usize,
    r: usize,
    a: usize,
    p: usize,
}

/// The place that a location stands for.
spec fn located_place(hierarchy: Seq<SuperRegion>, at: Located) -> Place {
    let s = hierarchy[at.s as int];
    let r = s.regions@[at.r as int];
    let a = r.areas@[at.a as int];
    let p = a.provinces@[at.p as int];
    Place { id: p.id, name: p.name@, area: a.name@, region: r.name@, subcontinent: s.name@ }
}

/// Whether a location lies within the hierarchy.
spec fn located_within(hierarchy: Seq<SuperRegion>, at: Located) -> bool {
    &&& at.s < hierarchy.len()
    &&& at.r < hierarchy[at.s as int].regions@.len()
    &&& at.a < hierarchy[at.s as int].regions@[at.r as int].areas@.len()
    &&& at.p < hierarchy[at.s as int].regions@[at.r as int].areas@[at.a as int].provinces@.len()
}

/// The places that a list of locations stands for.
spec fn located_places(hierarchy: Seq<SuperRegion>, list: Seq<Located>) -> Seq<Place> {
    list.map_values(|at: Located| located_place(hierarchy, at))
}

fn locate_area(
    hierarchy: &Vec<SuperRegion>,
    s: usize,
    r: usize,
    a: usize,
    list: &mut Vec<Located>,
)
    requires
        s < hierarchy.len(),
        r < hierarchy@[s as int].regions@.len(),
        a < hierarchy@[s as int].regions@[r as int].areas@.len(),
        forall|k: int| 0 <= k < old(list)@.len() ==> located_within(hierarchy@, old(list)@[k]),
    ensures
        forall|k: int| 0 <= k < final(list)@.len() ==> located_within(hierarchy@, final(list)@[k]),
        located_places(hierarchy@, final(list)@) == located_places(hierarchy@, old(list)@)
            + places_of_area(
            hierarchy@[s as int].regions@[r as int].areas@[a as int]@,
            hierarchy@[s as int].regions@[r as int].name@,
            hierarchy@[s as int].name@,
        ),
{
    let area = &hierarchy[s].regions[r].areas[a];
    let ghost before = located_places(hierarchy@, list@);
    let ghost all = places_of_area(
        area@,
        hierarchy@[s as int].regions@[r as int].name@,
        hierarchy@[s as int].name@,
    );
    let mut p: usize = 0;
    assert(located_places(hierarchy@, list@) =~= before + all.take(0));
    while p < area.provinces.len()
        invariant
            p <= area.provinces.len(),
            s < hierarchy.len(),
            r < hierarchy@[s as int].regions@.len(),
            a < hierarchy@[s as int].regions@[r as int].areas@.len(),
            *area == hierarchy@[s as int].regions@[r as int].areas@[a as int],
            all == places_of_area(
                area@,
                hierarchy@[s as int].regions@[r as int].name@,
                hierarchy@[s as int].name@,
            ),
            forall|k: int| 0 <= k < list@.len() ==> located_within(hierarchy@, list@[k]),
            located_places(hierarchy@, list@) == before + all.take(p as int),
        decreases area.provinces.len() - p,
    {
        let at = Located { s, r, a, p };
        let ghost held = located_places(hierarchy@, list@);
        list.push(at);
        assert(view_provinces(area.provinces@)[p as int] == area.provinces@[p as int]@);
        assert(located_places(hierarchy@, list@) =~= held.push(located_place(hierarchy@, at)));
        assert(located_places(hierarchy@, list@) =~= before + all.take(p + 1));
        p += 1;
    }
    assert(all.take(p as int) =~= all);
}

fn locate_region(hierarchy: &Vec<SuperRegion>, s: usize, r: usize, list: &mut Vec<Located>)
    requires
        s < hierarchy.len(),
        r < hierarchy@[s as int].regions@.len(),
        forall|k: int| 0 <= k < old(list)@.len() ==> located_within(hierarchy@, old(list)@[k]),
    ensures
        forall|k: int| 0 <= k < final(list)@.len() ==> located_within(hierarchy@, final(list)@[k]),
        located_places(hierarchy@, final(list)@) == located_places(hierarchy@, old(list)@)
            + places_of_areas(
            hierarchy@[s as int].regions@[r as int]@.areas,
            hierarchy@[s as int].regions@[r as int].name@,
            hierarchy@[s as int].name@,
        ),
{
    let region = &hierarchy[s].regions[r];
    let ghost before = located_places(hierarchy@, list@);
    let ghost areas = view_areas(region.areas@);
    let ghost name = region.name@;
    let ghost subcontinent = hierarchy@[s as int].name@;
    let mut a: usize = 0;
    assert(located_places(hierarchy@, list@) =~= before + places_of_areas(
        areas.take(0),
        name,
        subcontinent,
    ));
    while a < region.areas.len()
        invariant
            a <= region.areas.len(),
            s < hierarchy.len(),
            r < hierarchy@[s as int].regions@.len(),
            *region == hierarchy@[s as int].regions@[r as int],
            areas == view_areas(region.areas@),
            name == region.name@,
            subcontinent == hierarchy@[s as int].name@,
            forall|k: int| 0 <= k < list@.len() ==> located_within(hierarchy@, list@[k]),
            located_places(hierarchy@, list@) == before + places_of_areas(
                areas.take(a as int),
                name,
                subcontinent,
            ),
        decreases region.areas.len() - a,
    {
        assert(areas.take(a + 1).drop_last() =~= areas.take(a as int));
        assert(areas.take(a + 1).last() == region.areas@[a as int]@);
        let ghost done = places_of_areas(areas.take(a as int), name, subcontinent);
        locate_area(hierarchy, s, r, a, list);
        assert(located_places(hierarchy@, list@) =~= before + (done + places_of_area(
            region.areas@[a as int]@,
            name,
            subcontinent,
        )));
        a += 1;
    }
    assert(areas.take(a as int) =~= areas);
}

fn locate_all(hierarchy: &Vec<SuperRegion>) -> (list: Vec<Located>)
    ensures
        forall|k: int| 0 <= k < list@.len() ==> located_within(hierarchy@, list@[k]),
        located_places(hierarchy@, list@) == places_of(view_super_regions(hierarchy@)),
{
    let ghost all = view_super_regions(hierarchy@);
    let mut list: Vec<Located> = Vec::new();
    let mut s: usize = 0;
    assert(located_places(hierarchy@, list@) =~= places_of(all.take(0)));
    while s < hierarchy.len()
        invariant
            s <= hierarchy.len(),
            all == view_super_regions(hierarchy@),
            forall|k: int| 0 <= k < list@.len() ==> located_within(hierarchy@, list@[k]),
            located_places(hierarchy@, list@) == places_of(all.take(s as int)),
        decreases hierarchy.len() - s,
    {
        assert(all.take(s + 1).drop_last() =~= all.take(s as int));
        assert(all.take(s + 1).last() == hierarchy@[s as int]@);
        let ghost before = located_places(hierarchy@, list@);
        let ghost regions = view_regions(hierarchy@[s as int].regions@);
        let ghost subcontinent = hierarchy@[s as int].name@;
        let mut r: usize = 0;
        assert(located_places(hierarchy@, list@) =~= before + places_of_regions(
            regions.take(0),
            subcontinent,
        ));
        while r < hierarchy[s].regions.len()
            invariant
                s < hierarchy.len(),
                r <= hierarchy@[s as int].regions@.len(),
                regions == view_regions(hierarchy@[s as int].regions@),
                subcontinent == hierarchy@[s as int].name@,
                forall|k: int| 0 <= k < list@.len() ==> located_within(hierarchy@, list@[k]),
                located_places(hierarchy@, list@) == before + places_of_regions(
                    regions.take(r as int),
                    subcontinent,
                ),
            decreases hierarchy@[s as int].regions@.len() - r,
        {
            assert(regions.take(r + 1).drop_last() =~= regions.take(r as int));
            assert(regions.take(r + 1).last() == hierarchy@[s as int].regions@[r as int]@);
            let ghost done = places_of_regions(regions.take(r as int), subcontinent);
            locate_region(hierarchy, s, r, &mut list);
            assert(located_places(hierarchy@, list@) =~= before + (done + places_of_areas(
                hierarchy@[s as int].regions@[r as int]@.areas,
                hierarchy@[s as int].regions@[r as int].name@,
                subcontinent,
            )));
            r += 1;
        }
        assert(regions.take(r as int) =~= regions);
        s += 1;
    }
    assert(all.take(s as int) =~= all);
    list
}

fn find_place(hierarchy: &Vec<SuperRegion>, list: &Vec<Located>, id: u64) -> (found: Option<
    usize,
>)
    requires
        forall|k: int| 0 <= k < list@.len() ==> located_within(hierarchy@, list@[k]),
    ensures
        match found {
            Some(k) => k < list@.len() && place_of(located_places(hierarchy@, list@), id) == Some(
                located_place(hierarchy@, list@[k as int]),
            ),
            None => place_of(located_places(hierarchy@, list@), id) is None,
        },
{
    let ghost places = located_places(hierarchy@, list@);
    let mut found: Option<usize> = None;
    let mut i: usize = 0;
    while i < list.len()
        invariant
            i <= list.len(),
            places == located_places(hierarchy@, list@),
            forall|k: int| 0 <= k < list@.len() ==> located_within(hierarchy@, list@[k]),
            match found {
                Some(k) => k < i && place_of(places.take(i as int), id) == Some(
                    located_place(hierarchy@, list@[k as int]),
                ),
                None => place_of(places.take(i as int), id) is None,
            },
        decreases list.len() - i,
    {
        assert(places.take(i + 1).drop_last() =~= places.take(i as int));
        assert(places.take(i + 1).last() == located_place(hierarchy@, list@[i as int]));
        let at = &list[i];
        assert(located_within(hierarchy@, *at));
        if hierarchy[at.s].regions[at.r].areas[at.a].provinces[at.p].id == id {
            found = Some(i);
        }
        i += 1;
    }
    assert(places.take(i as int) =~= places);
    found
}

fn province_row_chars(hierarchy: &Vec<SuperRegion>, at: &Located, continent: &str) -> (chars: Vec<
    char,
>)
    requires
        located_within(hierarchy@, *at),
    ensures
        chars@ == province_row(located_place(hierarchy@, *at), continent@),
{
    let super_region = &hierarchy[at.s];
    let region = &super_region.regions[at.r];
    let area = &region.areas[at.a];
    let province = &area.provinces[at.p];
    let mut out = chars_of("| ");
    push_chars(&mut out, &decimal_chars(province.id as u128));
    push_text(&mut out, " || ");
    push_chars(&mut out, &with_plain_bars_chars(province.name.as_str()));
    push_text(&mut out, " || ");
    push_text(&mut out, continent_name(continent));
    push_text(&mut out, " || ");
    push_text(&mut out, super_region.name.as_str());
    push_text(&mut out, " || ");
    push_text(&mut out, region.name.as_str());
    push_text(&mut out, " || ");
    push_chars(&mut out, &with_plain_bars_chars(area.name.as_str()));
    push_text(&mut out, "\n");
    push_text(&mut out, "|-\n");
    out
}

/// Builds the geographical list of provinces: a table with one row for each
/// province of the hierarchy that lies on a continent, in the order of the
/// assignments of provinces to continents.
pub fn province_list_page(hierarchy: &Vec<SuperRegion>, continents: &Vec<(u64, String)>) -> (page:
    Page)
    ensures
        page.title@ == "Geographical list of provinces"@,
        page.body@ == province_list(
            view_assignments(continents@),
            view_super_regions(hierarchy@),
        ),
{
    let located = locate_all(hierarchy);
    let ghost places = places_of(view_super_regions(hierarchy@));
    let ghost all = view_assignments(continents@);
    let mut rows: Vec<char> = Vec::new();
    let mut i: usize = 0;
    while i < continents.len()
        invariant
            i <= continents.len(),
            all == view_assignments(continents@),
            places == located_places(hierarchy@, located@),
            forall|k: int| 0 <= k < located@.len() ==> located_within(hierarchy@, located@[k]),
            rows@ == province_rows(all.take(i as int), places),
        decreases continents.len() - i,
    {
        assert(all.take(i + 1).drop_last() =~= all.take(i as int));
        assert(all.take(i + 1).last() == (continents@[i as int].0, continents@[i as int].1@));
        match find_place(hierarchy, &located, continents[i].0) {
            Some(k) => {
                let row = province_row_chars(hierarchy, &located[k], continents[i].1.as_str());
                push_chars(&mut rows, &row);
            },
            None => {},
        }
        i += 1;
    }
    assert(all.take(i as int) =~= all);
    let mut out = chars_of(
        "{| class=\"wikitable sortable\" style=\"font-size:95%; text-align:left\"\n",
    );
    push_text(&mut out, "! ID !! Name !! Continent !! Subcontinent !! Region !! Area\n");
    push_text(&mut out, "|-\n");
    push_chars(&mut out, &rows);
    push_text(&mut out, "|}\n");
    Page { title: "Geographical list of provinces".to_owned(), body: string_of(&out) }
}

} // verus!
