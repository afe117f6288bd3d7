//! Localisation files: lines of the form `key:0 "display string"`, read into
//! a table from keys to display strings.
//!
//! The first line of a file names its language and is passed over, as are
//! empty lines and lines that start with `#`. A line is split at its first
//! colon. What stands behind the colon is the value: the digits at its start
//! and the whitespace behind them are dropped, an inline comment behind the
//! last double quote is cut off, and one double quote is taken off each end.
use vstd::prelude::*;
use regex::Regex;
use crate::countries::{
    Country, country_tag, CountryHistory, CountryView, empty_history, find_country, view_countries,
};
use crate::ideas::{empty_idea_set, IdeaSet};
use crate::lexicon::{Lexicon, merged_keys};
use crate::pool::position;
use crate::text::{
    chars_of, find_first, find_last, lemma_utf8_len_grows, line_bounds, lines_of, push_text,
    skip_numeric, skip_numeric_at, slice_string, string_of, trim, trim_end_at, trim_start,
    trim_start_at, utf8_len, utf8_width_of,
};

verus! {

/// The three tables that the pages draw on.
pub struct Localisations {
    pub countries: Lexicon,
    pub ideas: Lexicon,
    pub cultures: Lexicon,
}

impl Default for Localisations {
    fn default() -> (tables: Localisations)
        ensures
            tables.countries.wf() && tables.countries@ == Map::<Seq<char>, Seq<char>>::empty(),
            tables.ideas.wf() && tables.ideas@ == Map::<Seq<char>, Seq<char>>::empty(),
            tables.cultures.wf() && tables.cultures@ == Map::<Seq<char>, Seq<char>>::empty(),
    {
        Localisations { countries: Lexicon::new(), ideas: Lexicon::new(), cultures: Lexicon::new() }
    }
}

/// The text up to its last double quote, where it does not end with one and
/// holds one: an inline comment is cut off.
pub open spec fn without_comment(text: Seq<char>) -> Seq<char> {
    if text.len() > 0 && text.last() == '"' {
        text
    } else {
        match text.index_of_last('"') {
            Some(i) => text.take(i),
            None => text,
        }
    }
}

/// The text without one double quote at its start and one at its end.
pub open spec fn unquoted(text: Seq<char>) -> Seq<char> {
    let opened = if text.len() > 0 && text.first() == '"' {
        text.drop_first()
    } else {
        text
    };
    if opened.len() > 0 && opened.last() == '"' {
        opened.drop_last()
    } else {
        opened
    }
}

/// The display string that stands behind the colon of a line: empty where
/// fewer than four bytes stand there.
pub open spec fn value_of(rest: Seq<char>) -> Seq<char> {
    if utf8_len(rest) < 4 {
        Seq::empty()
    } else {
        unquoted(without_comment(trim_start(skip_numeric(rest))))
    }
}

/// The entry that a trimmed line holds: none for an empty line, a comment, a
/// line without a colon and a line that starts with one.
pub open spec fn entry_of(line: Seq<char>) -> Option<(Seq<char>, Seq<char>)> {
    if line.len() == 0 || line.first() == '#' {
        None
    } else {
        match line.index_of_first(':') {
            Some(colon) => if 0 < colon < line.len() {
                Some((line.take(colon), value_of(line.skip(colon + 1))))
            } else {
                None
            },
            None => None,
        }
    }
}

/// The table that a list of lines gives: each entry is stored in the place
/// of an earlier one with the same key.
pub open spec fn table_of(lines: Seq<Seq<char>>) -> Map<Seq<char>, Seq<char>>
    decreases lines.len(),
{
    if lines.len() == 0 {
        Map::empty()
    } else {
        match entry_of(trim(lines.last())) {
            Some(entry) => table_of(lines.drop_last()).insert(entry.0, entry.1),
            None => table_of(lines.drop_last()),
        }
    }
}

/// The keys of the table that a list of lines gives, in the order in which
/// they first come.
pub open spec fn keys_of(lines: Seq<Seq<char>>) -> Seq<Seq<char>>
    decreases lines.len(),
{
    if lines.len() == 0 {
        Seq::empty()
    } else {
        match entry_of(trim(lines.last())) {
            Some(entry) => if table_of(lines.drop_last()).contains_key(entry.0) {
                keys_of(lines.drop_last())
            } else {
                keys_of(lines.drop_last()).push(entry.0)
            },
            None => keys_of(lines.drop_last()),
        }
    }
}

/// The lines but the first.
pub open spec fn body_lines(lines: Seq<Seq<char>>) -> Seq<Seq<char>> {
    if lines.len() == 0 {
        Seq::empty()
    } else {
        lines.skip(1)
    }
}

/// The table that a localisation file gives: that of its lines but the
/// first.
pub open spec fn localisation_of(text: Seq<char>) -> Map<Seq<char>, Seq<char>> {
    table_of(body_lines(lines_of(text)))
}

/// Whether the text from `from` up to `to` takes fewer than four bytes.
fn is_short(chars: &Vec<char>, from: usize, to: usize) -> (short: bool)
    requires
        from <= to <= chars.len(),
    ensures
        short == (utf8_len(chars@.subrange(from as int, to as int)) < 4),
{
    let ghost part = chars@.subrange(from as int, to as int);
    let mut bytes: usize = 0;
    let mut i: usize = from;
    while i < to
        invariant
            from <= i <= to <= chars.len(),
            part == chars@.subrange(from as int, to as int),
            bytes == utf8_len(part.take(i - from)),
            bytes < 4,
        decreases to - i,
    {
        assert(part.take(i - from + 1).drop_last() =~= part.take(i - from));
        assert(part.take(i - from + 1).last() == chars@[i as int]);
        bytes = bytes + utf8_width_of(chars[i]);
        if bytes >= 4 {
            proof {
                lemma_utf8_len_grows(part, i - from + 1);
            }
            return false;
        }
        i += 1;
    }
    assert(part.take(i - from) =~= part);
    true
}

/// Reads the display string that stands from `from` up to `to`.
fn read_value(chars: &Vec<char>, from: usize, to: usize) -> (value: String)
    requires
        from <= to <= chars.len(),
    ensures
        value@ == value_of(chars@.subrange(from as int, to as int)),
{
    if is_short(chars, from, to) {
        return String::new();
    }
    let digits_end = skip_numeric_at(chars, from, to);
    let mut start = trim_start_at(chars, digits_end, to);
    let mut end = to;
    let ghost val = chars@.subrange(start as int, to as int);
    assert(val == trim_start(skip_numeric(chars@.subrange(from as int, to as int))));
    if !(start < end && chars[end - 1] == '"') {
        match find_last(chars, start, end, '"') {
            Some(quote) => {
                end = start + quote;
                assert(chars@.subrange(start as int, end as int) =~= val.take(quote as int));
            },
            None => {},
        }
    }
    let ghost cut = chars@.subrange(start as int, end as int);
    assert(cut == without_comment(val));
    if start < end && chars[start] == '"' {
        assert(cut.drop_first() =~= chars@.subrange(start + 1, end as int));
        start += 1;
    }
    let ghost opened = chars@.subrange(start as int, end as int);
    if start < end && chars[end - 1] == '"' {
        assert(opened.drop_last() =~= chars@.subrange(start as int, end - 1));
        end -= 1;
    }
    slice_string(chars, start, end)
}

/// Reads the entry of the line that stands from `from` up to `to`, and
/// stores it.
fn read_line(chars: &Vec<char>, from: usize, to: usize, table: &mut Lexicon)
    requires
        from <= to <= chars.len(),
        old(table).wf(),
    ensures
        final(table).wf(),
        final(table)@ == match entry_of(trim(chars@.subrange(from as int, to as int))) {
            Some(entry) => old(table)@.insert(entry.0, entry.1),
            None => old(table)@,
        },
        final(table).key_list() == match entry_of(
            trim(chars@.subrange(from as int, to as int)),
        ) {
            Some(entry) => if old(table)@.contains_key(entry.0) {
                old(table).key_list()
            } else {
                old(table).key_list().push(entry.0)
            },
            None => old(table).key_list(),
        },
{
    let start = trim_start_at(chars, from, to);
    let end = trim_end_at(chars, start, to);
    let ghost line = chars@.subrange(start as int, end as int);
    assert(line == trim(chars@.subrange(from as int, to as int)));
    if start == end || chars[start] == '#' {
        return ;
    }
    match find_first(chars, start, end, ':') {
        Some(colon) => {
            if colon > 0 {
                let key = slice_string(chars, start, start + colon);
                let value = read_value(chars, start + colon + 1, end);
                assert(line.take(colon as int) =~= chars@.subrange(
                    start as int,
                    start + colon,
                ));
                assert(line.skip(colon + 1) =~= chars@.subrange(start + colon + 1, end as int));
                table.insert(key, value);
            }
        },
        None => {},
    }
}

/// Reads a localisation file into a table.
pub fn parse_localisation_file(data: &str) -> (table: Lexicon)
    ensures
        table.wf(),
        table@ == localisation_of(data@),
        table.key_list() == keys_of(body_lines(lines_of(data@))),
{
    let chars = chars_of(data);
    let bounds = line_bounds(&chars);
    let ghost lines = lines_of(chars@);
    let mut table = Lexicon::new();
    if bounds.len() == 0 {
        return table;
    }
    let mut i: usize = 1;
    assert(lines.subrange(1, 1) =~= Seq::<Seq<char>>::empty());
    while i < bounds.len()
        invariant
            1 <= i <= bounds.len(),
            lines == lines_of(chars@),
            bounds@.len() == lines.len(),
            forall|k: int|
                0 <= k < bounds@.len() ==> (#[trigger] bounds@[k]).0 <= bounds@[k].1
                    <= chars@.len() && chars@.subrange(
                    bounds@[k].0 as int,
                    bounds@[k].1 as int,
                ) == lines[k],
            table.wf(),
            table@ == table_of(lines.subrange(1, i as int)),
            table.key_list() == keys_of(lines.subrange(1, i as int)),
        decreases bounds.len() - i,
    {
        assert(lines.subrange(1, i + 1).drop_last() =~= lines.subrange(1, i as int));
        assert(lines.subrange(1, i + 1).last() == lines[i as int]);
        let (from, to) = bounds[i];
        read_line(&chars, from, to, &mut table);
        i += 1;
    }
    assert(lines.subrange(1, i as int) =~= lines.skip(1));
    table
}

/// The table that a list of localisation files gives together: an entry of
/// a later file stands in the place of an earlier one with the same key.
pub open spec fn merged_localisation(files: Seq<Seq<char>>) -> Map<Seq<char>, Seq<char>>
    decreases files.len(),
{
    if files.len() == 0 {
        Map::empty()
    } else {
        merged_localisation(files.drop_last()).union_prefer_right(localisation_of(files.last()))
    }
}

/// The keys of the table that a list of localisation files gives together,
/// in the order in which they first come.
pub open spec fn merged_key_order(files: Seq<Seq<char>>) -> Seq<Seq<char>>
    decreases files.len(),
{
    if files.len() == 0 {
        Seq::empty()
    } else {
        merged_keys(
            merged_key_order(files.drop_last()),
            merged_localisation(files.drop_last()),
            keys_of(body_lines(lines_of(files.last()))),
            keys_of(body_lines(lines_of(files.last()))).len() as int,
        )
    }
}

/// Reads a list of localisation files into one table.
pub fn parse_all_localisations(files: &Vec<String>) -> (table: Lexicon)
    ensures
        table.wf(),
        table@ == merged_localisation(crate::text::texts(files@)),
        table.key_list() == merged_key_order(crate::text::texts(files@)),
{
    let ghost all = crate::text::texts(files@);
    let mut table = Lexicon::new();
    let mut i: usize = 0;
    while i < files.len()
        invariant
            i <= files.len(),
            all == crate::text::texts(files@),
            table.wf(),
            table@ == merged_localisation(all.take(i as int)),
            table.key_list() == merged_key_order(all.take(i as int)),
        decreases files.len() - i,
    {
        assert(all.take(i + 1).drop_last() =~= all.take(i as int));
        assert(all.take(i + 1).last() == files@[i as int]@);
        let parsed = parse_localisation_file(files[i].as_str());
        table.extend(&parsed);
        i += 1;
    }
    assert(all.take(i as int) =~= all);
    table
}

/// Whether a key ends with `_ADJ`.
pub open spec fn is_adjective_key(key: Seq<char>) -> bool {
    key.len() >= 4 && key[key.len() - 4] == '_' && key[key.len() - 3] == 'A' && key[key.len()
        - 2] == 'D' && key[key.len() - 1] == 'J'
}

/// The country `tag` with nothing known of it.
pub open spec fn blank_country(tag: Seq<char>) -> CountryView {
    CountryView {
        tag,
        name: Seq::empty(),
        adjective: Seq::empty(),
        ideas: empty_idea_set(),
        history: empty_history(),
        end_game_tag: false,
    }
}

/// Gives the country `tag` the adjective `adjective`; the country is added
/// where the list does not hold it.
pub open spec fn with_adjective(countries: Seq<CountryView>, tag: Seq<char>, adjective: Seq<char>)
    -> Seq<CountryView> {
    match position(countries, country_tag(), tag) {
        Some(i) => countries.update(i, CountryView { adjective, ..countries[i] }),
        None => countries.push(CountryView { adjective, ..blank_country(tag) }),
    }
}

/// Gives the country `tag` the name `name`; where the list does not hold the
/// country, it is added unless the name is empty.
pub open spec fn with_name(countries: Seq<CountryView>, tag: Seq<char>, name: Seq<char>) -> Seq<
    CountryView,
> {
    match position(countries, country_tag(), tag) {
        Some(i) => countries.update(i, CountryView { name, ..countries[i] }),
        None => if name.len() > 0 {
            countries.push(CountryView { name, ..blank_country(tag) })
        } else {
            countries
        },
    }
}

/// What one entry of the country localisation file adds to the countries: a
/// key that ends with `_ADJ` gives an adjective, and another key of three
/// bytes gives a name.
pub open spec fn with_entry(countries: Seq<CountryView>, key: Seq<char>, value: Seq<char>) -> Seq<
    CountryView,
> {
    if is_adjective_key(key) {
        with_adjective(countries, key.take(key.len() - 4), value)
    } else if utf8_len(key) == 3 {
        with_name(countries, key, value)
    } else {
        countries
    }
}

/// The countries that the first `n` entries of a table give.
pub open spec fn localised_countries(
    keys: Seq<Seq<char>>,
    table: Map<Seq<char>, Seq<char>>,
    n: int,
) -> Seq<CountryView>
    decreases n,
{
    if n <= 0 {
        Seq::empty()
    } else {
        with_entry(localised_countries(keys, table, n - 1), keys[n - 1], table[keys[n - 1]])
    }
}

fn blank(tag: String, name: String, adjective: String) -> (country: Country)
    ensures
        country@ == (CountryView { name: name@, adjective: adjective@, ..blank_country(tag@) }),
{
    Country {
        tag,
        name,
        adjective,
        ideas: IdeaSet::default(),
        history: CountryHistory::default(),
        end_game_tag: false,
    }
}

fn add_entry(countries: &mut Vec<Country>, key: &String, value: &String)
    ensures
        view_countries(final(countries)@) == with_entry(
            view_countries(old(countries)@),
            key@,
            value@,
        ),
{
    let chars = chars_of(key.as_str());
    let n = chars.len();
    let ghost before = view_countries(countries@);
    if n >= 4 && chars[n - 4] == '_' && chars[n - 3] == 'A' && chars[n - 2] == 'D' && chars[n
        - 1] == 'J' {
        let tag = slice_string(&chars, 0, n - 4);
        assert(tag@ =~= key@.take(key@.len() - 4));
        match find_country(countries, tag.as_str()) {
            Some(place) => {
                let mut country = countries.remove(place);
                assert(view_countries(countries@) =~= before.remove(place as int));
                country.adjective = value.clone();
                let ghost changed = country@;
                countries.insert(place, country);
                assert(view_countries(countries@) =~= before.update(place as int, changed));
            },
            None => {
                let country = blank(tag, String::new(), value.clone());
                countries.push(country);
                assert(view_countries(countries@) =~= before.push(country@));
            },
        }
    } else if !is_short_of(&chars, 3) && is_short_of(&chars, 4) {
        match find_country(countries, key.as_str()) {
            Some(place) => {
                let mut country = countries.remove(place);
                assert(view_countries(countries@) =~= before.remove(place as int));
                country.name = value.clone();
                let ghost changed = country@;
                countries.insert(place, country);
                assert(view_countries(countries@) =~= before.update(place as int, changed));
            },
            None => {
                if !value.as_str().is_empty() {
                    let country = blank(key.clone(), value.clone(), String::new());
                    countries.push(country);
                    assert(view_countries(countries@) =~= before.push(country@));
                }
            },
        }
    }
}

/// Whether the text takes fewer than `limit` bytes.
fn is_short_of(chars: &Vec<char>, limit: usize) -> (short: bool)
    requires
        1 <= limit <= 4,
    ensures
        short == (utf8_len(chars@) < limit),
{
    let mut bytes: usize = 0;
    let mut i: usize = 0;
    while i < chars.len()
        invariant
            i <= chars.len(),
            1 <= limit <= 4,
            bytes == utf8_len(chars@.take(i as int)),
            bytes < limit,
        decreases chars.len() - i,
    {
        assert(chars@.take(i + 1).drop_last() =~= chars@.take(i as int));
        bytes = bytes + utf8_width_of(chars[i]);
        if bytes >= limit {
            proof {
                lemma_utf8_len_grows(chars@, i + 1);
            }
            return false;
        }
        i += 1;
    }
    assert(chars@.take(i as int) =~= chars@);
    true
}

/// Builds the countries that the country localisation table names: a key of
/// three bytes gives a country its name, and the same key followed by `_ADJ`
/// gives it its adjective.
pub fn parse_country_localisations(parsed: &Lexicon) -> (countries: Vec<Country>)
    requires
        parsed.wf(),
    ensures
        view_countries(countries@) == localised_countries(
            parsed.key_list(),
            parsed@,
            parsed.key_list().len() as int,
        ),
{
    let mut countries: Vec<Country> = Vec::new();
    let mut i: usize = 0;
    assert(view_countries(countries@) =~= Seq::<CountryView>::empty());
    while i < parsed.len()
        invariant
            i <= parsed.key_list().len(),
            parsed.wf(),
            view_countries(countries@) == localised_countries(
                parsed.key_list(),
                parsed@,
                i as int,
            ),
        decreases parsed.key_list().len() - i,
    {
        add_entry(&mut countries, parsed.key_at(i), parsed.value_at(i));
        i += 1;
    }
    countries
}

/// The compiled pattern of the outside regular-expression engine.
#[verifier::external_type_specification]
#[verifier::external_body]
pub struct ExRegex(Regex);

/// The pattern that a compiled regular expression was made from.
pub uninterp spec fn pattern_of(regex: Regex) -> Seq<char>;

/// Whether `regex::Regex::new` accepts a pattern.
pub uninterp spec fn is_pattern(pattern: Seq<char>) -> bool;

/// The text that `regex::Regex::replace_all` gives for a pattern, a text and
/// a replacement.
pub uninterp spec fn replaced_all(pattern: Seq<char>, text: Seq<char>, replacement: Seq<char>)
    -> Seq<char>;

/// Trusted: `regex::Regex::new`. The contract names the patterns that the
/// outside engine accepts, and says that the compiled expression stands for
/// the pattern it was made from. An error of the outside function becomes
/// `None`.
#[verifier::external_body]
fn compile(pattern: &str) -> (regex: Option<Regex>)
    ensures
        regex is Some <==> is_pattern(pattern@),
        regex matches Some(r) ==> pattern_of(r) == pattern@,
{
    Regex::new(pattern).ok()
}

/// Trusted: `regex::Regex::replace_all`. The contract names the result: it
/// depends on the pattern, the text and the replacement alone.
#[verifier::external_body]
fn replace_all(regex: &Regex, text: &str, replacement: &str) -> (out: String)
    ensures
        out@ == replaced_all(pattern_of(*regex), text@, replacement@),
{
    regex.replace_all(text, replacement).into_owned()
}

/// The pattern for the colour code `code`: the section sign and the code,
/// the shortest run of at least one character, and the section sign and `!`.
pub open spec fn colour_pattern(code: char) -> Seq<char> {
    seq!['\u{a7}', code] + "(.+?)"@ + seq!['\u{a7}', '!']
}

/// The markup that replaces a run of the colour `class`.
pub open spec fn colour_markup(class: Seq<char>) -> Seq<char> {
    "<span class=\""@ + class + "\">$1</span>"@
}

/// The text with the runs of one colour marked up; the text as it stands
/// where the outside engine does not accept the pattern.
pub open spec fn coloured_with(text: Seq<char>, code: char, class: Seq<char>) -> Seq<char> {
    if is_pattern(colour_pattern(code)) {
        replaced_all(colour_pattern(code), text, colour_markup(class))
    } else {
        text
    }
}

/// The text with the runs of every colour marked up, one colour after the
/// other.
pub open spec fn coloured(text: Seq<char>) -> Seq<char> {
    let white = coloured_with(text, 'W', "white"@);
    let blue = coloured_with(white, 'B', "blue"@);
    let green = coloured_with(blue, 'G', "green"@);
    let red = coloured_with(green, 'R', "red"@);
    let black = coloured_with(red, 'b', "black"@);
    let grey = coloured_with(black, 'g', "grey"@);
    let yellow = coloured_with(grey, 'Y', "yellow"@);
    let marine = coloured_with(yellow, 'M', "marine"@);
    let teal = coloured_with(marine, 'T', "teal"@);
    let orange = coloured_with(teal, 'O', "orange"@);
    let lime = coloured_with(orange, 'l', "lime"@);
    let jade = coloured_with(lime, 'J', "jade"@);
    let purple = coloured_with(jade, 'P', "purple"@);
    coloured_with(purple, 'V', "violet"@)
}

fn colour_with(text: String, code: char, class: &str) -> (out: String)
    ensures
        out@ == coloured_with(text@, code, class@),
{
    let mut pattern: Vec<char> = Vec::new();
    pattern.push('\u{a7}');
    pattern.push(code);
    push_text(&mut pattern, "(.+?)");
    pattern.push('\u{a7}');
    pattern.push('!');
    assert(pattern@ =~= colour_pattern(code));
    let mut markup: Vec<char> = Vec::new();
    push_text(&mut markup, "<span class=\"");
    push_text(&mut markup, class);
    push_text(&mut markup, "\">$1</span>");
    assert(markup@ =~= colour_markup(class@));
    match compile(string_of(&pattern).as_str()) {
        Some(regex) => replace_all(&regex, text.as_str(), string_of(&markup).as_str()),
        None => text,
    }
}

/// Turns the colour codes of a display string into markup: a run between
/// the section sign with a colour letter and the section sign with `!`
/// becomes a span of that colour's class.
pub fn colourise(input: &String) -> (out: String)
    ensures
        out@ == coloured(input@),
{
    let white = colour_with(input.clone(), 'W', "white");
    let blue = colour_with(white, 'B', "blue");
    let green = colour_with(blue, 'G', "green");
    let red = colour_with(green, 'R', "red");
    let black = colour_with(red, 'b', "black");
    let grey = colour_with(black, 'g', "grey");
    let yellow = colour_with(grey, 'Y', "yellow");
    let marine = colour_with(yellow, 'M', "marine");
    let teal = colour_with(marine, 'T', "teal");
    let orange = colour_with(teal, 'O', "orange");
    let lime = colour_with(orange, 'l', "lime");
    let jade = colour_with(lime, 'J', "jade");
    let purple = colour_with(jade, 'P', "purple");
    colour_with(purple, 'V', "violet")
}

} // verus!
