//! The entity enricher for countries: a country is a tag of the tag list,
//! enriched with its history, its localised name and adjective, and its
//! classification flags.
//!
//! A tag without a display name is left out. Culture and religion are first
//! the raw identifiers of the history and are replaced by their display
//! strings where the localisation table holds them.
use vstd::prelude::*;
use vstd::string::*;
use crate::document::{
    all_texts, Document, Entry, first_flag, first_number, first_text, read_all_texts,
    read_first_flag, read_first_number, read_first_text,
};
use crate::ideas::{empty_idea_set, IdeaSet, IdeaSetView};
use crate::lexicon::{Lexicon, localised, lookup};
use crate::pool::{holds, lemma_position, position};
use crate::table::Table;
use crate::tree::{parse_document, parsed_document};
use crate::tags::TagSet;
use crate::text::{
    before_first, chars_of, find_first, find_last, line_bounds, lines_of, slice_string, text_eq,
    text_or_empty, texts, trim, trim_end_at, trim_start_at, utf8_width, utf8_width_of, view_files,
};

verus! {

/// The starting state of a country, as its history file gives it.
#[derive(Debug, PartialEq, Eq)]
pub struct CountryHistory {
    pub setup_vision: bool,
    pub government: String,
    pub government_reforms: Vec<String>,
    pub government_rank: usize,
    pub primary_culture: String,
    pub accepted_cultures: Vec<String>,
    pub religion: String,
    pub technology_group: String,
    pub capital: usize,
    pub fixed_capital: usize,
    pub historical_rivals: Vec<String>,
    pub historical_friends: Vec<String>,
}

/// A country.
#[derive(Debug, Default)]
pub struct Country {
    pub tag: String,
    pub name: String,
    pub adjective: String,
    pub ideas: IdeaSet,
    pub history: CountryHistory,
    pub end_game_tag: bool,
}

/// The mathematical model of a [`CountryHistory`].
pub struct CountryHistoryView {
    pub setup_vision: bool,
    pub government: Seq<char>,
    pub government_reforms: Seq<Seq<char>>,
    pub government_rank: usize,
    pub primary_culture: Seq<char>,
    pub accepted_cultures: Seq<Seq<char>>,
    pub religion: Seq<char>,
    pub technology_group: Seq<char>,
    pub capital: usize,
    pub fixed_capital: usize,
    pub historical_rivals: Seq<Seq<char>>,
    pub historical_friends: Seq<Seq<char>>,
}

/// The mathematical model of a [`Country`].
pub struct CountryView {
    pub tag: Seq<char>,
    pub name: Seq<char>,
    pub adjective: Seq<char>,
    pub ideas: IdeaSetView,
    pub history: CountryHistoryView,
    pub end_game_tag: bool,
}

impl View for CountryHistory {
    type V = CountryHistoryView;

    open spec fn view(&self) -> CountryHistoryView {
        CountryHistoryView {
            setup_vision: self.setup_vision,
            government: self.government@,
            government_reforms: texts(self.government_reforms@),
            government_rank: self.government_rank,
            primary_culture: self.primary_culture@,
            accepted_cultures: texts(self.accepted_cultures@),
            religion: self.religion@,
            technology_group: self.technology_group@,
            capital: self.capital,
            fixed_capital: self.fixed_capital,
            historical_rivals: texts(self.historical_rivals@),
            historical_friends: texts(self.historical_friends@),
        }
    }
}

impl View for Country {
    type V = CountryView;

    open spec fn view(&self) -> CountryView {
        CountryView {
            tag: self.tag@,
            name: self.name@,
            adjective: self.adjective@,
            ideas: self.ideas@,
            history: self.history@,
            end_game_tag: self.end_game_tag,
        }
    }
}

/// The models of a list of countries, in order.
pub open spec fn view_countries(countries: Seq<Country>) -> Seq<CountryView> {
    countries.map_values(|c: Country| c@)
}

/// The history of a country without a history file.
pub open spec fn empty_history() -> CountryHistoryView {
    CountryHistoryView {
        setup_vision: false,
        government: Seq::empty(),
        government_reforms: Seq::empty(),
        government_rank: 0,
        primary_culture: Seq::empty(),
        accepted_cultures: Seq::empty(),
        religion: Seq::empty(),
        technology_group: Seq::empty(),
        capital: 0,
        fixed_capital: 0,
        historical_rivals: Seq::empty(),
        historical_friends: Seq::empty(),
    }
}

fn copy_texts(list: &Vec<String>) -> (copy: Vec<String>)
    ensures
        texts(copy@) == texts(list@),
{
    let mut copy: Vec<String> = Vec::new();
    let mut i: usize = 0;
    while i < list.len()
        invariant
            i <= list.len(),
            copy@.len() == i,
            forall|j: int| 0 <= j < i ==> copy@[j]@ == list@[j]@,
        decreases list.len() - i,
    {
        copy.push(list[i].clone());
        i += 1;
    }
    assert(texts(copy@) =~= texts(list@));
    copy
}

impl Default for CountryHistory {
    fn default() -> (history: CountryHistory)
        ensures
            history@ == empty_history(),
    {
        let history = CountryHistory {
            setup_vision: false,
            government: String::new(),
            government_reforms: Vec::new(),
            government_rank: 0,
            primary_culture: String::new(),
            accepted_cultures: Vec::new(),
            religion: String::new(),
            technology_group: String::new(),
            capital: 0,
            fixed_capital: 0,
            historical_rivals: Vec::new(),
            historical_friends: Vec::new(),
        };
        assert(texts(history.government_reforms@) =~= Seq::<Seq<char>>::empty());
        assert(texts(history.accepted_cultures@) =~= Seq::<Seq<char>>::empty());
        assert(texts(history.historical_rivals@) =~= Seq::<Seq<char>>::empty());
        assert(texts(history.historical_friends@) =~= Seq::<Seq<char>>::empty());
        history
    }
}

impl CountryHistory {
    /// A copy of this history.
    pub fn duplicate(&self) -> (copy: CountryHistory)
        ensures
            copy@ == self@,
    {
        CountryHistory {
            setup_vision: self.setup_vision,
            government: self.government.clone(),
            government_reforms: copy_texts(&self.government_reforms),
            government_rank: self.government_rank,
            primary_culture: self.primary_culture.clone(),
            accepted_cultures: copy_texts(&self.accepted_cultures),
            religion: self.religion.clone(),
            technology_group: self.technology_group.clone(),
            capital: self.capital,
            fixed_capital: self.fixed_capital,
            historical_rivals: copy_texts(&self.historical_rivals),
            historical_friends: copy_texts(&self.historical_friends),
        }
    }
}

/// The size that an optional number stands for: zero where there is none or
/// where it does not fit.
pub open spec fn size_or_zero(number: Option<u64>) -> usize {
    match number {
        Some(n) => if n <= usize::MAX {
            n as usize
        } else {
            0
        },
        None => 0,
    }
}

/// The history that a country history file holds. A field that occurs more
/// than once counts the first time; the list fields collect every
/// occurrence. A field that is missing or of the wrong shape leaves its
/// default.
pub open spec fn country_history_of(document: Seq<Entry>) -> CountryHistoryView {
    CountryHistoryView {
        setup_vision: first_flag(document, "setup_vision"@) == Some(true),
        government: text_or_empty(first_text(document, "government"@)),
        government_reforms: all_texts(document, "add_government_reform"@),
        government_rank: size_or_zero(first_number(document, "government_rank"@)),
        primary_culture: text_or_empty(first_text(document, "primary_culture"@)),
        accepted_cultures: all_texts(document, "add_accepted_culture"@),
        religion: text_or_empty(first_text(document, "religion"@)),
        technology_group: text_or_empty(first_text(document, "technology_group"@)),
        capital: size_or_zero(first_number(document, "capital"@)),
        fixed_capital: size_or_zero(first_number(document, "fixed_capital"@)),
        historical_rivals: all_texts(document, "historical_rival"@),
        historical_friends: all_texts(document, "historical_friend"@),
    }
}

fn unwrap_text(text: Option<String>) -> (out: String)
    ensures
        out@ == text_or_empty(
            match text {
                Some(t) => Some(t@),
                None => None,
            },
        ),
{
    match text {
        Some(t) => t,
        None => String::new(),
    }
}

fn unwrap_size(number: Option<u64>) -> (size: usize)
    ensures
        size == size_or_zero(number),
{
    match number {
        Some(n) => if n <= usize::MAX as u64 {
            n as usize
        } else {
            0
        },
        None => 0,
    }
}

/// Reads the history of a country from its history file.
pub fn country_history(document: &Document) -> (history: CountryHistory)
    ensures
        history@ == country_history_of(document@),
{
    let fields = &document.fields;
    CountryHistory {
        setup_vision: match read_first_flag(fields, "setup_vision") {
            Some(flag) => flag,
            None => false,
        },
        government: unwrap_text(read_first_text(fields, "government")),
        government_reforms: read_all_texts(fields, "add_government_reform"),
        government_rank: unwrap_size(read_first_number(fields, "government_rank")),
        primary_culture: unwrap_text(read_first_text(fields, "primary_culture")),
        accepted_cultures: read_all_texts(fields, "add_accepted_culture"),
        religion: unwrap_text(read_first_text(fields, "religion")),
        technology_group: unwrap_text(read_first_text(fields, "technology_group")),
        capital: unwrap_size(read_first_number(fields, "capital")),
        fixed_capital: unwrap_size(read_first_number(fields, "fixed_capital")),
        historical_rivals: read_all_texts(fields, "historical_rival"),
        historical_friends: read_all_texts(fields, "historical_friend"),
    }
}

/// The tag of a country, as a function.
pub open spec fn country_tag() -> spec_fn(CountryView) -> Seq<char> {
    |c: CountryView| c.tag
}

/// The key under which the adjective of the country `tag` is stored.
pub open spec fn adjective_key(tag: Seq<char>) -> Seq<char> {
    tag + "_ADJ"@
}

/// Whether the localisation table holds a display name for `tag`.
pub open spec fn named(tag: Seq<char>, lexicon: Map<Seq<char>, Seq<char>>) -> bool {
    lexicon.contains_key(tag) && lexicon[tag].len() > 0
}

/// The history that the `k`-th entry of the tag list gets: that of its tag,
/// unless an earlier entry with the same tag has taken it or there is none.
pub open spec fn history_for(
    tags: Seq<Seq<char>>,
    k: int,
    histories: Map<Seq<char>, CountryHistory>,
) -> CountryHistoryView {
    if tags.take(k).contains(tags[k]) || !histories.contains_key(tags[k]) {
        empty_history()
    } else {
        histories[tags[k]]@
    }
}

/// The country `tag` with `history`, enriched from the tables.
pub open spec fn enriched(
    tag: Seq<char>,
    history: CountryHistoryView,
    lexicon: Map<Seq<char>, Seq<char>>,
    end_game_tags: Set<Seq<char>>,
) -> CountryView {
    CountryView {
        tag,
        name: lookup(lexicon, tag),
        adjective: lookup(lexicon, adjective_key(tag)),
        ideas: empty_idea_set(),
        history: CountryHistoryView {
            primary_culture: localised(lexicon, history.primary_culture),
            religion: localised(lexicon, history.religion),
            ..history
        },
        end_game_tag: end_game_tags.contains(tag),
    }
}

/// Puts `country` in the place of the country with the same tag, or at the
/// end where there is none.
pub open spec fn upsert(countries: Seq<CountryView>, country: CountryView) -> Seq<CountryView> {
    match position(countries, country_tag(), country.tag) {
        Some(i) => countries.update(i, country),
        None => countries.push(country),
    }
}

/// The countries that the first `n` entries of the tag list give.
pub open spec fn countries_upto(
    tags: Seq<Seq<char>>,
    n: int,
    histories: Map<Seq<char>, CountryHistory>,
    lexicon: Map<Seq<char>, Seq<char>>,
    end_game_tags: Set<Seq<char>>,
) -> Seq<CountryView>
    decreases n,
{
    if n <= 0 {
        Seq::empty()
    } else {
        let before = countries_upto(tags, n - 1, histories, lexicon, end_game_tags);
        let tag = tags[n - 1];
        if named(tag, lexicon) {
            upsert(
                before,
                enriched(tag, history_for(tags, n - 1, histories), lexicon, end_game_tags),
            )
        } else {
            before
        }
    }
}

/// The countries that the tag list gives.
pub open spec fn countries_of(
    tags: Seq<Seq<char>>,
    histories: Map<Seq<char>, CountryHistory>,
    lexicon: Map<Seq<char>, Seq<char>>,
    end_game_tags: Set<Seq<char>>,
) -> Seq<CountryView> {
    countries_upto(tags, tags.len() as int, histories, lexicon, end_game_tags)
}

/// The tags of a tag list whose entries pair a tag with a path.
pub open spec fn listed_tags(entries: Seq<(String, String)>) -> Seq<Seq<char>> {
    entries.map_values(|e: (String, String)| e.0@)
}

/// Which countries are surfaced: exactly the tags of the tag list that have
/// a display name, each once, under that name.
pub proof fn lemma_countries_surfaced(
    tags: Seq<Seq<char>>,
    n: int,
    histories: Map<Seq<char>, CountryHistory>,
    lexicon: Map<Seq<char>, Seq<char>>,
    end_game_tags: Set<Seq<char>>,
)
    requires
        0 <= n <= tags.len(),
    ensures
        forall|i: int|
            0 <= i < countries_upto(tags, n, histories, lexicon, end_game_tags).len() ==> {
                let c = #[trigger] countries_upto(tags, n, histories, lexicon, end_game_tags)[i];
                &&& tags.take(n).contains(c.tag)
                &&& named(c.tag, lexicon)
                &&& c.name == lexicon[c.tag]
                &&& c.end_game_tag == end_game_tags.contains(c.tag)
            },
        forall|k: int|
            0 <= k < n && named(#[trigger] tags[k], lexicon) ==> holds(
                countries_upto(tags, n, histories, lexicon, end_game_tags),
                country_tag(),
                tags[k],
            ),
        countries_upto(tags, n, histories, lexicon, end_game_tags).map_values(
            country_tag(),
        ).no_duplicates(),
    decreases n,
{
    if n > 0 {
        lemma_countries_surfaced(tags, n - 1, histories, lexicon, end_game_tags);
        let before = countries_upto(tags, n - 1, histories, lexicon, end_game_tags);
        let after = countries_upto(tags, n, histories, lexicon, end_game_tags);
        let tag = tags[n - 1];
        assert(tags.take(n).drop_last() =~= tags.take(n - 1));
        assert(tags.take(n)[n - 1] == tag);
        let shorter = tags.take(n - 1);
        let longer = tags.take(n);
        assert forall|t: Seq<char>| shorter.contains(t) implies longer.contains(t) by {
            let j = choose|j: int| 0 <= j < shorter.len() && shorter[j] == t;
            assert(longer[j] == t);
        }
        let before_tags = before.map_values(country_tag());
        let after_tags = after.map_values(country_tag());
        if named(tag, lexicon) {
            let country = enriched(tag, history_for(tags, n - 1, histories), lexicon, end_game_tags);
            lemma_position(before, country_tag(), tag);
            match position(before, country_tag(), tag) {
                Some(i) => {
                    assert(after_tags =~= before_tags);
                    assert forall|k: int| 0 <= k < n && named(
                        #[trigger] tags[k],
                        lexicon,
                    ) implies holds(after, country_tag(), tags[k]) by {
                        if k == n - 1 {
                            assert(after_tags[i] == tag);
                        }
                    }
                },
                None => {
                    assert(after_tags =~= before_tags.push(tag));
                    assert forall|k: int| 0 <= k < n && named(
                        #[trigger] tags[k],
                        lexicon,
                    ) implies holds(after, country_tag(), tags[k]) by {
                        if k == n - 1 {
                            assert(after_tags[before.len() as int] == tag);
                        } else {
                            let j = choose|j: int|
                                0 <= j < before_tags.len() && before_tags[j] == tags[k];
                            assert(after_tags[j] == tags[k]);
                        }
                    }
                    assert forall|a: int, b: int|
                        0 <= a < after_tags.len() && 0 <= b < after_tags.len() && a
                            != b implies after_tags[a] != after_tags[b] by {
                        if a < before.len() {
                            assert(after_tags[a] == (country_tag())(before[a]));
                        }
                        if b < before.len() {
                            assert(after_tags[b] == (country_tag())(before[b]));
                        }
                    }
                },
            }
        }
    }
}

/// The place of the first country of `countries` whose tag is `tag`.
pub(crate) fn find_country(countries: &Vec<Country>, tag: &str) -> (place: Option<usize>)
    ensures
        place is Some <==> position(view_countries(countries@), country_tag(), tag@) is Some,
        place matches Some(i) ==> i < countries.len() && position(
            view_countries(countries@),
            country_tag(),
            tag@,
        ) == Some(i as int),
{
    let mut i: usize = 0;
    while i < countries.len()
        invariant
            i <= countries.len(),
            forall|j: int| 0 <= j < i ==> countries@[j].tag@ != tag@,
        decreases countries.len() - i,
    {
        if text_eq(countries[i].tag.as_str(), tag) {
            proof {
                let units = view_countries(countries@);
                lemma_position(units, country_tag(), tag@);
                assert((country_tag())(units[i as int]) == tag@);
                assert forall|j: int| 0 <= j < i implies (country_tag())(#[trigger] units[j])
                    != tag@ by {
                    assert(units[j].tag == countries@[j].tag@);
                }
            }
            return Some(i);
        }
        i += 1;
    }
    proof {
        let units = view_countries(countries@);
        lemma_position(units, country_tag(), tag@);
        assert forall|j: int| 0 <= j < units.len() implies (country_tag())(#[trigger] units[j])
            != tag@ by {
            assert(units[j].tag == countries@[j].tag@);
        }
    }
    None
}

/// Enriches the country `tag` with `history` from the tables: its name and
/// adjective, the display strings of its culture and religion where the
/// table holds them, and its end-game flag. A tag without a display name
/// gives no country.
pub fn enrich(tag: &str, history: CountryHistory, lexicon: &Lexicon, end_game_tags: &TagSet) -> (country:
    Option<Country>)
    requires
        lexicon.wf(),
    ensures
        country is Some <==> named(tag@, lexicon@),
        country matches Some(c) ==> c@ == enriched(tag@, history@, lexicon@, end_game_tags@),
{
    let name = lexicon.text(tag);
    if name.as_str().is_empty() {
        return None;
    }
    let mut history = history;
    let mut key = tag.to_owned();
    key.append("_ADJ");
    let adjective = lexicon.text(key.as_str());
    match lexicon.get(history.primary_culture.as_str()) {
        Some(culture) => {
            history.primary_culture = culture.clone();
        },
        None => {},
    }
    match lexicon.get(history.religion.as_str()) {
        Some(religion) => {
            history.religion = religion.clone();
        },
        None => {},
    }
    Some(
        Country {
            tag: tag.to_owned(),
            name,
            adjective,
            ideas: IdeaSet::default(),
            history,
            end_game_tag: end_game_tags.contains(tag),
        },
    )
}

/// Builds the countries of the tag list. Each entry takes the history of
/// its tag, and is enriched with its name, adjective, localised culture and
/// religion and its end-game flag. A tag without a display name is left out,
/// and so is every history whose tag is not in the tag list.
pub fn parse_countries(
    tags: &Vec<(String, String)>,
    histories: &Table<CountryHistory>,
    lexicon: &Lexicon,
    end_game_tags: &TagSet,
) -> (countries: Vec<Country>)
    requires
        histories.wf(),
        lexicon.wf(),
    ensures
        view_countries(countries@) == countries_of(
            listed_tags(tags@),
            histories@,
            lexicon@,
            end_game_tags@,
        ),
        forall|i: int|
            0 <= i < countries@.len() ==> {
                let c = #[trigger] countries@[i];
                &&& listed_tags(tags@).contains(c.tag@)
                &&& named(c.tag@, lexicon@)
                &&& c.name@ == lexicon@[c.tag@]
                &&& c.end_game_tag == end_game_tags@.contains(c.tag@)
            },
        forall|k: int|
            0 <= k < tags@.len() && named((#[trigger] tags@[k]).0@, lexicon@) ==> holds(
                view_countries(countries@),
                country_tag(),
                tags@[k].0@,
            ),
        view_countries(countries@).map_values(country_tag()).no_duplicates(),
{
    let mut countries: Vec<Country> = Vec::new();
    let mut seen = TagSet::new();
    let ghost all = listed_tags(tags@);
    let mut i: usize = 0;
    assert(view_countries(countries@) =~= Seq::<CountryView>::empty());
    assert(all.take(0).to_set() =~= Set::<Seq<char>>::empty());
    while i < tags.len()
        invariant
            i <= tags.len(),
            histories.wf(),
            lexicon.wf(),
            seen.wf(),
            all == listed_tags(tags@),
            seen@ == all.take(i as int).to_set(),
            view_countries(countries@) == countries_upto(
                all,
                i as int,
                histories@,
                lexicon@,
                end_game_tags@,
            ),
        decreases tags.len() - i,
    {
        let tag = &tags[i].0;
        assert(all[i as int] == tag@);
        let taken = seen.contains(tag.as_str());
        seen.insert(tag.clone());
        proof {
            let done = all.take(i as int);
            assert(all.take(i + 1) =~= done.push(tag@));
            done.lemma_push_to_set_commute(tag@);
        }
        let history = if taken {
            CountryHistory::default()
        } else {
            match histories.get(tag.as_str()) {
                Some(h) => h.duplicate(),
                None => CountryHistory::default(),
            }
        };
        assert(history@ == history_for(all, i as int, histories@));
        let country = match enrich(tag.as_str(), history, lexicon, end_game_tags) {
            Some(country) => country,
            None => {
                i += 1;
                continue ;
            },
        };
        let ghost before = view_countries(countries@);
        match find_country(&countries, tag.as_str()) {
            Some(place) => {
                countries.set(place, country);
                assert(view_countries(countries@) =~= before.update(place as int, country@));
            },
            None => {
                countries.push(country);
                assert(view_countries(countries@) =~= before.push(country@));
            },
        }
        i += 1;
    }
    proof {
        lemma_countries_surfaced(all, all.len() as int, histories@, lexicon@, end_game_tags@);
        assert(all.take(all.len() as int) =~= all);
        assert forall|i: int| 0 <= i < countries@.len() implies {
            let c = #[trigger] countries@[i];
            &&& listed_tags(tags@).contains(c.tag@)
            &&& named(c.tag@, lexicon@)
            &&& c.name@ == lexicon@[c.tag@]
            &&& c.end_game_tag == end_game_tags@.contains(c.tag@)
        } by {
            assert(view_countries(countries@)[i] == countries@[i]@);
        }
        assert forall|k: int|
            0 <= k < tags@.len() && named((#[trigger] tags@[k]).0@, lexicon@) implies holds(
            view_countries(countries@),
            country_tag(),
            tags@[k].0@,
        ) by {
            assert(all[k] == tags@[k].0@);
        }
    }
    countries
}

/// The start of a text that takes exactly `bytes` bytes, where the text has
/// such a start.
pub open spec fn take_bytes(text: Seq<char>, bytes: nat) -> Option<Seq<char>>
    decreases text.len(),
{
    if bytes == 0 {
        Some(Seq::empty())
    } else if text.len() == 0 || utf8_width(text.first()) > bytes {
        None
    } else {
        match take_bytes(text.drop_first(), (bytes - utf8_width(text.first())) as nat) {
            Some(rest) => Some(seq![text.first()] + rest),
            None => None,
        }
    }
}

/// The entry that a trimmed line of the tag list holds: the tag is its first
/// three bytes and the path stands between its first and its last double
/// quote. An empty line, a comment, a line without two double quotes, a line
/// without a tag and the line of the tag `NPC` hold none.
pub open spec fn tag_entry_of(line: Seq<char>) -> Option<(Seq<char>, Seq<char>)> {
    if line.len() == 0 || line.first() == '#' {
        None
    } else {
        match (take_bytes(line, 3), line.index_of_first('"'), line.index_of_last('"')) {
            (Some(tag), Some(open), Some(close)) => if 0 <= open < close < line.len() && tag
                != "NPC"@ {
                Some((tag, line.subrange(open + 1, close)))
            } else {
                None
            },
            _ => None,
        }
    }
}

/// The entries that a list of lines holds, in order.
pub open spec fn tag_entries_of(lines: Seq<Seq<char>>) -> Seq<(Seq<char>, Seq<char>)>
    decreases lines.len(),
{
    if lines.len() == 0 {
        Seq::empty()
    } else {
        match tag_entry_of(trim(lines.last())) {
            Some(entry) => tag_entries_of(lines.drop_last()).push(entry),
            None => tag_entries_of(lines.drop_last()),
        }
    }
}

/// The models of a list of tag entries, in order.
pub open spec fn view_tag_entries(entries: Seq<(String, String)>) -> Seq<(Seq<char>, Seq<char>)> {
    entries.map_values(|e: (String, String)| (e.0@, e.1@))
}

/// The place behind the start of the text from `from` up to `to` that takes
/// exactly `bytes` bytes.
fn take_bytes_at(chars: &Vec<char>, from: usize, to: usize, bytes: usize) -> (end: Option<usize>)
    requires
        from <= to <= chars.len(),
        bytes <= 4,
    ensures
        match end {
            Some(e) => from <= e <= to && take_bytes(
                chars@.subrange(from as int, to as int),
                bytes as nat,
            ) == Some(chars@.subrange(from as int, e as int)),
            None => take_bytes(chars@.subrange(from as int, to as int), bytes as nat) is None,
        },
    decreases to - from,
{
    let ghost text = chars@.subrange(from as int, to as int);
    if bytes == 0 {
        assert(chars@.subrange(from as int, from as int) =~= Seq::<char>::empty());
        return Some(from);
    }
    if from == to {
        return None;
    }
    assert(text.first() == chars@[from as int]);
    assert(text.drop_first() =~= chars@.subrange(from + 1, to as int));
    let width = utf8_width_of(chars[from]);
    if width > bytes {
        return None;
    }
    match take_bytes_at(chars, from + 1, to, bytes - width) {
        Some(e) => {
            assert(seq![text.first()] + chars@.subrange(from + 1, e as int) =~= chars@.subrange(
                from as int,
                e as int,
            ));
            Some(e)
        },
        None => None,
    }
}

fn read_tag_entry(chars: &Vec<char>, from: usize, to: usize) -> (entry: Option<(String, String)>)
    requires
        from <= to <= chars.len(),
    ensures
        match entry {
            Some(e) => tag_entry_of(trim(chars@.subrange(from as int, to as int))) == Some(
                (e.0@, e.1@),
            ),
            None => tag_entry_of(trim(chars@.subrange(from as int, to as int))) is None,
        },
{
    let start = trim_start_at(chars, from, to);
    let end = trim_end_at(chars, start, to);
    let ghost line = chars@.subrange(start as int, end as int);
    assert(line == trim(chars@.subrange(from as int, to as int)));
    if start == end || chars[start] == '#' {
        return None;
    }
    let tag_end = take_bytes_at(chars, start, end, 3);
    let open = find_first(chars, start, end, '"');
    let close = find_last(chars, start, end, '"');
    match (tag_end, open, close) {
        (Some(t), Some(o), Some(c)) => {
            let tag = slice_string(chars, start, t);
            if o < c && !text_eq(tag.as_str(), "NPC") {
                let path = slice_string(chars, start + o + 1, start + c);
                assert(line.subrange(o + 1, c as int) =~= chars@.subrange(
                    start + o + 1,
                    start + c,
                ));
                Some((tag, path))
            } else {
                None
            }
        },
        _ => None,
    }
}

/// Reads the entry of the `i`-th line into `tags`.
fn read_tag_line(
    chars: &Vec<char>,
    from: usize,
    to: usize,
    tags: &mut Vec<(String, String)>,
    Ghost(before): Ghost<Seq<Seq<char>>>,
)
    requires
        from <= to <= chars.len(),
        view_tag_entries(old(tags)@) == tag_entries_of(before),
    ensures
        view_tag_entries(final(tags)@) == tag_entries_of(
            before.push(chars@.subrange(from as int, to as int)),
        ),
{
    let ghost line = chars@.subrange(from as int, to as int);
    assert(before.push(line).drop_last() =~= before);
    match read_tag_entry(chars, from, to) {
        Some(entry) => {
            let ghost held = view_tag_entries(tags@);
            tags.push(entry);
            assert(view_tag_entries(tags@) =~= held.push((entry.0@, entry.1@)));
        },
        None => {},
    }
}

/// Reads the tag list: for each country its tag and the path of its file.
pub fn parse_country_tags(data: &str) -> (tags: Vec<(String, String)>)
    ensures
        view_tag_entries(tags@) == tag_entries_of(lines_of(data@)),
{
    let chars = chars_of(data);
    let bounds = line_bounds(&chars);
    let ghost lines = lines_of(chars@);
    let mut tags: Vec<(String, String)> = Vec::new();
    let mut i: usize = 0;
    assert(view_tag_entries(tags@) =~= Seq::<(Seq<char>, Seq<char>)>::empty());
    assert(lines.take(0) =~= Seq::<Seq<char>>::empty());
    while i < bounds.len()
        invariant
            i <= bounds.len(),
            bounds@.len() == lines.len(),
            forall|k: int|
                0 <= k < bounds@.len() ==> (#[trigger] bounds@[k]).0 <= bounds@[k].1
                    <= chars@.len() && chars@.subrange(
                    bounds@[k].0 as int,
                    bounds@[k].1 as int,
                ) == lines[k],
            view_tag_entries(tags@) == tag_entries_of(lines.take(i as int)),
        decreases bounds.len() - i,
    {
        let (from, to) = bounds[i];
        assert(lines.take(i + 1) =~= lines.take(i as int).push(lines[i as int]));
        read_tag_line(&chars, from, to, &mut tags, Ghost(lines.take(i as int)));
        i += 1;
    }
    assert(lines.take(i as int) =~= lines);
    tags
}

/// The tag that a country history file belongs to, by its name: what stands
/// in front of the first `-`, without the whitespace around it.
pub open spec fn history_tag_of(file_name: Seq<char>) -> Seq<char> {
    trim(before_first(file_name, '-'))
}

/// Reads the tag of a country from the name of its history file.
pub fn history_tag(file_name: &str) -> (tag: String)
    ensures
        tag@ == history_tag_of(file_name@),
{
    let chars = chars_of(file_name);
    assert(chars@.subrange(0, chars@.len() as int) =~= chars@);
    let end = match find_first(&chars, 0, chars.len(), '-') {
        Some(dash) => dash,
        None => chars.len(),
    };
    assert(chars@.subrange(0, end as int) =~= before_first(chars@, '-'));
    let start = trim_start_at(&chars, 0, end);
    let stop = trim_end_at(&chars, start, end);
    slice_string(&chars, start, stop)
}

/// The histories that a list of history files gives, each file a name and
/// its content: a file whose content does not parse is passed over, and a
/// later file stands in the place of an earlier one for the same tag.
pub open spec fn country_histories_of(files: Seq<(Seq<char>, Seq<u8>)>) -> Map<
    Seq<char>,
    CountryHistoryView,
>
    decreases files.len(),
{
    if files.len() == 0 {
        Map::empty()
    } else {
        match parsed_document(files.last().1) {
            Some(document) => country_histories_of(files.drop_last()).insert(
                history_tag_of(files.last().0),
                country_history_of(document),
            ),
            None => country_histories_of(files.drop_last()),
        }
    }
}

/// Reads the country histories from their files, each given by its name and
/// its content.
pub fn parse_country_histories(files: &Vec<(String, Vec<u8>)>) -> (histories: Table<
    CountryHistory,
>)
    ensures
        histories.wf(),
        forall|tag: Seq<char>|
            histories@.contains_key(tag) <==> country_histories_of(
                view_files(files@),
            ).contains_key(tag),
        forall|tag: Seq<char>| #[trigger]
            histories@.contains_key(tag) ==> histories@[tag]@ == country_histories_of(
                view_files(files@),
            )[tag],
{
    let ghost all = view_files(files@);
    let mut histories: Table<CountryHistory> = Table::new();
    let mut i: usize = 0;
    while i < files.len()
        invariant
            i <= files.len(),
            all == view_files(files@),
            histories.wf(),
            forall|tag: Seq<char>|
                histories@.contains_key(tag) <==> country_histories_of(
                    all.take(i as int),
                ).contains_key(tag),
            forall|tag: Seq<char>| #[trigger]
                histories@.contains_key(tag) ==> histories@[tag]@ == country_histories_of(
                    all.take(i as int),
                )[tag],
        decreases files.len() - i,
    {
        assert(all.take(i + 1).drop_last() =~= all.take(i as int));
        assert(all.take(i + 1).last() == (files@[i as int].0@, files@[i as int].1@));
        match parse_document(files[i].1.as_slice()) {
            Some(document) => {
                histories.insert(history_tag(files[i].0.as_str()), country_history(&document));
            },
            None => {},
        }
        i += 1;
    }
    assert(all.take(i as int) =~= all);
    histories
}

/// Whether `text` starts with `start`.
pub open spec fn starts_with(text: Seq<char>, start: Seq<char>) -> bool {
    start.len() <= text.len() && text.take(start.len() as int) == start
}

/// The place of the first file whose name starts with `tag`.
pub open spec fn history_file_of(files: Seq<(Seq<char>, Seq<u8>)>, tag: Seq<char>) -> Option<int>
    decreases files.len(),
{
    if files.len() == 0 {
        None
    } else {
        match history_file_of(files.drop_last(), tag) {
            Some(i) => Some(i),
            None => if starts_with(files.last().0, tag) {
                Some(files.len() - 1)
            } else {
                None
            },
        }
    }
}

/// The history of the country `tag`: that of the first file whose name
/// starts with the tag, where there is one and its content parses.
pub open spec fn history_for_tag(files: Seq<(Seq<char>, Seq<u8>)>, tag: Seq<char>) -> Option<
    CountryHistoryView,
> {
    match history_file_of(files, tag) {
        Some(i) => match parsed_document(files[i].1) {
            Some(document) => Some(country_history_of(document)),
            None => None,
        },
        None => None,
    }
}

fn name_starts_with(name: &str, tag: &str) -> (yes: bool)
    ensures
        yes == starts_with(name@, tag@),
{
    let text = chars_of(name);
    let start = chars_of(tag);
    if start.len() > text.len() {
        return false;
    }
    let mut i: usize = 0;
    while i < start.len()
        invariant
            i <= start.len() <= text.len(),
            text@ == name@,
            start@ == tag@,
            forall|j: int| 0 <= j < i ==> text@[j] == start@[j],
        decreases start.len() - i,
    {
        if text[i] != start[i] {
            assert(text@.take(start@.len() as int)[i as int] != start@[i as int]);
            return false;
        }
        i += 1;
    }
    assert(text@.take(start@.len() as int) =~= start@);
    true
}

/// Reads the history of one country from the history files: from the first
/// file whose name starts with the tag.
pub fn parse_history_for_tag(tag: &str, files: &Vec<(String, Vec<u8>)>) -> (history: Option<
    CountryHistory,
>)
    ensures
        history is Some <==> history_for_tag(view_files(files@), tag@) is Some,
        history matches Some(h) ==> history_for_tag(view_files(files@), tag@) == Some(h@),
{
    let ghost all = view_files(files@);
    let mut i: usize = 0;
    while i < files.len()
        invariant
            i <= files.len(),
            all == view_files(files@),
            history_file_of(all.take(i as int), tag@) is None,
        decreases files.len() - i,
    {
        assert(all.take(i + 1).drop_last() =~= all.take(i as int));
        assert(all.take(i + 1).last() == (files@[i as int].0@, files@[i as int].1@));
        if name_starts_with(files[i].0.as_str(), tag) {
            proof {
                lemma_history_file_found(all, tag@, i + 1);
            }
            return match parse_document(files[i].1.as_slice()) {
                Some(document) => Some(country_history(&document)),
                None => None,
            };
        }
        i += 1;
    }
    assert(all.take(i as int) =~= all);
    None
}

/// A file found among the first `n` files is the file found among all.
proof fn lemma_history_file_found(files: Seq<(Seq<char>, Seq<u8>)>, tag: Seq<char>, n: int)
    requires
        0 <= n <= files.len(),
        history_file_of(files.take(n), tag) is Some,
    ensures
        history_file_of(files, tag) == history_file_of(files.take(n), tag),
    decreases files.len() - n,
{
    if n == files.len() {
        assert(files.take(n) =~= files);
    } else {
        assert(files.take(n + 1).drop_last() =~= files.take(n));
        lemma_history_file_found(files, tag, n + 1);
    }
}

} // verus!
