//! Governments and their reforms: a government has an ordered list of tiers,
//! each naming its reforms; a reform carries its display strings, its icon,
//! its condition and its modifiers.
use vstd::prelude::*;
use vstd::string::*;
use crate::document::{
    Document, Entry, Field, last, last_of, latest_text, listed_texts, Node, read_latest_text,
    read_listed_texts, Value, view_fields,
};
use crate::ideas::{Effect, EffectView, put, put_effect, view_effects};
use crate::lexicon::Lexicon;
use crate::modifiers::{get_modifier, modifier_for};
use crate::text::{optional_text, text_eq, texts, view_contents};
use crate::tree::{parse_document, parsed_document};

verus! {

/// A government.
#[derive(Debug, Default, PartialEq, Eq)]
pub struct Government {
    pub id: String,
    pub basic_reform: String,
    pub color: Vec<u8>,
    /// The tiers in order: the first is tier one.
    pub reform_levels: Vec<ReformLevel>,
}

/// One tier of a government and the reforms that it names.
#[derive(Debug, Default, PartialEq, Eq)]
pub struct ReformLevel {
    pub id: String,
    pub reforms: Vec<String>,
}

/// A government reform.
#[derive(Debug, Default, PartialEq, Eq)]
pub struct GovernmentReform {
    pub id: String,
    pub name: Option<String>,
    pub desc: Option<String>,
    pub icon: Option<String>,
    /// The condition under which the reform is on offer, as it stands in the
    /// file.
    pub potential: Option<Value>,
    /// The modifiers that the table knows, each with its raw value.
    pub modifiers: Vec<Effect>,
    pub basic_reform: Option<bool>,
    pub monarchy: Option<bool>,
}

/// The mathematical model of a [`ReformLevel`].
pub struct ReformLevelView {
    pub id: Seq<char>,
    pub reforms: Seq<Seq<char>>,
}

/// The mathematical model of a [`Government`].
pub struct GovernmentView {
    pub id: Seq<char>,
    pub basic_reform: Seq<char>,
    pub color: Seq<u8>,
    pub reform_levels: Seq<ReformLevelView>,
}

/// The mathematical model of a [`GovernmentReform`].
pub struct GovernmentReformView {
    pub id: Seq<char>,
    pub name: Option<Seq<char>>,
    pub desc: Option<Seq<char>>,
    pub icon: Option<Seq<char>>,
    pub potential: Option<Node>,
    pub modifiers: Seq<EffectView>,
    pub basic_reform: Option<bool>,
    pub monarchy: Option<bool>,
}

impl View for ReformLevel {
    type V = ReformLevelView;

    open spec fn view(&self) -> ReformLevelView {
        ReformLevelView { id: self.id@, reforms: texts(self.reforms@) }
    }
}

/// The models of a list of tiers, in order.
pub open spec fn view_levels(levels: Seq<ReformLevel>) -> Seq<ReformLevelView> {
    levels.map_values(|l: ReformLevel| l@)
}

impl View for Government {
    type V = GovernmentView;

    open spec fn view(&self) -> GovernmentView {
        GovernmentView {
            id: self.id@,
            basic_reform: self.basic_reform@,
            color: self.color@,
            reform_levels: view_levels(self.reform_levels@),
        }
    }
}

/// The models of a list of governments, in order.
pub open spec fn view_governments(governments: Seq<Government>) -> Seq<GovernmentView> {
    governments.map_values(|g: Government| g@)
}

impl View for GovernmentReform {
    type V = GovernmentReformView;

    open spec fn view(&self) -> GovernmentReformView {
        GovernmentReformView {
            id: self.id@,
            name: optional_text(self.name),
            desc: optional_text(self.desc),
            icon: optional_text(self.icon),
            potential: match self.potential {
                Some(v) => Some(v@),
                None => None,
            },
            modifiers: view_effects(self.modifiers@),
            basic_reform: self.basic_reform,
            monarchy: self.monarchy,
        }
    }
}

/// The models of a list of reforms, in order.
pub open spec fn view_reforms(reforms: Seq<GovernmentReform>) -> Seq<GovernmentReformView> {
    reforms.map_values(|r: GovernmentReform| r@)
}

/// The tier that one field of a `reform_levels` block defines.
pub open spec fn reform_level_of(entry: Entry) -> ReformLevelView {
    ReformLevelView {
        id: entry.key,
        reforms: match entry.value.object() {
            Some(fields) => listed_texts(fields, "reforms"@),
            None => Seq::empty(),
        },
    }
}

/// Lays the first `n` tiers of a block over the tiers so far: the block
/// counts its tiers from one again.
pub open spec fn overlay(levels: Seq<ReformLevelView>, block: Seq<Entry>, n: int) -> Seq<
    ReformLevelView,
>
    decreases n,
{
    if n <= 0 {
        levels
    } else {
        let before = overlay(levels, block, n - 1);
        if n - 1 < before.len() {
            before.update(n - 1, reform_level_of(block[n - 1]))
        } else {
            before.push(reform_level_of(block[n - 1]))
        }
    }
}

/// The tiers that the fields of a government give: each `reform_levels`
/// block is laid over the tiers before it.
pub open spec fn levels_in(fields: Seq<Entry>) -> Seq<ReformLevelView>
    decreases fields.len(),
{
    if fields.len() == 0 {
        Seq::empty()
    } else if fields.last().key == "reform_levels"@ {
        match fields.last().value.object() {
            Some(block) => overlay(levels_in(fields.drop_last()), block, block.len() as int),
            None => levels_in(fields.drop_last()),
        }
    } else {
        levels_in(fields.drop_last())
    }
}

/// The government that one top-level field of a government file defines.
pub open spec fn government_of(top: Entry) -> GovernmentView {
    GovernmentView {
        id: top.key,
        basic_reform: Seq::empty(),
        color: Seq::empty(),
        reform_levels: match top.value.object() {
            Some(fields) => levels_in(fields),
            None => Seq::empty(),
        },
    }
}

/// The governments of a government file, one for each top-level field.
pub open spec fn governments_of(document: Seq<Entry>) -> Seq<GovernmentView> {
    document.map_values(|top: Entry| government_of(top))
}

fn read_level(entry: &Field) -> (level: ReformLevel)
    ensures
        level@ == reform_level_of(entry@),
{
    let reforms = match entry.value.as_object() {
        Some(fields) => read_listed_texts(fields, "reforms"),
        None => {
            let none: Vec<String> = Vec::new();
            assert(texts(none@) =~= Seq::<Seq<char>>::empty());
            none
        },
    };
    ReformLevel { id: entry.key.clone(), reforms }
}

fn lay_over(levels: &mut Vec<ReformLevel>, block: &Vec<Field>)
    ensures
        view_levels(final(levels)@) == overlay(
            view_levels(old(levels)@),
            view_fields(block@),
            block@.len() as int,
        ),
{
    let ghost start = view_levels(levels@);
    let ghost entries = view_fields(block@);
    let mut i: usize = 0;
    while i < block.len()
        invariant
            i <= block.len(),
            entries == view_fields(block@),
            view_levels(levels@) == overlay(start, entries, i as int),
        decreases block.len() - i,
    {
        let ghost before = view_levels(levels@);
        let level = read_level(&block[i]);
        if i < levels.len() {
            levels.set(i, level);
            assert(view_levels(levels@) =~= before.update(i as int, level@));
        } else {
            levels.push(level);
            assert(view_levels(levels@) =~= before.push(level@));
        }
        i += 1;
    }
}

fn read_levels(fields: &Vec<Field>) -> (levels: Vec<ReformLevel>)
    ensures
        view_levels(levels@) == levels_in(view_fields(fields@)),
{
    let ghost entries = view_fields(fields@);
    let mut levels: Vec<ReformLevel> = Vec::new();
    let mut i: usize = 0;
    assert(view_levels(levels@) =~= Seq::<ReformLevelView>::empty());
    while i < fields.len()
        invariant
            i <= fields.len(),
            entries == view_fields(fields@),
            view_levels(levels@) == levels_in(entries.take(i as int)),
        decreases fields.len() - i,
    {
        assert(entries.take(i + 1).drop_last() =~= entries.take(i as int));
        if text_eq(fields[i].key.as_str(), "reform_levels") {
            match fields[i].value.as_object() {
                Some(block) => {
                    lay_over(&mut levels, block);
                },
                None => {},
            }
        }
        i += 1;
    }
    assert(entries.take(i as int) =~= entries);
    levels
}

/// Reads the governments of a parsed government file.
pub fn governments(document: &Document) -> (list: Vec<Government>)
    ensures
        view_governments(list@) == governments_of(document@),
{
    let mut list: Vec<Government> = Vec::new();
    let mut i: usize = 0;
    while i < document.fields.len()
        invariant
            i <= document.fields.len(),
            list@.len() == i,
            forall|j: int| 0 <= j < i ==> (#[trigger] list@[j])@ == government_of(document@[j]),
        decreases document.fields.len() - i,
    {
        let top = &document.fields[i];
        let reform_levels = match top.value.as_object() {
            Some(fields) => read_levels(fields),
            None => {
                let none: Vec<ReformLevel> = Vec::new();
                assert(view_levels(none@) =~= Seq::<ReformLevelView>::empty());
                none
            },
        };
        list.push(
            Government {
                id: top.key.clone(),
                basic_reform: String::new(),
                color: Vec::new(),
                reform_levels,
            },
        );
        i += 1;
    }
    assert(view_governments(list@) =~= governments_of(document@));
    list
}

/// Parses a government file; nothing where the file does not parse.
pub fn parse_government(data: &[u8]) -> (list: Option<Vec<Government>>)
    ensures
        list is Some <==> parsed_document(data@) is Some,
        list matches Some(l) ==> parsed_document(data@) matches Some(d) && view_governments(l@)
            == governments_of(d),
{
    match parse_document(data) {
        Some(document) => Some(governments(&document)),
        None => None,
    }
}

/// The modifiers that the fields of one `modifiers` block add to a list:
/// each field whose name the table knows and whose value is text is stored
/// under its name.
pub open spec fn known_modifiers(effects: Seq<EffectView>, block: Seq<Entry>) -> Seq<EffectView>
    decreases block.len(),
{
    if block.len() == 0 {
        effects
    } else {
        let before = known_modifiers(effects, block.drop_last());
        match block.last().value.text() {
            Some(value) => if modifier_for(block.last().key) is Some {
                put(before, EffectView { key: block.last().key, value })
            } else {
                before
            },
            None => before,
        }
    }
}

/// The modifiers of a reform: those of its `modifiers` blocks, in order.
pub open spec fn modifiers_in(fields: Seq<Entry>) -> Seq<EffectView>
    decreases fields.len(),
{
    if fields.len() == 0 {
        Seq::empty()
    } else if fields.last().key == "modifiers"@ {
        match fields.last().value.object() {
            Some(block) => known_modifiers(modifiers_in(fields.drop_last()), block),
            None => modifiers_in(fields.drop_last()),
        }
    } else {
        modifiers_in(fields.drop_last())
    }
}

/// The display string that an optional table holds under `key`.
pub open spec fn display(lexicon: Option<Map<Seq<char>, Seq<char>>>, key: Seq<char>) -> Option<
    Seq<char>,
> {
    match lexicon {
        Some(table) => if table.contains_key(key) {
            Some(table[key])
        } else {
            None
        },
        None => None,
    }
}

/// The reform that one top-level field of a reform file defines; the
/// `defaults_reform` field defines none.
pub open spec fn reform_of(top: Entry, lexicon: Option<Map<Seq<char>, Seq<char>>>) -> Option<
    GovernmentReformView,
> {
    if top.key == "defaults_reform"@ {
        None
    } else {
        Some(
            GovernmentReformView {
                id: top.key,
                name: display(lexicon, top.key),
                desc: display(lexicon, top.key + "_desc"@),
                icon: match top.value.object() {
                    Some(fields) => latest_text(fields, "icon"@),
                    None => None,
                },
                potential: match top.value.object() {
                    Some(fields) => last_of(fields, "potential"@),
                    None => None,
                },
                modifiers: match top.value.object() {
                    Some(fields) => modifiers_in(fields),
                    None => Seq::empty(),
                },
                basic_reform: None,
                monarchy: None,
            },
        )
    }
}

/// The reforms of a reform file, in order.
pub open spec fn reforms_of(document: Seq<Entry>, lexicon: Option<Map<Seq<char>, Seq<char>>>)
    -> Seq<GovernmentReformView>
    decreases document.len(),
{
    if document.len() == 0 {
        Seq::empty()
    } else {
        match reform_of(document.last(), lexicon) {
            Some(reform) => reforms_of(document.drop_last(), lexicon).push(reform),
            None => reforms_of(document.drop_last(), lexicon),
        }
    }
}

/// The model of an optional localisation table.
pub open spec fn optional_table(lexicon: Option<&Lexicon>) -> Option<Map<Seq<char>, Seq<char>>> {
    match lexicon {
        Some(l) => Some(l@),
        None => None,
    }
}

fn read_display(lexicon: Option<&Lexicon>, key: &str) -> (text: Option<String>)
    requires
        lexicon matches Some(l) ==> l.wf(),
    ensures
        optional_text(text) == display(optional_table(lexicon), key@),
{
    match lexicon {
        Some(table) => match table.get(key) {
            Some(t) => Some(t.clone()),
            None => None,
        },
        None => None,
    }
}

fn add_known_modifiers(effects: &mut Vec<Effect>, block: &Vec<Field>)
    ensures
        view_effects(final(effects)@) == known_modifiers(
            view_effects(old(effects)@),
            view_fields(block@),
        ),
{
    let ghost start = view_effects(effects@);
    let ghost entries = view_fields(block@);
    let mut i: usize = 0;
    while i < block.len()
        invariant
            i <= block.len(),
            entries == view_fields(block@),
            view_effects(effects@) == known_modifiers(start, entries.take(i as int)),
        decreases block.len() - i,
    {
        assert(entries.take(i + 1).drop_last() =~= entries.take(i as int));
        match block[i].value.as_text() {
            Some(value) => {
                if get_modifier(&block[i].key).is_some() {
                    put_effect(effects, block[i].key.clone(), value.clone());
                }
            },
            None => {},
        }
        i += 1;
    }
    assert(entries.take(i as int) =~= entries);
}

fn read_modifiers(fields: &Vec<Field>) -> (effects: Vec<Effect>)
    ensures
        view_effects(effects@) == modifiers_in(view_fields(fields@)),
{
    let ghost entries = view_fields(fields@);
    let mut effects: Vec<Effect> = Vec::new();
    let mut i: usize = 0;
    assert(view_effects(effects@) =~= Seq::<EffectView>::empty());
    while i < fields.len()
        invariant
            i <= fields.len(),
            entries == view_fields(fields@),
            view_effects(effects@) == modifiers_in(entries.take(i as int)),
        decreases fields.len() - i,
    {
        assert(entries.take(i + 1).drop_last() =~= entries.take(i as int));
        if text_eq(fields[i].key.as_str(), "modifiers") {
            match fields[i].value.as_object() {
                Some(block) => {
                    add_known_modifiers(&mut effects, block);
                },
                None => {},
            }
        }
        i += 1;
    }
    assert(entries.take(i as int) =~= entries);
    effects
}

fn read_reform(top: &Field, lexicon: Option<&Lexicon>) -> (reform: Option<GovernmentReform>)
    requires
        lexicon matches Some(l) ==> l.wf(),
    ensures
        reform is Some <==> reform_of(top@, optional_table(lexicon)) is Some,
        reform matches Some(r) ==> reform_of(top@, optional_table(lexicon)) == Some(r@),
{
    if text_eq(top.key.as_str(), "defaults_reform") {
        return None;
    }
    let mut desc_key = top.key.clone();
    desc_key.append("_desc");
    let name = read_display(lexicon, top.key.as_str());
    let desc = read_display(lexicon, desc_key.as_str());
    match top.value.as_object() {
        Some(fields) => {
            let potential = match last(fields, "potential") {
                Some(v) => Some(v.duplicate()),
                None => None,
            };
            Some(
                GovernmentReform {
                    id: top.key.clone(),
                    name,
                    desc,
                    icon: read_latest_text(fields, "icon"),
                    potential,
                    modifiers: read_modifiers(fields),
                    basic_reform: None,
                    monarchy: None,
                },
            )
        },
        None => {
            let reform = GovernmentReform {
                id: top.key.clone(),
                name,
                desc,
                icon: None,
                potential: None,
                modifiers: Vec::new(),
                basic_reform: None,
                monarchy: None,
            };
            assert(view_effects(reform.modifiers@) =~= Seq::<EffectView>::empty());
            Some(reform)
        },
    }
}

/// Reads the reforms of a parsed reform file, with their display strings
/// where a localisation table is given.
pub fn government_reforms(document: &Document, localisations: Option<&Lexicon>) -> (reforms:
    Vec<GovernmentReform>)
    requires
        localisations matches Some(l) ==> l.wf(),
    ensures
        view_reforms(reforms@) == reforms_of(document@, optional_table(localisations)),
{
    let ghost entries = document@;
    let mut reforms: Vec<GovernmentReform> = Vec::new();
    let mut i: usize = 0;
    assert(view_reforms(reforms@) =~= Seq::<GovernmentReformView>::empty());
    while i < document.fields.len()
        invariant
            i <= document.fields.len(),
            entries == document@,
            localisations matches Some(l) ==> l.wf(),
            view_reforms(reforms@) == reforms_of(
                entries.take(i as int),
                optional_table(localisations),
            ),
        decreases document.fields.len() - i,
    {
        assert(entries.take(i + 1).drop_last() =~= entries.take(i as int));
        match read_reform(&document.fields[i], localisations) {
            Some(reform) => {
                let ghost before = view_reforms(reforms@);
                reforms.push(reform);
                assert(view_reforms(reforms@) =~= before.push(reform@));
            },
            None => {},
        }
        i += 1;
    }
    assert(entries.take(i as int) =~= entries);
    reforms
}

/// Parses a reform file; nothing where the file does not parse.
pub fn parse_government_reform_file(data: &[u8], localisations: Option<&Lexicon>) -> (reforms:
    Option<Vec<GovernmentReform>>)
    requires
        localisations matches Some(l) ==> l.wf(),
    ensures
        reforms is Some <==> parsed_document(data@) is Some,
        reforms matches Some(r) ==> parsed_document(data@) matches Some(d) && view_reforms(r@)
            == reforms_of(d, optional_table(localisations)),
{
    match parse_document(data) {
        Some(document) => Some(government_reforms(&document, localisations)),
        None => None,
    }
}

/// The governments that a list of government files gives, in order.
pub open spec fn governments_in_files(files: Seq<Seq<u8>>) -> Seq<GovernmentView>
    decreases files.len(),
{
    if files.len() == 0 {
        Seq::empty()
    } else {
        match parsed_document(files.last()) {
            Some(document) => governments_in_files(files.drop_last()) + governments_of(document),
            None => governments_in_files(files.drop_last()),
        }
    }
}

/// Reads a list of files, each given by its content; a file that does not
/// parse is passed over.
pub fn parse_governments(files: &Vec<Vec<u8>>) -> (list: Vec<Government>)
    ensures
        view_governments(list@) == governments_in_files(view_contents(files@)),
{
    let ghost all = view_contents(files@);
    let mut list: Vec<Government> = Vec::new();
    let mut i: usize = 0;
    assert(view_governments(list@) =~= Seq::<GovernmentView>::empty());
    while i < files.len()
        invariant
            i <= files.len(),
            all == view_contents(files@),
            view_governments(list@) == governments_in_files(all.take(i as int)),
        decreases files.len() - i,
    {
        assert(all.take(i + 1).drop_last() =~= all.take(i as int));
        assert(all.take(i + 1).last() == files@[i as int]@);
        match parse_document(files[i].as_slice()) {
            Some(document) => {
                let mut more = governments(&document);
                let ghost before = view_governments(list@);
                let ghost added = view_governments(more@);
                list.append(&mut more);
                assert(view_governments(list@) =~= before + added);
            },
            None => {},
        }
        i += 1;
    }
    assert(all.take(i as int) =~= all);
    list
}

/// The reforms that a list of reform files gives, in order.
pub open spec fn reforms_in_files(
    files: Seq<Seq<u8>>,
    lexicon: Option<Map<Seq<char>, Seq<char>>>,
) -> Seq<GovernmentReformView>
    decreases files.len(),
{
    if files.len() == 0 {
        Seq::empty()
    } else {
        match parsed_document(files.last()) {
            Some(document) => reforms_in_files(files.drop_last(), lexicon) + reforms_of(document, lexicon),
            None => reforms_in_files(files.drop_last(), lexicon),
        }
    }
}

/// Reads a list of files, each given by its content; a file that does not
/// parse is passed over.
pub fn parse_government_reforms(files: &Vec<Vec<u8>>, localisations: Option<&Lexicon>) -> (list:
    Vec<GovernmentReform>)
    requires
        localisations matches Some(l) ==> l.wf(),
    ensures
        view_reforms(list@) == reforms_in_files(view_contents(files@), optional_table(localisations)),
{
    let ghost all = view_contents(files@);
    let mut list: Vec<GovernmentReform> = Vec::new();
    let mut i: usize = 0;
    assert(view_reforms(list@) =~= Seq::<GovernmentReformView>::empty());
    while i < files.len()
        invariant
            i <= files.len(),
            all == view_contents(files@),
            localisations matches Some(l) ==> l.wf(),
            view_reforms(list@) == reforms_in_files(all.take(i as int), optional_table(localisations)),
        decreases files.len() - i,
    {
        assert(all.take(i + 1).drop_last() =~= all.take(i as int));
        assert(all.take(i + 1).last() == files@[i as int]@);
        match parse_document(files[i].as_slice()) {
            Some(document) => {
                let mut more = government_reforms(&document, localisations);
                let ghost before = view_reforms(list@);
                let ghost added = view_reforms(more@);
                list.append(&mut more);
                assert(view_reforms(list@) =~= before + added);
            },
            None => {},
        }
        i += 1;
    }
    assert(all.take(i as int) =~= all);
    list
}

} // verus!
