//! Events: the country events of an event file, each with its identifier
//! and its title.
use vstd::prelude::*;
use crate::document::{
    Document, Entry, Field, first_text, last_text, read_first_text, read_last_text,
};
use crate::text::{text_eq, view_contents};
use crate::tree::{parse_document, parsed_document};

verus! {

/// The country events of one file.
#[derive(Debug, PartialEq, Eq)]
pub struct EventSet {
    pub events: Vec<Event>,
}

/// One country event.
#[derive(Debug, PartialEq, Eq)]
pub struct Event {
    pub id: String,
    pub title: String,
}

/// The mathematical model of an [`Event`].
pub struct EventView {
    pub id: Seq<char>,
    pub title: Seq<char>,
}

impl View for Event {
    type V = EventView;

    open spec fn view(&self) -> EventView {
        EventView { id: self.id@, title: self.title@ }
    }
}

/// The models of a list of events, in order.
pub open spec fn view_events(events: Seq<Event>) -> Seq<EventView> {
    events.map_values(|e: Event| e@)
}

impl View for EventSet {
    type V = Seq<EventView>;

    open spec fn view(&self) -> Seq<EventView> {
        view_events(self.events@)
    }
}

/// The models of a list of event sets, in order.
pub open spec fn view_event_sets(sets: Seq<EventSet>) -> Seq<Seq<EventView>> {
    sets.map_values(|s: EventSet| s@)
}

/// The event that a `country_event` field defines: its identifier is the
/// text of its first `id` field and its title that of its last `title`
/// field. A field that lacks one of them defines none.
pub open spec fn event_of(entry: Entry) -> Option<EventView> {
    if entry.key != "country_event"@ {
        None
    } else {
        match entry.value.object() {
            Some(fields) => match (first_text(fields, "id"@), last_text(fields, "title"@)) {
                (Some(id), Some(title)) => Some(EventView { id, title }),
                _ => None,
            },
            None => None,
        }
    }
}

/// The events of an event file, in order.
pub open spec fn events_of(document: Seq<Entry>) -> Seq<EventView>
    decreases document.len(),
{
    if document.len() == 0 {
        Seq::empty()
    } else {
        match event_of(document.last()) {
            Some(event) => events_of(document.drop_last()).push(event),
            None => events_of(document.drop_last()),
        }
    }
}

fn read_event(entry: &Field) -> (event: Option<Event>)
    ensures
        event is Some <==> event_of(entry@) is Some,
        event matches Some(e) ==> event_of(entry@) == Some(e@),
{
    if !text_eq(entry.key.as_str(), "country_event") {
        return None;
    }
    match entry.value.as_object() {
        Some(fields) => match (read_first_text(fields, "id"), read_last_text(fields, "title")) {
            (Some(id), Some(title)) => Some(Event { id, title }),
            _ => None,
        },
        None => None,
    }
}

/// Reads the events of a parsed event file.
pub fn event_set(document: &Document) -> (set: EventSet)
    ensures
        set@ == events_of(document@),
{
    let ghost entries = document@;
    let mut events: Vec<Event> = Vec::new();
    let mut i: usize = 0;
    assert(view_events(events@) =~= Seq::<EventView>::empty());
    while i < document.fields.len()
        invariant
            i <= document.fields.len(),
            entries == document@,
            view_events(events@) == events_of(entries.take(i as int)),
        decreases document.fields.len() - i,
    {
        assert(entries.take(i + 1).drop_last() =~= entries.take(i as int));
        match read_event(&document.fields[i]) {
            Some(event) => {
                let ghost before = view_events(events@);
                events.push(event);
                assert(view_events(events@) =~= before.push(event@));
            },
            None => {},
        }
        i += 1;
    }
    assert(entries.take(i as int) =~= entries);
    EventSet { events }
}

/// The event sets that a list of event files gives: a file that does not
/// parse or holds no event is passed over.
pub open spec fn event_sets_of(files: Seq<Seq<u8>>) -> Seq<Seq<EventView>>
    decreases files.len(),
{
    if files.len() == 0 {
        Seq::empty()
    } else {
        match parsed_document(files.last()) {
            Some(document) => if events_of(document).len() > 0 {
                event_sets_of(files.drop_last()).push(events_of(document))
            } else {
                event_sets_of(files.drop_last())
            },
            None => event_sets_of(files.drop_last()),
        }
    }
}

/// Reads the event files, each given by its content.
pub fn parse_events(files: &Vec<Vec<u8>>) -> (sets: Vec<EventSet>)
    ensures
        view_event_sets(sets@) == event_sets_of(view_contents(files@)),
{
    let ghost all = view_contents(files@);
    let mut sets: Vec<EventSet> = Vec::new();
    let mut i: usize = 0;
    assert(view_event_sets(sets@) =~= Seq::<Seq<EventView>>::empty());
    while i < files.len()
        invariant
            i <= files.len(),
            all == view_contents(files@),
            view_event_sets(sets@) == event_sets_of(all.take(i as int)),
        decreases files.len() - i,
    {
        assert(all.take(i + 1).drop_last() =~= all.take(i as int));
        assert(all.take(i + 1).last() == files@[i as int]@);
        match parse_document(files[i].as_slice()) {
            Some(document) => {
                let set = event_set(&document);
                if set.events.len() > 0 {
                    let ghost before = view_event_sets(sets@);
                    sets.push(set);
                    assert(view_event_sets(sets@) =~= before.push(set@));
                }
            },
            None => {},
        }
        i += 1;
    }
    assert(all.take(i as int) =~= all);
    sets
}

} // verus!
