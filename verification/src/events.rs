//! Events: the table from binding name to wire key, and the table from
//! binding name to payload type. Both list the events in declaration order
//! under the same keys.
use crate::naming::{lower_camel_case, to_call_name, to_wire_name, wire_name, ItemType};
use crate::outcome::{collected, lemma_collected_fails, lemma_collected_succeeds};
use crate::text::{join, join_strings, texts};
use crate::types::{
    render_type, texts_outcome, type_text, typed_name, typed_name_text, ExportConfig,
    ExportConfigView, GenerationError, GenerationErrorView, TypeRef, TypeRefView,
};
use vstd::prelude::*;
use vstd::string::StringExecFns;

verus! {

/// An event channel: its declared name and the type of its payload.
#[derive(Clone, Debug, PartialEq, Eq)]
pub struct EventDataType {
    pub name: String,
    pub typ: TypeRef,
}

/// What an event holds.
pub struct EventView {
    pub name: Seq<char>,
    pub typ: TypeRefView,
}

impl View for EventDataType {
    type V = EventView;

    open spec fn view(&self) -> EventView {
        EventView { name: self.name@, typ: self.typ@ }
    }
}

/// The views of a sequence of events, in order.
pub open spec fn event_views(events: Seq<EventDataType>) -> Seq<EventView> {
    events.map_values(|event: EventDataType| event@)
}

/// The key of an event in both tables: its binding name.
pub open spec fn event_key(event: EventView) -> Seq<char> {
    lower_camel_case(event.name)
}

/// An entry of the name table: the key, then the wire key as a string
/// literal.
pub open spec fn name_entry_text(key: Seq<char>, wire: Seq<char>) -> Seq<char> {
    key + ": "@ + "\""@ + wire + "\""@
}

/// The entry of `event` in the name table.
pub open spec fn event_name_entry(cfg: ExportConfigView, event: EventView) -> Seq<char> {
    name_entry_text(event_key(event), wire_name(event.name, ItemType::Event, cfg.plugin_name))
}

/// The entries of the name table, one for each event, in order.
pub open spec fn event_name_entries(cfg: ExportConfigView, events: Seq<EventView>) -> Seq<
    Seq<char>,
> {
    events.map_values(|event: EventView| event_name_entry(cfg, event))
}

/// The name table: its entries joined by a comma and a line break.
pub open spec fn events_map_text(cfg: ExportConfigView, events: Seq<EventView>) -> Seq<char> {
    join(event_name_entries(cfg, events), ",\n"@)
}

/// The entry of `event` in the type table, or the error that its payload
/// type has no text.
pub open spec fn event_type_entry(event: EventView) -> Result<Seq<char>, GenerationErrorView> {
    match type_text(event.typ) {
        Ok(typ) => Ok(typed_name_text(event_key(event), typ)),
        Err(failure) => Err(failure),
    }
}

/// The attempts at the entries of the type table, one for each event, in
/// order.
pub open spec fn event_type_attempts(events: Seq<EventView>) -> Seq<
    Result<Seq<char>, GenerationErrorView>,
> {
    events.map_values(|event: EventView| event_type_entry(event))
}

/// The entries of the type table, or the error of the first event whose
/// payload type has no text.
pub open spec fn event_type_entries(events: Seq<EventView>) -> Result<
    Seq<Seq<char>>,
    GenerationErrorView,
> {
    collected(event_type_attempts(events))
}

/// An entry of the name table from a binding name and a wire key.
pub fn name_table_entry(key: &str, wire: &str) -> (entry: String)
    ensures
        entry@ == name_entry_text(key@, wire@),
{
    let mut entry = String::from_str(key);
    entry.append(": ");
    entry.append("\"");
    entry.append(wire);
    entry.append("\"");
    entry
}

/// The name table of `events`: for each event, in order, its binding name
/// and its wire key, the entries joined by a comma and a line break.
pub fn events_map(events: &[EventDataType], cfg: &ExportConfig) -> (table: String)
    ensures
        table@ == events_map_text(cfg@, event_views(events@)),
{
    let mut entries: Vec<String> = Vec::new();
    let mut i: usize = 0;
    while i < events.len()
        invariant
            i <= events.len(),
            entries.len() == i,
            forall|j: int|
                0 <= j < i ==> (#[trigger] entries[j])@ == event_name_entry(cfg@, events[j]@),
        decreases events.len() - i,
    {
        let event = &events[i];
        let wire = to_wire_name(event.name.as_str(), ItemType::Event, cfg.plugin_name.as_ref());
        let key = to_call_name(event.name.as_str());
        entries.push(name_table_entry(key.as_str(), wire.as_str()));
        i += 1;
    }
    assert(texts(entries@) =~= event_name_entries(cfg@, event_views(events@)));
    join_strings(entries.as_slice(), ",\n")
}

/// The type table of `events`: for each event, in order, its binding name
/// and the text of its payload type. Fails with the error of the first
/// event whose payload type has no text.
pub fn events_types(events: &[EventDataType]) -> (out: Result<Vec<String>, GenerationError>)
    ensures
        texts_outcome(out) == event_type_entries(event_views(events@)),
{
    let ghost attempts = event_type_attempts(event_views(events@));
    let mut entries: Vec<String> = Vec::new();
    let mut i: usize = 0;
    while i < events.len()
        invariant
            i <= events.len(),
            entries.len() == i,
            attempts == event_type_attempts(event_views(events@)),
            forall|j: int|
                0 <= j < i ==> (#[trigger] attempts[j]) == Ok::<Seq<char>, GenerationErrorView>(
                    entries[j]@,
                ),
        decreases events.len() - i,
    {
        let event = &events[i];
        let key = to_call_name(event.name.as_str());
        match render_type(&event.typ) {
            Ok(typ) => {
                entries.push(typed_name(key.as_str(), typ.as_str()));
            },
            Err(failure) => {
                proof {
                    assert(attempts[i as int] == Err::<Seq<char>, GenerationErrorView>(failure@));
                    lemma_collected_fails(attempts, i as int);
                }
                return Err(failure);
            },
        }
        i += 1;
    }
    proof {
        lemma_collected_succeeds(attempts, texts(entries@));
    }
    Ok(entries)
}

/// Both tables of `events`: the entries of the type table and the name
/// table. Fails as the type table does.
pub fn events_data(events: &[EventDataType], cfg: &ExportConfig) -> (out: Result<
    (Vec<String>, String),
    GenerationError,
>)
    ensures
        match out {
            Ok((types, names)) => {
                &&& event_type_entries(event_views(events@)) == Ok::<
                    Seq<Seq<char>>,
                    GenerationErrorView,
                >(texts(types@))
                &&& names@ == events_map_text(cfg@, event_views(events@))
            },
            Err(failure) => event_type_entries(event_views(events@)) == Err::<
                Seq<Seq<char>>,
                GenerationErrorView,
            >(failure@),
        },
{
    let types = events_types(events)?;
    Ok((types, events_map(events, cfg)))
}

} // verus!
