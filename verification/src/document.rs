//! The document: the disclaimer, the commands, the events, the statics, the
//! dependent types and the globals, each under its banner.
use crate::command::Command;
use crate::events::EventDataType;
use crate::statics::{render_statics, statics_text, StaticCollection};
use crate::types::ExportConfig;
use vstd::prelude::*;
use vstd::string::StringExecFns;

verus! {

/// The first line of every document.
pub const DO_NOT_EDIT: &'static str =
    "// This file was generated by [tauri-specta](https://github.com/oscartbeaumont/tauri-specta). Do not edit this file manually.";

/// A target language: how the commands and the events of a document are
/// written in it. Nothing is asked of the text that an implementation
/// returns.
pub trait ExportLanguage {
    type Error;

    /// The commands section.
    fn render_commands(commands: &[Command], cfg: &ExportConfig) -> Result<String, Self::Error>;

    /// The events section.
    fn render_events(events: &[EventDataType], cfg: &ExportConfig) -> Result<String, Self::Error>;
}

/// The margin of nine spaces in front of some lines of a document.
pub const MARGIN: &'static str = "         ";

/// The empty line between two parts of a document.
pub const GAP: &'static str = "\n\n";

/// The document with the given sections: the disclaimer, then under its
/// banner each of the commands, the events, the statics, the types and the
/// globals, with an empty line between each two. The disclaimer, the
/// banners of the commands, events and statics, and the commands, statics
/// and globals themselves stand after the margin; the events, the types and
/// the banners of the types and globals begin their line. A last line holds
/// five spaces.
pub open spec fn document_text(
    commands: Seq<char>,
    events: Seq<char>,
    statics: Seq<char>,
    dependant_types: Seq<char>,
    globals: Seq<char>,
) -> Seq<char> {
    MARGIN@ + DO_NOT_EDIT@ + GAP@
        + MARGIN@ + "/** user-defined commands **/"@ + GAP@
        + MARGIN@ + commands + GAP@
        + MARGIN@ + "/** user-defined events **/"@ + GAP@
        + events + GAP@
        + MARGIN@ + "/** user-defined statics **/"@ + GAP@
        + MARGIN@ + statics + GAP@
        + "/** user-defined types **/"@ + GAP@
        + dependant_types + GAP@
        + "/** tauri-specta globals **/"@ + GAP@
        + MARGIN@ + globals + "\n     "@
}

/// The document from sections that are already text.
pub fn assemble_document(
    commands: &str,
    events: &str,
    statics: &str,
    dependant_types: &str,
    globals: &str,
) -> (document: String)
    ensures
        document@ == document_text(commands@, events@, statics@, dependant_types@, globals@),
{
    let mut document = String::from_str(MARGIN);
    document.append(DO_NOT_EDIT);
    document.append(GAP);
    document.append(MARGIN);
    document.append("/** user-defined commands **/");
    document.append(GAP);
    document.append(MARGIN);
    document.append(commands);
    document.append(GAP);
    document.append(MARGIN);
    document.append("/** user-defined events **/");
    document.append(GAP);
    document.append(events);
    document.append(GAP);
    document.append(MARGIN);
    document.append("/** user-defined statics **/");
    document.append(GAP);
    document.append(MARGIN);
    document.append(statics);
    document.append(GAP);
    document.append("/** user-defined types **/");
    document.append(GAP);
    document.append(dependant_types);
    document.append(GAP);
    document.append("/** tauri-specta globals **/");
    document.append(GAP);
    document.append(MARGIN);
    document.append(globals);
    document.append("\n     ");
    document
}

/// The document from rendered commands and events, the static values, and
/// the texts of the dependent types and the globals.
pub fn render_document(
    commands: &str,
    events: &str,
    statics: &StaticCollection,
    dependant_types: &str,
    globals: &str,
) -> (document: String)
    ensures
        document@ == document_text(
            commands@,
            events@,
            statics_text(statics@),
            dependant_types@,
            globals@,
        ),
{
    let statics = render_statics(statics);
    assemble_document(commands, events, statics.as_str(), dependant_types, globals)
}

/// The document of `commands`, `events` and `statics` in the language `T`.
///
/// `T` renders the commands, then the events. The first of the two that
/// fails gives the error. Where both succeed the document holds the two
/// texts that `T` returned, around the bindings of `statics` and the two
/// given texts.
pub fn render_all_parts<T: ExportLanguage>(
    commands: &[Command],
    events: &[EventDataType],
    statics: &StaticCollection,
    cfg: &ExportConfig,
    dependant_types: &str,
    globals: &str,
) -> (out: Result<String, T::Error>)
    ensures
        match out {
            Ok(document) => exists|commands_text: String, events_text: String|
                {
                    &&& #[trigger] call_ensures(
                        T::render_commands,
                        (commands, cfg),
                        Ok(commands_text),
                    )
                    &&& #[trigger] call_ensures(T::render_events, (events, cfg), Ok(events_text))
                    &&& document@ == document_text(
                        commands_text@,
                        events_text@,
                        statics_text(statics@),
                        dependant_types@,
                        globals@,
                    )
                },
            Err(failure) => {
                ||| call_ensures(T::render_commands, (commands, cfg), Err(failure))
                ||| {
                    &&& exists|commands_text: String| #[trigger]
                        call_ensures(T::render_commands, (commands, cfg), Ok(commands_text))
                    &&& call_ensures(T::render_events, (events, cfg), Err(failure))
                }
            },
        },
{
    let commands_text = match T::render_commands(commands, cfg) {
        Ok(text) => text,
        Err(failure) => {
            return Err(failure);
        },
    };
    let events_text = match T::render_events(events, cfg) {
        Ok(text) => text,
        Err(failure) => {
            return Err(failure);
        },
    };
    Ok(
        render_document(
            commands_text.as_str(),
            events_text.as_str(),
            statics,
            dependant_types,
            globals,
        ),
    )
}

} // verus!
