//! Typed TypeScript bindings for remotely invocable commands, events and
//! constants.
//!
//! Given commands, events and named JSON values, the library writes the
//! text of a TypeScript module: one async function for each command, which
//! calls the invocation primitive `TAURI_INVOKE` with the wire key of the
//! command and a bundle of its arguments; two tables for the events, from
//! binding name to wire key and from binding name to payload type; and one
//! constant for each named value.
//!
//! Every function that renders text states in its `ensures` the exact text
//! that it returns, as a spec function of what its inputs hold. The
//! TypeScript text of a type is not made here: a type reference comes
//! resolved, with its text or with the reason for which it has none. Two
//! things are computed by other crates: the lower camel case form of a name
//! (`heck`) and the JSON text of a value (`serde_json`). Their results are
//! named by spec functions without a body, and the contracts speak of those
//! names: they say where each result goes, not what it is.
//!
//! - [`naming`]: binding names and wire keys.
//! - [`types`]: resolved type references, errors and the configuration.
//! - [`command`]: call expressions, bodies, return types and functions.
//! - [`events`]: the two tables of the events.
//! - [`statics`]: the named constants.
//! - [`document`]: the sections under their banners.
//! - [`laws`]: what holds of the text for every input.
//! - [`text`], [`outcome`]: joining texts, and steps that may fail.
pub mod text;
pub mod naming;
pub mod types;
pub mod outcome;
pub mod command;
pub mod events;
pub mod statics;
pub mod document;
pub mod laws;

pub use command::{
    arg_names, arg_usages, command_body, command_function, command_functions, function,
    handle_result, maybe_return_as_result_tuple, result_annotation, tauri_invoke, Command,
    ResultShape,
};
pub use document::{
    assemble_document, render_all_parts, render_document, ExportLanguage, DO_NOT_EDIT,
};
pub use events::{
    events_data, events_map, events_types, name_table_entry, EventDataType,
};
pub use naming::{to_call_name, to_wire_name, ItemType, NamingPolicy, PrefixRule};
pub use statics::{const_qualifier, render_statics, static_binding, StaticCollection, ValueKind};
pub use text::join_strings;
pub use types::{render_type, typed_name, ExportConfig, GenerationError, TypeRef};
