use js_ts_bindings::{
    assemble_document, command_functions, events_data, render_all_parts, render_document, Command,
    EventDataType, ExportConfig, ExportLanguage, GenerationError, NamingPolicy, PrefixRule,
    ResultShape, StaticCollection, TypeRef, DO_NOT_EDIT,
};
use serde_json::Value;
use specta_typescript::Typescript;

fn plugin(name: &str) -> NamingPolicy {
    NamingPolicy {
        namespace: String::from(name),
        command_rule: PrefixRule { lead: String::from("plugin:"), separator: String::from("|") },
        event_rule: PrefixRule { lead: String::from("plugin:"), separator: String::from(":") },
    }
}

struct Listing;

impl ExportLanguage for Listing {
    type Error = GenerationError;

    fn render_commands(commands: &[Command], cfg: &ExportConfig) -> Result<String, GenerationError> {
        Ok(command_functions(commands, cfg, true)?.join(",\n"))
    }

    fn render_events(
        events: &[EventDataType],
        cfg: &ExportConfig,
    ) -> Result<String, GenerationError> {
        let (types, names) = events_data(events, cfg)?;
        Ok(format!("{}\n{}", names, types.join(",\n")))
    }
}

fn commands() -> Vec<Command> {
    vec![Command {
        name: String::from("get_count"),
        docs: String::new(),
        args: vec![],
        result: Some(ResultShape::Value(TypeRef::Rendered(String::from("number")))),
    }]
}

fn events() -> Vec<EventDataType> {
    vec![EventDataType {
        name: String::from("count_changed"),
        typ: TypeRef::Rendered(String::from("number")),
    }]
}

fn statics() -> StaticCollection {
    let mut statics = StaticCollection::new();
    statics.add_static("limit", Value::from(10));
    statics.add_static("fallback", Value::Null);
    statics
}

fn expected(commands: &str, events: &str, statics: &str, types: &str, globals: &str) -> String {
    let mut text = String::new();
    text.push_str("         // This file was generated by [tauri-specta](https://github.com/oscartbeaumont/tauri-specta). Do not edit this file manually.\n");
    text.push_str("\n");
    text.push_str("         /** user-defined commands **/\n");
    text.push_str("\n");
    text.push_str("         ");
    text.push_str(commands);
    text.push_str("\n\n");
    text.push_str("         /** user-defined events **/\n");
    text.push_str("\n");
    text.push_str(events);
    text.push_str("\n\n");
    text.push_str("         /** user-defined statics **/\n");
    text.push_str("\n");
    text.push_str("         ");
    text.push_str(statics);
    text.push_str("\n\n");
    text.push_str("/** user-defined types **/\n");
    text.push_str("\n");
    text.push_str(types);
    text.push_str("\n\n");
    text.push_str("/** tauri-specta globals **/\n");
    text.push_str("\n");
    text.push_str("         ");
    text.push_str(globals);
    text.push_str("\n     ");
    text
}

#[test]
fn disclaimer_tells_not_to_edit() {
    assert!(DO_NOT_EDIT.starts_with("// "));
    assert!(DO_NOT_EDIT.ends_with("Do not edit this file manually."));
    assert!(!DO_NOT_EDIT.contains('\n'));
}

#[test]
fn assemble_document_puts_each_section_under_its_banner() {
    assert_eq!(assemble_document("C", "E", "S", "T", "G"), expected("C", "E", "S", "T", "G"));
}

#[test]
fn assemble_document_of_empty_sections_keeps_the_banners() {
    assert_eq!(assemble_document("", "", "", "", ""), expected("", "", "", "", ""));
    let document = assemble_document("", "", "", "", "");
    let banners = [
        "/** user-defined commands **/",
        "/** user-defined events **/",
        "/** user-defined statics **/",
        "/** user-defined types **/",
        "/** tauri-specta globals **/",
    ];
    let mut from = 0;
    for banner in banners {
        let at = document[from..].find(banner).unwrap();
        from += at + banner.len();
    }
}

#[test]
fn render_document_renders_the_statics() {
    assert_eq!(
        render_document("C", "E", &statics(), "T", "G"),
        expected("C", "E", "export const limit = 10 as const;\nexport const fallback = null;", "T", "G")
    );
}

#[test]
fn render_all_parts_assembles_what_the_language_renders() {
    let cfg = ExportConfig::from(Typescript::default()).plugin_name(plugin("counter"));
    let document = render_all_parts::<Listing>(
        &commands(),
        &events(),
        &statics(),
        &cfg,
        "export type Count = number",
        "declare function TAURI_INVOKE(key: string, args?: object): Promise<unknown>;",
    );
    assert_eq!(
        document,
        Ok(expected(
            "async getCount(): Promise<number> {\nreturn await TAURI_INVOKE(\"plugin:counter|get_count\");\n}",
            "countChanged: \"plugin:counter:count_changed\"\ncountChanged: number",
            "export const limit = 10 as const;\nexport const fallback = null;",
            "export type Count = number",
            "declare function TAURI_INVOKE(key: string, args?: object): Promise<unknown>;",
        ))
    );
}

#[test]
fn render_all_parts_fails_where_the_commands_fail() {
    let cfg = ExportConfig::from(Typescript::default());
    let mut list = commands();
    list[0].result = Some(ResultShape::Value(TypeRef::Failed(String::from("no text for u64"))));
    let mut bad_events = events();
    bad_events[0].typ = TypeRef::Failed(String::from("no text for i64"));
    let document = render_all_parts::<Listing>(
        &list,
        &bad_events,
        &statics(),
        &cfg,
        "",
        "",
    );
    assert_eq!(
        document,
        Err(GenerationError::Type(String::from("no text for u64")))
    );
}

#[test]
fn render_all_parts_fails_where_the_events_fail() {
    let cfg = ExportConfig::from(Typescript::default());
    let mut bad_events = events();
    bad_events[0].typ = TypeRef::Failed(String::from("no text for i64"));
    let document = render_all_parts::<Listing>(
        &commands(),
        &bad_events,
        &statics(),
        &cfg,
        "",
        "",
    );
    assert_eq!(
        document,
        Err(GenerationError::Type(String::from("no text for i64")))
    );
}

#[test]
fn two_runs_on_the_same_inputs_give_the_same_bytes() {
    let cfg = ExportConfig::from(Typescript::default()).plugin_name(plugin("counter"));
    let run = || {
        render_all_parts::<Listing>(
            &commands(),
            &events(),
                &statics(),
            &cfg,
            "export type Count = number",
            "G",
        )
        .unwrap()
    };
    let first = run();
    let second = run();
    assert_eq!(first.as_bytes(), second.as_bytes());
}
