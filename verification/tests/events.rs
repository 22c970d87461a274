use js_ts_bindings::{
    events_data, events_map, events_types, name_table_entry, to_call_name, EventDataType,
    ExportConfig, GenerationError, NamingPolicy, PrefixRule, TypeRef,
};
use specta_typescript::Typescript;

fn plugin(name: &str) -> NamingPolicy {
    NamingPolicy {
        namespace: String::from(name),
        command_rule: PrefixRule { lead: String::from("plugin:"), separator: String::from("|") },
        event_rule: PrefixRule { lead: String::from("plugin:"), separator: String::from(":") },
    }
}

fn event(name: &str, typ: TypeRef) -> EventDataType {
    EventDataType { name: String::from(name), typ }
}

fn rendered(text: &str) -> TypeRef {
    TypeRef::Rendered(String::from(text))
}

fn failed(reason: &str) -> TypeRef {
    TypeRef::Failed(String::from(reason))
}

fn events() -> Vec<EventDataType> {
    vec![
        event("user_changed", rendered("string")),
        event("tick", rendered("number")),
        event("window-closed", rendered("boolean | null")),
    ]
}

fn config() -> ExportConfig {
    ExportConfig::from(Typescript::default())
}

#[test]
fn name_table_entry_quotes_the_wire_key() {
    assert_eq!(name_table_entry("userChanged", "user_changed"), "userChanged: \"user_changed\"");
}

#[test]
fn events_map_lists_binding_name_and_wire_key() {
    assert_eq!(
        events_map(&events(), &config()),
        "userChanged: \"user_changed\",\ntick: \"tick\",\nwindowClosed: \"window-closed\""
    );
}

#[test]
fn events_map_of_no_events_is_empty() {
    assert_eq!(events_map(&[], &config()), "");
}

#[test]
fn events_map_prefixes_the_wire_key_only() {
    let cfg = config().plugin_name(plugin("auth"));
    assert_eq!(
        events_map(&events(), &cfg),
        "userChanged: \"plugin:auth:user_changed\",\ntick: \"plugin:auth:tick\",\nwindowClosed: \"plugin:auth:window-closed\""
    );
}

#[test]
fn events_types_lists_binding_name_and_payload_type() {
    assert_eq!(
        events_types(&events()),
        Ok(vec![
            String::from("userChanged: string"),
            String::from("tick: number"),
            String::from("windowClosed: boolean | null"),
        ])
    );
    assert_eq!(events_types(&[]), Ok(vec![]));
}

#[test]
fn events_types_fails_with_the_first_payload_that_fails() {
    let list = vec![
        event("a", rendered("string")),
        event("b", failed("no text for b")),
        event("c", failed("no text for c")),
    ];
    assert_eq!(events_types(&list), Err(GenerationError::Type(String::from("no text for b"))));
    assert_eq!(
        events_data(&list, &config()),
        Err(GenerationError::Type(String::from("no text for b")))
    );
}

#[test]
fn events_data_gives_both_tables() {
    let (types, names) = events_data(&events(), &config()).unwrap();
    assert_eq!(Ok(types), events_types(&events()));
    assert_eq!(names, events_map(&events(), &config()));
}

#[test]
fn both_tables_have_the_same_keys_in_the_same_order() {
    let cfg = config().plugin_name(plugin("auth"));
    let list = events();
    let (types, names) = events_data(&list, &cfg).unwrap();
    let names: Vec<&str> = names.split(",\n").collect();
    assert_eq!(names.len(), list.len());
    assert_eq!(types.len(), list.len());
    for i in 0..list.len() {
        let key = format!("{}: ", to_call_name(&list[i].name));
        assert!(names[i].starts_with(&key));
        assert!(types[i].starts_with(&key));
    }
}

#[test]
fn events_with_the_same_name_are_listed_twice() {
    let list = vec![
        event("tick", rendered("number")),
        event("tick", rendered("string")),
    ];
    assert_eq!(events_map(&list, &config()), "tick: \"tick\",\ntick: \"tick\"");
    assert_eq!(
        events_types(&list),
        Ok(vec![String::from("tick: number"), String::from("tick: string")])
    );
}
