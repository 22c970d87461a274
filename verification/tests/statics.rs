use js_ts_bindings::{const_qualifier, render_statics, static_binding, StaticCollection, ValueKind};
use serde_json::{Number, Value};

fn binding_of(value: Value) -> String {
    let mut statics = StaticCollection::new();
    statics.add_static("it", value);
    render_statics(&statics)
}

#[test]
fn only_null_has_no_qualifier() {
    assert_eq!(const_qualifier(ValueKind::Null), "");
    assert_eq!(const_qualifier(ValueKind::Bool), " as const");
    assert_eq!(const_qualifier(ValueKind::Number), " as const");
    assert_eq!(const_qualifier(ValueKind::Text), " as const");
    assert_eq!(const_qualifier(ValueKind::Array), " as const");
    assert_eq!(const_qualifier(ValueKind::Object), " as const");
}

#[test]
fn static_binding_exports_a_constant() {
    assert_eq!(static_binding("answer", "42", ValueKind::Number), "export const answer = 42 as const;");
    assert_eq!(static_binding("nothing", "null", ValueKind::Null), "export const nothing = null;");
}

#[test]
fn null_is_written_without_qualifier() {
    assert_eq!(binding_of(Value::Null), "export const it = null;");
}

#[test]
fn boolean_is_written_as_constant() {
    assert_eq!(binding_of(Value::Bool(true)), "export const it = true as const;");
    assert_eq!(binding_of(Value::Bool(false)), "export const it = false as const;");
}

#[test]
fn number_is_written_as_constant() {
    assert_eq!(binding_of(Value::Number(Number::from(42))), "export const it = 42 as const;");
    assert_eq!(binding_of(Value::Number(Number::from(-7))), "export const it = -7 as const;");
    assert_eq!(binding_of(Value::from(1.5)), "export const it = 1.5 as const;");
}

#[test]
fn string_is_written_as_constant() {
    assert_eq!(
        binding_of(Value::String(String::from("hello"))),
        "export const it = \"hello\" as const;"
    );
    assert_eq!(
        binding_of(Value::String(String::from("a \"b\"\n"))),
        "export const it = \"a \\\"b\\\"\\n\" as const;"
    );
}

#[test]
fn array_is_written_as_constant() {
    let value = Value::Array(vec![Value::from(1), Value::Null, Value::String(String::from("x"))]);
    assert_eq!(binding_of(value), "export const it = [1,null,\"x\"] as const;");
    assert_eq!(binding_of(Value::Array(vec![])), "export const it = [] as const;");
}

#[test]
fn object_is_written_as_constant() {
    let mut map = serde_json::Map::new();
    map.insert(String::from("a"), Value::from(1));
    map.insert(String::from("b"), Value::Array(vec![Value::Bool(true)]));
    assert_eq!(binding_of(Value::Object(map)), "export const it = {\"a\":1,\"b\":[true]} as const;");
    assert_eq!(binding_of(Value::Object(serde_json::Map::new())), "export const it = {} as const;");
}

#[test]
fn statics_come_out_in_the_order_they_were_added() {
    let mut statics = StaticCollection::new();
    statics.add_static("zeta", Value::from(1));
    statics.add_static("alpha", Value::Null);
    statics.add_static("mid", Value::String(String::from("m")));
    assert_eq!(statics.len(), 3);
    assert_eq!(
        render_statics(&statics),
        "export const zeta = 1 as const;\nexport const alpha = null;\nexport const mid = \"m\" as const;"
    );
}

#[test]
fn no_statics_no_text() {
    let statics = StaticCollection::new();
    assert_eq!(statics.len(), 0);
    assert_eq!(render_statics(&statics), "");
}

#[test]
fn a_name_that_is_added_again_keeps_its_place() {
    let mut statics = StaticCollection::new();
    statics.add_static("a", Value::from(1));
    statics.add_static("b", Value::from(2));
    statics.add_static("a", Value::Null);
    assert_eq!(statics.len(), 2);
    assert_eq!(render_statics(&statics), "export const a = null;\nexport const b = 2 as const;");
}
