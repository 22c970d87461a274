use js_ts_bindings::{join_strings, to_call_name, to_wire_name, ItemType, NamingPolicy, PrefixRule};

fn plugin(name: &str) -> NamingPolicy {
    NamingPolicy {
        namespace: String::from(name),
        command_rule: PrefixRule { lead: String::from("plugin:"), separator: String::from("|") },
        event_rule: PrefixRule { lead: String::from("plugin:"), separator: String::from(":") },
    }
}

#[test]
fn call_name_is_lower_camel_case() {
    assert_eq!(to_call_name("get_user_name"), "getUserName");
    assert_eq!(to_call_name("GetUserName"), "getUserName");
    assert_eq!(to_call_name("login"), "login");
    assert_eq!(to_call_name("kebab-case"), "kebabCase");
    assert_eq!(to_call_name("XMLHttpRequest"), "xmlHttpRequest");
}

#[test]
fn call_name_of_empty_name_is_empty() {
    assert_eq!(to_call_name(""), "");
}

#[test]
fn wire_name_without_policy_is_the_declared_name() {
    assert_eq!(to_wire_name("get_user_name", ItemType::Command, None), "get_user_name");
    assert_eq!(to_wire_name("user-changed", ItemType::Event, None), "user-changed");
}

#[test]
fn wire_name_under_a_policy_depends_on_the_kind_of_item() {
    let policy = plugin("auth");
    assert_eq!(to_wire_name("login", ItemType::Command, Some(&policy)), "plugin:auth|login");
    assert_eq!(to_wire_name("login", ItemType::Event, Some(&policy)), "plugin:auth:login");
}

#[test]
fn prefix_rules_are_independent() {
    let policy = NamingPolicy {
        namespace: String::from("auth"),
        command_rule: PrefixRule { lead: String::new(), separator: String::from("/") },
        event_rule: PrefixRule { lead: String::from("on:"), separator: String::from(".") },
    };
    assert_eq!(policy.apply_as_prefix("login", ItemType::Command), "auth/login");
    assert_eq!(policy.apply_as_prefix("login", ItemType::Event), "on:auth.login");
    assert_eq!(policy.apply_as_prefix("", ItemType::Command), "auth/");
}

#[test]
fn join_puts_the_separator_between_neighbours() {
    let none: Vec<String> = vec![];
    assert_eq!(join_strings(&none, ", "), "");
    assert_eq!(join_strings(&[String::from("a")], ", "), "a");
    assert_eq!(
        join_strings(&[String::from("a"), String::from("b"), String::from("c")], ", "),
        "a, b, c"
    );
    assert_eq!(join_strings(&[String::new(), String::new()], "-"), "-");
}
