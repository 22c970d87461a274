//! Names: the binding name a declared name gets in the emitted code, and the
//! key under which a command or an event travels over the wire.
use heck::ToLowerCamelCase;
use vstd::prelude::*;
use vstd::string::StringExecFns;

verus! {

/// The lower camel case form of a name, as the `heck` crate computes it.
pub uninterp spec fn lower_camel_case(name: Seq<char>) -> Seq<char>;

/// Calls `heck::ToLowerCamelCase::to_lower_camel_case` on a `str`.
///
/// Trusted: the conversion is a function of the characters of `name` alone
/// (it splits at non-alphanumeric characters and at changes of case, lowers
/// the first word and capitalizes the others), so its result is the named
/// `lower_camel_case` of them.
#[verifier::external_body]
fn heck_lower_camel_case(name: &str) -> (out: String)
    ensures
        out@ == lower_camel_case(name@),
{
    name.to_lower_camel_case()
}

/// What a name stands for: an event channel or a command.
#[derive(Clone, Copy, Debug, PartialEq, Eq, Structural)]
pub enum ItemType {
    Event,
    Command,
}

/// How a namespace is written in front of the names of one kind of item:
/// `lead`, the namespace, `separator`, then the name.
#[derive(Clone, Debug)]
pub struct PrefixRule {
    pub lead: String,
    pub separator: String,
}

/// What a prefix rule holds.
pub struct PrefixRuleView {
    pub lead: Seq<char>,
    pub separator: Seq<char>,
}

impl View for PrefixRule {
    type V = PrefixRuleView;

    open spec fn view(&self) -> PrefixRuleView {
        PrefixRuleView { lead: self.lead@, separator: self.separator@ }
    }
}

/// A namespace and, for commands and for events, the rule by which it is
/// written in front of a name to form the wire key.
#[derive(Clone, Debug)]
pub struct NamingPolicy {
    pub namespace: String,
    pub command_rule: PrefixRule,
    pub event_rule: PrefixRule,
}

/// What a naming policy holds.
pub struct NamingPolicyView {
    pub namespace: Seq<char>,
    pub command_rule: PrefixRuleView,
    pub event_rule: PrefixRuleView,
}

impl NamingPolicyView {
    /// The rule for one kind of item.
    pub open spec fn rule(self, item_type: ItemType) -> PrefixRuleView {
        match item_type {
            ItemType::Event => self.event_rule,
            ItemType::Command => self.command_rule,
        }
    }

    /// `name` with the namespace in front, by the rule for `item_type`.
    pub open spec fn prefixed(self, name: Seq<char>, item_type: ItemType) -> Seq<char> {
        self.rule(item_type).lead + self.namespace + self.rule(item_type).separator + name
    }
}

impl View for NamingPolicy {
    type V = NamingPolicyView;

    open spec fn view(&self) -> NamingPolicyView {
        NamingPolicyView {
            namespace: self.namespace@,
            command_rule: self.command_rule@,
            event_rule: self.event_rule@,
        }
    }
}

/// The view of an optional policy.
pub open spec fn policy_view(policy: Option<NamingPolicy>) -> Option<NamingPolicyView> {
    match policy {
        Some(p) => Some(p@),
        None => None,
    }
}

/// The wire key of `name`: prefixed where a policy is given, else unchanged.
pub open spec fn wire_name(
    name: Seq<char>,
    item_type: ItemType,
    policy: Option<NamingPolicyView>,
) -> Seq<char> {
    match policy {
        Some(p) => p.prefixed(name, item_type),
        None => name,
    }
}

impl NamingPolicy {
    /// Writes the namespace in front of `s`, by the rule for `item_type`.
    pub fn apply_as_prefix(&self, s: &str, item_type: ItemType) -> (out: String)
        ensures
            out@ == self@.prefixed(s@, item_type),
    {
        let rule = match item_type {
            ItemType::Event => &self.event_rule,
            ItemType::Command => &self.command_rule,
        };
        let mut out = rule.lead.clone();
        out.append(self.namespace.as_str());
        out.append(rule.separator.as_str());
        out.append(s);
        out
    }
}

/// The binding name of `name` in the emitted code: its lower camel case form.
/// A namespace never enters it.
pub fn to_call_name(name: &str) -> (out: String)
    ensures
        out@ == lower_camel_case(name@),
{
    heck_lower_camel_case(name)
}

/// The key under which `name` travels over the wire: with the namespace in
/// front where `policy` is given, else `name` unchanged.
pub fn to_wire_name(name: &str, item_type: ItemType, policy: Option<&NamingPolicy>) -> (out:
    String)
    ensures
        out@ == wire_name(
            name@,
            item_type,
            match policy {
                Some(p) => Some(p@),
                None => None,
            },
        ),
{
    match policy {
        Some(p) => p.apply_as_prefix(name, item_type),
        None => String::from_str(name),
    }
}

} // verus!
