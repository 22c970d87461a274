//! Static values: named JSON constants, emitted as immutable top-level
//! bindings in the order in which they were added.
use crate::text::{join, join_strings, texts};
use serde_json::Value;
use vstd::prelude::*;
use vstd::string::StringExecFns;

verus! {

/// A JSON value of `serde_json`, opaque here.
#[verifier::external_type_specification]
#[verifier::external_body]
pub struct ExValue(Value);

/// The shape of a JSON value.
#[derive(Clone, Copy, Debug, PartialEq, Eq, Structural)]
pub enum ValueKind {
    Null,
    Bool,
    Number,
    Text,
    Array,
    Object,
}

/// The compact JSON text of a value, as `serde_json::to_string` writes it.
pub uninterp spec fn json_text(value: Value) -> Seq<char>;

/// The shape of a value: which variant of `serde_json::Value` it is.
pub uninterp spec fn json_kind(value: Value) -> ValueKind;

/// Calls `serde_json::to_string` on a `serde_json::Value`.
///
/// Trusted: the text is a function of the value alone, the named
/// `json_text` of it. `serde_json` documents two reasons for which
/// serialization fails: an implementation of `Serialize` that decides to
/// fail, and a map whose keys are not strings. That of `Value` never
/// decides to fail and the keys of its maps are strings, so the call is
/// taken to succeed.
#[verifier::external_body]
fn json_to_string(value: &Value) -> (literal: String)
    ensures
        literal@ == json_text(*value),
{
    serde_json::to_string(value).expect("a JSON value has a JSON text")
}

/// Tells the variants of `serde_json::Value` apart.
///
/// Trusted: the result is the named `json_kind` of the value, one kind for
/// each of the six variants.
#[verifier::external_body]
fn json_value_kind(value: &Value) -> (kind: ValueKind)
    ensures
        kind == json_kind(*value),
{
    match value {
        Value::Null => ValueKind::Null,
        Value::Bool(_) => ValueKind::Bool,
        Value::Number(_) => ValueKind::Number,
        Value::String(_) => ValueKind::Text,
        Value::Array(_) => ValueKind::Array,
        Value::Object(_) => ValueKind::Object,
    }
}

/// What follows the literal of a value of shape `kind`: nothing after
/// `null`, the qualifier that makes a constant of every other value.
pub open spec fn const_qualifier_text(kind: ValueKind) -> Seq<char> {
    match kind {
        ValueKind::Null => Seq::empty(),
        ValueKind::Bool => " as const"@,
        ValueKind::Number => " as const"@,
        ValueKind::Text => " as const"@,
        ValueKind::Array => " as const"@,
        ValueKind::Object => " as const"@,
    }
}

/// The binding of the constant `name` to a value of shape `kind` that is
/// written as `literal`.
pub open spec fn binding_text(name: Seq<char>, literal: Seq<char>, kind: ValueKind) -> Seq<char> {
    "export const "@ + name + " = "@ + literal + const_qualifier_text(kind) + ";"@
}

/// The binding of one named value.
pub open spec fn static_binding_text(entry: (Seq<char>, Value)) -> Seq<char> {
    binding_text(entry.0, json_text(entry.1), json_kind(entry.1))
}

/// The bindings of named values, one on each line, in order.
pub open spec fn statics_text(statics: Seq<(Seq<char>, Value)>) -> Seq<char> {
    join(statics.map_values(|entry: (Seq<char>, Value)| static_binding_text(entry)), "\n"@)
}

/// The index of the first entry named `name`, if there is one.
pub open spec fn position_of(statics: Seq<(Seq<char>, Value)>, name: Seq<char>) -> Option<int> {
    if exists|i: int| first_named_at(statics, name, i) {
        Some(choose|i: int| first_named_at(statics, name, i))
    } else {
        None
    }
}

/// Entry `i` is named `name` and no earlier entry is.
pub open spec fn first_named_at(statics: Seq<(Seq<char>, Value)>, name: Seq<char>, i: int) -> bool {
    &&& 0 <= i < statics.len()
    &&& statics[i].0 == name
    &&& forall|j: int| 0 <= j < i ==> (#[trigger] statics[j]).0 != name
}

/// No two entries have the same name.
pub open spec fn distinct_names(statics: Seq<(Seq<char>, Value)>) -> bool {
    forall|i: int, j: int|
        0 <= i < j < statics.len() ==> (#[trigger] statics[i]).0 != (#[trigger] statics[j]).0
}

/// Named values with a new value for `name`: in the place of the old one
/// where `name` already has a value, else at the end.
pub open spec fn with_static(statics: Seq<(Seq<char>, Value)>, name: Seq<char>, value: Value)
    -> Seq<(Seq<char>, Value)> {
    match position_of(statics, name) {
        Some(i) => statics.update(i, (name, value)),
        None => statics.push((name, value)),
    }
}

/// A mapping from names to JSON values that remembers the order in which
/// the names were added.
#[derive(Debug)]
pub struct StaticCollection {
    statics: Vec<(String, Value)>,
}

impl View for StaticCollection {
    type V = Seq<(Seq<char>, Value)>;

    closed spec fn view(&self) -> Seq<(Seq<char>, Value)> {
        self.statics@.map_values(|entry: (String, Value)| (entry.0@, entry.1))
    }
}

impl StaticCollection {
    /// No name has two values.
    pub open spec fn wf(&self) -> bool {
        distinct_names(self@)
    }

    /// The empty collection.
    pub fn new() -> (statics: StaticCollection)
        ensures
            statics@ == Seq::<(Seq<char>, Value)>::empty(),
            statics.wf(),
    {
        let statics = StaticCollection { statics: Vec::new() };
        assert(statics@ =~= Seq::<(Seq<char>, Value)>::empty());
        statics
    }

    /// The number of names.
    pub fn len(&self) -> (n: usize)
        ensures
            n == self@.len(),
    {
        self.statics.len()
    }

    /// Gives `name` the value `value`. A name that has a value keeps its
    /// place; a new name goes to the end.
    pub fn add_static(&mut self, name: &str, value: Value)
        requires
            old(self).wf(),
        ensures
            final(self)@ == with_static(old(self)@, name@, value),
            final(self).wf(),
    {
        let owned = String::from_str(name);
        let ghost before = self@;
        let mut i: usize = 0;
        while i < self.statics.len()
            invariant
                i <= self.statics.len(),
                self@ == before,
                before == old(self)@,
                owned@ == name@,
                distinct_names(before),
                forall|j: int| 0 <= j < i ==> (#[trigger] before[j]).0 != name@,
            decreases self.statics.len() - i,
        {
            if self.statics[i].0 == owned {
                proof {
                    assert(before[i as int].0 == name@);
                    assert(first_named_at(before, name@, i as int));
                    let k = choose|k: int| first_named_at(before, name@, k);
                    if k < i {
                        assert(before[k].0 != name@);
                    } else if i < k {
                        assert(before[i as int].0 != name@);
                    }
                    assert(position_of(before, name@) == Some(i as int));
                }
                self.statics.set(i, (owned, value));
                proof {
                    let after = before.update(i as int, (name@, value));
                    assert(self@ =~= after);
                    assert forall|a: int, b: int| 0 <= a < b < after.len() implies (
                    #[trigger] after[a]).0 != (#[trigger] after[b]).0 by {
                        assert(before[a].0 != before[b].0);
                    }
                }
                return ;
            }
            i += 1;
        }
        proof {
            assert forall|k: int| !first_named_at(before, name@, k) by {
                if 0 <= k < before.len() {
                    assert(before[k].0 != name@);
                }
            }
        }
        self.statics.push((owned, value));
        proof {
            let after = before.push((name@, value));
            assert(self@ =~= after);
            assert forall|a: int, b: int| 0 <= a < b < after.len() implies (#[trigger] after[a]).0
                != (#[trigger] after[b]).0 by {
                if b < before.len() {
                    assert(before[a].0 != before[b].0);
                } else {
                    assert(before[a].0 != name@);
                }
            }
        }
    }
}

/// The qualifier that follows the literal of a value of shape `kind`.
pub fn const_qualifier(kind: ValueKind) -> (qualifier: &'static str)
    ensures
        qualifier@ == const_qualifier_text(kind),
{
    match kind {
        ValueKind::Null => {
            assert(""@ =~= Seq::<char>::empty()) by {
                reveal_strlit("");
            }
            ""
        },
        ValueKind::Bool => " as const",
        ValueKind::Number => " as const",
        ValueKind::Text => " as const",
        ValueKind::Array => " as const",
        ValueKind::Object => " as const",
    }
}

/// The binding of the constant `name` to a value of shape `kind` that is
/// written as `literal`: `export const`, the name, the literal and, unless
/// the value is `null`, the qualifier that makes a constant of it.
pub fn static_binding(name: &str, literal: &str, kind: ValueKind) -> (binding: String)
    ensures
        binding@ == binding_text(name@, literal@, kind),
{
    let mut binding = String::from_str("export const ");
    binding.append(name);
    binding.append(" = ");
    binding.append(literal);
    binding.append(const_qualifier(kind));
    binding.append(";");
    binding
}

/// The bindings of `statics`, one on each line, in the order in which the
/// names were added.
pub fn render_statics(statics: &StaticCollection) -> (out: String)
    ensures
        out@ == statics_text(statics@),
{
    let mut bindings: Vec<String> = Vec::new();
    let mut i: usize = 0;
    while i < statics.statics.len()
        invariant
            i <= statics.statics.len(),
            bindings.len() == i,
            forall|j: int|
                0 <= j < i ==> (#[trigger] bindings[j])@ == static_binding_text(statics@[j]),
        decreases statics.statics.len() - i,
    {
        let entry = &statics.statics[i];
        let literal = json_to_string(&entry.1);
        let kind = json_value_kind(&entry.1);
        bindings.push(static_binding(entry.0.as_str(), literal.as_str(), kind));
        i += 1;
    }
    assert(texts(bindings@) =~= statics@.map_values(
        |entry: (Seq<char>, Value)| static_binding_text(entry),
    ));
    join_strings(bindings.as_slice(), "\n")
}

} // verus!
