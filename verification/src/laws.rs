//! What holds of the emitted text for every input.
use crate::command::{
    body_text, bundle_argument, bundle_text, call_names, command_body_text,
    command_function_text, command_functions_text, command_invoke_text, command_views,
    declared_names, error_record_text, function_text, ok_record_text, parameter_attempts,
    result_tuple_text, result_type_text, rethrow_text, signature_end_text, Command, CommandView,
    ResultShapeView,
};
use crate::document::document_text;
use crate::events::{
    event_key, event_name_entries, event_type_attempts, event_type_entries, event_views,
    events_map_text, EventDataType, EventView,
};
use crate::naming::{lower_camel_case, wire_name, ItemType};
use crate::outcome::{collected, lemma_collected_is_ok};
use crate::statics::{binding_text, statics_text, StaticCollection, ValueKind};
use crate::text::{join, lemma_occurs_between, lemma_starts_with_head, occurs_in, starts_with};
use crate::types::{type_text, ExportConfig, ExportConfigView, GenerationErrorView, TypeRefView};
use vstd::prelude::*;

verus! {

/// A command without arguments is invoked with its wire key alone: nothing
/// stands between the key and the closing parenthesis.
pub proof fn lemma_no_arguments_no_bundle(cfg: ExportConfigView, command: CommandView)
    requires
        command.args.len() == 0,
    ensures
        command_invoke_text(cfg, command) == "await TAURI_INVOKE(\""@ + wire_name(
            command.name,
            ItemType::Command,
            cfg.plugin_name,
        ) + "\""@ + ")"@,
{
    let wire = wire_name(command.name, ItemType::Command, cfg.plugin_name);
    let head = "await TAURI_INVOKE(\""@ + wire + "\""@;
    assert(call_names(declared_names(command.args)).len() == 0);
    assert(head + Seq::<char>::empty() =~= head);
}

/// A command with arguments is invoked with its wire key and an object
/// literal whose properties are the binding names of the arguments, one for
/// each argument, in declaration order.
pub proof fn lemma_bundle_lists_arguments(cfg: ExportConfigView, command: CommandView)
    requires
        command.args.len() > 0,
    ensures
        call_names(declared_names(command.args)).len() == command.args.len(),
        forall|i: int|
            0 <= i < command.args.len() ==> call_names(declared_names(command.args))[i]
                == lower_camel_case((#[trigger] command.args[i]).0),
        command_invoke_text(cfg, command) == "await TAURI_INVOKE(\""@ + wire_name(
            command.name,
            ItemType::Command,
            cfg.plugin_name,
        ) + "\""@ + (", "@ + ("{ "@ + join(call_names(declared_names(command.args)), ", "@)
            + " }"@)) + ")"@,
{
}

/// A naming policy reaches the wire key and nothing else. The call holds
/// the wire key of the command between quotes, and the function that stands
/// for the command is declared under the binding name of its declared name,
/// whatever the policy is.
pub proof fn lemma_policy_reaches_the_wire_key_only(
    cfg: ExportConfigView,
    command: CommandView,
    as_any: bool,
)
    requires
        command_function_text(cfg, command, as_any) is Ok,
    ensures
        occurs_in(
            command_invoke_text(cfg, command),
            "\""@ + wire_name(command.name, ItemType::Command, cfg.plugin_name) + "\""@,
        ),
        starts_with(
            command_function_text(cfg, command, as_any)->Ok_0,
            command.docs + "async "@ + lower_camel_case(command.name) + "("@,
        ),
{
    let wire = wire_name(command.name, ItemType::Command, cfg.plugin_name);
    let bundle = bundle_argument(bundle_text(call_names(declared_names(command.args))));
    let quoted = "\""@ + wire + "\""@;
    assert(command_invoke_text(cfg, command) =~= "await TAURI_INVOKE("@ + quoted + (bundle + ")"@))
        by {
        reveal_strlit("await TAURI_INVOKE(\"");
        reveal_strlit("await TAURI_INVOKE(");
        reveal_strlit("\"");
    }
    lemma_occurs_between("await TAURI_INVOKE("@, quoted, bundle + ")"@);

    let head = command.docs + "async "@ + lower_camel_case(command.name) + "("@;
    let return_type = result_type_text(command.result)->Ok_0;
    let parameters = collected(parameter_attempts(command.args))->Ok_0;
    let rest = join(parameters, ", "@) + signature_end_text(Some(return_type)) + " {\n"@
        + command_body_text(cfg, command, as_any) + "\n}"@;
    assert(command_function_text(cfg, command, as_any)->Ok_0 =~= head + rest);
    lemma_starts_with_head(head, rest);
}

/// A function with a return type is declared as `async name(args):
/// Promise<T> {`: the parameters joined by a comma and a space between the
/// parentheses, then at once the colon and the promise of the return type.
pub proof fn lemma_signature_promises_the_return_type(
    docs: Seq<char>,
    name: Seq<char>,
    args: Seq<Seq<char>>,
    return_type: Seq<char>,
    body: Seq<char>,
)
    ensures
        function_text(docs, name, args, Some(return_type), body) == docs + "async "@ + name + "("@
            + join(args, ", "@) + ")"@ + ": Promise<"@ + return_type + ">"@ + " {\n"@ + body
            + "\n}"@,
        starts_with(
            function_text(docs, name, args, Some(return_type), body),
            docs + "async "@ + name + "("@ + join(args, ", "@) + "): Promise<"@ + return_type
                + "> {"@,
        ),
{
    let head = docs + "async "@ + name + "("@ + join(args, ", "@);
    let flat = head + ")"@ + ": Promise<"@ + return_type + ">"@ + " {\n"@ + body + "\n}"@;
    assert(function_text(docs, name, args, Some(return_type), body) =~= flat);
    let opening = head + "): Promise<"@ + return_type + "> {"@;
    assert(flat =~= opening + ("\n"@ + body + "\n}"@)) by {
        reveal_strlit(")");
        reveal_strlit(": Promise<");
        reveal_strlit("): Promise<");
        reveal_strlit(">");
        reveal_strlit(" {\n");
        reveal_strlit("> {");
        reveal_strlit("\n");
    }
    lemma_starts_with_head(opening, "\n"@ + body + "\n}"@);
}

/// The body of a fallible command holds a branch that returns the success
/// record of the call, a branch that returns the error record of what was
/// caught, and the statement that raises a caught native fault again.
pub proof fn lemma_fallible_body_has_both_branches(
    expr: Seq<char>,
    ok: TypeRefView,
    err: TypeRefView,
    as_any: bool,
)
    ensures
        body_text(expr, Some(ResultShapeView::Fallible(ok, err)), as_any) == result_tuple_text(
            expr,
            as_any,
        ),
        occurs_in(result_tuple_text(expr, as_any), "return "@ + ok_record_text(expr) + ";"@),
        occurs_in(result_tuple_text(expr, as_any), rethrow_text()),
        occurs_in(
            result_tuple_text(expr, as_any),
            "else return "@ + error_record_text(as_any) + ";"@,
        ),
{
    let body = result_tuple_text(expr, as_any);
    let success = "return "@ + ok_record_text(expr) + ";"@;
    let failure = "else return "@ + error_record_text(as_any) + ";"@;
    let opening = "try {\n    "@;
    let catching = "\n} catch (e) {\n    "@;
    let between = "\n    "@;
    let closing = "\n}"@;
    assert(body =~= opening + success + catching + rethrow_text() + between + failure + closing)
        by {
        reveal_strlit("try {\n    return ");
        reveal_strlit("try {\n    ");
        reveal_strlit("return ");
        reveal_strlit(";\n} catch (e) {\n    ");
        reveal_strlit("\n} catch (e) {\n    ");
        reveal_strlit(";");
        reveal_strlit("\n    else return ");
        reveal_strlit("\n    ");
        reveal_strlit("else return ");
        reveal_strlit(";\n}");
        reveal_strlit("\n}");
    }
    lemma_occurs_between(opening, success, catching + rethrow_text() + between + failure + closing);
    assert(body =~= opening + success + (catching + rethrow_text() + between + failure + closing));
    lemma_occurs_between(opening + success + catching, rethrow_text(), between + failure + closing);
    assert(body =~= opening + success + catching + rethrow_text() + (between + failure + closing));
    lemma_occurs_between(
        opening + success + catching + rethrow_text() + between,
        failure,
        closing,
    );
}

/// The body of a command that always returns a value is one `return` of the
/// call, with no record around it; the body of a command that returns
/// nothing is the call as a statement, with no `return`.
pub proof fn lemma_infallible_body_is_bare(expr: Seq<char>, value: TypeRefView, as_any: bool)
    ensures
        body_text(expr, Some(ResultShapeView::Value(value)), as_any) == "return "@ + expr + ";"@,
        body_text(expr, None, as_any) == expr + ";"@,
        starts_with(body_text(expr, Some(ResultShapeView::Value(value)), as_any), "return "@),
        starts_with(body_text(expr, None, as_any), expr),
{
    lemma_starts_with_head("return "@, expr + ";"@);
    assert("return "@ + expr + ";"@ =~= "return "@ + (expr + ";"@));
    lemma_starts_with_head(expr, ";"@);
}

/// The binding of `null` ends right after its literal; the binding of a
/// boolean, a number, a string, an array or an object carries the constant
/// qualifier after its literal.
pub proof fn lemma_only_null_is_unqualified(name: Seq<char>, literal: Seq<char>, kind: ValueKind)
    ensures
        kind == ValueKind::Null ==> binding_text(name, literal, kind) == "export const "@ + name
            + " = "@ + literal + ";"@,
        kind != ValueKind::Null ==> binding_text(name, literal, kind) == "export const "@ + name
            + " = "@ + literal + " as const"@ + ";"@,
{
    let head = "export const "@ + name + " = "@ + literal;
    assert(head + Seq::<char>::empty() =~= head);
}

/// Generation is a function of what its inputs hold: of two runs on inputs
/// with the same views, each function, each table, the bindings and the
/// document come out the same, character for character, or fail with the
/// same error.
pub proof fn lemma_same_inputs_same_text(
    cfg: ExportConfig,
    commands: Seq<Command>,
    events: Seq<EventDataType>,
    statics: StaticCollection,
    again_cfg: ExportConfig,
    again_commands: Seq<Command>,
    again_events: Seq<EventDataType>,
    again_statics: StaticCollection,
    as_any: bool,
)
    requires
        cfg@ == again_cfg@,
        command_views(commands) == command_views(again_commands),
        event_views(events) == event_views(again_events),
        statics@ == again_statics@,
    ensures
        command_functions_text(cfg@, command_views(commands), as_any) == command_functions_text(
            again_cfg@,
            command_views(again_commands),
            as_any,
        ),
        events_map_text(cfg@, event_views(events)) == events_map_text(
            again_cfg@,
            event_views(again_events),
        ),
        event_type_entries(event_views(events)) == event_type_entries(event_views(again_events)),
        statics_text(statics@) == statics_text(again_statics@),
        forall|commands_text: Seq<char>, events_text: Seq<char>, types: Seq<char>, globals: Seq<char>|
            document_text(commands_text, events_text, statics_text(statics@), types, globals) == (
            #[trigger] document_text(
                commands_text,
                events_text,
                statics_text(again_statics@),
                types,
                globals,
            )),
{
}

/// The name table and the type table list the same events in the same
/// order under the same keys: where the type table exists, both have one
/// entry for each event, and the entries of an event begin with its key and
/// a colon.
pub proof fn lemma_event_tables_aligned(cfg: ExportConfigView, events: Seq<EventView>)
    requires
        event_type_entries(events) is Ok,
    ensures
        event_name_entries(cfg, events).len() == events.len(),
        event_type_entries(events)->Ok_0.len() == events.len(),
        forall|i: int|
            #![trigger events[i]]
            0 <= i < events.len() ==> {
                &&& starts_with(event_name_entries(cfg, events)[i], event_key(events[i]) + ": "@)
                &&& starts_with(event_type_entries(events)->Ok_0[i], event_key(events[i]) + ": "@)
            },
{
    let attempts = event_type_attempts(events);
    let types = event_type_entries(events)->Ok_0;
    lemma_collected_is_ok(attempts);
    assert forall|i: int| #![trigger events[i]] 0 <= i < events.len() implies {
        &&& starts_with(event_name_entries(cfg, events)[i], event_key(events[i]) + ": "@)
        &&& starts_with(types[i], event_key(events[i]) + ": "@)
    } by {
        let head = event_key(events[i]) + ": "@;
        let wire = wire_name(events[i].name, ItemType::Event, cfg.plugin_name);
        assert(event_name_entries(cfg, events)[i] =~= head + ("\""@ + wire + "\""@));
        lemma_starts_with_head(head, "\""@ + wire + "\""@);
        assert(attempts[i] == Ok::<Seq<char>, GenerationErrorView>(types[i]));
        let typ = type_text(events[i].typ)->Ok_0;
        assert(types[i] == head + typ);
        lemma_starts_with_head(head, typ);
    }
}

} // verus!
