//! Commands: the call expression, the body that wraps it, the return type
//! annotation and the function declaration.
use crate::naming::{lower_camel_case, to_call_name, to_wire_name, wire_name, ItemType};
use crate::outcome::{collected, lemma_collected_fails, lemma_collected_succeeds};
use crate::text::{join, join_strings, texts};
use crate::types::{
    render_type, text_outcome, texts_outcome, type_text, typed_name, typed_name_text,
    ExportConfig, ExportConfigView, GenerationError, GenerationErrorView, TypeRef, TypeRefView,
};
use vstd::prelude::*;
use vstd::string::StringExecFns;

verus! {

/// What a command that returns something returns: always a value, or a
/// value or an error.
#[derive(Clone, Debug, PartialEq, Eq)]
pub enum ResultShape {
    Value(TypeRef),
    Fallible(TypeRef, TypeRef),
}

/// What a result shape holds.
pub enum ResultShapeView {
    Value(TypeRefView),
    Fallible(TypeRefView, TypeRefView),
}

impl View for ResultShape {
    type V = ResultShapeView;

    open spec fn view(&self) -> ResultShapeView {
        match self {
            ResultShape::Value(value) => ResultShapeView::Value(value@),
            ResultShape::Fallible(ok, err) => ResultShapeView::Fallible(ok@, err@),
        }
    }
}

/// What an optional result shape holds.
pub open spec fn shape_view(result: Option<ResultShape>) -> Option<ResultShapeView> {
    match result {
        Some(shape) => Some(shape@),
        None => None,
    }
}

/// A remotely invocable operation: its declared name, its doc comment, its
/// arguments in declaration order, and what it returns, if anything.
#[derive(Clone, Debug, PartialEq, Eq)]
pub struct Command {
    pub name: String,
    pub docs: String,
    pub args: Vec<(String, TypeRef)>,
    pub result: Option<ResultShape>,
}

/// What a command holds.
pub struct CommandView {
    pub name: Seq<char>,
    pub docs: Seq<char>,
    pub args: Seq<(Seq<char>, TypeRefView)>,
    pub result: Option<ResultShapeView>,
}

/// Declared arguments with their names taken as sequences of characters.
pub open spec fn arg_views(args: Seq<(String, TypeRef)>) -> Seq<(Seq<char>, TypeRefView)> {
    args.map_values(|arg: (String, TypeRef)| (arg.0@, arg.1@))
}

/// The declared names of arguments, in declaration order.
pub open spec fn declared_names(args: Seq<(Seq<char>, TypeRefView)>) -> Seq<Seq<char>> {
    args.map_values(|arg: (Seq<char>, TypeRefView)| arg.0)
}

/// The binding names of declared names, in the same order.
pub open spec fn call_names(names: Seq<Seq<char>>) -> Seq<Seq<char>> {
    names.map_values(|name: Seq<char>| lower_camel_case(name))
}

impl View for Command {
    type V = CommandView;

    open spec fn view(&self) -> CommandView {
        CommandView {
            name: self.name@,
            docs: self.docs@,
            args: arg_views(self.args@),
            result: shape_view(self.result),
        }
    }
}

/// The text of an optional string.
pub open spec fn option_text(text: Option<String>) -> Option<Seq<char>> {
    match text {
        Some(t) => Some(t@),
        None => None,
    }
}

/// The argument bundle of a call: an object literal with the binding names
/// as shorthand properties, or none where there are no arguments.
pub open spec fn bundle_text(names: Seq<Seq<char>>) -> Option<Seq<char>> {
    if names.len() == 0 {
        None
    } else {
        Some("{ "@ + join(names, ", "@) + " }"@)
    }
}

/// The bundle as a further argument of the call, or nothing.
pub open spec fn bundle_argument(bundle: Option<Seq<char>>) -> Seq<char> {
    match bundle {
        Some(b) => ", "@ + b,
        None => Seq::empty(),
    }
}

/// The awaited call of the invocation primitive with a wire key and an
/// optional argument bundle.
pub open spec fn invoke_text(wire: Seq<char>, bundle: Option<Seq<char>>) -> Seq<char> {
    "await TAURI_INVOKE(\""@ + wire + "\""@ + bundle_argument(bundle) + ")"@
}

/// The record a fallible command returns on success.
pub open spec fn ok_record_text(expr: Seq<char>) -> Seq<char> {
    "{ status: \"ok\", data: "@ + expr + " }"@
}

/// The cast of a caught error value to the untyped type, or nothing.
pub open spec fn any_cast_text(as_any: bool) -> Seq<char> {
    if as_any {
        " as any"@
    } else {
        Seq::empty()
    }
}

/// The record a fallible command returns for a declared error.
pub open spec fn error_record_text(as_any: bool) -> Seq<char> {
    "{ status: \"error\", error: e "@ + any_cast_text(as_any) + " }"@
}

/// The statement that raises a caught native fault again.
pub open spec fn rethrow_text() -> Seq<char> {
    "if(e instanceof Error) throw e;"@
}

/// The guarded block of a fallible command: the success record of `expr`,
/// and for what is caught the rethrow of a native fault, else the error
/// record.
pub open spec fn result_tuple_text(expr: Seq<char>, as_any: bool) -> Seq<char> {
    "try {\n    return "@ + ok_record_text(expr) + ";\n} catch (e) {\n    "@ + rethrow_text()
        + "\n    else return "@ + error_record_text(as_any) + ";\n}"@
}

/// The body of a command whose call expression is `expr`.
pub open spec fn body_text(expr: Seq<char>, result: Option<ResultShapeView>, as_any: bool)
    -> Seq<char> {
    match result {
        Some(ResultShapeView::Fallible(_, _)) => result_tuple_text(expr, as_any),
        Some(ResultShapeView::Value(_)) => "return "@ + expr + ";"@,
        None => expr + ";"@,
    }
}

/// The end of a signature: the closing parenthesis and, right after it, a
/// colon and a promise of `return_type`; where no return type is given, the
/// parenthesis and a space.
pub open spec fn signature_end_text(return_type: Option<Seq<char>>) -> Seq<char> {
    match return_type {
        Some(t) => ")"@ + ": Promise<"@ + t + ">"@,
        None => ") "@,
    }
}

/// An async function declaration: with a return type `T`,
/// `async name(args): Promise<T> {`, the body on its own lines, and `}`.
pub open spec fn function_text(
    docs: Seq<char>,
    name: Seq<char>,
    args: Seq<Seq<char>>,
    return_type: Option<Seq<char>>,
    body: Seq<char>,
) -> Seq<char> {
    docs + "async "@ + name + "("@ + join(args, ", "@) + signature_end_text(return_type)
        + " {\n"@ + body + "\n}"@
}

/// The annotation of a fallible result from the texts of its two types.
pub open spec fn result_annotation_text(ok: Seq<char>, err: Seq<char>) -> Seq<char> {
    "Result<"@ + ok + ", "@ + err + ">"@
}

/// The return type of a command: `void`, the text of the value type, or the
/// annotation over the texts of the success and the error type. The first
/// type that has no text gives the error.
pub open spec fn result_type_text(result: Option<ResultShapeView>) -> Result<
    Seq<char>,
    GenerationErrorView,
> {
    match result {
        None => Ok("void"@),
        Some(ResultShapeView::Value(t)) => type_text(t),
        Some(ResultShapeView::Fallible(t, e)) => match type_text(t) {
            Err(failure) => Err(failure),
            Ok(ok) => match type_text(e) {
                Err(failure) => Err(failure),
                Ok(err) => Ok(result_annotation_text(ok, err)),
            },
        },
    }
}

/// The call expression of a command under a configuration.
pub open spec fn command_invoke_text(cfg: ExportConfigView, command: CommandView) -> Seq<char> {
    invoke_text(
        wire_name(command.name, ItemType::Command, cfg.plugin_name),
        bundle_text(call_names(declared_names(command.args))),
    )
}

/// The body of a command under a configuration.
pub open spec fn command_body_text(cfg: ExportConfigView, command: CommandView, as_any: bool)
    -> Seq<char> {
    body_text(command_invoke_text(cfg, command), command.result, as_any)
}

/// The parameter for one declared argument: its binding name with its
/// type, or the reason the type has no text.
pub open spec fn parameter_text(arg: (Seq<char>, TypeRefView)) -> Result<
    Seq<char>,
    GenerationErrorView,
> {
    match type_text(arg.1) {
        Ok(typ) => Ok(typed_name_text(lower_camel_case(arg.0), typ)),
        Err(failure) => Err(failure),
    }
}

/// The attempts at the parameters, one for each declared argument, in
/// declaration order.
pub open spec fn parameter_attempts(args: Seq<(Seq<char>, TypeRefView)>) -> Seq<
    Result<Seq<char>, GenerationErrorView>,
> {
    args.map_values(|arg: (Seq<char>, TypeRefView)| parameter_text(arg))
}

/// The function that stands for a command: its doc comment, its binding
/// name, its parameters, a promise of its return type, and its body. Where
/// a type has no text there is no function: the return type is taken
/// first, then the argument types in declaration order, and the first
/// failure is the error.
pub open spec fn command_function_text(
    cfg: ExportConfigView,
    command: CommandView,
    as_any: bool,
) -> Result<Seq<char>, GenerationErrorView> {
    match result_type_text(command.result) {
        Err(failure) => Err(failure),
        Ok(return_type) => match collected(parameter_attempts(command.args)) {
            Err(failure) => Err(failure),
            Ok(parameters) => Ok(
                function_text(
                    command.docs,
                    lower_camel_case(command.name),
                    parameters,
                    Some(return_type),
                    command_body_text(cfg, command, as_any),
                ),
            ),
        },
    }
}

/// The views of a sequence of commands, in order.
pub open spec fn command_views(commands: Seq<Command>) -> Seq<CommandView> {
    commands.map_values(|command: Command| command@)
}

/// The attempts at the functions, one for each command, in order.
pub open spec fn function_attempts(
    cfg: ExportConfigView,
    commands: Seq<CommandView>,
    as_any: bool,
) -> Seq<Result<Seq<char>, GenerationErrorView>> {
    commands.map_values(|command: CommandView| command_function_text(cfg, command, as_any))
}

/// The functions that stand for commands, or the error of the first command
/// that has no function.
pub open spec fn command_functions_text(
    cfg: ExportConfigView,
    commands: Seq<CommandView>,
    as_any: bool,
) -> Result<Seq<Seq<char>>, GenerationErrorView> {
    collected(function_attempts(cfg, commands, as_any))
}

/// The binding names of `args`, in declaration order.
pub fn arg_names(args: &[(String, TypeRef)]) -> (names: Vec<String>)
    ensures
        texts(names@) == call_names(declared_names(arg_views(args@))),
{
    let mut names: Vec<String> = Vec::new();
    let mut i: usize = 0;
    while i < args.len()
        invariant
            i <= args.len(),
            names.len() == i,
            forall|j: int| 0 <= j < i ==> (#[trigger] names[j])@ == lower_camel_case(args[j].0@),
        decreases args.len() - i,
    {
        names.push(to_call_name(args[i].0.as_str()));
        i += 1;
    }
    assert(texts(names@) =~= call_names(declared_names(arg_views(args@))));
    names
}

/// The argument bundle for binding names `args`: `{ a, b, c }`, or none
/// where there are no arguments.
pub fn arg_usages(args: &[String]) -> (usage: Option<String>)
    ensures
        option_text(usage) == bundle_text(texts(args@)),
{
    if args.len() == 0 {
        None
    } else {
        let mut usage = String::from_str("{ ");
        usage.append(join_strings(args, ", ").as_str());
        usage.append(" }");
        Some(usage)
    }
}

/// The guarded block around the call expression `expr`.
fn return_as_result_tuple(expr: &str, as_any: bool) -> (body: String)
    ensures
        body@ == result_tuple_text(expr@, as_any),
{
    let mut ok_record = String::from_str("{ status: \"ok\", data: ");
    ok_record.append(expr);
    ok_record.append(" }");
    let any_cast = if as_any {
        String::from_str(" as any")
    } else {
        String::new()
    };
    let mut error_record = String::from_str("{ status: \"error\", error: e ");
    error_record.append(any_cast.as_str());
    error_record.append(" }");
    let mut body = String::from_str("try {\n    return ");
    body.append(ok_record.as_str());
    body.append(";\n} catch (e) {\n    ");
    body.append("if(e instanceof Error) throw e;");
    body.append("\n    else return ");
    body.append(error_record.as_str());
    body.append(";\n}");
    body
}

/// The body of a command whose call expression is `expr`: the guarded block
/// for a fallible result, one `return` for a value, the bare statement where
/// nothing is returned.
pub fn maybe_return_as_result_tuple(expr: &str, typ: Option<&ResultShape>, as_any: bool) -> (body:
    String)
    ensures
        body@ == body_text(
            expr@,
            match typ {
                Some(shape) => Some(shape@),
                None => None,
            },
            as_any,
        ),
{
    match typ {
        Some(ResultShape::Fallible(_, _)) => return_as_result_tuple(expr, as_any),
        Some(ResultShape::Value(_)) => {
            let mut body = String::from_str("return ");
            body.append(expr);
            body.append(";");
            body
        },
        None => {
            let mut body = String::from_str(expr);
            body.append(";");
            body
        },
    }
}

/// An async function declaration: `docs` verbatim, then the signature with
/// `args` joined by `, ` and, where a return type is given, a colon and a
/// promise of it right after the closing parenthesis, then `body` between
/// braces.
pub fn function(
    docs: &str,
    name: &str,
    args: &[String],
    return_type: Option<&str>,
    body: &str,
) -> (out: String)
    ensures
        out@ == function_text(
            docs@,
            name@,
            texts(args@),
            match return_type {
                Some(t) => Some(t@),
                None => None,
            },
            body@,
        ),
{
    let args = join_strings(args, ", ");
    let signature_end = match return_type {
        Some(t) => {
            let mut end = String::from_str(")");
            end.append(": Promise<");
            end.append(t);
            end.append(">");
            end
        },
        None => String::from_str(") "),
    };
    let mut out = String::from_str(docs);
    out.append("async ");
    out.append(name);
    out.append("(");
    out.append(args.as_str());
    out.append(signature_end.as_str());
    out.append(" {\n");
    out.append(body);
    out.append("\n}");
    out
}

/// The awaited call of the invocation primitive with the wire key `name`
/// and, where there is one, the argument bundle.
pub fn tauri_invoke(name: &str, arg_usages: Option<String>) -> (expr: String)
    ensures
        expr@ == invoke_text(name@, option_text(arg_usages)),
{
    let bundle = match arg_usages {
        Some(usage) => {
            let mut argument = String::from_str(", ");
            argument.append(usage.as_str());
            argument
        },
        None => String::new(),
    };
    let mut expr = String::from_str("await TAURI_INVOKE(\"");
    expr.append(name);
    expr.append("\"");
    expr.append(bundle.as_str());
    expr.append(")");
    expr
}

/// The annotation of a fallible result from the rendered success type and
/// the rendered error type.
pub fn result_annotation(ok: &str, err: &str) -> (out: String)
    ensures
        out@ == result_annotation_text(ok@, err@),
{
    let mut out = String::from_str("Result<");
    out.append(ok);
    out.append(", ");
    out.append(err);
    out.append(">");
    out
}

/// The return type of `function`: `void` where it returns nothing, the
/// text of the value type, or the annotation over the texts of the success
/// and the error type. Fails with the error of the first type that has no
/// text, the success type before the error type.
pub fn handle_result(function: &Command) -> (out: Result<String, GenerationError>)
    ensures
        text_outcome(out) == result_type_text(function@.result),
{
    match &function.result {
        Some(ResultShape::Fallible(t, e)) => {
            let ok = render_type(t)?;
            let err = render_type(e)?;
            Ok(result_annotation(ok.as_str(), err.as_str()))
        },
        Some(ResultShape::Value(t)) => render_type(t),
        None => Ok(String::from_str("void")),
    }
}

/// The body of the function that stands for `function`: the call of the
/// invocation primitive with the wire key and the argument bundle, wrapped
/// as the result shape asks.
pub fn command_body(cfg: &ExportConfig, function: &Command, as_any: bool) -> (body: String)
    ensures
        body@ == command_body_text(cfg@, function@, as_any),
{
    let name = to_wire_name(function.name.as_str(), ItemType::Command, cfg.plugin_name.as_ref());
    let names = arg_names(function.args.as_slice());
    let expr = tauri_invoke(name.as_str(), arg_usages(names.as_slice()));
    maybe_return_as_result_tuple(expr.as_str(), function.result.as_ref(), as_any)
}

/// The parameters of the function that stands for a command, one for each
/// declared argument.
fn parameters(args: &[(String, TypeRef)]) -> (out: Result<Vec<String>, GenerationError>)
    ensures
        texts_outcome(out) == collected(parameter_attempts(arg_views(args@))),
{
    let ghost attempts = parameter_attempts(arg_views(args@));
    let mut parameters: Vec<String> = Vec::new();
    let mut i: usize = 0;
    while i < args.len()
        invariant
            i <= args.len(),
            parameters.len() == i,
            attempts == parameter_attempts(arg_views(args@)),
            forall|j: int|
                0 <= j < i ==> (#[trigger] attempts[j]) == Ok::<Seq<char>, GenerationErrorView>(
                    parameters[j]@,
                ),
        decreases args.len() - i,
    {
        let key = to_call_name(args[i].0.as_str());
        match render_type(&args[i].1) {
            Ok(typ) => {
                parameters.push(typed_name(key.as_str(), typ.as_str()));
            },
            Err(failure) => {
                proof {
                    assert(attempts[i as int] == Err::<Seq<char>, GenerationErrorView>(failure@));
                    lemma_collected_fails(attempts, i as int);
                }
                return Err(failure);
            },
        }
        i += 1;
    }
    proof {
        lemma_collected_succeeds(attempts, texts(parameters@));
    }
    Ok(parameters)
}

/// The function that stands for `command`: an async function under the
/// binding name of the command, with one typed parameter for each argument,
/// a promise of the return type, and the body that invokes the command.
/// Fails, with no text at all, where a type has none.
pub fn command_function(command: &Command, cfg: &ExportConfig, as_any: bool) -> (out: Result<
    String,
    GenerationError,
>)
    ensures
        text_outcome(out) == command_function_text(cfg@, command@, as_any),
{
    let return_type = handle_result(command)?;
    let parameters = parameters(command.args.as_slice())?;
    let name = to_call_name(command.name.as_str());
    let body = command_body(cfg, command, as_any);
    Ok(
        function(
            command.docs.as_str(),
            name.as_str(),
            parameters.as_slice(),
            Some(return_type.as_str()),
            body.as_str(),
        ),
    )
}

/// The functions that stand for `commands`, one for each, in order. Fails
/// with the error of the first command that has no function.
pub fn command_functions(commands: &[Command], cfg: &ExportConfig, as_any: bool) -> (out: Result<
    Vec<String>,
    GenerationError,
>)
    ensures
        texts_outcome(out) == command_functions_text(cfg@, command_views(commands@), as_any),
{
    let ghost attempts = function_attempts(cfg@, command_views(commands@), as_any);
    let mut functions: Vec<String> = Vec::new();
    let mut i: usize = 0;
    while i < commands.len()
        invariant
            i <= commands.len(),
            functions.len() == i,
            attempts == function_attempts(cfg@, command_views(commands@), as_any),
            forall|j: int|
                0 <= j < i ==> (#[trigger] attempts[j]) == Ok::<Seq<char>, GenerationErrorView>(
                    functions[j]@,
                ),
        decreases commands.len() - i,
    {
        match command_function(&commands[i], cfg, as_any) {
            Ok(function) => {
                functions.push(function);
            },
            Err(failure) => {
                proof {
                    assert(attempts[i as int] == Err::<Seq<char>, GenerationErrorView>(failure@));
                    lemma_collected_fails(attempts, i as int);
                }
                return Err(failure);
            },
        }
        i += 1;
    }
    proof {
        lemma_collected_succeeds(attempts, texts(functions@));
    }
    Ok(functions)
}

} // verus!
