use vstd::prelude::*;

use specta::datatype::{DataType, FunctionResultVariant};
use specta::TypeCollection;
use specta_typescript::js_doc::Builder;
use specta_typescript::{ExportError, Typescript};

use crate::context::{Command, ExportContext};
use crate::jsdoc::{
    block_start, builder_extend, builder_new, builder_push_deprecated, builder_text, deprecated_line,
    doc_lines,
};
use crate::text::{join, lower_camel_case, split_at_newlines, split_lines, to_lower_camel_case, views};

verus! {

/// The name under which a command appears in the client.
pub open spec fn camel_name(c: Command) -> Seq<char> {
    lower_camel_case(c.name@)
}

/// The names under which a command's arguments appear in the client.
pub open spec fn camel_arg_names(c: Command) -> Seq<Seq<char>> {
    Seq::new(c.args@.len(), |j: int| lower_camel_case(c.args@[j].name@))
}

/// The argument names of a command, separated by `", "`.
pub open spec fn call_args(c: Command) -> Seq<char> {
    join(camel_arg_names(c), ", "@)
}

/// The leading elements of a query or mutation key.
pub open spec fn key_prefix(plugin: Option<String>, name: Seq<char>) -> Seq<char> {
    match plugin {
        Some(p) => "\"plugin:"@ + p@ + "\", \""@ + name + "\""@,
        None => "\""@ + name + "\""@,
    }
}

/// The expression that invokes a command from a query or mutation.
pub open spec fn command_call(name: Seq<char>, args: Seq<char>, typed: bool) -> Seq<char> {
    if typed {
        "unwrapTypedError(commands."@ + name + "("@ + args + "))"@
    } else {
        "commands."@ + name + "("@ + args + ")"@
    }
}

/// An exported constant object whose members are `entries`.
pub open spec fn section(title: Seq<char>, entries: Seq<Seq<char>>) -> Seq<char> {
    "\nexport const "@ + title + " = {\n    "@ + join(entries, ",\n"@) + "\n}"@
}

/// The camel-case names of a command's arguments, in order.
pub fn arg_names(c: &Command) -> (res: Vec<String>)
    ensures
        views(res@) == camel_arg_names(*c),
{
    let mut res: Vec<String> = Vec::new();
    let n = c.args.len();
    let mut j: usize = 0;
    while j < n
        invariant
            n == c.args@.len(),
            0 <= j <= n,
            res@.len() == j,
            forall|k: int| 0 <= k < j ==> #[trigger] res@[k]@ == lower_camel_case(c.args@[k].name@),
        decreases n - j,
    {
        let name = to_lower_camel_case(c.args[j].name.as_str());
        res.push(name);
        j = j + 1;
    }
    assert(views(res@) =~= camel_arg_names(*c));
    res
}

/// The leading elements of a query or mutation key for the command `name`.
pub fn render_key_prefix(plugin: &Option<String>, name: &str) -> (res: String)
    ensures
        res@ == key_prefix(*plugin, name@),
{
    match plugin {
        Some(p) => {
            let mut s = String::from_str("\"plugin:");
            s.append(p.as_str());
            s.append("\", \"");
            s.append(name);
            s.append("\"");
            s
        },
        None => {
            let mut s = String::from_str("\"");
            s.append(name);
            s.append("\"");
            s
        },
    }
}

/// The expression that invokes the command `name` with `args`.
pub fn render_command_call(name: &str, args: &str, typed: bool) -> (res: String)
    ensures
        res@ == command_call(name@, args@, typed),
{
    let mut s = if typed {
        String::from_str("unwrapTypedError(commands.")
    } else {
        String::from_str("commands.")
    };
    s.append(name);
    s.append("(");
    s.append(args);
    if typed {
        s.append("))");
    } else {
        s.append(")");
    }
    s
}

/// The exported constant `title` whose members are `entries`.
pub fn render_section(title: &str, entries: &Vec<String>) -> (res: String)
    ensures
        res@ == section(title@, views(entries@)),
{
    let body = crate::text::join_strings(entries, ",\n");
    let mut s = String::from_str("\nexport const ");
    s.append(title);
    s.append(" = {\n    ");
    s.append(body.as_str());
    s.append("\n}");
    s
}

/// What `specta_typescript::datatype` does on the value variant of `ty`
/// with `ts` and `types`: `None` where it panics, else the result it
/// returns. It depends on these three arguments alone.
pub uninterp spec fn export_outcome(ts: Typescript, ty: DataType, types: TypeCollection) -> Option<
    Result<Seq<char>, ExportError>,
>;

/// The exporter renders `ty` without panicking, into a type or an error.
pub open spec fn exporter_accepts(ts: Typescript, ty: DataType, types: TypeCollection) -> bool {
    export_outcome(ts, ty, types) is Some
}

/// What the exporter returns for `ty`, where it accepts it.
pub open spec fn exported(ts: Typescript, ty: DataType, types: TypeCollection) -> Result<Seq<char>, ExportError> {
    export_outcome(ts, ty, types)->0
}

/// The text of a successful rendering, the error of a failed one.
pub open spec fn outcome_view(r: Result<String, ExportError>) -> Result<Seq<char>, ExportError> {
    match r {
        Ok(s) => Ok(s@),
        Err(e) => Err(e),
    }
}

/// Every argument of every command in `cmds` has a type that the exporter
/// accepts.
pub open spec fn all_accepted(ts: Typescript, cmds: Seq<Command>, types: TypeCollection) -> bool {
    forall|i: int, j: int|
        0 <= i < cmds.len() && 0 <= j < cmds[i].args@.len() ==> exporter_accepts(
            ts,
            #[trigger] cmds[i].args@[j].ty,
            types,
        )
}

/// Calls `specta_typescript::datatype` on `FunctionResultVariant::Value`
/// of a clone of `ty`, with `ts` and `types`. The function panics on some
/// types (an untagged enum variant whose fields are all skipped, a
/// reference missing from `types` under an internally tagged enum);
/// `requires` leaves out every type on which it does not return, and the
/// result is the one the name `export_outcome` gives for the arguments.
#[verifier::external_body]
pub(crate) fn export_datatype(ts: &Typescript, ty: &DataType, types: &TypeCollection) -> (res: Result<String, ExportError>)
    requires
        exporter_accepts(*ts, *ty, *types),
    ensures
        export_outcome(*ts, *ty, *types) == Some(outcome_view(res)),
{
    specta_typescript::datatype(ts, &FunctionResultVariant::Value(ty.clone()), types)
}

/// Every command of the export, in the order of the `commands` object:
/// the plain commands, then the queries, then the mutations.
pub open spec fn all_commands(cfg: ExportContext) -> Seq<Command> {
    cfg.commands@ + cfg.queries@ + cfg.mutations@
}

/// The start of a command's JSDoc comment: its deprecation, then each line
/// of its documentation.
pub open spec fn docs_head(c: Command) -> Seq<char> {
    block_start() + match c.deprecated {
        Some(d) => deprecated_line(d),
        None => Seq::empty(),
    } + if c.docs@.len() == 0 {
        Seq::empty()
    } else {
        doc_lines(split_lines(c.docs@))
    }
}

/// Starts the JSDoc comment of a command with its deprecation and its
/// documentation.
pub fn start_docs(c: &Command) -> (res: Builder)
    ensures
        builder_text(res) == docs_head(*c),
{
    let mut builder = builder_new();
    if let Some(d) = &c.deprecated {
        builder_push_deprecated(&mut builder, d);
    }
    if !c.docs.as_str().is_empty() {
        let lines = split_at_newlines(c.docs.as_str());
        builder_extend(&mut builder, &lines);
    }
    builder
}

/// The header of a generated file: the user's header, followed on a new
/// line by the TanStack import where there is one.
pub open spec fn file_header(header: Seq<char>, cfg: ExportContext) -> Seq<char> {
    let import = crate::lang::js::tanstack_import(cfg);
    if import.len() == 0 {
        header
    } else {
        header + "\n"@ + import
    }
}

/// Renders the header of a generated file from the exporter's `header`.
pub fn render_header(header: &str, cfg: &ExportContext) -> (res: String)
    ensures
        res@ == file_header(header@, *cfg),
{
    let import = crate::lang::js::render_tanstack_import(cfg);
    if import.as_str().is_empty() {
        String::from_str(header)
    } else {
        let mut s = String::from_str(header);
        s.append("\n");
        s.append(import.as_str());
        s
    }
}

} // verus!
