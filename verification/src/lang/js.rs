use vstd::prelude::*;

use specta::TypeCollection;
use specta_typescript::Typescript;

use crate::context::{Command, EventsData, ExportContext, RenderError};
use crate::jsdoc::{
    block_start, builder_build, builder_extend, builder_new, builder_push, built, doc_line, doc_lines,
};
use crate::lang::common::{
    all_accepted, all_commands, arg_names, call_args, camel_arg_names, camel_name, command_call, docs_head, export_datatype,
    exported, exporter_accepts, key_prefix, render_command_call, render_key_prefix, render_section, section, start_docs,
};
use crate::lang::definitions::{defined_until_error, definitions, named_types, render_definitions};
use crate::lang::ts::text_view;
use crate::text::{join, join_strings, to_lower_camel_case, views};

verus! {

/// The names that the TanStack import brings in: the query options when
/// there are queries, the mutation options when there are mutations.
pub open spec fn tanstack_imports(has_queries: bool, has_mutations: bool) -> Seq<Seq<char>> {
    (if has_queries {
        seq!["queryOptions as TANSTACK_QUERY_OPTIONS"@]
    } else {
        Seq::empty()
    }) + (if has_mutations {
        seq!["mutationOptions as TANSTACK_MUTATION_OPTIONS"@]
    } else {
        Seq::empty()
    })
}

/// The import line of the TanStack option builders: empty unless a
/// framework is configured and there is a query or a mutation.
pub open spec fn tanstack_import(cfg: ExportContext) -> Seq<char> {
    let has_queries = cfg.queries@.len() > 0;
    let has_mutations = cfg.mutations@.len() > 0;
    match cfg.tanstack {
        Some(package) => if has_queries || has_mutations {
            "import { "@ + join(tanstack_imports(has_queries, has_mutations), ", "@) + " } from \""@
                + package@ + "\";\n"@
        } else {
            Seq::empty()
        },
        None => Seq::empty(),
    }
}

/// Renders the import of TanStack's `queryOptions` and `mutationOptions`
/// that the generated queries and mutations use.
pub fn render_tanstack_import(cfg: &ExportContext) -> (res: String)
    ensures
        res@ == tanstack_import(*cfg),
{
    if let Some(framework) = &cfg.tanstack {
        let has_queries = cfg.queries.len() > 0;
        let has_mutations = cfg.mutations.len() > 0;
        if has_queries || has_mutations {
            let mut imports: Vec<String> = Vec::new();
            if has_queries {
                imports.push(String::from_str("queryOptions as TANSTACK_QUERY_OPTIONS"));
            }
            if has_mutations {
                imports.push(String::from_str("mutationOptions as TANSTACK_MUTATION_OPTIONS"));
            }
            assert(views(imports@) =~= tanstack_imports(has_queries, has_mutations));
            let joined = join_strings(&imports, ", ");
            let mut s = String::from_str("import { ");
            s.append(joined.as_str());
            s.append(" } from \"");
            s.append(framework.as_str());
            s.append("\";\n");
            return s;
        }
    }
    String::new()
}

/// The member of `queryKeys` for one query: a function of the query's
/// arguments that returns its key.
pub open spec fn query_key_entry(plugin: Option<String>, c: Command) -> Seq<char> {
    let name = camel_name(c);
    let prefix = key_prefix(plugin, name);
    if c.args@.len() == 0 {
        name + ": () => ["@ + prefix + "]"@
    } else {
        name + ": ("@ + call_args(c) + ") => filterKey(["@ + prefix + "], { "@ + call_args(c)
            + " })"@
    }
}

/// The `queryKeys` object, empty when there are no queries.
pub open spec fn query_keys(cfg: ExportContext) -> Seq<char> {
    if cfg.queries@.len() == 0 {
        Seq::empty()
    } else {
        section(
            "queryKeys"@,
            Seq::new(cfg.queries@.len(), |i: int| query_key_entry(cfg.plugin_name, cfg.queries@[i])),
        )
    }
}

/// The member of `queries` for one query: the TanStack query options built
/// from its key and the command call.
pub open spec fn query_entry(c: Command) -> Seq<char> {
    let name = camel_name(c);
    name + ": ("@ + call_args(c) + ") => TANSTACK_QUERY_OPTIONS({ queryKey: queryKeys."@ + name
        + "("@ + call_args(c) + "), queryFn: () => "@ + command_call(name, call_args(c), c.uses_typed_error)
        + " })"@
}

/// The `queries` object, empty when there are no queries.
pub open spec fn queries(cfg: ExportContext) -> Seq<char> {
    if cfg.queries@.len() == 0 {
        Seq::empty()
    } else {
        section("queries"@, Seq::new(cfg.queries@.len(), |i: int| query_entry(cfg.queries@[i])))
    }
}

/// The member of `mutationKeys` for one mutation.
pub open spec fn mutation_key_entry(plugin: Option<String>, c: Command) -> Seq<char> {
    let name = camel_name(c);
    name + ": () => ["@ + key_prefix(plugin, name) + "]"@
}

/// The `mutationKeys` object, empty when there are no mutations.
pub open spec fn mutation_keys(cfg: ExportContext) -> Seq<char> {
    if cfg.mutations@.len() == 0 {
        Seq::empty()
    } else {
        section(
            "mutationKeys"@,
            Seq::new(
                cfg.mutations@.len(),
                |i: int| mutation_key_entry(cfg.plugin_name, cfg.mutations@[i]),
            ),
        )
    }
}

/// The parameter of a mutation function: the destructured arguments, or
/// nothing for a command without arguments.
pub open spec fn mutation_param(c: Command) -> Seq<char> {
    if c.args@.len() == 0 {
        Seq::empty()
    } else {
        "{ "@ + call_args(c) + " }"@
    }
}

/// The member of `mutations` for one mutation.
pub open spec fn mutation_entry(c: Command) -> Seq<char> {
    let name = camel_name(c);
    name + ": () => TANSTACK_MUTATION_OPTIONS({ mutationKey: mutationKeys."@ + name
        + "(), mutationFn: ("@ + mutation_param(c) + ") => "@
        + command_call(name, call_args(c), c.uses_typed_error) + " })"@
}

/// The `mutations` object, empty when there are no mutations.
pub open spec fn mutations(cfg: ExportContext) -> Seq<char> {
    if cfg.mutations@.len() == 0 {
        Seq::empty()
    } else {
        section("mutations"@, Seq::new(cfg.mutations@.len(), |i: int| mutation_entry(cfg.mutations@[i])))
    }
}

fn render_query_key_entry(plugin: &Option<String>, c: &Command) -> (res: String)
    ensures
        res@ == query_key_entry(*plugin, *c),
{
    let name = to_lower_camel_case(c.name.as_str());
    let prefix = render_key_prefix(plugin, name.as_str());
    let args = arg_names(c);
    let mut s = name.clone();
    if args.len() == 0 {
        s.append(": () => [");
        s.append(prefix.as_str());
        s.append("]");
    } else {
        let optional_args = join_strings(&args, ", ");
        s.append(": (");
        s.append(optional_args.as_str());
        s.append(") => filterKey([");
        s.append(prefix.as_str());
        s.append("], { ");
        s.append(optional_args.as_str());
        s.append(" })");
    }
    s
}

/// Renders the `queryKeys` object: for each query, its key as a function
/// of its arguments.
pub fn render_query_keys(cfg: &ExportContext) -> (res: Result<String, RenderError>)
    ensures
        res matches Ok(s) && s@ == query_keys(*cfg),
{
    if cfg.queries.len() == 0 {
        return Ok(String::new());
    }
    let n = cfg.queries.len();
    let mut entries: Vec<String> = Vec::new();
    let mut i: usize = 0;
    while i < n
        invariant
            n == cfg.queries@.len(),
            0 <= i <= n,
            entries@.len() == i,
            forall|k: int| 0 <= k < i ==> #[trigger] entries@[k]@
                == query_key_entry(cfg.plugin_name, cfg.queries@[k]),
        decreases n - i,
    {
        entries.push(render_query_key_entry(&cfg.plugin_name, &cfg.queries[i]));
        i = i + 1;
    }
    assert(views(entries@) =~= Seq::new(
        n as nat,
        |k: int| query_key_entry(cfg.plugin_name, cfg.queries@[k]),
    ));
    Ok(render_section("queryKeys", &entries))
}

fn render_query_entry(c: &Command) -> (res: String)
    ensures
        res@ == query_entry(*c),
{
    let name = to_lower_camel_case(c.name.as_str());
    let args = arg_names(c);
    let call_args = join_strings(&args, ", ");
    let body = render_command_call(name.as_str(), call_args.as_str(), c.uses_typed_error);
    let mut s = name.clone();
    s.append(": (");
    s.append(call_args.as_str());
    s.append(") => TANSTACK_QUERY_OPTIONS({ queryKey: queryKeys.");
    s.append(name.as_str());
    s.append("(");
    s.append(call_args.as_str());
    s.append("), queryFn: () => ");
    s.append(body.as_str());
    s.append(" })");
    s
}

/// Renders the `queries` object: for each query, the TanStack query
/// options that pair its key with the call of its command.
pub fn render_queries(cfg: &ExportContext) -> (res: Result<String, RenderError>)
    ensures
        res matches Ok(s) && s@ == queries(*cfg),
{
    if cfg.queries.len() == 0 {
        return Ok(String::new());
    }
    let n = cfg.queries.len();
    let mut entries: Vec<String> = Vec::new();
    let mut i: usize = 0;
    while i < n
        invariant
            n == cfg.queries@.len(),
            0 <= i <= n,
            entries@.len() == i,
            forall|k: int| 0 <= k < i ==> #[trigger] entries@[k]@ == query_entry(cfg.queries@[k]),
        decreases n - i,
    {
        entries.push(render_query_entry(&cfg.queries[i]));
        i = i + 1;
    }
    assert(views(entries@) =~= Seq::new(n as nat, |k: int| query_entry(cfg.queries@[k])));
    Ok(render_section("queries", &entries))
}

fn render_mutation_key_entry(plugin: &Option<String>, c: &Command) -> (res: String)
    ensures
        res@ == mutation_key_entry(*plugin, *c),
{
    let name = to_lower_camel_case(c.name.as_str());
    let prefix = render_key_prefix(plugin, name.as_str());
    let mut s = name.clone();
    s.append(": () => [");
    s.append(prefix.as_str());
    s.append("]");
    s
}

/// Renders the `mutationKeys` object: for each mutation, its key.
pub fn render_mutation_keys(cfg: &ExportContext) -> (res: Result<String, RenderError>)
    ensures
        res matches Ok(s) && s@ == mutation_keys(*cfg),
{
    if cfg.mutations.len() == 0 {
        return Ok(String::new());
    }
    let n = cfg.mutations.len();
    let mut entries: Vec<String> = Vec::new();
    let mut i: usize = 0;
    while i < n
        invariant
            n == cfg.mutations@.len(),
            0 <= i <= n,
            entries@.len() == i,
            forall|k: int| 0 <= k < i ==> #[trigger] entries@[k]@
                == mutation_key_entry(cfg.plugin_name, cfg.mutations@[k]),
        decreases n - i,
    {
        entries.push(render_mutation_key_entry(&cfg.plugin_name, &cfg.mutations[i]));
        i = i + 1;
    }
    assert(views(entries@) =~= Seq::new(
        n as nat,
        |k: int| mutation_key_entry(cfg.plugin_name, cfg.mutations@[k]),
    ));
    Ok(render_section("mutationKeys", &entries))
}

fn render_mutation_entry(c: &Command) -> (res: String)
    ensures
        res@ == mutation_entry(*c),
{
    let name = to_lower_camel_case(c.name.as_str());
    let args = arg_names(c);
    let call_args = join_strings(&args, ", ");
    let param = if c.args.len() == 0 {
        String::new()
    } else {
        let mut p = String::from_str("{ ");
        p.append(call_args.as_str());
        p.append(" }");
        p
    };
    let body = render_command_call(name.as_str(), call_args.as_str(), c.uses_typed_error);
    let mut s = name.clone();
    s.append(": () => TANSTACK_MUTATION_OPTIONS({ mutationKey: mutationKeys.");
    s.append(name.as_str());
    s.append("(), mutationFn: (");
    s.append(param.as_str());
    s.append(") => ");
    s.append(body.as_str());
    s.append(" })");
    s
}

/// Renders the `mutations` object: for each mutation, the TanStack mutation
/// options that pair its key with the call of its command.
pub fn render_mutations(cfg: &ExportContext) -> (res: Result<String, RenderError>)
    ensures
        res matches Ok(s) && s@ == mutations(*cfg),
{
    if cfg.mutations.len() == 0 {
        return Ok(String::new());
    }
    let n = cfg.mutations.len();
    let mut entries: Vec<String> = Vec::new();
    let mut i: usize = 0;
    while i < n
        invariant
            n == cfg.mutations@.len(),
            0 <= i <= n,
            entries@.len() == i,
            forall|k: int| 0 <= k < i ==> #[trigger] entries@[k]@ == mutation_entry(cfg.mutations@[k]),
        decreases n - i,
    {
        entries.push(render_mutation_entry(&cfg.mutations[i]));
        i = i + 1;
    }
    assert(views(entries@) =~= Seq::new(n as nat, |k: int| mutation_entry(cfg.mutations@[k])));
    Ok(render_section("mutations", &entries))
}

/// The JSDoc comment that types the events object.
pub open spec fn events_doc(types: Seq<Seq<char>>) -> Seq<char> {
    built(
        block_start() + doc_line("@type {typeof __makeEvents__<{"@) + doc_lines(types) + doc_line(
            "}>}"@,
        ),
    )
}

/// The `events` object with its JSDoc type, empty when the export has no
/// events.
pub open spec fn events_object(data: Option<EventsData>) -> Seq<char> {
    match data {
        None => Seq::empty(),
        Some(d) => "\n    "@ + events_doc(views(d.types@))
            + "\n    const __typedMakeEvents__ = __makeEvents__;\n\n    export const events = __typedMakeEvents__({\n    "@
            + d.map@ + "\n    })"@,
    }
}

/// Renders the `events` object, typed by a JSDoc comment that lists the
/// members in `events.types`; `None` stands for an export without events.
pub fn render_events(events: &Option<EventsData>) -> (res: String)
    ensures
        res@ == events_object(*events),
{
    match events {
        None => String::new(),
        Some(d) => {
            let mut builder = builder_new();
            builder_push(&mut builder, "@type {typeof __makeEvents__<{");
            builder_extend(&mut builder, &d.types);
            builder_push(&mut builder, "}>}");
            let doc = builder_build(builder);
            let mut s = String::from_str("\n    ");
            s.append(doc.as_str());
            s.append("\n    const __typedMakeEvents__ = __makeEvents__;\n\n    export const events = __typedMakeEvents__({\n    ");
            s.append(d.map.as_str());
            s.append("\n    })");
            s
        },
    }
}

/// The text held by each optional string.
pub open spec fn option_views(v: Seq<Option<String>>) -> Seq<Option<Seq<char>>> {
    v.map_values(|o: Option<String>| match o {
        Some(s) => Some(s@),
        None => None,
    })
}

/// The `@param` lines of a command's JSDoc comment: one per argument whose
/// type was rendered, in order; an argument whose type could not be
/// rendered gets none.
pub open spec fn param_lines(names: Seq<Seq<char>>, tys: Seq<Option<Seq<char>>>) -> Seq<Seq<char>>
    decreases tys.len(),
{
    if tys.len() == 0 {
        Seq::empty()
    } else {
        let before = param_lines(names, tys.drop_last());
        match tys.last() {
            Some(t) => before.push("@param { "@ + t + " } "@ + names[tys.len() - 1]),
            None => before,
        }
    }
}

/// The JSDoc comment of a command in the JavaScript client: deprecation,
/// documentation, the type of each argument and the promised return type.
pub open spec fn command_docs(c: Command, tys: Seq<Option<Seq<char>>>) -> Seq<char> {
    built(
        docs_head(c) + doc_lines(param_lines(camel_arg_names(c), tys)) + doc_line(
            "@returns { Promise<"@ + c.return_type@ + "> }"@,
        ),
    )
}

/// Renders the JSDoc comment of a command from the already rendered types
/// of its arguments (`None` where a type could not be rendered).
pub fn render_command_docs_typed(c: &Command, types: &Vec<Option<String>>) -> (res: String)
    requires
        types@.len() == c.args@.len(),
    ensures
        res@ == command_docs(*c, option_views(types@)),
{
    let mut builder = start_docs(c);
    let names = arg_names(c);
    let ghost tv = option_views(types@);
    assert(views(names@).len() == names@.len());
    let n = types.len();
    let mut params: Vec<String> = Vec::new();
    let mut j: usize = 0;
    while j < n
        invariant
            n == types@.len(),
            n == names@.len(),
            tv == option_views(types@),
            0 <= j <= n,
            views(params@) == param_lines(views(names@), tv.take(j as int)),
        decreases n - j,
    {
        proof {
            assert(tv.take(j + 1).drop_last() =~= tv.take(j as int));
        }
        match &types[j] {
            Some(t) => {
                let mut line = String::from_str("@param { ");
                line.append(t.as_str());
                line.append(" } ");
                line.append(names[j].as_str());
                let ghost before = views(params@);
                params.push(line);
                proof {
                    assert(views(params@) =~= before.push(line@));
                }
            },
            None => {},
        }
        j = j + 1;
    }
    proof {
        assert(tv.take(n as int) =~= tv);
    }
    builder_extend(&mut builder, &params);
    let mut promise = String::from_str("@returns { Promise<");
    promise.append(c.return_type.as_str());
    promise.append("> }");
    builder_push(&mut builder, promise.as_str());
    builder_build(builder)
}

/// Every argument of `c` has a type that the exporter accepts.
pub open spec fn args_accepted(ts: Typescript, c: Command, types: TypeCollection) -> bool {
    forall|j: int| 0 <= j < c.args@.len() ==> exporter_accepts(ts, #[trigger] c.args@[j].ty, types)
}

/// The rendered type of each argument of `c`, `None` where the exporter
/// returns an error.
pub open spec fn param_outcomes(ts: Typescript, c: Command, types: TypeCollection) -> Seq<Option<Seq<char>>> {
    Seq::new(
        c.args@.len(),
        |j: int| match exported(ts, c.args@[j].ty, types) {
            Ok(t) => Some(t),
            Err(_) => None,
        },
    )
}

/// Renders the TypeScript type of each argument of a command, `None` where
/// the exporter returns an error.
pub fn command_param_types(ts: &Typescript, c: &Command, types: &TypeCollection) -> (res: Vec<Option<String>>)
    requires
        args_accepted(*ts, *c, *types),
    ensures
        option_views(res@) == param_outcomes(*ts, *c, *types),
{
    let n = c.args.len();
    let mut out: Vec<Option<String>> = Vec::new();
    let mut j: usize = 0;
    while j < n
        invariant
            n == c.args@.len(),
            args_accepted(*ts, *c, *types),
            0 <= j <= n,
            out@.len() == j,
            forall|k: int| 0 <= k < j ==> #[trigger] option_views(out@)[k] == param_outcomes(*ts, *c, *types)[k],
        decreases n - j,
    {
        assert(exporter_accepts(*ts, c.args@[j as int].ty, *types));
        let ghost before = option_views(out@);
        match export_datatype(ts, &c.args[j].ty, types) {
            Ok(t) => out.push(Some(t)),
            Err(_) => out.push(None),
        }
        proof {
            assert forall|k: int| 0 <= k < j + 1 implies #[trigger] option_views(out@)[k] == param_outcomes(*ts, *c, *types)[k] by {
                if k < j {
                    assert(option_views(out@)[k] == before[k]);
                }
            }
        }
        j = j + 1;
    }
    assert(option_views(out@) =~= param_outcomes(*ts, *c, *types));
    out
}

/// Renders the JSDoc comment that precedes a command in the `commands`
/// object of the JavaScript client; an argument whose type the exporter
/// cannot render is left out of the `@param` lines.
pub fn render_command_docs(ts: &Typescript, c: &Command, types: &TypeCollection) -> (res: String)
    requires
        args_accepted(*ts, *c, *types),
    ensures
        res@ == command_docs(*c, param_outcomes(*ts, *c, *types)),
{
    let param_types = command_param_types(ts, c, types);
    assert(param_types@.len() == option_views(param_types@).len());
    render_command_docs_typed(c, &param_types)
}

/// The `commands` object of the JavaScript client, whose members are the
/// rendered functions `entries`.
pub open spec fn commands_object(entries: Seq<Seq<char>>) -> Seq<char> {
    "export const commands = {\n        "@ + join(entries, ",\n"@) + "\n    }"@
}

/// Renders the `commands` object from the rendered function of each
/// command, in the order of `all_commands`.
pub fn render_commands_object(entries: &Vec<String>) -> (res: String)
    ensures
        res@ == commands_object(views(entries@)),
{
    let body = join_strings(entries, ",\n");
    let mut s = String::from_str("export const commands = {\n        ");
    s.append(body.as_str());
    s.append("\n    }");
    s
}

/// The JSDoc comments of `cmds`, in order.
pub open spec fn docs_of(ts: Typescript, cmds: Seq<Command>, types: TypeCollection) -> Seq<Seq<char>> {
    Seq::new(cmds.len(), |i: int| command_docs(cmds[i], param_outcomes(ts, cmds[i], types)))
}

fn push_command_docs(ts: &Typescript, cmds: &Vec<Command>, types: &TypeCollection, out: &mut Vec<String>)
    requires
        all_accepted(*ts, cmds@, *types),
    ensures
        views(final(out)@) == views(old(out)@) + docs_of(*ts, cmds@, *types),
{
    let ghost start = views(out@);
    let n = cmds.len();
    let mut i: usize = 0;
    while i < n
        invariant
            n == cmds@.len(),
            all_accepted(*ts, cmds@, *types),
            0 <= i <= n,
            views(out@) == start + docs_of(*ts, cmds@, *types).take(i as int),
        decreases n - i,
    {
        assert(args_accepted(*ts, cmds@[i as int], *types));
        let d = render_command_docs(ts, &cmds[i], types);
        let ghost before = views(out@);
        out.push(d);
        assert(views(out@) =~= before.push(d@));
        assert(docs_of(*ts, cmds@, *types).take(i + 1) =~= docs_of(*ts, cmds@, *types).take(i as int).push(d@));
        i = i + 1;
    }
    assert(docs_of(*ts, cmds@, *types).take(n as int) =~= docs_of(*ts, cmds@, *types));
}

/// Renders the JSDoc comment of every command, in the order of the
/// `commands` object: plain commands, then queries, then mutations.
pub fn render_all_command_docs(ts: &Typescript, cfg: &ExportContext) -> (res: Vec<String>)
    requires
        all_accepted(*ts, cfg.commands@, cfg.type_map),
        all_accepted(*ts, cfg.queries@, cfg.type_map),
        all_accepted(*ts, cfg.mutations@, cfg.type_map),
    ensures
        views(res@) == docs_of(*ts, all_commands(*cfg), cfg.type_map),
{
    let mut out: Vec<String> = Vec::new();
    push_command_docs(ts, &cfg.commands, &cfg.type_map, &mut out);
    push_command_docs(ts, &cfg.queries, &cfg.type_map, &mut out);
    push_command_docs(ts, &cfg.mutations, &cfg.type_map, &mut out);
    assert(views(out@) =~= docs_of(*ts, all_commands(*cfg), cfg.type_map));
    out
}

/// Renders the JSDoc `@typedef` of every named type of `types`, one per
/// line, in the order of the collection; fails with the exporter's first
/// error.
pub fn render_type_definitions(ts: &Typescript, types: &TypeCollection) -> (res: Result<String, RenderError>)
    requires
        defined_until_error(*ts, named_types(*types), *types, true),
    ensures
        text_view(res) == definitions(*ts, *types, true),
{
    render_definitions(ts, types, true)
}

} // verus!
