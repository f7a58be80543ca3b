use vstd::prelude::*;

use specta::TypeCollection;
use specta_typescript::{ExportError, Typescript};

use crate::context::{Command, EventsData, FunctionArg, ExportContext, RenderError, TanstackParts};
use crate::jsdoc::{builder_build, built};
use crate::lang::definitions::{defined_until_error, definitions, named_types, render_definitions};
use crate::lang::common::{
    all_commands, arg_names, call_args, camel_name, command_call, docs_head, export_datatype,
    exported, exporter_accepts, key_prefix,
    render_command_call, render_key_prefix, render_section, section, start_docs,
};
use crate::text::{join, join_strings, lower_camel_case, to_lower_camel_case, views};

verus! {

/// The rendered argument types of each command, one vector per command,
/// one string per argument.
pub open spec fn type_views(types: Seq<Vec<String>>) -> Seq<Seq<Seq<char>>> {
    types.map_values(|v: Vec<String>| views(v@))
}

/// `tys` holds one rendered type per argument of each command.
pub open spec fn fits(tys: Seq<Seq<Seq<char>>>, cmds: Seq<Command>) -> bool {
    &&& tys.len() == cmds.len()
    &&& forall|i: int| 0 <= i < cmds.len() ==> #[trigger] tys[i].len() == cmds[i].args@.len()
}

/// The typed parameters of a command: each camel-case argument name, then
/// `sep`, then its rendered type.
pub open spec fn arg_defs(c: Command, tys: Seq<Seq<char>>, sep: Seq<char>) -> Seq<Seq<char>> {
    Seq::new(c.args@.len(), |j: int| lower_camel_case(c.args@[j].name@) + sep + tys[j])
}

/// The exporter's outcome for each argument of each command.
pub open spec fn arg_outcomes(ts: Typescript, cmds: Seq<Command>, types: TypeCollection) -> Seq<
    Seq<Result<Seq<char>, ExportError>>,
> {
    Seq::new(
        cmds.len(),
        |i: int| Seq::new(cmds[i].args@.len(), |j: int| exported(ts, cmds[i].args@[j].ty, types)),
    )
}

/// The first error of a row of outcomes, in order.
pub open spec fn first_error_in(row: Seq<Result<Seq<char>, ExportError>>) -> Option<ExportError>
    decreases row.len(),
{
    if row.len() == 0 {
        None
    } else {
        match row[0] {
            Err(e) => Some(e),
            Ok(_) => first_error_in(row.drop_first()),
        }
    }
}

/// The first error of the outcomes, row by row.
pub open spec fn first_error(rows: Seq<Seq<Result<Seq<char>, ExportError>>>) -> Option<ExportError>
    decreases rows.len(),
{
    if rows.len() == 0 {
        None
    } else {
        match first_error_in(rows[0]) {
            Some(e) => Some(e),
            None => first_error(rows.drop_first()),
        }
    }
}

/// The texts of a row of outcomes.
pub open spec fn row_texts(row: Seq<Result<Seq<char>, ExportError>>) -> Seq<Seq<char>> {
    row.map_values(|r: Result<Seq<char>, ExportError>| match r {
        Ok(s) => s,
        Err(_) => Seq::empty(),
    })
}

/// The outcomes gathered: the first error where there is one, else the
/// texts.
pub open spec fn collected(rows: Seq<Seq<Result<Seq<char>, ExportError>>>) -> Result<Seq<Seq<Seq<char>>>, ExportError> {
    match first_error(rows) {
        Some(e) => Err(e),
        None => Ok(rows.map_values(|row: Seq<Result<Seq<char>, ExportError>>| row_texts(row))),
    }
}

/// The text of a rendering, the error of a failed one.
pub open spec fn text_view(r: Result<String, RenderError>) -> Result<Seq<char>, RenderError> {
    match r {
        Ok(s) => Ok(s@),
        Err(e) => Err(e),
    }
}

proof fn lemma_collected_fits(ts: Typescript, cmds: Seq<Command>, types: TypeCollection)
    ensures
        collected(arg_outcomes(ts, cmds, types)) matches Ok(tys) ==> fits(tys, cmds),
{
    let rows = arg_outcomes(ts, cmds, types);
    if let Ok(tys) = collected(rows) {
        assert forall|i: int| 0 <= i < cmds.len() implies #[trigger] tys[i].len() == cmds[i].args@.len() by {
            assert(tys[i] == row_texts(rows[i]));
        }
    }
}

/// The exporter's outcome for each argument of `c`.
pub open spec fn row_outcomes(ts: Typescript, c: Command, types: TypeCollection) -> Seq<Result<Seq<char>, ExportError>> {
    Seq::new(c.args@.len(), |j: int| exported(ts, c.args@[j].ty, types))
}

/// The exporter accepts the types of `args`, in order, up to the first one
/// it answers with an error; what follows that one is never exported.
pub open spec fn accepted_until_error(ts: Typescript, args: Seq<FunctionArg>, types: TypeCollection) -> bool
    decreases args.len(),
{
    args.len() == 0 || (exporter_accepts(ts, args[0].ty, types) && (exported(ts, args[0].ty, types) is Ok
        ==> accepted_until_error(ts, args.drop_first(), types)))
}

/// The exporter accepts the argument types of `cmds`, command by command
/// and in order, up to the first one it answers with an error.
pub open spec fn commands_accepted_until_error(ts: Typescript, cmds: Seq<Command>, types: TypeCollection) -> bool
    decreases cmds.len(),
{
    cmds.len() == 0 || (accepted_until_error(ts, cmds[0].args@, types) && (first_error_in(
        row_outcomes(ts, cmds[0], types),
    ) is None ==> commands_accepted_until_error(ts, cmds.drop_first(), types)))
}

/// Renders the TypeScript type of every argument of every command in
/// `cmds`, in order, stopping at the first type that the exporter answers
/// with an error, and failing with that error.
pub fn command_arg_types(ts: &Typescript, cmds: &Vec<Command>, types: &TypeCollection) -> (res: Result<Vec<Vec<String>>, RenderError>)
    requires
        commands_accepted_until_error(*ts, cmds@, *types),
    ensures
        match collected(arg_outcomes(*ts, cmds@, *types)) {
            Err(e) => res == Err::<Vec<Vec<String>>, RenderError>(RenderError::Export(e)),
            Ok(tys) => res matches Ok(v) && type_views(v@) == tys,
        },
{
    let ghost all = arg_outcomes(*ts, cmds@, *types);
    let n = cmds.len();
    let mut out: Vec<Vec<String>> = Vec::new();
    let mut i: usize = 0;
    assert(cmds@.skip(0) =~= cmds@);
    assert(all.skip(0) =~= all);
    while i < n
        invariant
            n == cmds@.len(),
            all == arg_outcomes(*ts, cmds@, *types),
            0 <= i <= n,
            commands_accepted_until_error(*ts, cmds@.skip(i as int), *types),
            first_error(all) == first_error(all.skip(i as int)),
            type_views(out@) == all.take(i as int).map_values(|row: Seq<Result<Seq<char>, ExportError>>| row_texts(row)),
        decreases n - i,
    {
        let c = &cmds[i];
        let ghost row = row_outcomes(*ts, *c, *types);
        proof {
            assert(cmds@.skip(i as int)[0] == cmds@[i as int]);
            assert(cmds@.skip(i as int).drop_first() =~= cmds@.skip(i + 1));
            assert(all.skip(i as int)[0] =~= row);
            assert(all.skip(i as int).drop_first() =~= all.skip(i + 1));
        }
        let m = c.args.len();
        let mut tys: Vec<String> = Vec::new();
        let mut j: usize = 0;
        assert(c.args@.skip(0) =~= c.args@);
        assert(row.skip(0) =~= row);
        assert(views(tys@) =~= row_texts(row.take(0)));
        while j < m
            invariant
                n == cmds@.len(),
                i < n,
                *c == cmds@[i as int],
                m == c.args@.len(),
                row == row_outcomes(*ts, *c, *types),
                all == arg_outcomes(*ts, cmds@, *types),
                first_error(all) == first_error(all.skip(i as int)),
                all.skip(i as int)[0] == row,
                0 <= j <= m,
                accepted_until_error(*ts, c.args@.skip(j as int), *types),
                first_error_in(row) == first_error_in(row.skip(j as int)),
                views(tys@) == row_texts(row.take(j as int)),
            decreases m - j,
        {
            proof {
                assert(c.args@.skip(j as int)[0] == c.args@[j as int]);
                assert(c.args@.skip(j as int).drop_first() =~= c.args@.skip(j + 1));
                assert(row.skip(j as int)[0] == row[j as int]);
                assert(row.skip(j as int).drop_first() =~= row.skip(j + 1));
            }
            let r = export_datatype(ts, &c.args[j].ty, types);
            match r {
                Ok(t) => {
                    let ghost before = views(tys@);
                    tys.push(t);
                    assert(views(tys@) =~= before.push(t@));
                    assert(row_texts(row.take(j + 1)) =~= row_texts(row.take(j as int)).push(t@));
                },
                Err(e) => {
                    assert(first_error_in(row) == Some(e));
                    assert(first_error(all.skip(i as int)) == Some(e));
                    return Err(RenderError::Export(e));
                },
            }
            j = j + 1;
        }
        assert(row.take(m as int) =~= row);
        assert(row.skip(m as int).len() == 0);
        assert(first_error_in(row) is None);
        let ghost before_out = type_views(out@);
        out.push(tys);
        assert(type_views(out@) =~= before_out.push(views(tys@)));
        assert(all.take(i + 1) =~= all.take(i as int).push(row));
        assert(type_views(out@) =~= all.take(i + 1).map_values(|row: Seq<Result<Seq<char>, ExportError>>| row_texts(row)));
        i = i + 1;
    }
    assert(all.take(n as int) =~= all);
    assert(all.skip(n as int).len() == 0);
    Ok(out)
}

fn render_arg_defs(c: &Command, tys: &Vec<String>, sep: &str) -> (res: String)
    requires
        tys@.len() == c.args@.len(),
    ensures
        res@ == join(arg_defs(*c, views(tys@), sep@), ", "@),
{
    let n = c.args.len();
    let mut defs: Vec<String> = Vec::new();
    let mut j: usize = 0;
    while j < n
        invariant
            n == c.args@.len(),
            n == tys@.len(),
            0 <= j <= n,
            defs@.len() == j,
            forall|k: int| 0 <= k < j ==> #[trigger] defs@[k]@
                == lower_camel_case(c.args@[k].name@) + sep@ + tys@[k]@,
        decreases n - j,
    {
        let mut d = to_lower_camel_case(c.args[j].name.as_str());
        d.append(sep);
        d.append(tys[j].as_str());
        defs.push(d);
        j = j + 1;
    }
    assert(views(defs@) =~= arg_defs(*c, views(tys@), sep@));
    join_strings(&defs, ", ")
}

/// The member of `queryKeys` for one query: a function of the query's
/// optional typed arguments that returns its key as a constant tuple.
pub open spec fn query_key_entry(plugin: Option<String>, c: Command, tys: Seq<Seq<char>>) -> Seq<char> {
    let name = camel_name(c);
    let prefix = key_prefix(plugin, name);
    if c.args@.len() == 0 {
        name + ": () => ["@ + prefix + "] as const"@
    } else {
        name + ": ("@ + join(arg_defs(c, tys, "?: "@), ", "@) + ") => filterKey(["@ + prefix
            + "] as const, { "@ + call_args(c) + " })"@
    }
}

/// The `queryKeys` object for argument types `tys`, empty when there are
/// no queries.
pub open spec fn query_keys(cfg: ExportContext, tys: Seq<Seq<Seq<char>>>) -> Seq<char> {
    if cfg.queries@.len() == 0 {
        Seq::empty()
    } else {
        section(
            "queryKeys"@,
            Seq::new(
                cfg.queries@.len(),
                |i: int| query_key_entry(cfg.plugin_name, cfg.queries@[i], tys[i]),
            ),
        )
    }
}

/// The type arguments of a query's options: its data type, then its error
/// type where it has one.
pub open spec fn query_generics(c: Command) -> Seq<char> {
    match c.error_type {
        Some(e) => "<"@ + c.data_type@ + ", "@ + e@ + ">"@,
        None => "<"@ + c.data_type@ + ">"@,
    }
}

/// The member of `queries` for one query.
pub open spec fn query_entry(c: Command, tys: Seq<Seq<char>>) -> Seq<char> {
    let name = camel_name(c);
    name + ": ("@ + join(arg_defs(c, tys, ": "@), ", "@) + ") => TANSTACK_QUERY_OPTIONS"@
        + query_generics(c) + "({ queryKey: queryKeys."@ + name + "("@ + call_args(c)
        + "), queryFn: () => "@ + command_call(name, call_args(c), c.uses_typed_error) + " })"@
}

/// The `queries` object for argument types `tys`, empty when there are no
/// queries.
pub open spec fn queries(cfg: ExportContext, tys: Seq<Seq<Seq<char>>>) -> Seq<char> {
    if cfg.queries@.len() == 0 {
        Seq::empty()
    } else {
        section("queries"@, Seq::new(cfg.queries@.len(), |i: int| query_entry(cfg.queries@[i], tys[i])))
    }
}

/// The member of `mutationKeys` for one mutation.
pub open spec fn mutation_key_entry(plugin: Option<String>, c: Command) -> Seq<char> {
    let name = camel_name(c);
    name + ": () => ["@ + key_prefix(plugin, name) + "] as const"@
}

/// The `mutationKeys` object, empty when there are no mutations.
pub open spec fn mutation_keys(cfg: ExportContext) -> Seq<char> {
    if cfg.mutations@.len() == 0 {
        Seq::empty()
    } else {
        section(
            "mutationKeys"@,
            Seq::new(
                cfg.mutations@.len(),
                |i: int| mutation_key_entry(cfg.plugin_name, cfg.mutations@[i]),
            ),
        )
    }
}

/// The type of a mutation's variables: `void` without arguments, else the
/// object of its typed arguments.
pub open spec fn variables_type(c: Command, tys: Seq<Seq<char>>) -> Seq<char> {
    if c.args@.len() == 0 {
        "void"@
    } else {
        "{ "@ + join(arg_defs(c, tys, ": "@), ", "@) + " }"@
    }
}

/// The type arguments of a mutation's options: data, error (`Error` where
/// the command has no error type) and variables.
pub open spec fn mutation_generics(c: Command, tys: Seq<Seq<char>>) -> Seq<char> {
    match c.error_type {
        Some(e) => "<"@ + c.data_type@ + ", "@ + e@ + ", "@ + variables_type(c, tys) + ">"@,
        None => "<"@ + c.data_type@ + ", Error, "@ + variables_type(c, tys) + ">"@,
    }
}

/// The parameter of a mutation function: nothing without arguments, else
/// the destructured arguments with their type.
pub open spec fn mutation_param(c: Command, tys: Seq<Seq<char>>) -> Seq<char> {
    if c.args@.len() == 0 {
        Seq::empty()
    } else {
        "{ "@ + call_args(c) + " }: "@ + variables_type(c, tys)
    }
}

/// The member of `mutations` for one mutation.
pub open spec fn mutation_entry(c: Command, tys: Seq<Seq<char>>) -> Seq<char> {
    let name = camel_name(c);
    name + ": () => TANSTACK_MUTATION_OPTIONS"@ + mutation_generics(c, tys)
        + "({ mutationKey: mutationKeys."@ + name + "(), mutationFn: ("@ + mutation_param(c, tys)
        + ") => "@ + command_call(name, call_args(c), c.uses_typed_error) + " })"@
}

/// The `mutations` object for argument types `tys`, empty when there are
/// no mutations.
pub open spec fn mutations(cfg: ExportContext, tys: Seq<Seq<Seq<char>>>) -> Seq<char> {
    if cfg.mutations@.len() == 0 {
        Seq::empty()
    } else {
        section(
            "mutations"@,
            Seq::new(cfg.mutations@.len(), |i: int| mutation_entry(cfg.mutations@[i], tys[i])),
        )
    }
}

fn render_query_key_entry(plugin: &Option<String>, c: &Command, tys: &Vec<String>) -> (res: String)
    requires
        tys@.len() == c.args@.len(),
    ensures
        res@ == query_key_entry(*plugin, *c, views(tys@)),
{
    let name = to_lower_camel_case(c.name.as_str());
    let prefix = render_key_prefix(plugin, name.as_str());
    let mut s = name.clone();
    if c.args.len() == 0 {
        s.append(": () => [");
        s.append(prefix.as_str());
        s.append("] as const");
    } else {
        let optional_args = render_arg_defs(c, tys, "?: ");
        let args = arg_names(c);
        let args_obj = join_strings(&args, ", ");
        s.append(": (");
        s.append(optional_args.as_str());
        s.append(") => filterKey([");
        s.append(prefix.as_str());
        s.append("] as const, { ");
        s.append(args_obj.as_str());
        s.append(" })");
    }
    s
}

/// Renders the `queryKeys` object from the already rendered argument
/// types `types` (one vector per query).
pub fn render_query_keys_typed(cfg: &ExportContext, types: &Vec<Vec<String>>) -> (res: String)
    requires
        fits(type_views(types@), cfg.queries@),
    ensures
        res@ == query_keys(*cfg, type_views(types@)),
{
    if cfg.queries.len() == 0 {
        return String::new();
    }
    let ghost tv = type_views(types@);
    let n = cfg.queries.len();
    let mut entries: Vec<String> = Vec::new();
    let mut i: usize = 0;
    while i < n
        invariant
            n == cfg.queries@.len(),
            tv == type_views(types@),
            fits(tv, cfg.queries@),
            0 <= i <= n,
            entries@.len() == i,
            forall|k: int| 0 <= k < i ==> #[trigger] entries@[k]@
                == query_key_entry(cfg.plugin_name, cfg.queries@[k], tv[k]),
        decreases n - i,
    {
        assert(tv[i as int].len() == cfg.queries@[i as int].args@.len());
        entries.push(render_query_key_entry(&cfg.plugin_name, &cfg.queries[i], &types[i]));
        i = i + 1;
    }
    assert(views(entries@) =~= Seq::new(
        n as nat,
        |k: int| query_key_entry(cfg.plugin_name, cfg.queries@[k], tv[k]),
    ));
    render_section("queryKeys", &entries)
}

/// What rendering the `queryKeys` object gives: its text for the rendered
/// argument types, or the first error of the exporter.
pub open spec fn query_keys_result(ts: Typescript, cfg: ExportContext) -> Result<Seq<char>, RenderError> {
    if cfg.queries@.len() == 0 {
        Ok(Seq::empty())
    } else {
        match collected(arg_outcomes(ts, cfg.queries@, cfg.type_map)) {
            Err(e) => Err(RenderError::Export(e)),
            Ok(tys) => Ok(query_keys(cfg, tys)),
        }
    }
}

/// Renders the `queryKeys` object: for each query, its key as a function
/// of its optional typed arguments. Fails with the exporter's first error
/// on an argument type.
pub fn render_query_keys(ts: &Typescript, cfg: &ExportContext) -> (res: Result<String, RenderError>)
    requires
        commands_accepted_until_error(*ts, cfg.queries@, cfg.type_map),
    ensures
        text_view(res) == query_keys_result(*ts, *cfg),
{
    if cfg.queries.len() == 0 {
        return Ok(String::new());
    }
    let types = command_arg_types(ts, &cfg.queries, &cfg.type_map)?;
    proof {
        lemma_collected_fits(*ts, cfg.queries@, cfg.type_map);
    }
    Ok(render_query_keys_typed(cfg, &types))
}

fn render_query_entry(c: &Command, tys: &Vec<String>) -> (res: String)
    requires
        tys@.len() == c.args@.len(),
    ensures
        res@ == query_entry(*c, views(tys@)),
{
    let name = to_lower_camel_case(c.name.as_str());
    let arg_defs = render_arg_defs(c, tys, ": ");
    let args = arg_names(c);
    let call_args = join_strings(&args, ", ");
    let mut generics = String::from_str("<");
    generics.append(c.data_type.as_str());
    match &c.error_type {
        Some(e) => {
            generics.append(", ");
            generics.append(e.as_str());
            generics.append(">");
        },
        None => {
            generics.append(">");
        },
    }
    let body = render_command_call(name.as_str(), call_args.as_str(), c.uses_typed_error);
    let mut s = name.clone();
    s.append(": (");
    s.append(arg_defs.as_str());
    s.append(") => TANSTACK_QUERY_OPTIONS");
    s.append(generics.as_str());
    s.append("({ queryKey: queryKeys.");
    s.append(name.as_str());
    s.append("(");
    s.append(call_args.as_str());
    s.append("), queryFn: () => ");
    s.append(body.as_str());
    s.append(" })");
    s
}

/// Renders the `queries` object from the already rendered argument types
/// `types` (one vector per query).
pub fn render_queries_typed(cfg: &ExportContext, types: &Vec<Vec<String>>) -> (res: String)
    requires
        fits(type_views(types@), cfg.queries@),
    ensures
        res@ == queries(*cfg, type_views(types@)),
{
    if cfg.queries.len() == 0 {
        return String::new();
    }
    let ghost tv = type_views(types@);
    let n = cfg.queries.len();
    let mut entries: Vec<String> = Vec::new();
    let mut i: usize = 0;
    while i < n
        invariant
            n == cfg.queries@.len(),
            tv == type_views(types@),
            fits(tv, cfg.queries@),
            0 <= i <= n,
            entries@.len() == i,
            forall|k: int| 0 <= k < i ==> #[trigger] entries@[k]@ == query_entry(cfg.queries@[k], tv[k]),
        decreases n - i,
    {
        assert(tv[i as int].len() == cfg.queries@[i as int].args@.len());
        entries.push(render_query_entry(&cfg.queries[i], &types[i]));
        i = i + 1;
    }
    assert(views(entries@) =~= Seq::new(n as nat, |k: int| query_entry(cfg.queries@[k], tv[k])));
    render_section("queries", &entries)
}

/// What rendering the `queries` object gives: its text for the rendered
/// argument types, or the first error of the exporter.
pub open spec fn queries_result(ts: Typescript, cfg: ExportContext) -> Result<Seq<char>, RenderError> {
    if cfg.queries@.len() == 0 {
        Ok(Seq::empty())
    } else {
        match collected(arg_outcomes(ts, cfg.queries@, cfg.type_map)) {
            Err(e) => Err(RenderError::Export(e)),
            Ok(tys) => Ok(queries(cfg, tys)),
        }
    }
}

/// Renders the `queries` object: for each query, the typed TanStack query
/// options that pair its key with the call of its command. Fails with the
/// exporter's first error on an argument type.
pub fn render_queries(ts: &Typescript, cfg: &ExportContext) -> (res: Result<String, RenderError>)
    requires
        commands_accepted_until_error(*ts, cfg.queries@, cfg.type_map),
    ensures
        text_view(res) == queries_result(*ts, *cfg),
{
    if cfg.queries.len() == 0 {
        return Ok(String::new());
    }
    let types = command_arg_types(ts, &cfg.queries, &cfg.type_map)?;
    proof {
        lemma_collected_fits(*ts, cfg.queries@, cfg.type_map);
    }
    Ok(render_queries_typed(cfg, &types))
}

fn render_mutation_key_entry(plugin: &Option<String>, c: &Command) -> (res: String)
    ensures
        res@ == mutation_key_entry(*plugin, *c),
{
    let name = to_lower_camel_case(c.name.as_str());
    let prefix = render_key_prefix(plugin, name.as_str());
    let mut s = name.clone();
    s.append(": () => [");
    s.append(prefix.as_str());
    s.append("] as const");
    s
}

/// Renders the `mutationKeys` object: for each mutation, its key as a
/// constant tuple.
pub fn render_mutation_keys(_ts: &Typescript, cfg: &ExportContext) -> (res: Result<String, RenderError>)
    ensures
        res matches Ok(s) && s@ == mutation_keys(*cfg),
{
    if cfg.mutations.len() == 0 {
        return Ok(String::new());
    }
    let n = cfg.mutations.len();
    let mut entries: Vec<String> = Vec::new();
    let mut i: usize = 0;
    while i < n
        invariant
            n == cfg.mutations@.len(),
            0 <= i <= n,
            entries@.len() == i,
            forall|k: int| 0 <= k < i ==> #[trigger] entries@[k]@
                == mutation_key_entry(cfg.plugin_name, cfg.mutations@[k]),
        decreases n - i,
    {
        entries.push(render_mutation_key_entry(&cfg.plugin_name, &cfg.mutations[i]));
        i = i + 1;
    }
    assert(views(entries@) =~= Seq::new(
        n as nat,
        |k: int| mutation_key_entry(cfg.plugin_name, cfg.mutations@[k]),
    ));
    Ok(render_section("mutationKeys", &entries))
}

fn render_mutation_entry(c: &Command, tys: &Vec<String>) -> (res: String)
    requires
        tys@.len() == c.args@.len(),
    ensures
        res@ == mutation_entry(*c, views(tys@)),
{
    let name = to_lower_camel_case(c.name.as_str());
    let args = arg_names(c);
    let call_args = join_strings(&args, ", ");
    let variables_type = if c.args.len() == 0 {
        String::from_str("void")
    } else {
        let fields = render_arg_defs(c, tys, ": ");
        let mut v = String::from_str("{ ");
        v.append(fields.as_str());
        v.append(" }");
        v
    };
    let mut generics = String::from_str("<");
    generics.append(c.data_type.as_str());
    match &c.error_type {
        Some(e) => {
            generics.append(", ");
            generics.append(e.as_str());
            generics.append(", ");
        },
        None => {
            generics.append(", Error, ");
        },
    }
    generics.append(variables_type.as_str());
    generics.append(">");
    let param = if c.args.len() == 0 {
        String::new()
    } else {
        let mut p = String::from_str("{ ");
        p.append(call_args.as_str());
        p.append(" }: ");
        p.append(variables_type.as_str());
        p
    };
    let body = render_command_call(name.as_str(), call_args.as_str(), c.uses_typed_error);
    let mut s = name.clone();
    s.append(": () => TANSTACK_MUTATION_OPTIONS");
    s.append(generics.as_str());
    s.append("({ mutationKey: mutationKeys.");
    s.append(name.as_str());
    s.append("(), mutationFn: (");
    s.append(param.as_str());
    s.append(") => ");
    s.append(body.as_str());
    s.append(" })");
    s
}

/// Renders the `mutations` object from the already rendered argument types
/// `types` (one vector per mutation).
pub fn render_mutations_typed(cfg: &ExportContext, types: &Vec<Vec<String>>) -> (res: String)
    requires
        fits(type_views(types@), cfg.mutations@),
    ensures
        res@ == mutations(*cfg, type_views(types@)),
{
    if cfg.mutations.len() == 0 {
        return String::new();
    }
    let ghost tv = type_views(types@);
    let n = cfg.mutations.len();
    let mut entries: Vec<String> = Vec::new();
    let mut i: usize = 0;
    while i < n
        invariant
            n == cfg.mutations@.len(),
            tv == type_views(types@),
            fits(tv, cfg.mutations@),
            0 <= i <= n,
            entries@.len() == i,
            forall|k: int| 0 <= k < i ==> #[trigger] entries@[k]@
                == mutation_entry(cfg.mutations@[k], tv[k]),
        decreases n - i,
    {
        assert(tv[i as int].len() == cfg.mutations@[i as int].args@.len());
        entries.push(render_mutation_entry(&cfg.mutations[i], &types[i]));
        i = i + 1;
    }
    assert(views(entries@) =~= Seq::new(n as nat, |k: int| mutation_entry(cfg.mutations@[k], tv[k])));
    render_section("mutations", &entries)
}

/// What rendering the `mutations` object gives: its text for the rendered
/// argument types, or the first error of the exporter.
pub open spec fn mutations_result(ts: Typescript, cfg: ExportContext) -> Result<Seq<char>, RenderError> {
    if cfg.mutations@.len() == 0 {
        Ok(Seq::empty())
    } else {
        match collected(arg_outcomes(ts, cfg.mutations@, cfg.type_map)) {
            Err(e) => Err(RenderError::Export(e)),
            Ok(tys) => Ok(mutations(cfg, tys)),
        }
    }
}

/// Renders the `mutations` object: for each mutation, the typed TanStack
/// mutation options that pair its key with the call of its command. Fails
/// with the exporter's first error on an argument type.
pub fn render_mutations(ts: &Typescript, cfg: &ExportContext) -> (res: Result<String, RenderError>)
    requires
        commands_accepted_until_error(*ts, cfg.mutations@, cfg.type_map),
    ensures
        text_view(res) == mutations_result(*ts, *cfg),
{
    if cfg.mutations.len() == 0 {
        return Ok(String::new());
    }
    let types = command_arg_types(ts, &cfg.mutations, &cfg.type_map)?;
    proof {
        lemma_collected_fits(*ts, cfg.mutations@, cfg.type_map);
    }
    Ok(render_mutations_typed(cfg, &types))
}

/// The typed `events` object, empty when the export has no events.
pub open spec fn events_object(data: Option<EventsData>) -> Seq<char> {
    match data {
        None => Seq::empty(),
        Some(d) => "\nexport const events = __makeEvents__<{\n"@ + join(views(d.types@), ",\n"@)
            + "\n}>({\n"@ + d.map@ + "\n})"@,
    }
}

/// Renders the `events` object, typed by the members in `events.types`;
/// `None` stands for an export without events.
pub fn render_events(events: &Option<EventsData>) -> (res: String)
    ensures
        res@ == events_object(*events),
{
    match events {
        None => String::new(),
        Some(d) => {
            let types = join_strings(&d.types, ",\n");
            let mut s = String::from_str("\nexport const events = __makeEvents__<{\n");
            s.append(types.as_str());
            s.append("\n}>({\n");
            s.append(d.map.as_str());
            s.append("\n})");
            s
        },
    }
}

/// The JSDoc comment of a command in the TypeScript client: its
/// deprecation and documentation, or nothing when it has neither.
pub open spec fn command_docs(c: Command) -> Seq<char> {
    built(docs_head(c))
}

/// Renders the JSDoc comment that precedes a command in the `commands`
/// object of the TypeScript client.
pub fn render_command_docs(c: &Command) -> (res: String)
    ensures
        res@ == command_docs(*c),
{
    let builder = start_docs(c);
    builder_build(builder)
}

/// The `commands` object of the TypeScript client, whose members are the
/// rendered functions `entries`.
pub open spec fn commands_object(entries: Seq<Seq<char>>) -> Seq<char> {
    "\nexport const commands = {\n"@ + join(entries, ",\n"@) + "\n}"@
}

/// Renders the `commands` object from the rendered function of each
/// command, in the order of `all_commands`.
pub fn render_commands_object(entries: &Vec<String>) -> (res: String)
    ensures
        res@ == commands_object(views(entries@)),
{
    let body = join_strings(entries, ",\n");
    let mut s = String::from_str("\nexport const commands = {\n");
    s.append(body.as_str());
    s.append("\n}");
    s
}

/// The JSDoc comments of `cmds`, in order.
pub open spec fn docs_of(cmds: Seq<Command>) -> Seq<Seq<char>> {
    Seq::new(cmds.len(), |i: int| command_docs(cmds[i]))
}

fn push_command_docs(cmds: &Vec<Command>, out: &mut Vec<String>)
    ensures
        views(final(out)@) == views(old(out)@) + docs_of(cmds@),
{
    let ghost start = views(out@);
    let n = cmds.len();
    let mut i: usize = 0;
    while i < n
        invariant
            n == cmds@.len(),
            0 <= i <= n,
            views(out@) == start + docs_of(cmds@).take(i as int),
        decreases n - i,
    {
        let d = render_command_docs(&cmds[i]);
        let ghost before = views(out@);
        out.push(d);
        assert(views(out@) =~= before.push(d@));
        assert(docs_of(cmds@).take(i + 1) =~= docs_of(cmds@).take(i as int).push(d@));
        i = i + 1;
    }
    assert(docs_of(cmds@).take(n as int) =~= docs_of(cmds@));
}

/// Renders the JSDoc comment of every command, in the order of the
/// `commands` object: plain commands, then queries, then mutations.
pub fn render_all_command_docs(cfg: &ExportContext) -> (res: Vec<String>)
    ensures
        views(res@) == docs_of(all_commands(*cfg)),
{
    let mut out: Vec<String> = Vec::new();
    push_command_docs(&cfg.commands, &mut out);
    push_command_docs(&cfg.queries, &mut out);
    push_command_docs(&cfg.mutations, &mut out);
    assert(views(out@) =~= docs_of(all_commands(*cfg)));
    out
}

/// What rendering the TanStack objects gives: the four objects, or the
/// first error met in the order query keys, queries, mutation keys,
/// mutations.
pub open spec fn tanstack_parts_result(ts: Typescript, cfg: ExportContext) -> Result<
    (Seq<char>, Seq<char>, Seq<char>, Seq<char>),
    RenderError,
> {
    match (query_keys_result(ts, cfg), queries_result(ts, cfg), mutations_result(ts, cfg)) {
        (Err(e), _, _) => Err(e),
        (Ok(_), Err(e), _) => Err(e),
        (Ok(_), Ok(_), Err(e)) => Err(e),
        (Ok(k), Ok(q), Ok(m)) => Ok((k, q, mutation_keys(cfg), m)),
    }
}

/// The texts of rendered TanStack objects.
pub open spec fn parts_view(r: Result<TanstackParts, RenderError>) -> Result<
    (Seq<char>, Seq<char>, Seq<char>, Seq<char>),
    RenderError,
> {
    match r {
        Ok(p) => Ok((p.query_keys@, p.queries@, p.mutation_keys@, p.mutations@)),
        Err(e) => Err(e),
    }
}

/// Renders the TanStack objects of a TypeScript file in the order the file
/// holds them, stopping at the first failure.
pub fn render_tanstack_parts(ts: &Typescript, cfg: &ExportContext) -> (res: Result<TanstackParts, RenderError>)
    requires
        commands_accepted_until_error(*ts, cfg.queries@, cfg.type_map),
        first_error(arg_outcomes(*ts, cfg.queries@, cfg.type_map)) is None ==> commands_accepted_until_error(
            *ts,
            cfg.mutations@,
            cfg.type_map,
        ),
    ensures
        parts_view(res) == tanstack_parts_result(*ts, *cfg),
{
    let query_keys = render_query_keys(ts, cfg)?;
    let queries = render_queries(ts, cfg)?;
    let mutation_keys = render_mutation_keys(ts, cfg)?;
    let mutations = render_mutations(ts, cfg)?;
    Ok(TanstackParts { query_keys, queries, mutation_keys, mutations })
}

/// Renders the declaration of every named type of `types`, one per line,
/// in the order of the collection; fails with the exporter's first error.
pub fn render_type_definitions(ts: &Typescript, types: &TypeCollection) -> (res: Result<String, RenderError>)
    requires
        defined_until_error(*ts, named_types(*types), *types, false),
    ensures
        text_view(res) == definitions(*ts, *types, false),
{
    render_definitions(ts, types, false)
}

} // verus!
