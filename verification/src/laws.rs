use vstd::prelude::*;

use crate::context::{Command, EventsData, ExportContext};
use specta::TypeCollection;
use specta_typescript::Typescript;

use crate::lang::common::{call_args, camel_arg_names, camel_name, command_call, exported, key_prefix, section};
use crate::lang::{js, ts};
use crate::text::join;

verus! {

proof fn lemma_prefix(a: Seq<char>, b: Seq<char>)
    ensures
        a.is_prefix_of(a + b),
{
    assert((a + b).subrange(0, a.len() as int) =~= a);
}

proof fn lemma_suffix(a: Seq<char>, b: Seq<char>)
    ensures
        b.is_suffix_of(a + b),
{
    assert((a + b).subrange(a.len() as int, (a + b).len() as int) =~= b);
}

/// `t` occurs in `s` as a contiguous part.
pub open spec fn occurs(t: Seq<char>, s: Seq<char>) -> bool {
    exists|k: int| 0 <= k && k + t.len() <= s.len() && #[trigger] s.subrange(k, k + t.len()) == t
}

pub(crate) proof fn lemma_occurs_at(t: Seq<char>, s: Seq<char>, k: int)
    requires
        0 <= k,
        k + t.len() <= s.len(),
        s.subrange(k, k + t.len()) =~= t,
    ensures
        occurs(t, s),
{
}

pub(crate) proof fn lemma_occurs_trans(t: Seq<char>, u: Seq<char>, s: Seq<char>)
    requires
        occurs(t, u),
        occurs(u, s),
    ensures
        occurs(t, s),
{
    let k1 = choose|k: int| 0 <= k && k + t.len() <= u.len() && #[trigger] u.subrange(k, k + t.len()) == t;
    let k2 = choose|k: int| 0 <= k && k + u.len() <= s.len() && #[trigger] s.subrange(k, k + u.len()) == u;
    assert(s.subrange(k2 + k1, k2 + k1 + t.len()) =~= u.subrange(k1, k1 + t.len()));
    lemma_occurs_at(t, s, k2 + k1);
}

pub(crate) proof fn lemma_occurs_around(a: Seq<char>, t: Seq<char>, b: Seq<char>)
    ensures
        occurs(t, a + t + b),
        occurs(t, a + t),
        occurs(t, t + b),
{
    lemma_occurs_at(t, a + t + b, a.len() as int);
    lemma_occurs_at(t, a + t, a.len() as int);
    lemma_occurs_at(t, t + b, 0);
}

proof fn lemma_prefix_occurs(t: Seq<char>, s: Seq<char>)
    requires
        t.is_prefix_of(s),
    ensures
        occurs(t, s),
{
    lemma_occurs_at(t, s, 0);
}

proof fn lemma_suffix_occurs(t: Seq<char>, s: Seq<char>)
    requires
        t.is_suffix_of(s),
    ensures
        occurs(t, s),
{
    lemma_occurs_at(t, s, s.len() - t.len());
}

proof fn lemma_part_occurs_in_join(parts: Seq<Seq<char>>, sep: Seq<char>, i: int)
    requires
        0 <= i < parts.len(),
    ensures
        occurs(parts[i], join(parts, sep)),
    decreases parts.len(),
{
    if parts.len() == 1 {
        lemma_occurs_at(parts[i], join(parts, sep), 0);
    } else if i == parts.len() - 1 {
        lemma_occurs_around(join(parts.drop_last(), sep) + sep, parts.last(), Seq::empty());
        assert(join(parts, sep) =~= join(parts.drop_last(), sep) + sep + parts.last());
        assert(join(parts.drop_last(), sep) + sep + parts.last() =~= (join(parts.drop_last(), sep) + sep) + parts.last());
    } else {
        lemma_part_occurs_in_join(parts.drop_last(), sep, i);
        lemma_occurs_around(Seq::empty(), join(parts.drop_last(), sep), sep + parts.last());
        assert(join(parts, sep) =~= join(parts.drop_last(), sep) + (sep + parts.last()));
        lemma_occurs_trans(parts[i], join(parts.drop_last(), sep), join(parts, sep));
    }
}

pub(crate) proof fn lemma_entry_occurs_in_section(title: Seq<char>, entries: Seq<Seq<char>>, i: int)
    requires
        0 <= i < entries.len(),
    ensures
        occurs(entries[i], section(title, entries)),
{
    lemma_part_occurs_in_join(entries, ",\n"@, i);
    let a = "\nexport const "@ + title + " = {\n    "@;
    lemma_occurs_around(a, join(entries, ",\n"@), "\n}"@);
    assert(section(title, entries) =~= a + join(entries, ",\n"@) + "\n}"@);
    lemma_occurs_trans(entries[i], join(entries, ",\n"@), section(title, entries));
}

proof fn lemma_no_call_args(c: Command)
    requires
        c.args@.len() == 0,
    ensures
        call_args(c) == Seq::<char>::empty(),
{
    assert(camel_arg_names(c).len() == 0);
}

proof fn lemma_split_empty_key()
    ensures
        ": () => ["@ == ": ("@ + ")"@ + " => ["@,
{
    reveal_strlit(": () => [");
    reveal_strlit(": (");
    reveal_strlit(")");
    reveal_strlit(" => [");
    assert(": () => ["@ =~= ": ("@ + ")"@ + " => ["@);
}

proof fn lemma_split_filter_key()
    ensures
        ") => filterKey(["@ == ")"@ + " => filterKey(["@,
{
    reveal_strlit(") => filterKey([");
    reveal_strlit(")");
    reveal_strlit(" => filterKey([");
    assert(") => filterKey(["@ =~= ")"@ + " => filterKey(["@);
}

/// The head that the JavaScript key function of a query and its options
/// share: the member name and the parameter list.
pub open spec fn js_query_head(c: Command) -> Seq<char> {
    camel_name(c) + ": ("@ + call_args(c) + ")"@
}

/// How the options of a query end: the lookup of the query's key in
/// `queryKeys`, then the call of its command.
pub open spec fn query_tail(c: Command) -> Seq<char> {
    "queryKey: queryKeys."@ + camel_name(c) + "("@ + call_args(c) + "), queryFn: () => "@
        + command_call(camel_name(c), call_args(c), c.uses_typed_error) + " })"@
}

proof fn lemma_js_query_key_head(plugin: Option<String>, c: Command)
    ensures
        js_query_head(c).is_prefix_of(js::query_key_entry(plugin, c)),
{
    let name = camel_name(c);
    let prefix = key_prefix(plugin, name);
    let key = js::query_key_entry(plugin, c);
    if c.args@.len() == 0 {
        lemma_no_call_args(c);
        lemma_split_empty_key();
        let rest = " => ["@ + prefix + "]"@;
        assert(key =~= js_query_head(c) + rest);
        lemma_prefix(js_query_head(c), rest);
    } else {
        lemma_split_filter_key();
        let rest = " => filterKey(["@ + prefix + "], { "@ + call_args(c) + " })"@;
        assert(key =~= js_query_head(c) + rest);
        lemma_prefix(js_query_head(c), rest);
    }
}

proof fn lemma_js_query_entry(c: Command)
    ensures
        js_query_head(c).is_prefix_of(js::query_entry(c)),
        query_tail(c).is_suffix_of(js::query_entry(c)),
{
    let name = camel_name(c);
    let a = call_args(c);
    reveal_strlit(") => TANSTACK_QUERY_OPTIONS({ queryKey: queryKeys.");
    reveal_strlit(")");
    reveal_strlit(" => TANSTACK_QUERY_OPTIONS({ ");
    reveal_strlit("queryKey: queryKeys.");
    let rest = " => TANSTACK_QUERY_OPTIONS({ "@ + query_tail(c);
    assert(js::query_entry(c) =~= js_query_head(c) + rest);
    lemma_prefix(js_query_head(c), rest);
    let front = js_query_head(c) + " => TANSTACK_QUERY_OPTIONS({ "@;
    assert(js::query_entry(c) =~= front + query_tail(c));
    lemma_suffix(front, query_tail(c));
}

proof fn lemma_ts_query_entry(c: Command, tys: Seq<Seq<char>>)
    ensures
        (camel_name(c) + ": ("@).is_prefix_of(ts::query_entry(c, tys)),
        query_tail(c).is_suffix_of(ts::query_entry(c, tys)),
{
    let name = camel_name(c);
    reveal_strlit("({ queryKey: queryKeys.");
    reveal_strlit("({ ");
    reveal_strlit("queryKey: queryKeys.");
    let mid = join(ts::arg_defs(c, tys, ": "@), ", "@) + ") => TANSTACK_QUERY_OPTIONS"@ + ts::query_generics(c)
        + "({ "@;
    let q = ts::query_entry(c, tys);
    assert(q =~= (name + ": ("@) + (mid + query_tail(c)));
    lemma_prefix(name + ": ("@, mid + query_tail(c));
    assert(q =~= ((name + ": ("@) + mid) + query_tail(c));
    lemma_suffix((name + ": ("@) + mid, query_tail(c));
}

proof fn lemma_ts_query_key_head(plugin: Option<String>, c: Command, tys: Seq<Seq<char>>)
    ensures
        (camel_name(c) + ": ("@).is_prefix_of(ts::query_key_entry(plugin, c, tys)),
{
    let name = camel_name(c);
    let prefix = key_prefix(plugin, name);
    let key = ts::query_key_entry(plugin, c, tys);
    if c.args@.len() == 0 {
        reveal_strlit(": () => [");
        reveal_strlit(": (");
        reveal_strlit(") => [");
        let rest = ") => ["@ + prefix + "] as const"@;
        assert(key =~= (name + ": ("@) + rest);
        lemma_prefix(name + ": ("@, rest);
    } else {
        let rest = join(ts::arg_defs(c, tys, "?: "@), ", "@) + ") => filterKey(["@ + prefix
            + "] as const, { "@ + call_args(c) + " })"@;
        assert(key =~= (name + ": ("@) + rest);
        lemma_prefix(name + ": ("@, rest);
    }
}

/// For every query, the rendered `queryKeys` object defines its key under
/// the query's member name, and the rendered `queries` object looks that
/// key up and calls the query's command with the query's arguments; in the
/// JavaScript client the key function declares exactly those arguments as
/// its parameters, in order, and the query's options take the same ones.
pub proof fn law_queries_use_their_keys(cfg: ExportContext, tys: Seq<Seq<Seq<char>>>)
    ensures
        forall|i: int| #![trigger cfg.queries@[i]] 0 <= i < cfg.queries@.len() ==> {
            let c = cfg.queries@[i];
            &&& occurs(js_query_head(c), js::query_keys(cfg))
            &&& occurs(js_query_head(c), js::queries(cfg))
            &&& occurs(query_tail(c), js::queries(cfg))
            &&& occurs(camel_name(c) + ": ("@, ts::query_keys(cfg, tys))
            &&& occurs(query_tail(c), ts::queries(cfg, tys))
        },
{
    assert forall|i: int| #![trigger cfg.queries@[i]] 0 <= i < cfg.queries@.len() implies {
        let c = cfg.queries@[i];
        &&& occurs(js_query_head(c), js::query_keys(cfg))
        &&& occurs(js_query_head(c), js::queries(cfg))
        &&& occurs(query_tail(c), js::queries(cfg))
        &&& occurs(camel_name(c) + ": ("@, ts::query_keys(cfg, tys))
        &&& occurs(query_tail(c), ts::queries(cfg, tys))
    } by {
        let c = cfg.queries@[i];
        let n = cfg.queries@.len();
        let jk = Seq::new(n, |k: int| js::query_key_entry(cfg.plugin_name, cfg.queries@[k]));
        let jq = Seq::new(n, |k: int| js::query_entry(cfg.queries@[k]));
        let tk = Seq::new(n, |k: int| ts::query_key_entry(cfg.plugin_name, cfg.queries@[k], tys[k]));
        let tq = Seq::new(n, |k: int| ts::query_entry(cfg.queries@[k], tys[k]));
        lemma_js_query_key_head(cfg.plugin_name, c);
        lemma_js_query_entry(c);
        lemma_ts_query_key_head(cfg.plugin_name, c, tys[i]);
        lemma_ts_query_entry(c, tys[i]);
        lemma_entry_occurs_in_section("queryKeys"@, jk, i);
        lemma_entry_occurs_in_section("queries"@, jq, i);
        lemma_entry_occurs_in_section("queryKeys"@, tk, i);
        lemma_entry_occurs_in_section("queries"@, tq, i);
        lemma_prefix_occurs(js_query_head(c), jk[i]);
        lemma_occurs_trans(js_query_head(c), jk[i], js::query_keys(cfg));
        lemma_prefix_occurs(js_query_head(c), jq[i]);
        lemma_occurs_trans(js_query_head(c), jq[i], js::queries(cfg));
        lemma_suffix_occurs(query_tail(c), jq[i]);
        lemma_occurs_trans(query_tail(c), jq[i], js::queries(cfg));
        lemma_prefix_occurs(camel_name(c) + ": ("@, tk[i]);
        lemma_occurs_trans(camel_name(c) + ": ("@, tk[i], ts::query_keys(cfg, tys));
        lemma_suffix_occurs(query_tail(c), tq[i]);
        lemma_occurs_trans(query_tail(c), tq[i], ts::queries(cfg, tys));
    }
}

/// The TypeScript types that the exporter renders for the arguments of
/// `c`, in order.
pub open spec fn rendered_types(ts: Typescript, c: Command, types: TypeCollection) -> Seq<Seq<char>> {
    ts::row_texts(ts::row_outcomes(ts, c, types))
}

/// The exporter renders every argument type of `c`, each into its entry of
/// `rendered_types`.
pub open spec fn all_rendered(ts: Typescript, c: Command, types: TypeCollection) -> bool {
    forall|j: int|
        0 <= j < c.args@.len() ==> #[trigger] exported(ts, c.args@[j].ty, types) == Ok::<
            Seq<char>,
            specta_typescript::ExportError,
        >(rendered_types(ts, c, types)[j])
}

proof fn lemma_row_without_error(row: Seq<Result<Seq<char>, specta_typescript::ExportError>>)
    requires
        ts::first_error_in(row) is None,
    ensures
        forall|j: int| 0 <= j < row.len() ==> #[trigger] row[j] is Ok,
    decreases row.len(),
{
    if row.len() > 0 {
        lemma_row_without_error(row.drop_first());
        assert forall|j: int| 0 <= j < row.len() implies #[trigger] row[j] is Ok by {
            if j > 0 {
                assert(row[j] == row.drop_first()[j - 1]);
            }
        }
    }
}

proof fn lemma_rows_without_error(rows: Seq<Seq<Result<Seq<char>, specta_typescript::ExportError>>>)
    requires
        ts::first_error(rows) is None,
    ensures
        forall|i: int| 0 <= i < rows.len() ==> ts::first_error_in(#[trigger] rows[i]) is None,
    decreases rows.len(),
{
    if rows.len() > 0 {
        lemma_rows_without_error(rows.drop_first());
        assert forall|i: int| 0 <= i < rows.len() implies ts::first_error_in(#[trigger] rows[i]) is None by {
            if i > 0 {
                assert(rows[i] == rows.drop_first()[i - 1]);
            }
        }
    }
}

proof fn lemma_commands_rendered(ts: Typescript, cmds: Seq<Command>, types: TypeCollection)
    requires
        ts::first_error(ts::arg_outcomes(ts, cmds, types)) is None,
    ensures
        ts::collected(ts::arg_outcomes(ts, cmds, types)) == Ok::<
            Seq<Seq<Seq<char>>>,
            specta_typescript::ExportError,
        >(Seq::new(cmds.len(), |i: int| rendered_types(ts, cmds[i], types))),
        forall|i: int| 0 <= i < cmds.len() ==> all_rendered(ts, #[trigger] cmds[i], types),
{
    let rows = ts::arg_outcomes(ts, cmds, types);
    lemma_rows_without_error(rows);
    assert forall|i: int| 0 <= i < cmds.len() implies all_rendered(ts, #[trigger] cmds[i], types) by {
        let c = cmds[i];
        assert(rows[i] =~= ts::row_outcomes(ts, c, types));
        lemma_row_without_error(rows[i]);
        assert forall|j: int| 0 <= j < c.args@.len() implies #[trigger] exported(ts, c.args@[j].ty, types)
            == Ok::<Seq<char>, specta_typescript::ExportError>(rendered_types(ts, c, types)[j]) by {
            assert(rows[i][j] is Ok);
        }
    }
    assert(rows.map_values(|row: Seq<Result<Seq<char>, specta_typescript::ExportError>>| ts::row_texts(row))
        =~= Seq::new(cmds.len(), |i: int| rendered_types(ts, cmds[i], types))) by {
        assert forall|i: int| 0 <= i < cmds.len() implies rows[i] == ts::row_outcomes(ts, cmds[i], types) by {
            assert(rows[i] =~= ts::row_outcomes(ts, cmds[i], types));
        }
    }
}

/// Where the TypeScript `queryKeys`, `queries` or `mutations` object
/// renders, the exporter rendered every argument type of each of its
/// commands, and the object holds that command's whole entry: its member
/// name, its parameters typed with those rendered types in order, the
/// options' type arguments (data type, error type, and for a mutation the
/// type of its variables), the lookup of its key and the call of its
/// command.
pub proof fn law_typescript_entries_are_typed(ts: Typescript, cfg: ExportContext)
    ensures
        ts::query_keys_result(ts, cfg) matches Ok(s) ==> forall|i: int|
            #![trigger cfg.queries@[i]]
            0 <= i < cfg.queries@.len() ==> {
                &&& all_rendered(ts, cfg.queries@[i], cfg.type_map)
                &&& occurs(
                    ts::query_key_entry(
                        cfg.plugin_name,
                        cfg.queries@[i],
                        rendered_types(ts, cfg.queries@[i], cfg.type_map),
                    ),
                    s,
                )
            },
        ts::queries_result(ts, cfg) matches Ok(s) ==> forall|i: int|
            #![trigger cfg.queries@[i]]
            0 <= i < cfg.queries@.len() ==> {
                &&& all_rendered(ts, cfg.queries@[i], cfg.type_map)
                &&& occurs(
                    ts::query_entry(cfg.queries@[i], rendered_types(ts, cfg.queries@[i], cfg.type_map)),
                    s,
                )
            },
        ts::mutations_result(ts, cfg) matches Ok(s) ==> forall|i: int|
            #![trigger cfg.mutations@[i]]
            0 <= i < cfg.mutations@.len() ==> {
                &&& all_rendered(ts, cfg.mutations@[i], cfg.type_map)
                &&& occurs(
                    ts::mutation_entry(cfg.mutations@[i], rendered_types(ts, cfg.mutations@[i], cfg.type_map)),
                    s,
                )
            },
{
    let types = cfg.type_map;
    let q = cfg.queries@;
    let m = cfg.mutations@;
    if q.len() > 0 && ts::first_error(ts::arg_outcomes(ts, q, types)) is None {
        lemma_commands_rendered(ts, q, types);
        let tys = Seq::new(q.len(), |i: int| rendered_types(ts, q[i], types));
        let tk = Seq::new(q.len(), |k: int| ts::query_key_entry(cfg.plugin_name, q[k], tys[k]));
        let tq = Seq::new(q.len(), |k: int| ts::query_entry(q[k], tys[k]));
        assert(ts::query_keys_result(ts, cfg) == Ok::<Seq<char>, crate::context::RenderError>(ts::query_keys(cfg, tys)));
        assert(ts::queries_result(ts, cfg) == Ok::<Seq<char>, crate::context::RenderError>(ts::queries(cfg, tys)));
        assert forall|i: int| #![trigger q[i]] 0 <= i < q.len() implies occurs(
            ts::query_key_entry(cfg.plugin_name, q[i], rendered_types(ts, q[i], types)),
            ts::query_keys(cfg, tys),
        ) && occurs(ts::query_entry(q[i], rendered_types(ts, q[i], types)), ts::queries(cfg, tys)) by {
            lemma_entry_occurs_in_section("queryKeys"@, tk, i);
            lemma_entry_occurs_in_section("queries"@, tq, i);
        }
    }
    if m.len() > 0 && ts::first_error(ts::arg_outcomes(ts, m, types)) is None {
        lemma_commands_rendered(ts, m, types);
        let tys = Seq::new(m.len(), |i: int| rendered_types(ts, m[i], types));
        let tm = Seq::new(m.len(), |k: int| ts::mutation_entry(m[k], tys[k]));
        assert(ts::mutations_result(ts, cfg) == Ok::<Seq<char>, crate::context::RenderError>(ts::mutations(cfg, tys)));
        assert forall|i: int| #![trigger m[i]] 0 <= i < m.len() implies occurs(
            ts::mutation_entry(m[i], rendered_types(ts, m[i], types)),
            ts::mutations(cfg, tys),
        ) by {
            lemma_entry_occurs_in_section("mutations"@, tm, i);
        }
    }
}

proof fn lemma_error_index_in_row(row: Seq<Result<Seq<char>, specta_typescript::ExportError>>, e: specta_typescript::ExportError) -> (j: int)
    requires
        ts::first_error_in(row) == Some(e),
    ensures
        0 <= j < row.len(),
        row[j] == Err::<Seq<char>, specta_typescript::ExportError>(e),
        forall|k: int| 0 <= k < j ==> #[trigger] row[k] is Ok,
    decreases row.len(),
{
    if row[0] is Err {
        0
    } else {
        let j = lemma_error_index_in_row(row.drop_first(), e);
        assert forall|k: int| 0 <= k < j + 1 implies #[trigger] row[k] is Ok by {
            if k > 0 {
                assert(row[k] == row.drop_first()[k - 1]);
            }
        }
        assert(row[j + 1] == row.drop_first()[j]);
        j + 1
    }
}

proof fn lemma_error_index(rows: Seq<Seq<Result<Seq<char>, specta_typescript::ExportError>>>, e: specta_typescript::ExportError) -> (ij: (int, int))
    requires
        ts::first_error(rows) == Some(e),
    ensures
        0 <= ij.0 < rows.len(),
        0 <= ij.1 < rows[ij.0].len(),
        rows[ij.0][ij.1] == Err::<Seq<char>, specta_typescript::ExportError>(e),
        forall|k: int| 0 <= k < ij.1 ==> #[trigger] rows[ij.0][k] is Ok,
        forall|h: int| 0 <= h < ij.0 ==> ts::first_error_in(#[trigger] rows[h]) is None,
    decreases rows.len(),
{
    if ts::first_error_in(rows[0]) is Some {
        let j = lemma_error_index_in_row(rows[0], e);
        (0, j)
    } else {
        let (i, j) = lemma_error_index(rows.drop_first(), e);
        assert(rows[i + 1] == rows.drop_first()[i]);
        assert forall|h: int| 0 <= h < i + 1 implies ts::first_error_in(#[trigger] rows[h]) is None by {
            if h > 0 {
                assert(rows[h] == rows.drop_first()[h - 1]);
            }
        }
        (i + 1, j)
    }
}

/// The exporter answers some argument type of `cmds` with an error.
pub open spec fn some_failure(ts: Typescript, cmds: Seq<Command>, types: TypeCollection) -> bool {
    exists|i: int, j: int|
        0 <= i < cmds.len() && 0 <= j < cmds[i].args@.len() && #[trigger] exported(
            ts,
            cmds[i].args@[j].ty,
            types,
        ) is Err
}

/// Argument `j` of command `i` is the first of `cmds`, command by command
/// and in order, whose type the exporter answers with an error, and `e` is
/// that error.
pub open spec fn first_failure(
    ts: Typescript,
    cmds: Seq<Command>,
    types: TypeCollection,
    i: int,
    j: int,
    e: specta_typescript::ExportError,
) -> bool {
    &&& 0 <= i < cmds.len()
    &&& 0 <= j < cmds[i].args@.len()
    &&& exported(ts, cmds[i].args@[j].ty, types) == Err::<Seq<char>, specta_typescript::ExportError>(e)
    &&& forall|k: int| 0 <= k < j ==> #[trigger] exported(ts, cmds[i].args@[k].ty, types) is Ok
    &&& forall|h: int, k: int|
        0 <= h < i && 0 <= k < cmds[h].args@.len() ==> #[trigger] exported(ts, cmds[h].args@[k].ty, types) is Ok
}

proof fn lemma_failures(ts: Typescript, cmds: Seq<Command>, types: TypeCollection)
    ensures
        ts::first_error(ts::arg_outcomes(ts, cmds, types)) is Some <==> some_failure(ts, cmds, types),
        ts::first_error(ts::arg_outcomes(ts, cmds, types)) matches Some(e) ==> exists|i: int, j: int|
            first_failure(ts, cmds, types, i, j, e),
{
    let rows = ts::arg_outcomes(ts, cmds, types);
    match ts::first_error(rows) {
        None => {
            lemma_commands_rendered(ts, cmds, types);
            if some_failure(ts, cmds, types) {
                let (i, j) = choose|i: int, j: int|
                    0 <= i < cmds.len() && 0 <= j < cmds[i].args@.len() && #[trigger] exported(
                        ts,
                        cmds[i].args@[j].ty,
                        types,
                    ) is Err;
                assert(all_rendered(ts, cmds[i], types));
                assert(exported(ts, cmds[i].args@[j].ty, types) is Ok);
            }
        },
        Some(e) => {
            let (i, j) = lemma_error_index(rows, e);
            assert(rows[i][j] == exported(ts, cmds[i].args@[j].ty, types));
            assert forall|k: int| 0 <= k < j implies #[trigger] exported(ts, cmds[i].args@[k].ty, types) is Ok by {
                assert(rows[i][k] == exported(ts, cmds[i].args@[k].ty, types));
            }
            assert forall|h: int, k: int| 0 <= h < i && 0 <= k < cmds[h].args@.len() implies #[trigger] exported(
                ts,
                cmds[h].args@[k].ty,
                types,
            ) is Ok by {
                lemma_row_without_error(rows[h]);
                assert(rows[h][k] == exported(ts, cmds[h].args@[k].ty, types));
            }
            assert(first_failure(ts, cmds, types, i, j, e));
        },
    }
}

proof fn lemma_first_failure_of(ts: Typescript, cmds: Seq<Command>, types: TypeCollection, e: specta_typescript::ExportError)
    requires
        ts::collected(ts::arg_outcomes(ts, cmds, types)) == Err::<Seq<Seq<Seq<char>>>, specta_typescript::ExportError>(e),
    ensures
        exists|i: int, j: int| first_failure(ts, cmds, types, i, j, e),
{
    let rows = ts::arg_outcomes(ts, cmds, types);
    assert(ts::first_error(rows) == Some(e));
    lemma_failures(ts, cmds, types);
    let (i, j) = choose|i: int, j: int| first_failure(ts, cmds, types, i, j, e);
    assert(first_failure(ts, cmds, types, i, j, e));
}

/// The TypeScript `queryKeys`, `queries` and `mutations` objects fail
/// exactly when the exporter answers some argument type of their commands
/// with an error, and then with the first such error, command by command
/// and argument by argument; commands without arguments never make them
/// fail.
pub proof fn law_typescript_fails_with_first_error(ts: Typescript, cfg: ExportContext)
    ensures
        ts::query_keys_result(ts, cfg) is Err <==> some_failure(ts, cfg.queries@, cfg.type_map),
        ts::queries_result(ts, cfg) is Err <==> some_failure(ts, cfg.queries@, cfg.type_map),
        ts::mutations_result(ts, cfg) is Err <==> some_failure(ts, cfg.mutations@, cfg.type_map),
        ts::query_keys_result(ts, cfg) matches Err(crate::context::RenderError::Export(e)) ==> exists|i: int, j: int|
            first_failure(ts, cfg.queries@, cfg.type_map, i, j, e),
        ts::queries_result(ts, cfg) matches Err(crate::context::RenderError::Export(e)) ==> exists|i: int, j: int|
            first_failure(ts, cfg.queries@, cfg.type_map, i, j, e),
        ts::mutations_result(ts, cfg) matches Err(crate::context::RenderError::Export(e)) ==> exists|i: int, j: int|
            first_failure(ts, cfg.mutations@, cfg.type_map, i, j, e),
{
    lemma_failures(ts, cfg.queries@, cfg.type_map);
    lemma_failures(ts, cfg.mutations@, cfg.type_map);
    if let Err(crate::context::RenderError::Export(e)) = ts::query_keys_result(ts, cfg) {
        lemma_first_failure_of(ts, cfg.queries@, cfg.type_map, e);
    }
    if let Err(crate::context::RenderError::Export(e)) = ts::queries_result(ts, cfg) {
        lemma_first_failure_of(ts, cfg.queries@, cfg.type_map, e);
    }
    if let Err(crate::context::RenderError::Export(e)) = ts::mutations_result(ts, cfg) {
        lemma_first_failure_of(ts, cfg.mutations@, cfg.type_map, e);
    }
}

/// How the options of a mutation end: the call of its command.
pub open spec fn mutation_tail(c: Command) -> Seq<char> {
    ") => "@ + command_call(camel_name(c), call_args(c), c.uses_typed_error) + " })"@
}

/// How the JavaScript options of a mutation begin: the member name, then the
/// lookup of the mutation's key in `mutationKeys`, called without arguments.
pub open spec fn js_mutation_head(c: Command) -> Seq<char> {
    camel_name(c) + ": () => TANSTACK_MUTATION_OPTIONS({ mutationKey: mutationKeys."@ + camel_name(c) + "()"@
}

/// How the TypeScript options of a mutation end: the lookup of its key in
/// `mutationKeys`, called without arguments, then the mutation function.
pub open spec fn ts_mutation_tail(c: Command, tys: Seq<Seq<char>>) -> Seq<char> {
    "({ mutationKey: mutationKeys."@ + camel_name(c) + "(), mutationFn: ("@ + ts::mutation_param(c, tys)
        + mutation_tail(c)
}

/// How the key function of a mutation begins: the member name and an empty
/// parameter list.
pub open spec fn mutation_key_head(c: Command) -> Seq<char> {
    camel_name(c) + ": () => ["@
}

proof fn lemma_mutation_entries(plugin: Option<String>, c: Command, tys: Seq<Seq<char>>)
    ensures
        mutation_key_head(c).is_prefix_of(js::mutation_key_entry(plugin, c)),
        mutation_key_head(c).is_prefix_of(ts::mutation_key_entry(plugin, c)),
        js_mutation_head(c).is_prefix_of(js::mutation_entry(c)),
        mutation_tail(c).is_suffix_of(js::mutation_entry(c)),
        ts_mutation_tail(c, tys).is_suffix_of(ts::mutation_entry(c, tys)),
        mutation_tail(c).is_suffix_of(ts::mutation_entry(c, tys)),
{
    let name = camel_name(c);
    let prefix = key_prefix(plugin, name);
    let call = command_call(name, call_args(c), c.uses_typed_error);
    lemma_prefix(mutation_key_head(c), prefix + "]"@);
    lemma_prefix(mutation_key_head(c), prefix + "] as const"@);
    assert(js::mutation_key_entry(plugin, c) =~= mutation_key_head(c) + (prefix + "]"@));
    assert(ts::mutation_key_entry(plugin, c) =~= mutation_key_head(c) + (prefix + "] as const"@));
    reveal_strlit("(), mutationFn: (");
    reveal_strlit("()");
    reveal_strlit(", mutationFn: (");
    reveal_strlit(") => ");
    let js_rest = ", mutationFn: ("@ + js::mutation_param(c) + mutation_tail(c);
    assert(js::mutation_entry(c) =~= js_mutation_head(c) + js_rest);
    lemma_prefix(js_mutation_head(c), js_rest);
    let js_front = js_mutation_head(c) + ", mutationFn: ("@ + js::mutation_param(c);
    assert(js::mutation_entry(c) =~= js_front + mutation_tail(c));
    lemma_suffix(js_front, mutation_tail(c));
    let ts_front = name + ": () => TANSTACK_MUTATION_OPTIONS"@ + ts::mutation_generics(c, tys);
    assert(ts::mutation_entry(c, tys) =~= ts_front + ts_mutation_tail(c, tys));
    lemma_suffix(ts_front, ts_mutation_tail(c, tys));
    let ts_front2 = ts_front + "({ mutationKey: mutationKeys."@ + name + "(), mutationFn: ("@ + ts::mutation_param(c, tys);
    assert(ts::mutation_entry(c, tys) =~= ts_front2 + mutation_tail(c));
    lemma_suffix(ts_front2, mutation_tail(c));
}

/// For every mutation, the rendered `mutationKeys` object defines its key
/// under the mutation's member name as a function without parameters, and
/// the rendered `mutations` object looks that key up, calling it without
/// arguments, and ends with the call of the mutation's command, in both
/// clients.
pub proof fn law_mutations_use_their_keys(cfg: ExportContext, tys: Seq<Seq<Seq<char>>>)
    ensures
        forall|i: int| #![trigger cfg.mutations@[i]] 0 <= i < cfg.mutations@.len() ==> {
            let c = cfg.mutations@[i];
            &&& occurs(mutation_key_head(c), js::mutation_keys(cfg))
            &&& occurs(mutation_key_head(c), ts::mutation_keys(cfg))
            &&& occurs(js_mutation_head(c), js::mutations(cfg))
            &&& occurs(ts_mutation_tail(c, tys[i]), ts::mutations(cfg, tys))
            &&& occurs(mutation_tail(c), js::mutations(cfg))
        },
{
    assert forall|i: int| #![trigger cfg.mutations@[i]] 0 <= i < cfg.mutations@.len() implies {
        let c = cfg.mutations@[i];
        &&& occurs(mutation_key_head(c), js::mutation_keys(cfg))
        &&& occurs(mutation_key_head(c), ts::mutation_keys(cfg))
        &&& occurs(js_mutation_head(c), js::mutations(cfg))
        &&& occurs(ts_mutation_tail(c, tys[i]), ts::mutations(cfg, tys))
        &&& occurs(mutation_tail(c), js::mutations(cfg))
    } by {
        let c = cfg.mutations@[i];
        let n = cfg.mutations@.len();
        let jk = Seq::new(n, |k: int| js::mutation_key_entry(cfg.plugin_name, cfg.mutations@[k]));
        let tk = Seq::new(n, |k: int| ts::mutation_key_entry(cfg.plugin_name, cfg.mutations@[k]));
        let jm = Seq::new(n, |k: int| js::mutation_entry(cfg.mutations@[k]));
        let tm = Seq::new(n, |k: int| ts::mutation_entry(cfg.mutations@[k], tys[k]));
        lemma_mutation_entries(cfg.plugin_name, c, tys[i]);
        lemma_entry_occurs_in_section("mutationKeys"@, jk, i);
        lemma_entry_occurs_in_section("mutationKeys"@, tk, i);
        lemma_entry_occurs_in_section("mutations"@, jm, i);
        lemma_entry_occurs_in_section("mutations"@, tm, i);
        lemma_prefix_occurs(mutation_key_head(c), jk[i]);
        lemma_occurs_trans(mutation_key_head(c), jk[i], js::mutation_keys(cfg));
        lemma_prefix_occurs(mutation_key_head(c), tk[i]);
        lemma_occurs_trans(mutation_key_head(c), tk[i], ts::mutation_keys(cfg));
        lemma_prefix_occurs(js_mutation_head(c), jm[i]);
        lemma_occurs_trans(js_mutation_head(c), jm[i], js::mutations(cfg));
        lemma_suffix_occurs(ts_mutation_tail(c, tys[i]), tm[i]);
        lemma_occurs_trans(ts_mutation_tail(c, tys[i]), tm[i], ts::mutations(cfg, tys));
        lemma_suffix_occurs(mutation_tail(c), jm[i]);
        lemma_occurs_trans(mutation_tail(c), jm[i], js::mutations(cfg));
    }
}

/// The TypeScript key of a mutation, and of a query without arguments, is
/// the JavaScript key marked `as const`.
pub proof fn law_typescript_keys_are_const(plugin: Option<String>, c: Command, tys: Seq<Seq<char>>)
    ensures
        ts::mutation_key_entry(plugin, c) == js::mutation_key_entry(plugin, c) + " as const"@,
        c.args@.len() == 0 ==> ts::query_key_entry(plugin, c, tys) == js::query_key_entry(plugin, c)
            + " as const"@,
{
    reveal_strlit("] as const");
    reveal_strlit("]");
    reveal_strlit(" as const");
    assert("] as const"@ =~= "]"@ + " as const"@);
    let name = camel_name(c);
    let prefix = key_prefix(plugin, name);
    assert(ts::mutation_key_entry(plugin, c) =~= js::mutation_key_entry(plugin, c) + " as const"@);
    if c.args@.len() == 0 {
        assert(ts::query_key_entry(plugin, c, tys) =~= js::query_key_entry(plugin, c) + " as const"@);
    }
}

proof fn lemma_section_nonempty(title: Seq<char>, entries: Seq<Seq<char>>)
    ensures
        section(title, entries).len() > 0,
{
    reveal_strlit("\nexport const ");
}

/// With a TanStack framework configured, the import brings in
/// `queryOptions as TANSTACK_QUERY_OPTIONS` exactly when the rendered
/// `queries` object is non-empty and `mutationOptions as
/// TANSTACK_MUTATION_OPTIONS` exactly when the rendered `mutations` object is
/// non-empty, in either client; the import is empty exactly when both are.
pub proof fn law_import_matches_options(
    cfg: ExportContext,
    query_tys: Seq<Seq<Seq<char>>>,
    mutation_tys: Seq<Seq<Seq<char>>>,
)
    requires
        cfg.tanstack is Some,
    ensures
        ({
            let has_queries = js::queries(cfg).len() > 0;
            let has_mutations = js::mutations(cfg).len() > 0;
            let imports = js::tanstack_imports(has_queries, has_mutations);
            &&& has_queries == (ts::queries(cfg, query_tys).len() > 0)
            &&& has_mutations == (ts::mutations(cfg, mutation_tys).len() > 0)
            &&& (js::tanstack_import(cfg).len() == 0 <==> !has_queries && !has_mutations)
            &&& (has_queries || has_mutations) ==> js::tanstack_import(cfg) == "import { "@ + join(
                imports,
                ", "@,
            ) + " } from \""@ + cfg.tanstack->0@ + "\";\n"@
            &&& (imports.contains("queryOptions as TANSTACK_QUERY_OPTIONS"@) <==> has_queries)
            &&& (imports.contains("mutationOptions as TANSTACK_MUTATION_OPTIONS"@) <==> has_mutations)
        }),
{
    let has_queries = js::queries(cfg).len() > 0;
    let has_mutations = js::mutations(cfg).len() > 0;
    if cfg.queries@.len() > 0 {
        lemma_section_nonempty(
            "queries"@,
            Seq::new(cfg.queries@.len(), |i: int| js::query_entry(cfg.queries@[i])),
        );
        lemma_section_nonempty(
            "queries"@,
            Seq::new(cfg.queries@.len(), |i: int| ts::query_entry(cfg.queries@[i], query_tys[i])),
        );
    }
    if cfg.mutations@.len() > 0 {
        lemma_section_nonempty(
            "mutations"@,
            Seq::new(cfg.mutations@.len(), |i: int| js::mutation_entry(cfg.mutations@[i])),
        );
        lemma_section_nonempty(
            "mutations"@,
            Seq::new(cfg.mutations@.len(), |i: int| ts::mutation_entry(cfg.mutations@[i], mutation_tys[i])),
        );
    }
    assert(has_queries == (cfg.queries@.len() > 0));
    assert(has_mutations == (cfg.mutations@.len() > 0));
    reveal_strlit("import { ");
    reveal_strlit("queryOptions as TANSTACK_QUERY_OPTIONS");
    reveal_strlit("mutationOptions as TANSTACK_MUTATION_OPTIONS");
    let q = "queryOptions as TANSTACK_QUERY_OPTIONS"@;
    let m = "mutationOptions as TANSTACK_MUTATION_OPTIONS"@;
    assert(q != m) by {
        assert(q[0] != m[0]);
    }
    let imports = js::tanstack_imports(has_queries, has_mutations);
    if has_queries {
        assert(imports[0] == q);
    }
    if has_mutations {
        assert(imports[imports.len() - 1] == m);
    }
    if imports.contains(q) {
        let k = choose|k: int| 0 <= k < imports.len() && imports[k] == q;
        assert(has_queries);
    }
    if imports.contains(m) {
        let k = choose|k: int| 0 <= k < imports.len() && imports[k] == m;
        assert(has_mutations);
    }
}

/// Each rendered object is empty exactly when the export has nothing for
/// it: the key and option objects when there is no query (respectively no
/// mutation), the events object when there are no events; otherwise the
/// object is rendered.
pub proof fn law_objects_empty_exactly_without_members(
    cfg: ExportContext,
    query_tys: Seq<Seq<Seq<char>>>,
    mutation_tys: Seq<Seq<Seq<char>>>,
    events: Option<EventsData>,
)
    ensures
        (js::query_keys(cfg).len() == 0) == (cfg.queries@.len() == 0),
        (js::queries(cfg).len() == 0) == (cfg.queries@.len() == 0),
        (ts::query_keys(cfg, query_tys).len() == 0) == (cfg.queries@.len() == 0),
        (ts::queries(cfg, query_tys).len() == 0) == (cfg.queries@.len() == 0),
        (js::mutation_keys(cfg).len() == 0) == (cfg.mutations@.len() == 0),
        (js::mutations(cfg).len() == 0) == (cfg.mutations@.len() == 0),
        (ts::mutation_keys(cfg).len() == 0) == (cfg.mutations@.len() == 0),
        (ts::mutations(cfg, mutation_tys).len() == 0) == (cfg.mutations@.len() == 0),
        (js::events_object(events).len() == 0) == (events is None),
        (ts::events_object(events).len() == 0) == (events is None),
{
    reveal_strlit("\nexport const ");
    reveal_strlit("\n    ");
    reveal_strlit("\nexport const events = __makeEvents__<{\n");
}


/// The name under which the generated queries use TanStack's `queryOptions`.
pub open spec fn query_builder() -> Seq<char> {
    "TANSTACK_QUERY_OPTIONS"@
}

/// The name under which the generated mutations use TanStack's
/// `mutationOptions`.
pub open spec fn mutation_builder() -> Seq<char> {
    "TANSTACK_MUTATION_OPTIONS"@
}

proof fn lemma_not_occurs_in_empty(t: Seq<char>)
    requires
        t.len() > 0,
    ensures
        !occurs(t, Seq::<char>::empty()),
{
}

/// `t` cannot occur in `x + "\"" + p + "\"" + w` when it holds a character
/// `c` that `x` and `w` lack, holds no quote, and does not occur in `p`.
proof fn lemma_absent_around_quoted(t: Seq<char>, pos: int, x: Seq<char>, p: Seq<char>, w: Seq<char>)
    requires
        0 <= pos < t.len(),
        !x.contains(t[pos]),
        !w.contains(t[pos]),
        !t.contains('"'),
        !occurs(t, p),
    ensures
        !occurs(t, x + seq!['"'] + p + seq!['"'] + w),
{
    let s = x + seq!['"'] + p + seq!['"'] + w;
    let q1 = x.len() as int;
    let q2 = (x.len() + 1 + p.len()) as int;
    assert(s[q1] == '"');
    assert(s[q2] == '"');
    if occurs(t, s) {
        let k = choose|k: int| 0 <= k && k + t.len() <= s.len() && #[trigger] s.subrange(k, k + t.len()) == t;
        assert(forall|j: int| 0 <= j < t.len() ==> s[k + j] == #[trigger] t[j]) by {
            assert forall|j: int| 0 <= j < t.len() implies s[k + j] == #[trigger] t[j] by {
                assert(s.subrange(k, k + t.len())[j] == s[k + j]);
            }
        }
        if k + t.len() <= q1 {
            assert(s[k + pos] == x[k + pos]);
            assert(x.contains(t[pos]));
        } else if k <= q1 {
            assert(t[q1 - k] == '"');
            assert(t.contains('"'));
        } else if k + t.len() <= q2 {
            assert(s.subrange(k, k + t.len()) =~= p.subrange(k - q1 - 1, k - q1 - 1 + t.len()));
            lemma_occurs_at(t, p, k - q1 - 1);
        } else if k <= q2 {
            assert(t[q2 - k] == '"');
            assert(t.contains('"'));
        } else {
            assert(s[k + pos] == w[k + pos - q2 - 1]);
            assert(w.contains(t[pos]));
        }
    }
}

proof fn lemma_builder_occurrences()
    ensures
        query_builder().len() == 22,
        query_builder()[9] == 'Q',
        mutation_builder().len() == 25,
        mutation_builder()[9] == 'M',
        occurs(query_builder(), "queryOptions as TANSTACK_QUERY_OPTIONS"@),
        occurs(mutation_builder(), "mutationOptions as TANSTACK_MUTATION_OPTIONS"@),
        occurs(query_builder(), ") => TANSTACK_QUERY_OPTIONS({ queryKey: queryKeys."@),
        occurs(query_builder(), ") => TANSTACK_QUERY_OPTIONS"@),
        occurs(mutation_builder(), ": () => TANSTACK_MUTATION_OPTIONS({ mutationKey: mutationKeys."@),
        occurs(mutation_builder(), ": () => TANSTACK_MUTATION_OPTIONS"@),
{
    reveal_strlit("TANSTACK_QUERY_OPTIONS");
    reveal_strlit("TANSTACK_MUTATION_OPTIONS");
    reveal_strlit("queryOptions as TANSTACK_QUERY_OPTIONS");
    reveal_strlit("mutationOptions as TANSTACK_MUTATION_OPTIONS");
    reveal_strlit(") => TANSTACK_QUERY_OPTIONS({ queryKey: queryKeys.");
    reveal_strlit(") => TANSTACK_QUERY_OPTIONS");
    reveal_strlit(": () => TANSTACK_MUTATION_OPTIONS({ mutationKey: mutationKeys.");
    reveal_strlit(": () => TANSTACK_MUTATION_OPTIONS");
    lemma_occurs_at(query_builder(), "queryOptions as TANSTACK_QUERY_OPTIONS"@, 16);
    lemma_occurs_at(mutation_builder(), "mutationOptions as TANSTACK_MUTATION_OPTIONS"@, 19);
    lemma_occurs_at(query_builder(), ") => TANSTACK_QUERY_OPTIONS({ queryKey: queryKeys."@, 5);
    lemma_occurs_at(query_builder(), ") => TANSTACK_QUERY_OPTIONS"@, 5);
    lemma_occurs_at(mutation_builder(), ": () => TANSTACK_MUTATION_OPTIONS({ mutationKey: mutationKeys."@, 8);
    lemma_occurs_at(mutation_builder(), ": () => TANSTACK_MUTATION_OPTIONS"@, 8);
}

proof fn lemma_import_line_shape(p: Seq<char>, j: Seq<char>)
    ensures
        "import { "@ + j + " } from \""@ + p + "\";\n"@ =~= ("import { "@ + j + " } from "@) + seq!['"'] + p
            + seq!['"'] + ";\n"@,
{
    reveal_strlit(" } from \"");
    reveal_strlit(" } from ");
    reveal_strlit("\";\n");
    reveal_strlit(";\n");
    assert(" } from \""@ =~= " } from "@ + seq!['"']);
    assert("\";\n"@ =~= seq!['"'] + ";\n"@);
}

proof fn lemma_import_without(p: Seq<char>, j: Seq<char>, t: Seq<char>, pos: int)
    requires
        0 <= pos < t.len(),
        !"import { "@.contains(t[pos]),
        !j.contains(t[pos]),
        !" } from "@.contains(t[pos]),
        !";\n"@.contains(t[pos]),
        !t.contains('"'),
        !occurs(t, p),
    ensures
        !occurs(t, "import { "@ + j + " } from \""@ + p + "\";\n"@),
{
    lemma_import_line_shape(p, j);
    lemma_no_char_in_concat("import { "@, j, t[pos]);
    lemma_no_char_in_concat("import { "@ + j, " } from "@, t[pos]);
    lemma_absent_around_quoted(t, pos, "import { "@ + j + " } from "@, p, ";\n"@);
}

proof fn lemma_no_query_builder_in_mutation_import(p: Seq<char>)
    requires
        !occurs(query_builder(), p),
    ensures
        !occurs(query_builder(), "import { "@ + "mutationOptions as TANSTACK_MUTATION_OPTIONS"@ + " } from \""@ + p + "\";\n"@),
{
    reveal_strlit("TANSTACK_QUERY_OPTIONS");
    reveal_strlit("import { ");
    reveal_strlit("mutationOptions as TANSTACK_MUTATION_OPTIONS");
    reveal_strlit(" } from ");
    reveal_strlit(";\n");
    assert(query_builder()[9] == 'Q');
    assert(!query_builder().contains('"'));
    lemma_import_without(p, "mutationOptions as TANSTACK_MUTATION_OPTIONS"@, query_builder(), 9);
}

proof fn lemma_no_mutation_builder_in_query_import(p: Seq<char>)
    requires
        !occurs(mutation_builder(), p),
    ensures
        !occurs(mutation_builder(), "import { "@ + "queryOptions as TANSTACK_QUERY_OPTIONS"@ + " } from \""@ + p + "\";\n"@),
{
    reveal_strlit("TANSTACK_MUTATION_OPTIONS");
    reveal_strlit("import { ");
    reveal_strlit("queryOptions as TANSTACK_QUERY_OPTIONS");
    reveal_strlit(" } from ");
    reveal_strlit(";\n");
    assert(mutation_builder()[9] == 'M');
    assert(!mutation_builder().contains('"'));
    lemma_import_without(p, "queryOptions as TANSTACK_QUERY_OPTIONS"@, mutation_builder(), 9);
}

proof fn lemma_no_char_in_concat(a: Seq<char>, b: Seq<char>, c: char)
    requires
        !a.contains(c),
        !b.contains(c),
    ensures
        !(a + b).contains(c),
{
    if (a + b).contains(c) {
        let k = choose|k: int| 0 <= k < (a + b).len() && (a + b)[k] == c;
        if k < a.len() {
            assert(a[k] == c);
        } else {
            assert(b[k - a.len()] == c);
        }
    }
}

proof fn lemma_js_queries_use_builder(cfg: ExportContext)
    ensures
        occurs(query_builder(), js::queries(cfg)) == (cfg.queries@.len() > 0),
{
    lemma_builder_occurrences();
    let nq = cfg.queries@.len();
    if nq > 0 {
        let c = cfg.queries@[0];
        let jq = Seq::new(nq, |k: int| js::query_entry(cfg.queries@[k]));
        lemma_entry_occurs_in_section("queries"@, jq, 0);
        let lj = ") => TANSTACK_QUERY_OPTIONS({ queryKey: queryKeys."@;
        let aj = camel_name(c) + ": ("@ + call_args(c);
        let bj = camel_name(c) + "("@ + call_args(c) + "), queryFn: () => "@ + command_call(
            camel_name(c),
            call_args(c),
            c.uses_typed_error,
        ) + " })"@;
        assert(jq[0] =~= aj + lj + bj);
        lemma_occurs_around(aj, lj, bj);
        lemma_occurs_trans(query_builder(), lj, jq[0]);
        lemma_occurs_trans(query_builder(), jq[0], js::queries(cfg));
    } else {
        lemma_not_occurs_in_empty(query_builder());
    }
}

proof fn lemma_ts_queries_use_builder(cfg: ExportContext, query_tys: Seq<Seq<Seq<char>>>)
    ensures
        occurs(query_builder(), ts::queries(cfg, query_tys)) == (cfg.queries@.len() > 0),
{
    lemma_builder_occurrences();
    let nq = cfg.queries@.len();
    if nq > 0 {
        let c = cfg.queries@[0];
        let tq = Seq::new(nq, |k: int| ts::query_entry(cfg.queries@[k], query_tys[k]));
        lemma_entry_occurs_in_section("queries"@, tq, 0);
        let lt = ") => TANSTACK_QUERY_OPTIONS"@;
        let at = camel_name(c) + ": ("@ + join(ts::arg_defs(c, query_tys[0], ": "@), ", "@);
        let bt = ts::query_generics(c) + "({ queryKey: queryKeys."@ + camel_name(c) + "("@ + call_args(c)
            + "), queryFn: () => "@ + command_call(camel_name(c), call_args(c), c.uses_typed_error) + " })"@;
        assert(tq[0] =~= at + lt + bt);
        lemma_occurs_around(at, lt, bt);
        lemma_occurs_trans(query_builder(), lt, tq[0]);
        lemma_occurs_trans(query_builder(), tq[0], ts::queries(cfg, query_tys));
    } else {
        lemma_not_occurs_in_empty(query_builder());
    }
}

proof fn lemma_js_mutations_use_builder(cfg: ExportContext)
    ensures
        occurs(mutation_builder(), js::mutations(cfg)) == (cfg.mutations@.len() > 0),
{
    lemma_builder_occurrences();
    let nm = cfg.mutations@.len();
    if nm > 0 {
        let c = cfg.mutations@[0];
        let jm = Seq::new(nm, |k: int| js::mutation_entry(cfg.mutations@[k]));
        lemma_entry_occurs_in_section("mutations"@, jm, 0);
        let lj = ": () => TANSTACK_MUTATION_OPTIONS({ mutationKey: mutationKeys."@;
        let bj = camel_name(c) + "(), mutationFn: ("@ + js::mutation_param(c) + ") => "@ + command_call(
            camel_name(c),
            call_args(c),
            c.uses_typed_error,
        ) + " })"@;
        assert(jm[0] =~= camel_name(c) + lj + bj);
        lemma_occurs_around(camel_name(c), lj, bj);
        lemma_occurs_trans(mutation_builder(), lj, jm[0]);
        lemma_occurs_trans(mutation_builder(), jm[0], js::mutations(cfg));
    } else {
        lemma_not_occurs_in_empty(mutation_builder());
    }
}

proof fn lemma_ts_mutations_use_builder(cfg: ExportContext, mutation_tys: Seq<Seq<Seq<char>>>)
    ensures
        occurs(mutation_builder(), ts::mutations(cfg, mutation_tys)) == (cfg.mutations@.len() > 0),
{
    lemma_builder_occurrences();
    let nm = cfg.mutations@.len();
    if nm > 0 {
        let c = cfg.mutations@[0];
        let tm = Seq::new(nm, |k: int| ts::mutation_entry(cfg.mutations@[k], mutation_tys[k]));
        lemma_entry_occurs_in_section("mutations"@, tm, 0);
        let lt = ": () => TANSTACK_MUTATION_OPTIONS"@;
        let bt = ts::mutation_generics(c, mutation_tys[0]) + "({ mutationKey: mutationKeys."@ + camel_name(c)
            + "(), mutationFn: ("@ + ts::mutation_param(c, mutation_tys[0]) + ") => "@ + command_call(
            camel_name(c),
            call_args(c),
            c.uses_typed_error,
        ) + " })"@;
        assert(tm[0] =~= camel_name(c) + lt + bt);
        lemma_occurs_around(camel_name(c), lt, bt);
        lemma_occurs_trans(mutation_builder(), lt, tm[0]);
        lemma_occurs_trans(mutation_builder(), tm[0], ts::mutations(cfg, mutation_tys));
    } else {
        lemma_not_occurs_in_empty(mutation_builder());
    }
}

/// The import line for package `p` and the given builders.
pub open spec fn import_line(p: Seq<char>, has_queries: bool, has_mutations: bool) -> Seq<char> {
    "import { "@ + join(js::tanstack_imports(has_queries, has_mutations), ", "@) + " } from \""@ + p
        + "\";\n"@
}

proof fn lemma_query_builder_named()
    ensures
        occurs(query_builder(), "queryOptions as TANSTACK_QUERY_OPTIONS"@),
{
    reveal_strlit("TANSTACK_QUERY_OPTIONS");
    reveal_strlit("queryOptions as TANSTACK_QUERY_OPTIONS");
    lemma_occurs_at(query_builder(), "queryOptions as TANSTACK_QUERY_OPTIONS"@, 16);
}

proof fn lemma_mutation_builder_named()
    ensures
        occurs(mutation_builder(), "mutationOptions as TANSTACK_MUTATION_OPTIONS"@),
{
    reveal_strlit("TANSTACK_MUTATION_OPTIONS");
    reveal_strlit("mutationOptions as TANSTACK_MUTATION_OPTIONS");
    lemma_occurs_at(mutation_builder(), "mutationOptions as TANSTACK_MUTATION_OPTIONS"@, 19);
}

proof fn lemma_import_list_in_line(p: Seq<char>, hq: bool, hm: bool)
    ensures
        occurs(join(js::tanstack_imports(hq, hm), ", "@), import_line(p, hq, hm)),
{
    let j = join(js::tanstack_imports(hq, hm), ", "@);
    lemma_occurs_around("import { "@, j, " } from \""@ + p + "\";\n"@);
    assert(import_line(p, hq, hm) =~= "import { "@ + j + (" } from \""@ + p + "\";\n"@));
}

proof fn lemma_import_line_names(p: Seq<char>, hq: bool, hm: bool)
    ensures
        hq ==> occurs(query_builder(), import_line(p, hq, hm)),
        hm ==> occurs(mutation_builder(), import_line(p, hq, hm)),
{
    let imports = js::tanstack_imports(hq, hm);
    let j = join(imports, ", "@);
    lemma_import_list_in_line(p, hq, hm);
    if hq {
        assert(imports[0] == "queryOptions as TANSTACK_QUERY_OPTIONS"@);
        lemma_part_occurs_in_join(imports, ", "@, 0);
        lemma_query_builder_named();
        lemma_occurs_trans(query_builder(), "queryOptions as TANSTACK_QUERY_OPTIONS"@, j);
        lemma_occurs_trans(query_builder(), j, import_line(p, hq, hm));
    }
    if hm {
        assert(imports[imports.len() - 1] == "mutationOptions as TANSTACK_MUTATION_OPTIONS"@);
        lemma_part_occurs_in_join(imports, ", "@, imports.len() - 1);
        lemma_mutation_builder_named();
        lemma_occurs_trans(mutation_builder(), "mutationOptions as TANSTACK_MUTATION_OPTIONS"@, j);
        lemma_occurs_trans(mutation_builder(), j, import_line(p, hq, hm));
    }
}

proof fn lemma_import_line_single(p: Seq<char>)
    ensures
        import_line(p, false, true) == "import { "@ + "mutationOptions as TANSTACK_MUTATION_OPTIONS"@ + " } from \""@ + p + "\";\n"@,
        import_line(p, true, false) == "import { "@ + "queryOptions as TANSTACK_QUERY_OPTIONS"@ + " } from \""@ + p + "\";\n"@,
{
    assert(js::tanstack_imports(false, true) =~= seq!["mutationOptions as TANSTACK_MUTATION_OPTIONS"@]);
    assert(js::tanstack_imports(true, false) =~= seq!["queryOptions as TANSTACK_QUERY_OPTIONS"@]);
}

proof fn lemma_import_is_line(cfg: ExportContext)
    ensures
        js::tanstack_import(cfg) == match cfg.tanstack {
            Some(p) => if cfg.queries@.len() > 0 || cfg.mutations@.len() > 0 {
                import_line(p@, cfg.queries@.len() > 0, cfg.mutations@.len() > 0)
            } else {
                Seq::<char>::empty()
            },
            None => Seq::<char>::empty(),
        },
{
}

proof fn lemma_import_query_builder(cfg: ExportContext)
    requires
        cfg.tanstack matches Some(p) ==> !occurs(query_builder(), p@),
    ensures
        occurs(query_builder(), js::tanstack_import(cfg)) == (cfg.tanstack is Some && cfg.queries@.len() > 0),
{
    lemma_import_is_line(cfg);
    lemma_builder_occurrences();
    lemma_not_occurs_in_empty(query_builder());
    if let Some(p) = cfg.tanstack {
        if cfg.queries@.len() > 0 || cfg.mutations@.len() > 0 {
            lemma_import_line_names(p@, cfg.queries@.len() > 0, cfg.mutations@.len() > 0);
            lemma_import_line_single(p@);
            if cfg.queries@.len() == 0 {
                lemma_no_query_builder_in_mutation_import(p@);
            }
        }
    }
}

proof fn lemma_import_mutation_builder(cfg: ExportContext)
    requires
        cfg.tanstack matches Some(p) ==> !occurs(mutation_builder(), p@),
    ensures
        occurs(mutation_builder(), js::tanstack_import(cfg)) == (cfg.tanstack is Some && cfg.mutations@.len() > 0),
{
    lemma_import_is_line(cfg);
    lemma_builder_occurrences();
    lemma_not_occurs_in_empty(mutation_builder());
    if let Some(p) = cfg.tanstack {
        if cfg.queries@.len() > 0 || cfg.mutations@.len() > 0 {
            lemma_import_line_names(p@, cfg.queries@.len() > 0, cfg.mutations@.len() > 0);
            lemma_import_line_single(p@);
            if cfg.mutations@.len() == 0 {
                lemma_no_mutation_builder_in_query_import(p@);
            }
        }
    }
}

/// Exactly the option builders that the generated code uses are imported:
/// the import line names `TANSTACK_QUERY_OPTIONS` exactly when a framework
/// is configured and there are queries, that is exactly when the rendered
/// `queries` object uses it (in either client), and likewise
/// `TANSTACK_MUTATION_OPTIONS` and the `mutations` object. A package name
/// that itself holds one of these names is left out.
pub proof fn law_import_names_used_builders(
    cfg: ExportContext,
    query_tys: Seq<Seq<Seq<char>>>,
    mutation_tys: Seq<Seq<Seq<char>>>,
)
    requires
        cfg.tanstack matches Some(p) ==> !occurs(query_builder(), p@) && !occurs(mutation_builder(), p@),
    ensures
        occurs(query_builder(), js::tanstack_import(cfg)) == (cfg.tanstack is Some && cfg.queries@.len() > 0),
        occurs(mutation_builder(), js::tanstack_import(cfg)) == (cfg.tanstack is Some && cfg.mutations@.len() > 0),
        cfg.tanstack is Some ==> occurs(query_builder(), js::tanstack_import(cfg)) == occurs(query_builder(), js::queries(cfg)),
        cfg.tanstack is Some ==> occurs(query_builder(), js::tanstack_import(cfg)) == occurs(query_builder(), ts::queries(cfg, query_tys)),
        cfg.tanstack is Some ==> occurs(mutation_builder(), js::tanstack_import(cfg)) == occurs(mutation_builder(), js::mutations(cfg)),
        cfg.tanstack is Some ==> occurs(mutation_builder(), js::tanstack_import(cfg)) == occurs(mutation_builder(), ts::mutations(cfg, mutation_tys)),
{
    lemma_import_query_builder(cfg);
    lemma_import_mutation_builder(cfg);
    lemma_js_queries_use_builder(cfg);
    lemma_ts_queries_use_builder(cfg, query_tys);
    lemma_js_mutations_use_builder(cfg);
    lemma_ts_mutations_use_builder(cfg, mutation_tys);
}

} // verus!
