//! What each rendered key and option entry holds, stated from the
//! command's own fields: its name, arguments, data and error types, and the
//! plugin that owns it.

use vstd::prelude::*;

use crate::context::{Command, ExportContext};
use crate::lang::common::{call_args, camel_arg_names, key_prefix, section};
use crate::lang::{js, ts};
use crate::laws::{lemma_entry_occurs_in_section, lemma_occurs_around, lemma_occurs_at, lemma_occurs_trans, occurs};
use crate::text::{join, lower_camel_case};

verus! {

/// The camel-case argument names of `c`, in order, separated by `", "`.
pub open spec fn argument_names(c: Command) -> Seq<char> {
    join(Seq::new(c.args@.len(), |j: int| lower_camel_case(c.args@[j].name@)), ", "@)
}

/// The arguments of `c` with their types `tys`: each camel-case name, then
/// `sep`, then its type, separated by `", "`.
pub open spec fn typed_arguments(c: Command, tys: Seq<Seq<char>>, sep: Seq<char>) -> Seq<char> {
    join(Seq::new(c.args@.len(), |j: int| lower_camel_case(c.args@[j].name@) + sep + tys[j]), ", "@)
}

/// The quoted elements that open the key of the command `name`: the plugin
/// marker `plugin:<name of the plugin>` where a plugin owns the command,
/// then the command's name.
pub open spec fn key_elements(plugin: Option<String>, name: Seq<char>) -> Seq<char> {
    match plugin {
        Some(p) => "\"plugin:"@ + p@ + "\", \""@ + name + "\""@,
        None => "\""@ + name + "\""@,
    }
}

/// How the TypeScript options of query `c` are typed and keyed: the data
/// type, then the error type where `c` has one, then the lookup of its key
/// with all its argument names.
pub open spec fn typed_query_options(c: Command) -> Seq<char> {
    "TANSTACK_QUERY_OPTIONS<"@ + c.data_type@ + match c.error_type {
        Some(e) => ", "@ + e@,
        None => Seq::empty(),
    } + ">({ queryKey: queryKeys."@ + lower_camel_case(c.name@) + "("@ + argument_names(c) + ")"@
}

/// The type of the variables of mutation `c`: `void` exactly when it has
/// no arguments, else the object of its arguments typed by `tys`.
pub open spec fn variables(c: Command, tys: Seq<Seq<char>>) -> Seq<char> {
    if c.args@.len() == 0 {
        "void"@
    } else {
        "{ "@ + typed_arguments(c, tys, ": "@) + " }"@
    }
}

/// How the TypeScript options of mutation `c` are typed: data type, error
/// type (`Error` where `c` has none) and variables, the lookup of its key,
/// and the parameter of its mutation function, typed by those same
/// variables.
pub open spec fn typed_mutation_options(c: Command, tys: Seq<Seq<char>>) -> Seq<char> {
    "TANSTACK_MUTATION_OPTIONS<"@ + c.data_type@ + ", "@ + match c.error_type {
        Some(e) => e@,
        None => "Error"@,
    } + ", "@ + variables(c, tys) + ">({ mutationKey: mutationKeys."@ + lower_camel_case(c.name@)
        + "(), mutationFn: ("@ + if c.args@.len() == 0 {
        Seq::empty()
    } else {
        "{ "@ + argument_names(c) + " }: "@ + variables(c, tys)
    } + ") => "@
}

/// The TypeScript key function of query `c` owned by `plugin`, its
/// arguments typed by `tys`: a constant key without arguments, else a key
/// filtered by an object of all its argument names.
pub open spec fn typescript_query_key(plugin: Option<String>, c: Command, tys: Seq<Seq<char>>) -> Seq<char> {
    let name = lower_camel_case(c.name@);
    if c.args@.len() == 0 {
        name + ": () => ["@ + key_elements(plugin, name) + "] as const"@
    } else {
        name + ": ("@ + typed_arguments(c, tys, "?: "@) + ") => filterKey(["@ + key_elements(plugin, name)
            + "] as const, { "@ + argument_names(c) + " })"@
    }
}

/// The JavaScript key function of query `c` owned by `plugin`.
pub open spec fn javascript_query_key(plugin: Option<String>, c: Command) -> Seq<char> {
    let name = lower_camel_case(c.name@);
    if c.args@.len() == 0 {
        name + ": () => ["@ + key_elements(plugin, name) + "]"@
    } else {
        name + ": ("@ + argument_names(c) + ") => filterKey(["@ + key_elements(plugin, name) + "], { "@
            + argument_names(c) + " })"@
    }
}

/// The key function of mutation `c` owned by `plugin`, in the JavaScript
/// client; the TypeScript one adds ` as const`.
pub open spec fn mutation_key(plugin: Option<String>, c: Command) -> Seq<char> {
    let name = lower_camel_case(c.name@);
    name + ": () => ["@ + key_elements(plugin, name) + "]"@
}

proof fn lemma_names(c: Command)
    ensures
        call_args(c) == argument_names(c),
        forall|plugin: Option<String>, name: Seq<char>| #[trigger] key_prefix(plugin, name) == key_elements(plugin, name),
{
    assert(camel_arg_names(c) =~= Seq::new(c.args@.len(), |j: int| lower_camel_case(c.args@[j].name@)));
}

proof fn lemma_typed(c: Command, tys: Seq<Seq<char>>, sep: Seq<char>)
    ensures
        join(ts::arg_defs(c, tys, sep), ", "@) == typed_arguments(c, tys, sep),
{
    assert(ts::arg_defs(c, tys, sep) =~= Seq::new(
        c.args@.len(),
        |j: int| lower_camel_case(c.args@[j].name@) + sep + tys[j],
    ));
}

proof fn lemma_in_section(title: Seq<char>, entries: Seq<Seq<char>>, i: int, t: Seq<char>)
    requires
        0 <= i < entries.len(),
        occurs(t, entries[i]),
    ensures
        occurs(t, section(title, entries)),
{
    lemma_entry_occurs_in_section(title, entries, i);
    lemma_occurs_trans(t, entries[i], section(title, entries));
}

proof fn lemma_itself(t: Seq<char>)
    ensures
        occurs(t, t),
{
    lemma_occurs_at(t, t, 0);
}

proof fn lemma_query_literals()
    ensures
        ") => TANSTACK_QUERY_OPTIONS"@ =~= ") => "@ + "TANSTACK_QUERY_OPTIONS"@,
        "TANSTACK_QUERY_OPTIONS<"@ =~= "TANSTACK_QUERY_OPTIONS"@ + "<"@,
        ">({ queryKey: queryKeys."@ =~= ">"@ + "({ queryKey: queryKeys."@,
        "), queryFn: () => "@ =~= ")"@ + ", queryFn: () => "@,
{
    reveal_strlit(") => TANSTACK_QUERY_OPTIONS");
    reveal_strlit(") => ");
    reveal_strlit("TANSTACK_QUERY_OPTIONS");
    reveal_strlit("TANSTACK_QUERY_OPTIONS<");
    reveal_strlit("<");
    reveal_strlit(">({ queryKey: queryKeys.");
    reveal_strlit("({ queryKey: queryKeys.");
    reveal_strlit(">");
    reveal_strlit("), queryFn: () => ");
    reveal_strlit(")");
    reveal_strlit(", queryFn: () => ");
}

/// The type arguments of a query's options.
spec fn query_type_arguments(c: Command) -> Seq<char> {
    "<"@ + c.data_type@ + match c.error_type {
        Some(e) => ", "@ + e@,
        None => Seq::empty(),
    } + ">"@
}

proof fn lemma_query_head(c: Command)
    ensures
        ts::query_generics(c) == query_type_arguments(c),
        typed_query_options(c) =~= "TANSTACK_QUERY_OPTIONS"@ + query_type_arguments(c) + "({ queryKey: queryKeys."@
            + lower_camel_case(c.name@) + "("@ + argument_names(c) + ")"@,
{
    lemma_query_literals();
    match c.error_type {
        Some(e) => {
            assert(ts::query_generics(c) =~= query_type_arguments(c));
        },
        None => {
            assert(ts::query_generics(c) =~= query_type_arguments(c));
        },
    }
}

proof fn lemma_query_options(c: Command, tys: Seq<Seq<char>>)
    ensures
        occurs(typed_query_options(c), ts::query_entry(c, tys)),
{
    lemma_query_literals();
    lemma_names(c);
    lemma_query_head(c);
    let name = lower_camel_case(c.name@);
    let args = argument_names(c);
    let defs = join(ts::arg_defs(c, tys, ": "@), ", "@);
    let call = crate::lang::common::command_call(name, args, c.uses_typed_error);
    let a = name + ": ("@ + defs + ") => "@;
    let b = ", queryFn: () => "@ + call + " })"@;
    let t = typed_query_options(c);
    let g = query_type_arguments(c);
    let e = ts::query_entry(c, tys);
    assert(e == name + ": ("@ + defs + ") => TANSTACK_QUERY_OPTIONS"@ + g + "({ queryKey: queryKeys."@ + name + "("@
        + args + "), queryFn: () => "@ + call + " })"@);
    assert(e =~= a + t + b);
    lemma_occurs_around(a, t, b);
}

proof fn lemma_mutation_options(c: Command, tys: Seq<Seq<char>>)
    ensures
        occurs(typed_mutation_options(c, tys), ts::mutation_entry(c, tys)),
{
    reveal_strlit(": () => TANSTACK_MUTATION_OPTIONS");
    reveal_strlit(": () => ");
    reveal_strlit("TANSTACK_MUTATION_OPTIONS<");
    reveal_strlit("<");
    reveal_strlit(">");
    reveal_strlit(", ");
    reveal_strlit(", Error, ");
    reveal_strlit("Error");
    reveal_strlit(">({ mutationKey: mutationKeys.");
    reveal_strlit("({ mutationKey: mutationKeys.");
    lemma_names(c);
    lemma_typed(c, tys, ": "@);
    let name = lower_camel_case(c.name@);
    let err = match c.error_type {
        Some(e) => e@,
        None => "Error"@,
    };
    assert(ts::variables_type(c, tys) == variables(c, tys));
    assert(ts::mutation_generics(c, tys) =~= "<"@ + c.data_type@ + ", "@ + err + ", "@ + variables(c, tys) + ">"@);
    let a = name + ": () => "@;
    let b = crate::lang::common::command_call(name, call_args(c), c.uses_typed_error) + " })"@;
    assert(ts::mutation_entry(c, tys) =~= a + typed_mutation_options(c, tys) + b);
    lemma_occurs_around(a, typed_mutation_options(c, tys), b);
}

/// The TypeScript options of every query are typed by its data type and,
/// where it has one, its error type (never by its return type), and look
/// up its key with all its arguments.
pub proof fn law_query_options_typed_by_data_and_error(cfg: ExportContext, tys: Seq<Seq<Seq<char>>>)
    ensures
        forall|i: int|
            #![trigger cfg.queries@[i]]
            0 <= i < cfg.queries@.len() ==> occurs(typed_query_options(cfg.queries@[i]), ts::queries(cfg, tys)),
{
    assert forall|i: int| #![trigger cfg.queries@[i]] 0 <= i < cfg.queries@.len() implies occurs(
        typed_query_options(cfg.queries@[i]),
        ts::queries(cfg, tys),
    ) by {
        let entries = Seq::new(cfg.queries@.len(), |k: int| ts::query_entry(cfg.queries@[k], tys[k]));
        lemma_query_options(cfg.queries@[i], tys[i]);
        lemma_in_section("queries"@, entries, i, typed_query_options(cfg.queries@[i]));
    }
}

/// The TypeScript options of every mutation are typed by its data type,
/// its error type (`Error` where it has none) and its variables, and its
/// mutation function takes its arguments typed by those same variables:
/// `void` and no parameter exactly when it has no arguments.
pub proof fn law_mutation_options_typed_by_their_variables(cfg: ExportContext, tys: Seq<Seq<Seq<char>>>)
    ensures
        forall|i: int|
            #![trigger cfg.mutations@[i]]
            0 <= i < cfg.mutations@.len() ==> occurs(
                typed_mutation_options(cfg.mutations@[i], tys[i]),
                ts::mutations(cfg, tys),
            ),
{
    assert forall|i: int| #![trigger cfg.mutations@[i]] 0 <= i < cfg.mutations@.len() implies occurs(
        typed_mutation_options(cfg.mutations@[i], tys[i]),
        ts::mutations(cfg, tys),
    ) by {
        let entries = Seq::new(cfg.mutations@.len(), |k: int| ts::mutation_entry(cfg.mutations@[k], tys[k]));
        lemma_mutation_options(cfg.mutations@[i], tys[i]);
        lemma_in_section("mutations"@, entries, i, typed_mutation_options(cfg.mutations@[i], tys[i]));
    }
}

/// The key function of every query, in both clients, opens its key with
/// the plugin marker where a plugin owns the export and the query's name,
/// and, where the query has arguments, filters the key by an object of all
/// its argument names, in order.
pub proof fn law_query_keys_hold_plugin_and_all_arguments(cfg: ExportContext, tys: Seq<Seq<Seq<char>>>)
    ensures
        forall|i: int|
            #![trigger cfg.queries@[i]]
            0 <= i < cfg.queries@.len() ==> {
                &&& occurs(typescript_query_key(cfg.plugin_name, cfg.queries@[i], tys[i]), ts::query_keys(cfg, tys))
                &&& occurs(javascript_query_key(cfg.plugin_name, cfg.queries@[i]), js::query_keys(cfg))
            },
{
    assert forall|i: int| #![trigger cfg.queries@[i]] 0 <= i < cfg.queries@.len() implies {
        &&& occurs(typescript_query_key(cfg.plugin_name, cfg.queries@[i], tys[i]), ts::query_keys(cfg, tys))
        &&& occurs(javascript_query_key(cfg.plugin_name, cfg.queries@[i]), js::query_keys(cfg))
    } by {
        let c = cfg.queries@[i];
        let n = cfg.queries@.len();
        lemma_names(c);
        lemma_typed(c, tys[i], "?: "@);
        let name = lower_camel_case(c.name@);
        assert(key_prefix(cfg.plugin_name, name) == key_elements(cfg.plugin_name, name));
        let tk = Seq::new(n, |k: int| ts::query_key_entry(cfg.plugin_name, cfg.queries@[k], tys[k]));
        let jk = Seq::new(n, |k: int| js::query_key_entry(cfg.plugin_name, cfg.queries@[k]));
        assert(tk[i] == typescript_query_key(cfg.plugin_name, c, tys[i]));
        assert(jk[i] == javascript_query_key(cfg.plugin_name, c));
        lemma_itself(tk[i]);
        lemma_itself(jk[i]);
        lemma_in_section("queryKeys"@, tk, i, tk[i]);
        lemma_in_section("queryKeys"@, jk, i, jk[i]);
    }
}

/// The key function of every mutation, in both clients, opens its key with
/// the plugin marker where a plugin owns the export and the mutation's
/// name; the TypeScript key is the JavaScript one marked `as const`.
pub proof fn law_mutation_keys_hold_plugin(cfg: ExportContext)
    ensures
        forall|i: int|
            #![trigger cfg.mutations@[i]]
            0 <= i < cfg.mutations@.len() ==> {
                &&& occurs(mutation_key(cfg.plugin_name, cfg.mutations@[i]), js::mutation_keys(cfg))
                &&& occurs(
                    mutation_key(cfg.plugin_name, cfg.mutations@[i]) + " as const"@,
                    ts::mutation_keys(cfg),
                )
            },
{
    assert forall|i: int| #![trigger cfg.mutations@[i]] 0 <= i < cfg.mutations@.len() implies {
        &&& occurs(mutation_key(cfg.plugin_name, cfg.mutations@[i]), js::mutation_keys(cfg))
        &&& occurs(mutation_key(cfg.plugin_name, cfg.mutations@[i]) + " as const"@, ts::mutation_keys(cfg))
    } by {
        reveal_strlit("]");
        reveal_strlit(" as const");
        reveal_strlit("] as const");
        let c = cfg.mutations@[i];
        let n = cfg.mutations@.len();
        let name = lower_camel_case(c.name@);
        lemma_names(c);
        assert(key_prefix(cfg.plugin_name, name) == key_elements(cfg.plugin_name, name));
        let jk = Seq::new(n, |k: int| js::mutation_key_entry(cfg.plugin_name, cfg.mutations@[k]));
        let tk = Seq::new(n, |k: int| ts::mutation_key_entry(cfg.plugin_name, cfg.mutations@[k]));
        assert(jk[i] == mutation_key(cfg.plugin_name, c));
        assert(tk[i] =~= mutation_key(cfg.plugin_name, c) + " as const"@);
        lemma_itself(jk[i]);
        lemma_itself(tk[i]);
        lemma_in_section("mutationKeys"@, jk, i, jk[i]);
        lemma_in_section("mutationKeys"@, tk, i, tk[i]);
    }
}

} // verus!
