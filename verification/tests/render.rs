use specta::datatype::{DataType, PrimitiveType};
use specta::TypeCollection;
use specta_typescript::Typescript;

use tauri_specta::context::{Command, Deprecation, EventsData, ExportContext, FunctionArg, RenderError};
use tauri_specta::lang::common::render_header;
use tauri_specta::context::TanstackParts;
use tauri_specta::text::split_at_newlines;
use tauri_specta::lang::{js, ts};

fn arg(name: &str, ty: PrimitiveType) -> FunctionArg {
    FunctionArg { name: name.to_string(), ty: DataType::Primitive(ty) }
}

fn command(name: &str, args: Vec<FunctionArg>, typed: bool, error: Option<&str>) -> Command {
    Command {
        name: name.to_string(),
        args,
        docs: String::new(),
        deprecated: None,
        return_type: "User".to_string(),
        uses_typed_error: typed,
        data_type: "User".to_string(),
        error_type: error.map(|e| e.to_string()),
    }
}

fn context(plugin: Option<&str>, tanstack: Option<&str>, queries: Vec<Command>, mutations: Vec<Command>) -> ExportContext {
    ExportContext {
        plugin_name: plugin.map(|p| p.to_string()),
        tanstack: tanstack.map(|t| t.to_string()),
        commands: vec![],
        queries,
        mutations,
        type_map: TypeCollection::default(),
    }
}

fn ok(r: Result<String, RenderError>) -> String {
    match r {
        Ok(s) => s,
        Err(_) => panic!("rendering failed"),
    }
}

fn sample() -> ExportContext {
    context(
        None,
        Some("@tanstack/react-query"),
        vec![
            command("get_user", vec![arg("user_id", PrimitiveType::String)], false, None),
            command("list_users", vec![], true, Some("AppError")),
        ],
        vec![
            command("save_user", vec![arg("user_name", PrimitiveType::String), arg("age", PrimitiveType::u8)], true, Some("AppError")),
            command("reset", vec![], false, None),
        ],
    )
}

#[test]
fn tanstack_import_lists_both_option_builders() {
    assert_eq!(
        js::render_tanstack_import(&sample()),
        "import { queryOptions as TANSTACK_QUERY_OPTIONS, mutationOptions as TANSTACK_MUTATION_OPTIONS } from \"@tanstack/react-query\";\n"
    );
}

#[test]
fn tanstack_import_only_queries() {
    let cfg = context(None, Some("@tanstack/vue-query"), vec![command("get", vec![], false, None)], vec![]);
    assert_eq!(
        js::render_tanstack_import(&cfg),
        "import { queryOptions as TANSTACK_QUERY_OPTIONS } from \"@tanstack/vue-query\";\n"
    );
}

#[test]
fn tanstack_import_only_mutations() {
    let cfg = context(None, Some("@tanstack/solid-query"), vec![], vec![command("put", vec![], false, None)]);
    assert_eq!(
        js::render_tanstack_import(&cfg),
        "import { mutationOptions as TANSTACK_MUTATION_OPTIONS } from \"@tanstack/solid-query\";\n"
    );
}

#[test]
fn tanstack_import_empty_without_framework_or_functions() {
    let mut cfg = sample();
    cfg.tanstack = None;
    assert_eq!(js::render_tanstack_import(&cfg), "");
    let cfg = context(None, Some("@tanstack/react-query"), vec![], vec![]);
    assert_eq!(js::render_tanstack_import(&cfg), "");
}

#[test]
fn js_query_keys() {
    assert_eq!(
        ok(js::render_query_keys(&sample())),
        "\nexport const queryKeys = {\n    getUser: (userId) => filterKey([\"getUser\"], { userId }),\nlistUsers: () => [\"listUsers\"]\n}"
    );
}

#[test]
fn js_query_keys_with_plugin() {
    let mut cfg = sample();
    cfg.plugin_name = Some("store".to_string());
    assert_eq!(
        ok(js::render_query_keys(&cfg)),
        "\nexport const queryKeys = {\n    getUser: (userId) => filterKey([\"plugin:store\", \"getUser\"], { userId }),\nlistUsers: () => [\"plugin:store\", \"listUsers\"]\n}"
    );
}

#[test]
fn js_queries() {
    assert_eq!(
        ok(js::render_queries(&sample())),
        "\nexport const queries = {\n    getUser: (userId) => TANSTACK_QUERY_OPTIONS({ queryKey: queryKeys.getUser(userId), queryFn: () => commands.getUser(userId) }),\nlistUsers: () => TANSTACK_QUERY_OPTIONS({ queryKey: queryKeys.listUsers(), queryFn: () => unwrapTypedError(commands.listUsers()) })\n}"
    );
}

#[test]
fn js_mutation_keys() {
    assert_eq!(
        ok(js::render_mutation_keys(&sample())),
        "\nexport const mutationKeys = {\n    saveUser: () => [\"saveUser\"],\nreset: () => [\"reset\"]\n}"
    );
}

#[test]
fn js_mutations() {
    assert_eq!(
        ok(js::render_mutations(&sample())),
        "\nexport const mutations = {\n    saveUser: () => TANSTACK_MUTATION_OPTIONS({ mutationKey: mutationKeys.saveUser(), mutationFn: ({ userName, age }) => unwrapTypedError(commands.saveUser(userName, age)) }),\nreset: () => TANSTACK_MUTATION_OPTIONS({ mutationKey: mutationKeys.reset(), mutationFn: () => commands.reset() })\n}"
    );
}

#[test]
fn js_sections_empty_without_functions() {
    let cfg = context(Some("p"), Some("@tanstack/react-query"), vec![], vec![]);
    assert_eq!(ok(js::render_query_keys(&cfg)), "");
    assert_eq!(ok(js::render_queries(&cfg)), "");
    assert_eq!(ok(js::render_mutation_keys(&cfg)), "");
    assert_eq!(ok(js::render_mutations(&cfg)), "");
}

#[test]
fn ts_query_keys() {
    assert_eq!(
        ok(ts::render_query_keys(&Typescript::default(), &sample())),
        "\nexport const queryKeys = {\n    getUser: (userId?: string) => filterKey([\"getUser\"] as const, { userId }),\nlistUsers: () => [\"listUsers\"] as const\n}"
    );
}

#[test]
fn ts_queries() {
    assert_eq!(
        ok(ts::render_queries(&Typescript::default(), &sample())),
        "\nexport const queries = {\n    getUser: (userId: string) => TANSTACK_QUERY_OPTIONS<User>({ queryKey: queryKeys.getUser(userId), queryFn: () => commands.getUser(userId) }),\nlistUsers: () => TANSTACK_QUERY_OPTIONS<User, AppError>({ queryKey: queryKeys.listUsers(), queryFn: () => unwrapTypedError(commands.listUsers()) })\n}"
    );
}

#[test]
fn ts_mutation_keys() {
    assert_eq!(
        ok(ts::render_mutation_keys(&Typescript::default(), &sample())),
        "\nexport const mutationKeys = {\n    saveUser: () => [\"saveUser\"] as const,\nreset: () => [\"reset\"] as const\n}"
    );
}

#[test]
fn ts_mutations() {
    assert_eq!(
        ok(ts::render_mutations(&Typescript::default(), &sample())),
        "\nexport const mutations = {\n    saveUser: () => TANSTACK_MUTATION_OPTIONS<User, AppError, { userName: string, age: number }>({ mutationKey: mutationKeys.saveUser(), mutationFn: ({ userName, age }: { userName: string, age: number }) => unwrapTypedError(commands.saveUser(userName, age)) }),\nreset: () => TANSTACK_MUTATION_OPTIONS<User, Error, void>({ mutationKey: mutationKeys.reset(), mutationFn: () => commands.reset() })\n}"
    );
}

#[test]
fn ts_sections_empty_without_functions() {
    let cfg = context(None, None, vec![], vec![]);
    let t = Typescript::default();
    assert_eq!(ok(ts::render_query_keys(&t, &cfg)), "");
    assert_eq!(ok(ts::render_queries(&t, &cfg)), "");
    assert_eq!(ok(ts::render_mutation_keys(&t, &cfg)), "");
    assert_eq!(ok(ts::render_mutations(&t, &cfg)), "");
}

#[test]
fn ts_bigint_argument_is_refused() {
    let cfg = context(None, None, vec![command("count", vec![arg("total", PrimitiveType::i64)], false, None)], vec![]);
    let r = ts::render_queries(&Typescript::default(), &cfg);
    assert!(matches!(r, Err(RenderError::Export(_))));
    let r = ts::render_query_keys(&Typescript::default(), &cfg);
    assert!(matches!(r, Err(RenderError::Export(_))));
}

#[test]
fn ts_typed_renderers_use_given_types() {
    let cfg = context(Some("auth"), None, vec![command("log_in", vec![arg("user_name", PrimitiveType::String)], false, None)], vec![]);
    let types = vec![vec!["Name".to_string()]];
    assert_eq!(
        ts::render_query_keys_typed(&cfg, &types),
        "\nexport const queryKeys = {\n    logIn: (userName?: Name) => filterKey([\"plugin:auth\", \"logIn\"] as const, { userName })\n}"
    );
    assert_eq!(
        ts::render_queries_typed(&cfg, &types),
        "\nexport const queries = {\n    logIn: (userName: Name) => TANSTACK_QUERY_OPTIONS<User>({ queryKey: queryKeys.logIn(userName), queryFn: () => commands.logIn(userName) })\n}"
    );
}

#[test]
fn ts_command_arg_types() {
    let cmds = vec![
        command("a", vec![arg("x", PrimitiveType::bool), arg("y", PrimitiveType::char)], false, None),
        command("b", vec![], false, None),
    ];
    let types = match ts::command_arg_types(&Typescript::default(), &cmds, &TypeCollection::default()) {
        Ok(t) => t,
        Err(_) => panic!("rendering failed"),
    };
    assert_eq!(types, vec![vec!["boolean".to_string(), "string".to_string()], vec![]]);
}

#[test]
fn ts_events() {
    let data = Some(EventsData {
        types: vec!["ping: Ping".to_string(), "pong: Pong".to_string()],
        map: "ping: \"ping\",\npong: \"pong\"".to_string(),
    });
    assert_eq!(
        ts::render_events(&data),
        "\nexport const events = __makeEvents__<{\nping: Ping,\npong: Pong\n}>({\nping: \"ping\",\npong: \"pong\"\n})"
    );
    assert_eq!(ts::render_events(&None), "");
}

#[test]
fn js_events() {
    let data = Some(EventsData {
        types: vec!["  ping: Ping ".to_string(), "pong: Pong".to_string()],
        map: "ping: \"ping\"".to_string(),
    });
    assert_eq!(
        js::render_events(&data),
        "\n    /**\n * @type {typeof __makeEvents__<{\n * ping: Ping\n * pong: Pong\n * }>}\n */\n\n    const __typedMakeEvents__ = __makeEvents__;\n\n    export const events = __typedMakeEvents__({\n    ping: \"ping\"\n    })"
    );
    assert_eq!(js::render_events(&None), "");
}

#[test]
fn typescript_keys_are_javascript_keys_as_const() {
    let cfg = sample();
    let js_keys = ok(js::render_mutation_keys(&cfg));
    let ts_keys = ok(ts::render_mutation_keys(&Typescript::default(), &cfg));
    assert_eq!(ts_keys, js_keys.replace("\"]", "\"] as const"));
}

#[test]
fn queries_reference_their_keys() {
    let cfg = sample();
    let keys = ok(js::render_query_keys(&cfg));
    let queries = ok(js::render_queries(&cfg));
    for name in ["getUser", "listUsers"] {
        assert!(keys.contains(&format!("{name}: (")));
        assert!(queries.contains(&format!("queryKey: queryKeys.{name}(")));
    }
}

#[test]
fn split_at_newlines_keeps_empty_pieces() {
    assert_eq!(split_at_newlines("a\nb"), vec!["a".to_string(), "b".to_string()]);
    assert_eq!(split_at_newlines(""), vec!["".to_string()]);
    assert_eq!(split_at_newlines("\n"), vec!["".to_string(), "".to_string()]);
    assert_eq!(split_at_newlines("one\n\ntwo\n"), vec!["one".to_string(), "".to_string(), "two".to_string(), "".to_string()]);
}

#[test]
fn header_without_import() {
    let cfg = context(None, None, vec![command("q", vec![], false, None)], vec![]);
    assert_eq!(render_header("// header", &cfg), "// header");
}

#[test]
fn header_with_import() {
    let cfg = context(None, Some("@tanstack/react-query"), vec![command("q", vec![], false, None)], vec![]);
    assert_eq!(
        render_header("// header", &cfg),
        "// header\nimport { queryOptions as TANSTACK_QUERY_OPTIONS } from \"@tanstack/react-query\";\n"
    );
}

#[test]
fn ts_command_docs_empty_without_docs() {
    let c = command("get", vec![], false, None);
    assert_eq!(ts::render_command_docs(&c), "");
}

#[test]
fn ts_command_docs_with_deprecation_and_docs() {
    let mut c = command("get", vec![], false, None);
    c.docs = " Fetches the user.\nReturns none when absent. ".to_string();
    c.deprecated = Some(Deprecation::WithNote { note: " use get_v2 ".to_string(), since: Some("2.0".to_string()) });
    assert_eq!(
        ts::render_command_docs(&c),
        "/**\n * @deprecated use get_v2 since 2.0\n * Fetches the user.\n * Returns none when absent.\n */\n"
    );
    c.deprecated = Some(Deprecation::Deprecated);
    c.docs = String::new();
    assert_eq!(ts::render_command_docs(&c), "/**\n * @deprecated\n */\n");
}

#[test]
fn js_command_docs_params_and_return() {
    let mut c = command("save_user", vec![arg("user_name", PrimitiveType::String), arg("big", PrimitiveType::i64), arg("age", PrimitiveType::u8)], false, None);
    c.docs = "Saves a user.".to_string();
    c.return_type = "null".to_string();
    assert_eq!(
        js::render_command_docs(&Typescript::default(), &c, &TypeCollection::default()),
        "/**\n * Saves a user.\n * @param { string } userName\n * @param { number } age\n * @returns { Promise<null> }\n */\n"
    );
}

#[test]
fn js_command_docs_typed() {
    let c = command("ping", vec![arg("target_host", PrimitiveType::String)], false, None);
    let types = vec![None];
    assert_eq!(
        js::render_command_docs_typed(&c, &types),
        "/**\n * @returns { Promise<User> }\n */\n"
    );
    let types = vec![Some("Host".to_string())];
    assert_eq!(
        js::render_command_docs_typed(&c, &types),
        "/**\n * @param { Host } targetHost\n * @returns { Promise<User> }\n */\n"
    );
}

#[test]
fn command_arg_types_stop_at_first_error() {
    let ts = Typescript::default();
    let types = TypeCollection::default();
    let good = vec![
        command("a", vec![arg("x", PrimitiveType::bool), arg("y", PrimitiveType::String)], false, None),
        command("b", vec![], false, None),
        command("c", vec![arg("z", PrimitiveType::u8)], false, None),
    ];
    match ts::command_arg_types(&ts, &good, &types) {
        Ok(v) => assert_eq!(
            v,
            vec![vec!["boolean".to_string(), "string".to_string()], vec![], vec!["number".to_string()]]
        ),
        Err(_) => panic!("no error expected"),
    }
    let bad = vec![
        command("a", vec![arg("x", PrimitiveType::bool), arg("y", PrimitiveType::i64)], false, None),
        command("b", vec![arg("z", PrimitiveType::u8)], false, None),
    ];
    assert!(matches!(ts::command_arg_types(&ts, &bad, &types), Err(RenderError::Export(_))));
}

#[test]
fn commands_objects_frame_entries() {
    let entries = vec!["a()".to_string(), "b()".to_string()];
    assert_eq!(js::render_commands_object(&entries), "export const commands = {\n        a(),\nb()\n    }");
    assert_eq!(ts::render_commands_object(&entries), "\nexport const commands = {\na(),\nb()\n}");
}

#[test]
fn all_command_docs_in_order() {
    let mut cfg = sample();
    let mut plain = command("ping", vec![], false, None);
    plain.docs = "Pings.".to_string();
    cfg.commands = vec![plain];
    let docs = ts::render_all_command_docs(&cfg);
    assert_eq!(docs.len(), 5);
    assert_eq!(docs[0], "/**\n * Pings.\n */\n");
    assert_eq!(docs[1], "");
    let js_docs = js::render_all_command_docs(&Typescript::default(), &cfg);
    assert_eq!(js_docs.len(), 5);
    assert_eq!(js_docs[0], "/**\n * Pings.\n * @returns { Promise<User> }\n */\n");
    assert_eq!(js_docs[1], "/**\n * @param { string } userId\n * @returns { Promise<User> }\n */\n");
}

#[test]
fn tanstack_parts_in_order() {
    let cfg = sample();
    let parts: TanstackParts = match ts::render_tanstack_parts(&Typescript::default(), &cfg) {
        Ok(p) => p,
        Err(_) => panic!("rendering failed"),
    };
    assert_eq!(parts.query_keys, ok(ts::render_query_keys(&Typescript::default(), &cfg)));
    assert_eq!(parts.queries, ok(ts::render_queries(&Typescript::default(), &cfg)));
    assert_eq!(parts.mutation_keys, ok(ts::render_mutation_keys(&Typescript::default(), &cfg)));
    assert_eq!(parts.mutations, ok(ts::render_mutations(&Typescript::default(), &cfg)));
    let bad = context(None, None, vec![], vec![command("m", vec![arg("n", PrimitiveType::i128)], false, None)]);
    assert!(matches!(ts::render_tanstack_parts(&Typescript::default(), &bad), Err(RenderError::Export(_))));
}

fn time_types() -> TypeCollection {
    let mut types = TypeCollection::default();
    types.register::<std::time::SystemTime>();
    types.register::<std::time::Duration>();
    types
}

fn named(types: &TypeCollection, name: &str) -> specta::datatype::NamedDataType {
    types.into_iter().map(|(_, ndt)| ndt.clone()).find(|ndt| ndt.name() == name).unwrap()
}

#[test]
fn type_definitions_one_per_line_in_collection_order() {
    let types = time_types();
    let ts = Typescript::default().bigint(specta_typescript::BigIntExportBehavior::Number);
    let duration = specta_typescript::export_named_datatype(&ts, &named(&types, "Duration"), &types).unwrap();
    let time = specta_typescript::export_named_datatype(&ts, &named(&types, "SystemTime"), &types).unwrap();
    assert!(duration.contains("Duration"));
    assert_eq!(ok(ts::render_type_definitions(&ts, &types)), format!("{duration}\n{time}"));
    let duration = specta_typescript::js_doc::typedef_named_datatype(&ts, &named(&types, "Duration"), &types).unwrap();
    let time = specta_typescript::js_doc::typedef_named_datatype(&ts, &named(&types, "SystemTime"), &types).unwrap();
    assert!(duration.contains("@typedef"));
    assert_eq!(ok(js::render_type_definitions(&ts, &types)), format!("{duration}\n{time}"));
    assert_eq!(ok(ts::render_type_definitions(&ts, &TypeCollection::default())), "");
}

#[test]
fn type_definitions_fail_on_forbidden_types() {
    let types = time_types();
    assert!(matches!(ts::render_type_definitions(&Typescript::default(), &types), Err(RenderError::Export(_))));
}

#[test]
fn ts_objects_fail_with_the_first_failing_argument_type() {
    let ts = Typescript::default();
    let types = TypeCollection::default();
    let expected = specta_typescript::datatype(
        &ts,
        &specta::datatype::FunctionResultVariant::Value(DataType::Primitive(PrimitiveType::u64)),
        &types,
    )
    .unwrap_err();
    let failing = || {
        vec![
            command("first", vec![], false, None),
            command("second", vec![arg("flag", PrimitiveType::bool), arg("total", PrimitiveType::u64)], false, None),
            command("third", vec![arg("count", PrimitiveType::u128)], false, None),
        ]
    };
    let cfg = context(None, None, failing(), failing());
    for r in [ts::render_query_keys(&ts, &cfg), ts::render_queries(&ts, &cfg), ts::render_mutations(&ts, &cfg)] {
        match r {
            Err(RenderError::Export(e)) => assert!(e == expected),
            Ok(_) => panic!("an error was expected"),
        }
    }
    let no_args = || vec![command("first", vec![], false, None), command("second", vec![], true, Some("E"))];
    let cfg = context(None, None, no_args(), no_args());
    assert!(ts::render_query_keys(&ts, &cfg).is_ok());
    assert!(ts::render_queries(&ts, &cfg).is_ok());
    assert!(ts::render_mutations(&ts, &cfg).is_ok());
}
