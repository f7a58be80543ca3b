# tauri_specta

Verified rendering of the TanStack Query bindings that accompany the
generated JavaScript (JSDoc) and TypeScript clients of a Tauri application:
the definitions of the named types, the TanStack import, the `queryKeys`,
`queries`, `mutationKeys` and `mutations` objects, the `events` object, the
JSDoc comment of each command and the file header.

- `src/text.rs`: joining, splitting at newlines, and heck's lower camel case.
- `src/jsdoc.rs`: the JSDoc comment builder of specta_typescript.
- `src/context.rs`: what the renderers read of an export.
- `src/lang/common.rs`, `src/lang/js.rs`, `src/lang/ts.rs`: the renderers,
  each with a specification of its output. Argument types are rendered by
  specta_typescript; the specification speaks of them through the name
  `export_outcome`; the renderers that need them export the types in order,
  stop at the first error, and require only that the exporter returns
  (does not panic) on the types they reach.
- `src/lang/definitions.rs`: the definitions of the named types of a
  `TypeCollection`, in TypeScript or as JSDoc typedefs.
- `src/laws.rs`: properties that relate the rendered objects to one another.
- `app/`: formatting the generated files, conversions from specta's
  descriptions, and the assembly of the TanStack objects.
