use vstd::prelude::*;

use specta::datatype::DataType;
use specta::TypeCollection;
use specta_typescript::ExportError;

verus! {

/// One argument of a command: its name as written in Rust and its type.
pub struct FunctionArg {
    pub name: String,
    pub ty: DataType,
}

/// How a command is deprecated.
pub enum Deprecation {
    /// Deprecated without a message.
    Deprecated,
    /// Deprecated with a note and, where given, the version since which.
    WithNote { note: String, since: Option<String> },
}

/// A command of the Tauri application as the renderers read it.
pub struct Command {
    /// The command's Rust name.
    pub name: String,
    /// The command's arguments, in order.
    pub args: Vec<FunctionArg>,
    /// The command's documentation, lines separated by newlines.
    pub docs: String,
    /// Whether and how the command is deprecated.
    pub deprecated: Option<Deprecation>,
    /// The TypeScript type of the value the command's call resolves to.
    pub return_type: String,
    /// Whether, under the context's error handling, a call of the command
    /// is wrapped in `unwrapTypedError`.
    pub uses_typed_error: bool,
    /// The TypeScript type of the command's success value.
    pub data_type: String,
    /// The TypeScript type of the command's error value, where it has one.
    pub error_type: Option<String>,
}

/// What the renderers read of an export.
pub struct ExportContext {
    /// The plugin the commands belong to, if they belong to one.
    pub plugin_name: Option<String>,
    /// The npm package of the TanStack Query framework, when TanStack
    /// bindings are requested.
    pub tanstack: Option<String>,
    /// The plain commands, exposed neither as queries nor as mutations.
    pub commands: Vec<Command>,
    /// The commands exposed as TanStack queries.
    pub queries: Vec<Command>,
    /// The commands exposed as TanStack mutations.
    pub mutations: Vec<Command>,
    /// The named types that argument types may refer to.
    pub type_map: TypeCollection,
}

/// The events of an export as the events renderers read them: the
/// TypeScript member of each event in the events type, and the body of the
/// object that maps each event to its name.
pub struct EventsData {
    pub types: Vec<String>,
    pub map: String,
}

/// The TanStack objects of a client file, in the order the file holds
/// them.
pub struct TanstackParts {
    pub query_keys: String,
    pub queries: String,
    pub mutation_keys: String,
    pub mutations: String,
}

/// Why a rendering failed.
pub enum RenderError {
    /// The TypeScript exporter could not render a type.
    Export(ExportError),
}

} // verus!
