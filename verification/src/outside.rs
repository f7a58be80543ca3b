use vstd::prelude::*;

verus! {

/// specta's runtime description of a Rust type.
#[verifier::external_type_specification]
#[verifier::external_body]
pub struct ExDataType(specta::datatype::DataType);

/// A named type of a `TypeCollection`: its name, documentation and shape.
#[verifier::external_type_specification]
#[verifier::external_body]
pub struct ExNamedDataType(specta::datatype::NamedDataType);

/// specta's collection of the named types that a `DataType` may refer to.
#[verifier::external_type_specification]
#[verifier::external_body]
pub struct ExTypeCollection(specta::TypeCollection);

/// The TypeScript exporter's configuration.
#[verifier::external_type_specification]
#[verifier::external_body]
pub struct ExTypescript(specta_typescript::Typescript);

/// The error of the TypeScript exporter.
#[verifier::external_type_specification]
#[verifier::external_body]
pub struct ExExportError(specta_typescript::ExportError);

/// The accumulator of a JSDoc comment block.
#[verifier::external_type_specification]
#[verifier::external_body]
pub struct ExBuilder(specta_typescript::js_doc::Builder);

} // verus!
