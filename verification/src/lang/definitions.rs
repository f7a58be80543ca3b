//! The definitions of the named types that the commands and events refer
//! to, as the head of a generated client.

use vstd::prelude::*;

use specta::datatype::NamedDataType;
use specta::TypeCollection;
use specta_typescript::{ExportError, Typescript};

use crate::context::RenderError;
use crate::lang::common::outcome_view;
use crate::lang::ts::{first_error_in, row_texts, text_view};
use crate::text::{join, join_strings, views};

verus! {

/// The named types of `types`, in the order in which the collection
/// yields them (by their specta id).
pub uninterp spec fn named_types(types: TypeCollection) -> Seq<NamedDataType>;

/// What `specta_typescript::export_named_datatype` does on `ndt` with `ts`
/// and `types`: `None` where it panics, else the result it returns. It
/// depends on these three arguments alone.
pub uninterp spec fn export_named_outcome(ts: Typescript, ndt: NamedDataType, types: TypeCollection) -> Option<
    Result<Seq<char>, ExportError>,
>;

/// What `specta_typescript::js_doc::typedef_named_datatype` does on `ndt`
/// with `ts` and `types`: `None` where it panics, else the result it
/// returns. It depends on these three arguments alone.
pub uninterp spec fn typedef_named_outcome(ts: Typescript, ndt: NamedDataType, types: TypeCollection) -> Option<
    Result<Seq<char>, ExportError>,
>;

/// The outcome of defining `ndt`: as a TypeScript declaration, or, for
/// `jsdoc`, as a JSDoc `@typedef`.
pub open spec fn definition_outcome(ts: Typescript, ndt: NamedDataType, types: TypeCollection, jsdoc: bool) -> Option<
    Result<Seq<char>, ExportError>,
> {
    if jsdoc {
        typedef_named_outcome(ts, ndt, types)
    } else {
        export_named_outcome(ts, ndt, types)
    }
}

/// The result of defining `ndt`, where the exporter returns one.
pub open spec fn definition(ts: Typescript, ndt: NamedDataType, types: TypeCollection, jsdoc: bool) -> Result<
    Seq<char>,
    ExportError,
> {
    definition_outcome(ts, ndt, types, jsdoc)->0
}

/// The exporter returns, without panicking, for each of `named` in order,
/// up to the first one that it answers with an error.
pub open spec fn defined_until_error(ts: Typescript, named: Seq<NamedDataType>, types: TypeCollection, jsdoc: bool) -> bool
    decreases named.len(),
{
    named.len() == 0 || (definition_outcome(ts, named[0], types, jsdoc) is Some && (definition(
        ts,
        named[0],
        types,
        jsdoc,
    ) is Ok ==> defined_until_error(ts, named.drop_first(), types, jsdoc)))
}

/// The outcome of defining each named type of `types`, in order.
pub open spec fn definition_outcomes(ts: Typescript, types: TypeCollection, jsdoc: bool) -> Seq<
    Result<Seq<char>, ExportError>,
> {
    Seq::new(named_types(types).len(), |i: int| definition(ts, named_types(types)[i], types, jsdoc))
}

/// The definitions of the named types of `types`, one per line, or the
/// first error of the exporter.
pub open spec fn definitions(ts: Typescript, types: TypeCollection, jsdoc: bool) -> Result<Seq<char>, RenderError> {
    let row = definition_outcomes(ts, types, jsdoc);
    match first_error_in(row) {
        Some(e) => Err(RenderError::Export(e)),
        None => Ok(join(row_texts(row), "\n"@)),
    }
}

/// Iterates the `TypeCollection` (`IntoIterator for &TypeCollection`),
/// keeping a clone of each named type; the result is what the name
/// `named_types` gives for the collection.
#[verifier::external_body]
fn collection_named_types(types: &TypeCollection) -> (res: Vec<NamedDataType>)
    ensures
        res@ == named_types(*types),
{
    types.into_iter().map(|(_, ndt)| ndt.clone()).collect()
}

/// Calls `specta_typescript::export_named_datatype` on `ndt` with `ts` and
/// `types`. It panics on some types, as `export_datatype` does; `requires`
/// leaves out every type on which it does not return, and the result is
/// the one the name `export_named_outcome` gives for the arguments.
#[verifier::external_body]
fn export_named(ts: &Typescript, ndt: &NamedDataType, types: &TypeCollection) -> (res: Result<String, ExportError>)
    requires
        export_named_outcome(*ts, *ndt, *types) is Some,
    ensures
        export_named_outcome(*ts, *ndt, *types) == Some(outcome_view(res)),
{
    specta_typescript::export_named_datatype(ts, ndt, types)
}

/// Calls `specta_typescript::js_doc::typedef_named_datatype` on `ndt` with
/// `ts` and `types`. `requires` leaves out every type on which it does not
/// return, and the result is the one the name `typedef_named_outcome`
/// gives for the arguments.
#[verifier::external_body]
fn typedef_named(ts: &Typescript, ndt: &NamedDataType, types: &TypeCollection) -> (res: Result<String, ExportError>)
    requires
        typedef_named_outcome(*ts, *ndt, *types) is Some,
    ensures
        typedef_named_outcome(*ts, *ndt, *types) == Some(outcome_view(res)),
{
    specta_typescript::js_doc::typedef_named_datatype(ts, ndt, types)
}

/// Defines every named type of `types` in order, one per line, stopping at
/// the first one that the exporter answers with an error.
pub(crate) fn render_definitions(ts: &Typescript, types: &TypeCollection, jsdoc: bool) -> (res: Result<String, RenderError>)
    requires
        defined_until_error(*ts, named_types(*types), *types, jsdoc),
    ensures
        text_view(res) == definitions(*ts, *types, jsdoc),
{
    let named = collection_named_types(types);
    let ghost row = definition_outcomes(*ts, *types, jsdoc);
    let n = named.len();
    let mut defs: Vec<String> = Vec::new();
    let mut i: usize = 0;
    assert(named@.skip(0) =~= named@);
    assert(row.skip(0) =~= row);
    assert(views(defs@) =~= row_texts(row.take(0)));
    while i < n
        invariant
            n == named@.len(),
            named@ == named_types(*types),
            row == definition_outcomes(*ts, *types, jsdoc),
            0 <= i <= n,
            defined_until_error(*ts, named@.skip(i as int), *types, jsdoc),
            first_error_in(row) == first_error_in(row.skip(i as int)),
            views(defs@) == row_texts(row.take(i as int)),
        decreases n - i,
    {
        proof {
            assert(named@.skip(i as int)[0] == named@[i as int]);
            assert(named@.skip(i as int).drop_first() =~= named@.skip(i + 1));
            assert(row.skip(i as int)[0] == row[i as int]);
            assert(row.skip(i as int).drop_first() =~= row.skip(i + 1));
        }
        let r = if jsdoc {
            typedef_named(ts, &named[i], types)
        } else {
            export_named(ts, &named[i], types)
        };
        match r {
            Ok(t) => {
                let ghost before = views(defs@);
                defs.push(t);
                assert(views(defs@) =~= before.push(t@));
                assert(row_texts(row.take(i + 1)) =~= row_texts(row.take(i as int)).push(t@));
            },
            Err(e) => {
                assert(first_error_in(row) == Some(e));
                return Err(RenderError::Export(e));
            },
        }
        i = i + 1;
    }
    assert(row.take(n as int) =~= row);
    assert(row.skip(n as int).len() == 0);
    Ok(join_strings(&defs, "\n"))
}

} // verus!
