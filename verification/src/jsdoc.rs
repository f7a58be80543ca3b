use vstd::prelude::*;

use std::borrow::Cow;

use specta::datatype::DeprecatedType;
use specta_typescript::js_doc::Builder;

use crate::context::Deprecation;

use crate::text::views;

verus! {

/// The text that a JSDoc builder has accumulated so far.
pub uninterp spec fn builder_text(b: Builder) -> Seq<char>;

/// The characters with Unicode's `White_Space` property, which
/// `char::is_whitespace` and so `str::trim` go by.
pub open spec fn is_white_space(c: char) -> bool {
    let n = c as u32;
    ||| 0x9 <= n <= 0xd
    ||| n == 0x20
    ||| n == 0x85
    ||| n == 0xa0
    ||| n == 0x1680
    ||| 0x2000 <= n <= 0x200a
    ||| n == 0x2028
    ||| n == 0x2029
    ||| n == 0x202f
    ||| n == 0x205f
    ||| n == 0x3000
}

/// `s` without its leading white space.
pub open spec fn trim_start(s: Seq<char>) -> Seq<char>
    decreases s.len(),
{
    if s.len() > 0 && is_white_space(s[0]) {
        trim_start(s.drop_first())
    } else {
        s
    }
}

/// `s` without its trailing white space.
pub open spec fn trim_end(s: Seq<char>) -> Seq<char>
    decreases s.len(),
{
    if s.len() > 0 && is_white_space(s.last()) {
        trim_end(s.drop_last())
    } else {
        s
    }
}

/// What std's `str::trim` makes of a string: the string without its
/// leading and trailing white space.
pub open spec fn trimmed(s: Seq<char>) -> Seq<char> {
    trim_end(trim_start(s))
}

/// The opening of every JSDoc block.
pub open spec fn block_start() -> Seq<char> {
    "/**\n"@
}

/// One line of a JSDoc block holding `line` without its surrounding
/// whitespace.
pub open spec fn doc_line(line: Seq<char>) -> Seq<char> {
    " * "@ + trimmed(line) + "\n"@
}

/// The lines of a JSDoc block holding each of `lines` in order.
pub open spec fn doc_lines(lines: Seq<Seq<char>>) -> Seq<char>
    decreases lines.len(),
{
    if lines.len() == 0 {
        Seq::empty()
    } else {
        doc_lines(lines.drop_last()) + doc_line(lines.last())
    }
}

/// The comment a builder with text `text` produces: nothing when no line
/// was added, else the text closed by `" */\n"`.
pub open spec fn built(text: Seq<char>) -> Seq<char> {
    if text == block_start() {
        Seq::empty()
    } else {
        text + " */\n"@
    }
}

/// Calls `Builder::default` of specta_typescript's `js_doc` module, which
/// starts the text with `"/**\n"`.
#[verifier::external_body]
pub(crate) fn builder_new() -> (res: Builder)
    ensures
        builder_text(res) == block_start(),
{
    Builder::default()
}

/// Calls `Builder::push`, which appends `" * "`, the trimmed line and a
/// newline to the text.
#[verifier::external_body]
pub(crate) fn builder_push(b: &mut Builder, line: &str)
    ensures
        builder_text(*final(b)) == builder_text(*old(b)) + " * "@ + trimmed(line@) + "\n"@,
{
    b.push(line)
}

/// The line of a JSDoc block that marks a deprecation: the note and the
/// version, trimmed, where they are given.
pub open spec fn deprecated_line(d: Deprecation) -> Seq<char> {
    match d {
        Deprecation::Deprecated => " * @deprecated\n"@,
        Deprecation::WithNote { note, since } => " * @deprecated "@ + trimmed(note@) + match since {
            Some(v) => " since "@ + trimmed(v@),
            None => Seq::empty(),
        } + "\n"@,
    }
}

/// Calls `Builder::push_deprecated` on the `DeprecatedType` that `d`
/// describes; it appends `" * @deprecated"`, then for a note `" "` and the
/// trimmed note, then for a version `" since "` and the trimmed version,
/// then a newline.
#[verifier::external_body]
pub(crate) fn builder_push_deprecated(b: &mut Builder, d: &Deprecation)
    ensures
        builder_text(*final(b)) == builder_text(*old(b)) + deprecated_line(*d),
{
    let typ = match d {
        Deprecation::Deprecated => DeprecatedType::Deprecated,
        Deprecation::WithNote { note, since } => DeprecatedType::DeprecatedWithSince {
            since: since.clone().map(Cow::Owned),
            note: Cow::Owned(note.clone()),
        },
    };
    b.push_deprecated(&typ)
}

/// Calls the builder's `Extend` impl, which pushes each of `lines` in order.
#[verifier::external_body]
pub(crate) fn builder_extend(b: &mut Builder, lines: &Vec<String>)
    ensures
        builder_text(*final(b)) == builder_text(*old(b)) + doc_lines(views(lines@)),
{
    b.extend(lines.iter())
}

/// Calls `Builder::build`, which returns the empty string when the text is
/// still `"/**\n"`, and otherwise the text followed by `" */\n"`.
#[verifier::external_body]
pub(crate) fn builder_build(b: Builder) -> (res: String)
    ensures
        res@ == built(builder_text(b)),
{
    b.build()
}

} // verus!
