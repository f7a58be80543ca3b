use vstd::prelude::*;

use heck::ToLowerCamelCase;

verus! {

/// The parts joined by `sep`: empty for no part, the part itself for one.
pub open spec fn join(parts: Seq<Seq<char>>, sep: Seq<char>) -> Seq<char>
    decreases parts.len(),
{
    if parts.len() == 0 {
        Seq::empty()
    } else if parts.len() == 1 {
        parts[0]
    } else {
        join(parts.drop_last(), sep) + sep + parts.last()
    }
}

/// The character sequences held by a vector of strings.
pub open spec fn views(v: Seq<String>) -> Seq<Seq<char>> {
    v.map_values(|s: String| s@)
}

/// Joins `parts` with `sep` between consecutive parts.
pub fn join_strings(parts: &Vec<String>, sep: &str) -> (res: String)
    ensures
        res@ == join(views(parts@), sep@),
{
    let mut res = String::new();
    let ghost all = views(parts@);
    let n = parts.len();
    let mut i: usize = 0;
    while i < n
        invariant
            n == parts@.len(),
            all == views(parts@),
            0 <= i <= n,
            res@ == join(all.take(i as int), sep@),
        decreases n - i,
    {
        if i != 0 {
            res.append(sep);
        }
        res.append(parts[i].as_str());
        proof {
            assert(all.take(i + 1).drop_last() =~= all.take(i as int));
            assert(all.take(i + 1).last() == parts@[i as int]@);
            if i == 0 {
                assert(res@ =~= join(all.take(1), sep@));
            }
        }
        i = i + 1;
    }
    assert(all.take(n as int) =~= all);
    res
}

/// The pieces of `s` between its newlines, as std's `split("\n")` yields
/// them: one piece more than `s` has newlines.
pub open spec fn split_lines(s: Seq<char>) -> Seq<Seq<char>>
    decreases s.len(),
{
    if s.len() == 0 {
        seq![Seq::empty()]
    } else {
        let before = split_lines(s.drop_last());
        if s.last() == '\n' {
            before.push(Seq::empty())
        } else {
            before.update(before.len() - 1, before.last().push(s.last()))
        }
    }
}

proof fn lemma_split_lines_nonempty(s: Seq<char>)
    ensures
        split_lines(s).len() > 0,
    decreases s.len(),
{
    if s.len() > 0 {
        lemma_split_lines_nonempty(s.drop_last());
    }
}

/// Splits `s` at each newline.
pub fn split_at_newlines(s: &str) -> (res: Vec<String>)
    ensures
        views(res@) == split_lines(s@),
{
    let n = s.unicode_len();
    let mut lines: Vec<String> = Vec::new();
    let mut start: usize = 0;
    let mut i: usize = 0;
    assert(s@.take(0).len() == 0);
    assert(views(lines@) =~= Seq::<Seq<char>>::empty());
    assert(s@.subrange(0, 0) =~= Seq::<char>::empty());
    assert(split_lines(s@.take(0)) =~= views(lines@).push(s@.subrange(0, 0)));
    while i < n
        invariant
            n == s@.len(),
            0 <= start <= i <= n,
            split_lines(s@.take(i as int)) == views(lines@).push(s@.subrange(start as int, i as int)),
        decreases n - i,
    {
        proof {
            assert(s@.take(i + 1).drop_last() =~= s@.take(i as int));
            lemma_split_lines_nonempty(s@.take(i as int));
        }
        let c = s.get_char(i);
        let ghost prev = views(lines@);
        let ghost prev_start = start;
        if c == '\n' {
            let line = String::from_str(s.substring_char(start, i));
            lines.push(line);
            start = i + 1;
            proof {
                assert(views(lines@) =~= prev.push(s@.subrange(prev_start as int, i as int)));
                assert(s@.subrange(start as int, i + 1) =~= Seq::<char>::empty());
            }
        } else {
            proof {
                assert(s@.subrange(start as int, i + 1) =~= s@.subrange(start as int, i as int).push(c));
            }
        }
        i = i + 1;
    }
    proof {
        assert(s@.take(n as int) =~= s@);
    }
    let last = String::from_str(s.substring_char(start, n));
    lines.push(last);
    assert(views(lines@) =~= split_lines(s@));
    lines
}

/// What heck's `to_lower_camel_case` makes of a string.
pub uninterp spec fn lower_camel_case(s: Seq<char>) -> Seq<char>;

/// Calls heck's `ToLowerCamelCase::to_lower_camel_case` on `s`; the result
/// is the named conversion of `s`, a function of `s` alone.
#[verifier::external_body]
pub(crate) fn to_lower_camel_case(s: &str) -> (res: String)
    ensures
        res@ == lower_camel_case(s@),
{
    s.to_lower_camel_case()
}

} // verus!
