//! Small operations on text that the configuration and the request
//! pipeline share.

use vstd::prelude::*;
use crate::validate::{is_whitespace, whitespace};

verus! {

broadcast use vstd::string::group_string_axioms;

/// `s` without the run of `c` at its end.
pub open spec fn without_trailing(s: Seq<char>, c: char) -> Seq<char>
    decreases s.len(),
{
    if s.len() > 0 && s.last() == c {
        without_trailing(s.drop_last(), c)
    } else {
        s
    }
}

/// `s` without the whitespace at its start.
pub open spec fn without_leading_whitespace(s: Seq<char>) -> Seq<char>
    decreases s.len(),
{
    if s.len() > 0 && is_whitespace(s[0]) {
        without_leading_whitespace(s.drop_first())
    } else {
        s
    }
}

/// `s` without the whitespace at its end.
pub open spec fn without_trailing_whitespace(s: Seq<char>) -> Seq<char>
    decreases s.len(),
{
    if s.len() > 0 && is_whitespace(s.last()) {
        without_trailing_whitespace(s.drop_last())
    } else {
        s
    }
}

/// `s` without the whitespace at either end.
pub open spec fn trimmed(s: Seq<char>) -> Seq<char> {
    without_trailing_whitespace(without_leading_whitespace(s))
}

/// The part of `s` before its first `c`; all of `s` where it holds none.
pub open spec fn before_first(s: Seq<char>, c: char) -> Seq<char>
    decreases s.len(),
{
    if s.len() == 0 || s[0] == c {
        Seq::<char>::empty()
    } else {
        seq![s[0]] + before_first(s.drop_first(), c)
    }
}

/// The characters of `s`, in order.
pub fn chars_of(s: &str) -> (chars: Vec<char>)
    ensures
        chars@ == s@,
{
    let mut chars: Vec<char> = Vec::new();
    for c in it: s.chars()
        invariant
            it.seq() == s@,
            chars@ == s@.take(it.index()),
    {
        chars.push(c);
    }
    chars
}

/// `s` with every `/` at its end removed.
pub fn trim_end_slashes(s: &str) -> (r: String)
    ensures
        r@ == without_trailing(s@, '/'),
{
    let chars = chars_of(s);
    let mut end: usize = chars.len();
    assert(s@.take(end as int) =~= s@);
    while end > 0 && chars[end - 1] == '/'
        invariant
            chars@ == s@,
            end <= chars.len(),
            without_trailing(s@, '/') == without_trailing(s@.take(end as int), '/'),
        decreases end,
    {
        assert(s@.take(end as int).drop_last() =~= s@.take(end - 1));
        end -= 1;
    }
    s.substring_char(0, end).to_owned()
}

/// The first of the comma-separated values of `list`, without the
/// whitespace around it.
pub(crate) fn first_list_value(list: &str) -> (value: String)
    ensures
        value@ == trimmed(before_first(list@, ',')),
{
    let chars = chars_of(list);
    let mut cut: usize = 0;
    assert(list@.take(0) + before_first(list@.skip(0), ',') =~= before_first(list@, ',')) by {
        assert(list@.skip(0) =~= list@);
    }
    while cut < chars.len() && chars[cut] != ','
        invariant
            chars@ == list@,
            cut <= chars.len(),
            before_first(list@, ',') == list@.take(cut as int) + before_first(
                list@.skip(cut as int),
                ',',
            ),
        decreases chars.len() - cut,
    {
        assert(list@.skip(cut as int).drop_first() =~= list@.skip(cut + 1));
        cut += 1;
    }
    let ghost field = list@.take(cut as int);
    let mut start: usize = 0;
    assert(field.skip(0) =~= field);
    while start < cut && whitespace(chars[start])
        invariant
            chars@ == list@,
            start <= cut <= chars.len(),
            field == list@.take(cut as int),
            without_leading_whitespace(field) == without_leading_whitespace(
                field.skip(start as int),
            ),
        decreases cut - start,
    {
        assert(field.skip(start as int).drop_first() =~= field.skip(start + 1));
        start += 1;
    }
    let ghost rest = field.skip(start as int);
    let mut end: usize = cut;
    assert(rest =~= list@.subrange(start as int, end as int));
    while end > start && whitespace(chars[end - 1])
        invariant
            chars@ == list@,
            start <= end <= cut <= chars.len(),
            without_trailing_whitespace(rest) == without_trailing_whitespace(
                list@.subrange(start as int, end as int),
            ),
        decreases end,
    {
        assert(list@.subrange(start as int, end as int).drop_last() =~= list@.subrange(
            start as int,
            end - 1,
        ));
        end -= 1;
    }
    list.substring_char(start, end).to_owned()
}

} // verus!
