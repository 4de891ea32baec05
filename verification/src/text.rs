//! Replacing in strings, and writing lists.
use vstd::prelude::*;

verus! {

/// Taken on trust of std's `String::push`: the string afterwards is the
/// string before with `c` at its end.
pub assume_specification[ String::push ](s: &mut String, c: char)
    ensures
        final(s)@ == old(s)@.push(c),
;

/// `text` with every occurrence of `pattern` replaced by `replacement`.
///
/// Occurrences are found from left to right and do not overlap: after a match
/// the search resumes behind it. An empty pattern matches before every
/// character and once more at the end.
pub open spec fn replaced(text: Seq<char>, pattern: Seq<char>, replacement: Seq<char>) -> Seq<char>
    decreases text.len(),
{
    if text.len() == 0 {
        if pattern.len() == 0 {
            replacement
        } else {
            Seq::empty()
        }
    } else if pattern.len() == 0 {
        replacement + seq![text[0]] + replaced(text.skip(1), pattern, replacement)
    } else if pattern.is_prefix_of(text) {
        replacement + replaced(text.skip(pattern.len() as int), pattern, replacement)
    } else {
        seq![text[0]] + replaced(text.skip(1), pattern, replacement)
    }
}

/// The characters of `s`, in order.
pub fn chars_of(s: &str) -> (v: Vec<char>)
    ensures
        v@ == s@,
{
    let mut v: Vec<char> = Vec::new();
    for c in it: s.chars()
        invariant
            it.seq() == s@,
            v@ == s@.take(it.index() as int),
    {
        v.push(c);
    }
    v
}

/// Whether `pattern` occurs in `text` at position `at`.
fn occurs_at(text: &Vec<char>, at: usize, pattern: &Vec<char>) -> (found: bool)
    requires
        at <= text.len(),
    ensures
        found == pattern@.is_prefix_of(text@.skip(at as int)),
{
    let rest: usize = text.len() - at;
    if pattern.len() > rest {
        return false;
    }
    let mut j: usize = 0;
    while j < pattern.len()
        invariant
            at <= text.len(),
            pattern.len() <= text.len() - at,
            j <= pattern.len(),
            forall|k: int| 0 <= k < j ==> pattern@[k] == text@[at + k],
        decreases pattern.len() - j,
    {
        if pattern[j] != text[at + j] {
            assert(text@.skip(at as int).subrange(0, pattern@.len() as int)[j as int] == text@[at + j]);
            return false;
        }
        j += 1;
    }
    assert(pattern@ =~= text@.skip(at as int).subrange(0, pattern@.len() as int));
    true
}

/// Replaces every occurrence of `pattern` in `text` by `replacement`, as
/// `str::replace` does.
pub fn replace_all(text: &str, pattern: &str, replacement: &str) -> (out: String)
    ensures
        out@ == replaced(text@, pattern@, replacement@),
{
    let chars = chars_of(text);
    let wanted = chars_of(pattern);
    let mut out = String::new();
    let mut i: usize = 0;
    assert(text@.skip(0) =~= text@);
    while i < chars.len()
        invariant
            i <= chars.len(),
            chars@ == text@,
            wanted@ == pattern@,
            out@ + replaced(text@.skip(i as int), pattern@, replacement@) == replaced(
                text@,
                pattern@,
                replacement@,
            ),
        decreases chars.len() - i,
    {
        let ghost rest = text@.skip(i as int);
        if wanted.len() == 0 {
            out.append(replacement);
            out.push(chars[i]);
            assert(rest.skip(1) =~= text@.skip(i + 1));
            i += 1;
        } else if occurs_at(&chars, i, &wanted) {
            out.append(replacement);
            assert(rest.skip(wanted@.len() as int) =~= text@.skip(i + wanted@.len()));
            i += wanted.len();
        } else {
            out.push(chars[i]);
            assert(rest.skip(1) =~= text@.skip(i + 1));
            i += 1;
        }
    }
    if wanted.len() == 0 {
        out.append(replacement);
    }
    out
}

/// The views of the strings in `items`, in order.
pub open spec fn views_of(items: Seq<String>) -> Seq<Seq<char>> {
    Seq::new(items.len(), |i: int| items[i]@)
}

/// The texts in `items` written one after the other with `separator` between
/// each two neighbours.
pub open spec fn joined(items: Seq<Seq<char>>, separator: Seq<char>) -> Seq<char>
    decreases items.len(),
{
    if items.len() == 0 {
        Seq::empty()
    } else if items.len() == 1 {
        items[0]
    } else {
        joined(items.drop_last(), separator) + separator + items.last()
    }
}

/// `items` as a list in square brackets, separated by a comma and a space.
pub open spec fn listed(items: Seq<Seq<char>>) -> Seq<char> {
    seq!['['] + joined(items, seq![',', ' ']) + seq![']']
}

/// Writes already formatted items as a bracketed list, the way `Debug` shows a
/// vector: `[a, b, c]`, and `[]` when there is none.
pub fn write_list(items: &Vec<String>) -> (out: String)
    ensures
        out@ == listed(views_of(items@)),
{
    let ghost all = views_of(items@);
    let mut out = String::new();
    out.push('[');
    let mut i: usize = 0;
    while i < items.len()
        invariant
            i <= items.len(),
            all == views_of(items@),
            out@ == seq!['['] + joined(all.take(i as int), seq![',', ' ']),
        decreases items.len() - i,
    {
        if i > 0 {
            out.push(',');
            out.push(' ');
        }
        out.append(items[i].as_str());
        assert(all.take(i + 1).drop_last() =~= all.take(i as int));
        assert(all.take(i + 1).last() == items@[i as int]@);
        assert(seq![',', ' '] =~= Seq::<char>::empty().push(',').push(' '));
        i += 1;
    }
    assert(all.take(items.len() as int) =~= all);
    out.push(']');
    out
}

} // verus!
