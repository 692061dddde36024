//! Text helpers: comparing, splitting into lines and joining again.

use vstd::prelude::*;

verus! {

/// The index of the first line feed in `text`, or the length of `text` if
/// it holds none.
pub open spec fn first_newline(text: Seq<char>) -> nat
    decreases text.len(),
{
    if text.len() == 0 || text[0] == '\n' {
        0
    } else {
        1 + first_newline(text.skip(1))
    }
}

/// `line` without a carriage return at its end.
pub open spec fn without_cr(line: Seq<char>) -> Seq<char> {
    if line.len() > 0 && line.last() == '\r' {
        line.drop_last()
    } else {
        line
    }
}

/// The lines of `text`.  A line ends with a line feed, or with a carriage
/// return and a line feed; neither belongs to the line.  What follows the
/// last line feed is a line of its own unless it is empty, and keeps a
/// carriage return at its end.
pub open spec fn lines_of(text: Seq<char>) -> Seq<Seq<char>>
    decreases text.len(),
{
    if text.len() == 0 {
        Seq::empty()
    } else {
        let end = first_newline(text);
        if end >= text.len() {
            seq![text]
        } else {
            seq![without_cr(text.take(end as int))] + lines_of(text.skip(end as int + 1))
        }
    }
}

/// The items of `parts` in order, with `separator` between neighbours.
pub open spec fn joined(parts: Seq<Seq<char>>, separator: Seq<char>) -> Seq<char>
    decreases parts.len(),
{
    if parts.len() == 0 {
        Seq::empty()
    } else if parts.len() == 1 {
        parts[0]
    } else {
        joined(parts.drop_last(), separator) + separator + parts.last()
    }
}

/// `text` without the white space at its beginning and at its end.
pub uninterp spec fn trimmed(text: Seq<char>) -> Seq<char>;

/// `first_newline` stays inside the text.
pub proof fn lemma_first_newline_bounds(text: Seq<char>)
    ensures
        first_newline(text) <= text.len(),
        first_newline(text) < text.len() ==> text[first_newline(text) as int] == '\n',
        forall|i: int| 0 <= i < first_newline(text) ==> text[i] != '\n',
    decreases text.len(),
{
    if text.len() == 0 || text[0] == '\n' {
    } else {
        let rest = text.skip(1);
        lemma_first_newline_bounds(rest);
        assert forall|i: int| 0 <= i < first_newline(text) implies text[i] != '\n' by {
            if i > 0 {
                assert(text[i] == rest[i - 1]);
            }
        }
        if first_newline(text) < text.len() {
            assert(text[first_newline(text) as int] == rest[first_newline(rest) as int]);
        }
    }
}

/// No line holds a line feed.
pub proof fn lemma_lines_hold_no_newline(text: Seq<char>)
    ensures
        forall|i: int|
            0 <= i < lines_of(text).len() ==> !(#[trigger] lines_of(text)[i]).contains('\n'),
    decreases text.len(),
{
    if text.len() > 0 {
        lemma_first_newline_bounds(text);
        let end = first_newline(text) as int;
        if end >= text.len() {
            assert(lines_of(text) =~= seq![text]);
        } else {
            let rest = text.skip(end + 1);
            lemma_lines_hold_no_newline(rest);
            let first = without_cr(text.take(end));
            let lines = lines_of(text);
            assert forall|i: int| 0 <= i < lines.len() implies !(#[trigger] lines[i]).contains(
                '\n',
            ) by {
                if i == 0 {
                    assert(lines[0] == first);
                    assert forall|k: int| 0 <= k < first.len() implies first[k] != '\n' by {
                        assert(first[k] == text[k]);
                    }
                } else {
                    assert(lines[i] == lines_of(rest)[i - 1]);
                }
            }
        }
    }
}

/// Whether a text has plain line endings: no carriage return before a
/// line feed, and no line feed at the very end.
pub open spec fn plain_endings(text: Seq<char>) -> bool {
    &&& text.len() > 0 ==> text.last() != '\n'
    &&& forall|i: int| 0 < i < text.len() && (#[trigger] text[i]) == '\n' ==> text[i - 1] != '\r'
}

/// Joining can be taken from the front as well as from the back.
pub proof fn lemma_joined_front(first: Seq<char>, rest: Seq<Seq<char>>, separator: Seq<char>)
    requires
        rest.len() > 0,
    ensures
        joined(seq![first] + rest, separator) == first + separator + joined(rest, separator),
    decreases rest.len(),
{
    let all = seq![first] + rest;
    assert(all.len() == rest.len() + 1);
    assert(joined(all, separator) == joined(all.drop_last(), separator) + separator + all.last());
    if rest.len() == 1 {
        assert(all.drop_last() =~= seq![first]);
        assert(all.last() == rest[0]);
        assert(joined(seq![first], separator) == first);
        assert(joined(rest, separator) == rest[0]);
    } else {
        assert(all.drop_last() =~= seq![first] + rest.drop_last());
        assert(all.last() == rest.last());
        lemma_joined_front(first, rest.drop_last(), separator);
        assert(joined(all, separator) =~= first + separator + joined(rest, separator));
    }
}

/// Splitting a text with plain line endings into lines and joining them
/// by line feeds gives the text again.
pub proof fn lemma_lines_join_back(text: Seq<char>)
    requires
        plain_endings(text),
    ensures
        joined(lines_of(text), "\n"@) == text,
    decreases text.len(),
{
    reveal_strlit("\n");
    let separator = "\n"@;
    assert(separator =~= seq!['\n']);
    if text.len() == 0 {
        assert(joined(lines_of(text), separator) =~= text);
    } else {
        lemma_first_newline_bounds(text);
        let end = first_newline(text) as int;
        if end >= text.len() {
            assert(lines_of(text) =~= seq![text]);
        } else {
            let head = text.take(end);
            let rest = text.skip(end + 1);
            assert(without_cr(head) == head) by {
                if head.len() > 0 {
                    assert(head.last() == text[end - 1]);
                }
            }
            assert(rest.len() > 0);
            assert(plain_endings(rest)) by {
                assert(rest.last() == text.last());
                assert forall|i: int|
                    0 < i < rest.len() && (#[trigger] rest[i]) == '\n' implies rest[i - 1]
                    != '\r' by {
                    assert(rest[i] == text[i + end + 1]);
                    assert(rest[i - 1] == text[i + end]);
                }
            }
            lemma_lines_join_back(rest);
            assert(lines_of(rest).len() > 0);
            lemma_joined_front(head, lines_of(rest), separator);
            assert(text =~= head + separator + rest);
        }
    }
}

/// Compares two texts.  Stands for `str`'s `==`, which holds exactly when
/// both hold the same characters.
#[verifier::external_body]
pub(crate) fn str_eq(a: &str, b: &str) -> (same: bool)
    ensures
        same == (a@ == b@),
{
    a == b
}

/// Tells whether `text` begins with `prefix`.  Stands for `str::starts_with`
/// with a string pattern.
#[verifier::external_body]
pub(crate) fn starts_with(text: &str, prefix: &str) -> (found: bool)
    ensures
        found == prefix@.is_prefix_of(text@),
{
    text.starts_with(prefix)
}

/// Strips white space from both ends of `text`.  Stands for `str::trim`,
/// which goes by Unicode's notion of white space.
#[verifier::external_body]
pub(crate) fn trim(text: &str) -> (inner: &str)
    ensures
        inner@ == trimmed(text@),
{
    text.trim()
}

/// Splits `text` into its lines.  Stands for `str::lines`, whose lines end at
/// `\n` or `\r\n`; a last line without a line ending counts, an empty rest
/// after the last line ending does not.
#[verifier::external_body]
pub(crate) fn lines(text: &str) -> (found: Vec<String>)
    ensures
        found.deep_view() == lines_of(text@),
{
    text.lines().map(String::from).collect()
}

/// Joins `parts` with `separator` between neighbours.
pub fn join(parts: &Vec<String>, separator: &str) -> (text: String)
    ensures
        text@ == joined(parts.deep_view(), separator@),
{
    let mut text = String::new();
    let mut i: usize = 0;
    while i < parts.len()
        invariant
            i <= parts.len(),
            text@ == joined(parts.deep_view().take(i as int), separator@),
        decreases parts.len() - i,
    {
        let ghost before = parts.deep_view().take(i as int);
        let ghost after = parts.deep_view().take(i + 1);
        proof {
            assert(after.drop_last() =~= before);
            assert(after.last() == parts[i as int]@);
        }
        if i > 0 {
            text.append(separator);
        }
        text.append(parts[i].as_str());
        i = i + 1;
    }
    proof {
        assert(parts.deep_view().take(parts.len() as int) =~= parts.deep_view());
    }
    text
}

} // verus!
