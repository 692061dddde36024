//! Finding a marked line with a regular expression and putting a new
//! value into it.
//!
//! Matching is the `regex` crate's work.  What it finds is cut into plain
//! texts here; the new line is put together from them by verified code.

use regex::Regex;
use vstd::prelude::*;

verus! {

/// `regex::Regex`, a compiled regular expression.
#[verifier::external_type_specification]
#[verifier::external_body]
pub struct ExRegex(regex::Regex);

/// `regex::Error`, why a pattern did not compile.
#[verifier::external_type_specification]
#[verifier::external_body]
pub struct ExRegexError(regex::Error);

/// Whether `pattern` is an expression that `regex` compiles.
pub uninterp spec fn compiles(pattern: Seq<char>) -> bool;

/// The pattern that a compiled expression was made from.
pub uninterp spec fn pattern_of(regex: Regex) -> Seq<char>;

/// The leftmost match of `pattern` in `haystack`, if there is one.
pub uninterp spec fn first_match(pattern: Seq<char>, haystack: Seq<char>) -> Option<FoundView>;

/// A match, cut out of the text that was searched.
#[derive(Debug, Clone, PartialEq, Eq)]
pub struct Found {
    /// The text before the match.
    pub before: String,
    /// What each group matched: the whole expression first, then the groups
    /// in the order of their opening brackets.  A group that took no part
    /// in the match has `None`.
    pub groups: Vec<Option<String>>,
    /// The text after the match.
    pub after: String,
}

/// The model of a [`Found`].
pub struct FoundView {
    pub before: Seq<char>,
    pub groups: Seq<Option<Seq<char>>>,
    pub after: Seq<char>,
}

impl View for Found {
    type V = FoundView;

    open spec fn view(&self) -> FoundView {
        FoundView {
            before: self.before@,
            groups: self.groups.deep_view(),
            after: self.after@,
        }
    }
}

impl FoundView {
    /// Whether the three parts make up `haystack` again: the text before
    /// the match, the match itself, the text after it.
    pub open spec fn cuts(self, haystack: Seq<char>) -> bool {
        &&& self.groups.len() > 0
        &&& self.groups[0] is Some
        &&& self.before + self.groups[0]->0 + self.after == haystack
    }

    /// Whether the whole expression and the groups `first` and `second` all
    /// took part in the match.
    pub open spec fn has(self, first: int, second: int) -> bool {
        &&& 0 <= first < self.groups.len()
        &&& 0 <= second < self.groups.len()
        &&& self.groups[first] is Some
        &&& self.groups[second] is Some
    }

    /// The searched text with the match replaced: group `first`, then
    /// `value` between `open` and `close`, then group `second`.
    pub open spec fn replaced(
        self,
        first: int,
        second: int,
        open: Seq<char>,
        value: Seq<char>,
        close: Seq<char>,
    ) -> Seq<char> {
        self.before + self.groups[first]->0 + open + value + close + self.groups[second]->0
            + self.after
    }
}

/// A pattern that `regex` does not compile.
#[derive(Debug)]
pub struct PatternError {
    /// What `regex` found wrong with it.
    pub cause: regex::Error,
}

/// The model of an optional [`Found`].
pub open spec fn found_view(found: Option<Found>) -> Option<FoundView> {
    match found {
        None => None,
        Some(found) => Some(found@),
    }
}

/// `line` with the leftmost match of `pattern` replaced as
/// [`FoundView::replaced`] says; `line` itself where nothing matches, or
/// where one of the two groups took no part in the match.
pub open spec fn replaced_line(
    pattern: Seq<char>,
    line: Seq<char>,
    first: int,
    second: int,
    open: Seq<char>,
    value: Seq<char>,
    close: Seq<char>,
) -> Seq<char> {
    match first_match(pattern, line) {
        None => line,
        Some(found) => if found.has(first, second) {
            found.replaced(first, second, open, value, close)
        } else {
            line
        },
    }
}

/// Each of `lines` taken through [`replaced_line`].
pub open spec fn replaced_lines(
    pattern: Seq<char>,
    lines: Seq<Seq<char>>,
    first: int,
    second: int,
    open: Seq<char>,
    value: Seq<char>,
    close: Seq<char>,
) -> Seq<Seq<char>> {
    Seq::new(
        lines.len(),
        |i: int| replaced_line(pattern, lines[i], first, second, open, value, close),
    )
}

/// Whether `pattern` matches in none of `lines`.
pub open spec fn matches_none(pattern: Seq<char>, lines: Seq<Seq<char>>) -> bool {
    forall|i: int| 0 <= i < lines.len() ==> first_match(pattern, #[trigger] lines[i]) is None
}

/// Lines in which nothing matches stay as they are.
pub proof fn lemma_unmatched_lines_stay(
    pattern: Seq<char>,
    lines: Seq<Seq<char>>,
    first: int,
    second: int,
    open: Seq<char>,
    value: Seq<char>,
    close: Seq<char>,
)
    requires
        matches_none(pattern, lines),
    ensures
        replaced_lines(pattern, lines, first, second, open, value, close) == lines,
{
    assert(replaced_lines(pattern, lines, first, second, open, value, close) =~= lines);
}

/// Compiles a pattern.  Stands for `Regex::new`, which gives an error for
/// an invalid pattern and for one whose program would be too large; the
/// contract says no more than that the same pattern always fares the same,
/// and that the expression remembers its pattern.
#[verifier::external_body]
pub(crate) fn compile(pattern: &str) -> (compiled: Result<Regex, regex::Error>)
    ensures
        compiled is Ok <==> compiles(pattern@),
        compiled matches Ok(regex) ==> pattern_of(regex) == pattern@,
{
    Regex::new(pattern)
}

/// Searches `haystack`.  Stands for `Regex::captures`, which reports the
/// leftmost match with what each group matched; offsets are turned into
/// the texts that they delimit.  The contract names the result, and adds
/// that group 0 is the whole match and lies between `before` and `after`.
#[verifier::external_body]
pub(crate) fn captures(regex: &Regex, haystack: &str) -> (found: Option<Found>)
    ensures
        found_view(found) == first_match(pattern_of(*regex), haystack@),
        found matches Some(cut) ==> cut@.cuts(haystack@),
{
    regex.captures(haystack).map(
        |caps|
            {
                let whole = caps.get(0).unwrap().range();
                Found {
                    before: haystack[..whole.start].to_string(),
                    groups: caps.iter().map(|group| group.map(|m| m.as_str().to_string())).collect(),
                    after: haystack[whole.end..].to_string(),
                }
            },
    )
}

/// Puts a match together again with a new value in it.
pub fn replace_found(
    found: &Found,
    first: usize,
    second: usize,
    open: &str,
    value: &str,
    close: &str,
) -> (line: String)
    requires
        found@.has(first as int, second as int),
    ensures
        line@ == found@.replaced(first as int, second as int, open@, value@, close@),
{
    let mut line = found.before.clone();
    proof {
        assert(found.groups.deep_view()[first as int] == found.groups[first as int].deep_view());
        assert(found.groups.deep_view()[second as int] == found.groups[second as int].deep_view());
    }
    match &found.groups[first] {
        Some(head) => line.append(head.as_str()),
        None => {},
    }
    line.append(open);
    line.append(value);
    line.append(close);
    match &found.groups[second] {
        Some(tail) => line.append(tail.as_str()),
        None => {},
    }
    line.append(found.after.as_str());
    line
}

/// Replaces the leftmost match of `regex` in `line`; hands `line` back
/// where nothing matches or a group is missing.
pub fn replace_line(
    regex: &Regex,
    line: &str,
    first: usize,
    second: usize,
    open: &str,
    value: &str,
    close: &str,
) -> (changed: String)
    ensures
        changed@ == replaced_line(
            pattern_of(*regex),
            line@,
            first as int,
            second as int,
            open@,
            value@,
            close@,
        ),
{
    match captures(regex, line) {
        None => String::from_str(line),
        Some(found) => {
            proof {
                assert forall|i: int| 0 <= i < found.groups.len() implies (
                found.groups.deep_view()[i] is Some) == (#[trigger] found.groups[i] is Some) by {
                    assert(found.groups.deep_view()[i] == found.groups[i].deep_view());
                }
            }
            if first < found.groups.len() && second < found.groups.len()
                && found.groups[first].is_some() && found.groups[second].is_some() {
                replace_found(&found, first, second, open, value, close)
            } else {
                String::from_str(line)
            }
        },
    }
}

/// Replaces the leftmost match of `regex` in every one of `lines`.
pub fn replace_lines(
    regex: &Regex,
    lines: &Vec<String>,
    first: usize,
    second: usize,
    open: &str,
    value: &str,
    close: &str,
) -> (changed: Vec<String>)
    ensures
        changed.deep_view() == replaced_lines(
            pattern_of(*regex),
            lines.deep_view(),
            first as int,
            second as int,
            open@,
            value@,
            close@,
        ),
{
    let mut changed: Vec<String> = Vec::new();
    let mut i: usize = 0;
    while i < lines.len()
        invariant
            i <= lines.len(),
            changed.len() == i,
            forall|k: int|
                0 <= k < i ==> changed[k]@ == replaced_line(
                    pattern_of(*regex),
                    lines[k]@,
                    first as int,
                    second as int,
                    open@,
                    value@,
                    close@,
                ),
        decreases lines.len() - i,
    {
        changed.push(replace_line(regex, lines[i].as_str(), first, second, open, value, close));
        i = i + 1;
    }
    proof {
        assert(changed.deep_view() =~= replaced_lines(
            pattern_of(*regex),
            lines.deep_view(),
            first as int,
            second as int,
            open@,
            value@,
            close@,
        ));
    }
    changed
}

} // verus!
