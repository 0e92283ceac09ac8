//! Text helpers shared by the registration policy and the report: substring
//! tests, module-path stripping, decimal numbers and line indentation.

use vstd::prelude::*;

verus! {

broadcast use vstd::string::group_string_axioms;

/// `needle` occurs in `hay` as a contiguous run of characters.
pub open spec fn is_substring(needle: Seq<char>, hay: Seq<char>) -> bool {
    exists|i: int|
        0 <= i && i + needle.len() <= hay.len() && #[trigger] hay.subrange(i, i + needle.len())
            == needle
}

/// The path separator `::` stands at index `i` of `s`.
pub open spec fn separator_at(s: Seq<char>, i: int) -> bool {
    0 <= i && i + 1 < s.len() && s[i] == ':' && s[i + 1] == ':'
}

/// `s` holds a path separator somewhere.
pub open spec fn has_separator(s: Seq<char>) -> bool {
    exists|i: int| separator_at(s, i)
}

/// `i` is where the first path separator of `s` starts.
pub open spec fn is_first_separator(s: Seq<char>, i: int) -> bool {
    separator_at(s, i) && forall|j: int| 0 <= j < i ==> !separator_at(s, j)
}

/// The index of the first path separator of `s`.
pub open spec fn first_separator(s: Seq<char>) -> int {
    choose|i: int| is_first_separator(s, i)
}

/// What is left of a qualified name once everything up to and including its
/// first path separator is removed.
pub open spec fn normalized(s: Seq<char>) -> Seq<char> {
    s.skip(first_separator(s) + 2)
}

/// `String::push` of the standard library: the character is added at the end
/// and nothing else changes.
pub assume_specification[ String::push ](s: &mut String, c: char)
    ensures
        final(s)@ == old(s)@.push(c),
;

/// `str::contains` of the standard library, called with a string pattern:
/// true exactly when the pattern matches a sub-slice of the haystack. Both
/// strings are valid UTF-8, so a match on bytes is a match on characters.
#[verifier::external_body]
pub(crate) fn contains(hay: &str, needle: &str) -> (found: bool)
    ensures
        found == is_substring(needle@, hay@),
{
    hay.contains(needle)
}

/// `str::split_once` of the standard library, called with the pattern `::`:
/// `None` when the pattern does not occur, otherwise the text before its first
/// occurrence and the text after it.
#[verifier::external_body]
pub(crate) fn split_once_path<'a>(name: &'a str) -> (parts: Option<(&'a str, &'a str)>)
    ensures
        parts is Some <==> has_separator(name@),
        parts matches Some((head, tail)) ==> {
            &&& is_first_separator(name@, head@.len() as int)
            &&& head@ == name@.take(head@.len() as int)
            &&& tail@ == name@.skip(head@.len() as int + 2)
        },
{
    name.split_once("::")
}

/// Strips the module path from a qualified test name.
pub fn normalize<'a>(name: &'a str) -> (short: &'a str)
    requires
        has_separator(name@),
    ensures
        short@ == normalized(name@),
{
    let (head, tail) = split_once_path(name).unwrap();
    proof {
        // Both are first separators of the name, so neither lies before the other.
        let here = head@.len() as int;
        let first = first_separator(name@);
        if first < here {
            assert(!separator_at(name@, first));
        }
        if here < first {
            assert(!separator_at(name@, here));
        }
    }
    tail
}

/// The character that writes the digit `d`.
pub open spec fn digit(d: nat) -> char {
    if d == 0 {
        '0'
    } else if d == 1 {
        '1'
    } else if d == 2 {
        '2'
    } else if d == 3 {
        '3'
    } else if d == 4 {
        '4'
    } else if d == 5 {
        '5'
    } else if d == 6 {
        '6'
    } else if d == 7 {
        '7'
    } else if d == 8 {
        '8'
    } else {
        '9'
    }
}

/// The decimal numeral of `n`, without leading zeros.
pub open spec fn decimal_digits(n: nat) -> Seq<char>
    decreases n,
{
    if n < 10 {
        seq![digit(n)]
    } else {
        decimal_digits(n / 10).push(digit(n % 10))
    }
}

fn digit_char(d: usize) -> (c: char)
    requires
        d < 10,
    ensures
        c == digit(d as nat),
{
    if d == 0 {
        '0'
    } else if d == 1 {
        '1'
    } else if d == 2 {
        '2'
    } else if d == 3 {
        '3'
    } else if d == 4 {
        '4'
    } else if d == 5 {
        '5'
    } else if d == 6 {
        '6'
    } else if d == 7 {
        '7'
    } else if d == 8 {
        '8'
    } else {
        '9'
    }
}

/// The digits of `n` from the least significant one up.
spec fn digits_reversed(n: nat) -> Seq<char>
    decreases n,
{
    if n < 10 {
        seq![digit(n)]
    } else {
        seq![digit(n % 10)] + digits_reversed(n / 10)
    }
}

proof fn lemma_digits_reversed(n: nat)
    ensures
        digits_reversed(n).reverse() == decimal_digits(n),
    decreases n,
{
    if n >= 10 {
        lemma_digits_reversed(n / 10);
        let rest = digits_reversed(n / 10);
        assert((seq![digit(n % 10)] + rest).reverse() =~= rest.reverse().push(digit(n % 10)));
    }
}

/// Writes `n` in decimal.
pub fn decimal(n: usize) -> (text: String)
    ensures
        text@ == decimal_digits(n as nat),
{
    let mut low_first: Vec<char> = Vec::new();
    let mut rest: usize = n;
    while rest >= 10
        invariant
            low_first@ + digits_reversed(rest as nat) == digits_reversed(n as nat),
        decreases rest,
    {
        low_first.push(digit_char(rest % 10));
        rest = rest / 10;
    }
    low_first.push(digit_char(rest));
    proof {
        lemma_digits_reversed(n as nat);
    }
    let mut text = String::new();
    let mut i: usize = low_first.len();
    while i > 0
        invariant
            i <= low_first.len(),
            text@ == low_first@.reverse().take(low_first.len() - i),
        decreases i,
    {
        i = i - 1;
        text.push(low_first[i]);
    }
    text
}

/// Where the first line of `s` ends: the index of its first line feed, or the
/// length of `s` where it holds none.
pub open spec fn line_end(s: Seq<char>) -> nat
    decreases s.len(),
{
    if s.len() == 0 || s[0] == '\n' {
        0
    } else {
        (1 + line_end(s.drop_first())) as nat
    }
}

/// A line without the carriage return that may end it.
pub open spec fn strip_cr(line: Seq<char>) -> Seq<char> {
    if line.len() > 0 && line.last() == '\r' {
        line.drop_last()
    } else {
        line
    }
}

/// The lines of `s`. A line ends at a line feed, and a carriage return just
/// before that line feed belongs to the line ending. The last line needs no
/// line ending, and an empty rest after the last line ending is no line.
pub open spec fn lines(s: Seq<char>) -> Seq<Seq<char>>
    decreases s.len(),
{
    if s.len() == 0 {
        Seq::empty()
    } else {
        let end = line_end(s);
        if end >= s.len() {
            seq![s]
        } else {
            seq![strip_cr(s.take(end as int))] + lines(s.skip(end as int + 1))
        }
    }
}

/// Each line behind four spaces and in front of a line feed.
pub open spec fn indented(lines: Seq<Seq<char>>) -> Seq<char>
    decreases lines.len(),
{
    if lines.len() == 0 {
        Seq::empty()
    } else {
        "    "@ + lines[0] + seq!['\n'] + indented(lines.drop_first())
    }
}

/// The text `s` with every line indented by four spaces and ended by a line
/// feed.
pub open spec fn tabbed(s: Seq<char>) -> Seq<char> {
    indented(lines(s))
}

/// No line feed occurs in `s`.
pub open spec fn single_line(s: Seq<char>) -> bool {
    forall|k: int| 0 <= k < s.len() ==> s[k] != '\n'
}

proof fn lemma_line_end(line: Seq<char>, rest: Seq<char>)
    requires
        single_line(line),
        rest.len() == 0 || rest[0] == '\n',
    ensures
        line_end(line + rest) == line.len(),
    decreases line.len(),
{
    if line.len() > 0 {
        assert((line + rest).drop_first() =~= line.drop_first() + rest);
        lemma_line_end(line.drop_first(), rest);
    }
}

proof fn lemma_tabbed_line(line: Seq<char>, rest: Seq<char>)
    requires
        single_line(line),
    ensures
        tabbed(line + seq!['\n'] + rest) == "    "@ + strip_cr(line) + seq!['\n'] + tabbed(rest),
{
    let whole = line + seq!['\n'] + rest;
    assert(whole =~= line + (seq!['\n'] + rest));
    lemma_line_end(line, seq!['\n'] + rest);
    assert(whole.take(line.len() as int) =~= line);
    assert(whole.skip(line.len() as int + 1) =~= rest);
    let ls = seq![strip_cr(line)] + lines(rest);
    assert(ls.drop_first() =~= lines(rest));
}

proof fn lemma_tabbed_last(line: Seq<char>)
    requires
        single_line(line),
        line.len() > 0,
    ensures
        tabbed(line) == "    "@ + line + seq!['\n'],
{
    lemma_line_end(line, Seq::empty());
    let ls = seq![line];
    assert(indented(ls) == "    "@ + line + seq!['\n'] + indented(ls.drop_first()));
}

/// Appends the first `count` characters of `line` to `text`.
fn push_chars(text: &mut String, line: &Vec<char>, count: usize)
    requires
        count <= line.len(),
    ensures
        final(text)@ == old(text)@ + line@.take(count as int),
{
    let mut i: usize = 0;
    while i < count
        invariant
            i <= count <= line.len(),
            text@ == old(text)@ + line@.take(i as int),
        decreases count - i,
    {
        text.push(line[i]);
        i = i + 1;
    }
}

/// Indents `s`: every line gets four spaces in front and a line feed behind.
pub fn tab(s: &str) -> (result: String)
    ensures
        result@ == tabbed(s@),
{
    let mut result = String::new();
    let mut line: Vec<char> = Vec::new();
    assert(line@ + s@.skip(0) =~= s@);
    for c in it: s.chars()
        invariant
            it.seq() == s@,
            single_line(line@),
            result@ + tabbed(line@ + s@.skip(it.index() as int)) == tabbed(s@),
    {
        let ghost rest = s@.skip(it.index() + 1);
        let ghost held = line@;
        if c == '\n' {
            proof {
                assert(held + s@.skip(it.index() as int) =~= held + seq!['\n'] + rest);
                lemma_tabbed_line(held, rest);
            }
            let keep = if line.len() > 0 && line[line.len() - 1] == '\r' {
                line.len() - 1
            } else {
                line.len()
            };
            result.append("    ");
            push_chars(&mut result, &line, keep);
            result.push('\n');
            line = Vec::new();
        } else {
            line.push(c);
            assert(line@ + rest =~= held + s@.skip(it.index() as int));
        }
    }
    if line.len() > 0 {
        proof {
            lemma_tabbed_last(line@);
        }
        result.append("    ");
        push_chars(&mut result, &line, line.len());
        result.push('\n');
    }
    result
}

} // verus!
