//! Text helpers over `String` and `&str`, specified on sequences of characters.

use vstd::prelude::*;
use vstd::string::*;

verus! {

/// Whether `pattern` stands in `s` at position `at`.
pub open spec fn occurs_at(s: Seq<char>, pattern: Seq<char>, at: int) -> bool {
    &&& 0 <= at
    &&& at + pattern.len() <= s.len()
    &&& s.subrange(at, at + pattern.len()) == pattern
}

/// Whether `pattern` stands somewhere in `s`.
pub open spec fn contains_text(s: Seq<char>, pattern: Seq<char>) -> bool {
    exists|at: int| occurs_at(s, pattern, at)
}

/// `s` with every occurrence of `from` replaced by `to`, the occurrences taken
/// from the left and never overlapping. An empty `from` replaces nothing.
pub open spec fn replaced(s: Seq<char>, from: Seq<char>, to: Seq<char>) -> Seq<char>
    decreases s.len(),
{
    if from.len() == 0 || s.len() == 0 {
        s
    } else if occurs_at(s, from, 0) {
        to + replaced(s.skip(from.len() as int), from, to)
    } else {
        seq![s[0]] + replaced(s.skip(1), from, to)
    }
}

/// The views of a sequence of strings.
pub open spec fn texts(items: Seq<String>) -> Seq<Seq<char>> {
    Seq::new(items.len(), |i: int| items[i]@)
}

/// The items in order, with `separator` between each two neighbours.
pub open spec fn joined(items: Seq<Seq<char>>, separator: Seq<char>) -> Seq<char>
    decreases items.len(),
{
    if items.len() == 0 {
        Seq::empty()
    } else if items.len() == 1 {
        items[0]
    } else {
        joined(items.drop_last(), separator) + separator + items.last()
    }
}

/// Appends one character to a string.
///
/// Trusted: stands for `String::push` of the standard library, which appends
/// the given character to the end of the string.
#[verifier::external_body]
fn push_char(s: &mut String, c: char)
    ensures
        final(s)@ == old(s)@.push(c),
{
    s.push(c)
}

/// The characters of a string, in order.
pub fn chars_of(s: &str) -> (r: Vec<char>)
    ensures
        r@ == s@,
{
    let mut out: Vec<char> = Vec::new();
    for c in it: s.chars()
        invariant
            it.seq() == s@,
            out@ == s@.take(it.index() as int),
    {
        out.push(c);
    }
    out
}

/// The string made of the given characters, in order.
pub fn string_of(chars: &Vec<char>) -> (r: String)
    ensures
        r@ == chars@,
{
    let mut out = String::new();
    let mut i: usize = 0;
    while i < chars.len()
        invariant
            i <= chars.len(),
            out@ == chars@.take(i as int),
        decreases chars.len() - i,
    {
        push_char(&mut out, chars[i]);
        i += 1;
    }
    out
}

/// Whether two strings hold the same characters.
pub fn same_text(a: &str, b: &str) -> (r: bool)
    ensures
        r == (a@ == b@),
{
    let x = a.to_owned();
    let y = b.to_owned();
    x == y
}

/// Whether `pattern` stands in `s` at index `at`.
fn matches_at(s: &Vec<char>, pattern: &Vec<char>, at: usize) -> (r: bool)
    ensures
        r == occurs_at(s@, pattern@, at as int),
{
    if pattern.len() > s.len() || at > s.len() - pattern.len() {
        return false;
    }
    let mut k: usize = 0;
    while k < pattern.len()
        invariant
            k <= pattern.len(),
            at + pattern.len() <= s.len(),
            s@.subrange(at as int, at + k) == pattern@.take(k as int),
        decreases pattern.len() - k,
    {
        if s[at + k] != pattern[k] {
            assert(s@.subrange(at as int, at + pattern.len())[k as int] != pattern@[k as int]);
            return false;
        }
        assert(s@.subrange(at as int, at + k + 1) == s@.subrange(at as int, at + k).push(
            s@[at + k],
        ));
        assert(pattern@.take(k + 1) == pattern@.take(k as int).push(pattern@[k as int]));
        k += 1;
    }
    assert(pattern@.take(pattern.len() as int) == pattern@);
    true
}

/// Whether `pattern` stands somewhere in `s`.
pub fn contains(s: &str, pattern: &str) -> (r: bool)
    ensures
        r == contains_text(s@, pattern@),
{
    let text = chars_of(s);
    let pat = chars_of(pattern);
    if pat.len() > text.len() {
        return false;
    }
    let last: usize = text.len() - pat.len();
    let mut i: usize = 0;
    loop
        invariant
            i <= last,
            last == text.len() - pat.len(),
            text@ == s@,
            pat@ == pattern@,
            forall|at: int| 0 <= at < i ==> !occurs_at(s@, pattern@, at),
        decreases last - i,
    {
        if matches_at(&text, &pat, i) {
            return true;
        }
        if i == last {
            return false;
        }
        i += 1;
    }
}

/// `s` with every occurrence of `from` replaced by `to`.
pub fn replace(s: &str, from: &str, to: &str) -> (r: String)
    ensures
        r@ == replaced(s@, from@, to@),
{
    let text = chars_of(s);
    let pat = chars_of(from);
    let sub = chars_of(to);
    if pat.len() == 0 {
        return s.to_owned();
    }
    let mut out: Vec<char> = Vec::new();
    let mut i: usize = 0;
    proof {
        assert(s@.skip(0) == s@);
        assert(Seq::<char>::empty() + replaced(s@, from@, to@) == replaced(s@, from@, to@));
    }
    while i < text.len()
        invariant
            i <= text.len(),
            text@ == s@,
            pat@ == from@,
            sub@ == to@,
            pat.len() > 0,
            out@ + replaced(s@.skip(i as int), from@, to@) == replaced(s@, from@, to@),
        decreases text.len() - i,
    {
        let ghost rest = s@.skip(i as int);
        proof {
            assert(occurs_at(rest, from@, 0) == occurs_at(s@, from@, i as int)) by {
                if i + from@.len() <= s@.len() {
                    assert(rest.subrange(0, from@.len() as int) == s@.subrange(
                        i as int,
                        i + from@.len(),
                    ));
                }
            }
        }
        if matches_at(&text, &pat, i) {
            let ghost before = out@;
            let mut k: usize = 0;
            while k < sub.len()
                invariant
                    k <= sub.len(),
                    out@ == before + sub@.take(k as int),
                decreases sub.len() - k,
            {
                out.push(sub[k]);
                assert(sub@.take(k + 1) == sub@.take(k as int).push(sub@[k as int]));
                k += 1;
            }
            proof {
                assert(sub@.take(sub.len() as int) == sub@);
                assert(rest.skip(from@.len() as int) == s@.skip(i + from@.len()));
                assert((before + to@) + replaced(s@.skip(i + from@.len()), from@, to@) == before
                    + (to@ + replaced(s@.skip(i + from@.len()), from@, to@)));
            }
            i += pat.len();
        } else {
            let ghost before = out@;
            out.push(text[i]);
            proof {
                assert(rest.skip(1) == s@.skip(i + 1));
                assert(before.push(s@[i as int]) + replaced(s@.skip(i + 1), from@, to@) == before
                    + (seq![rest[0]] + replaced(s@.skip(i + 1), from@, to@)));
            }
            i += 1;
        }
    }
    proof {
        assert(s@.skip(text.len() as int).len() == 0);
        assert(out@ + Seq::<char>::empty() == out@);
    }
    string_of(&out)
}

/// The items in order, with `separator` between each two neighbours.
pub fn join(items: &Vec<String>, separator: &str) -> (r: String)
    ensures
        r@ == joined(texts(items@), separator@),
{
    let mut out = String::new();
    let mut i: usize = 0;
    while i < items.len()
        invariant
            i <= items.len(),
            out@ == joined(texts(items@).take(i as int), separator@),
        decreases items.len() - i,
    {
        let ghost head = texts(items@).take(i as int);
        let ghost next = texts(items@).take(i + 1);
        proof {
            assert(next.drop_last() == head);
            assert(next.last() == items@[i as int]@);
        }
        if i > 0 {
            out.append(separator);
        } else {
            assert(head.len() == 0);
        }
        out.append(items[i].as_str());
        i += 1;
    }
    assert(texts(items@).take(items.len() as int) == texts(items@));
    out
}

/// Whether a character is white space.
pub uninterp spec fn is_whitespace(c: char) -> bool;

/// Whether a character is white space.
///
/// Trusted: stands for `char::is_whitespace` of the standard library, which
/// says whether the character has the Unicode property `White_Space`. The
/// contract claims that the answer depends on the character alone, and that
/// the space, the line feed and the no-break space are white space, which
/// the documentation of `char::is_whitespace` shows by example.
#[verifier::external_body]
fn char_is_whitespace(c: char) -> (r: bool)
    ensures
        r == is_whitespace(c),
        c == ' ' || c == '\n' || c == '\u{a0}' ==> r,
{
    c.is_whitespace()
}

/// Whether a character is white space. The space, the line feed and the
/// no-break space are.
pub fn is_white_space(c: char) -> (r: bool)
    ensures
        r == is_whitespace(c),
        c == ' ' || c == '\n' || c == '\u{a0}' ==> r,
{
    char_is_whitespace(c)
}

/// `s` without the white space at its start.
pub open spec fn trimmed_start(s: Seq<char>) -> Seq<char>
    decreases s.len(),
{
    if s.len() > 0 && is_whitespace(s[0]) {
        trimmed_start(s.skip(1))
    } else {
        s
    }
}

/// `s` without the white space at its end.
pub open spec fn trimmed_end(s: Seq<char>) -> Seq<char>
    decreases s.len(),
{
    if s.len() > 0 && is_whitespace(s.last()) {
        trimmed_end(s.drop_last())
    } else {
        s
    }
}

/// `s` without the white space at its start and at its end.
pub open spec fn trimmed(s: Seq<char>) -> Seq<char> {
    trimmed_end(trimmed_start(s))
}

/// `s` without the white space at its start and at its end.
pub fn trim(s: &str) -> (r: String)
    ensures
        r@ == trimmed(s@),
{
    let chars = chars_of(s);
    let mut start: usize = 0;
    assert(s@.skip(0) == s@);
    while start < chars.len() && is_white_space(chars[start])
        invariant
            start <= chars.len(),
            chars@ == s@,
            trimmed_start(s@.skip(start as int)) == trimmed_start(s@),
        decreases chars.len() - start,
    {
        assert(s@.skip(start as int).skip(1) == s@.skip(start + 1));
        start += 1;
    }
    let ghost rest = s@.skip(start as int);
    assert(trimmed_start(s@) == rest);
    let mut end: usize = chars.len();
    while end > start && is_white_space(chars[end - 1])
        invariant
            start <= end <= chars.len(),
            chars@ == s@,
            rest == s@.skip(start as int),
            trimmed_end(s@.subrange(start as int, end as int)) == trimmed_end(rest),
        decreases end - start,
    {
        assert(s@.subrange(start as int, end as int).drop_last() == s@.subrange(
            start as int,
            end - 1,
        ));
        end -= 1;
    }
    let mut out: Vec<char> = Vec::new();
    let mut i: usize = start;
    while i < end
        invariant
            start <= i <= end <= chars.len(),
            chars@ == s@,
            out@ == s@.subrange(start as int, i as int),
        decreases end - i,
    {
        out.push(chars[i]);
        assert(s@.subrange(start as int, i + 1) == s@.subrange(start as int, i as int).push(
            s@[i as int],
        ));
        i += 1;
    }
    string_of(&out)
}

/// The position of the first line feed in `s`, or the length of `s` where it
/// has none.
pub open spec fn line_end(s: Seq<char>) -> nat
    decreases s.len(),
{
    if s.len() == 0 || s[0] == '\n' {
        0
    } else {
        1 + line_end(s.skip(1))
    }
}

/// A line without the carriage return that may end it.
pub open spec fn without_return(line: Seq<char>) -> Seq<char> {
    if line.len() > 0 && line.last() == '\r' {
        line.drop_last()
    } else {
        line
    }
}

/// The lines of a text. A line ends with a line feed, or with a carriage
/// return and a line feed; neither belongs to the line. The last line needs no
/// line ending, and a text that ends with one has no empty line after it.
pub open spec fn lines_of(s: Seq<char>) -> Seq<Seq<char>>
    decreases s.len(),
{
    if s.len() == 0 {
        Seq::empty()
    } else if line_end(s) >= s.len() {
        seq![s]
    } else {
        seq![without_return(s.take(line_end(s) as int))] + lines_of(s.skip(line_end(s) as int + 1))
    }
}

/// Where the first line ends.
proof fn lemma_line_end(s: Seq<char>, n: int)
    requires
        0 <= n <= s.len(),
        forall|j: int| 0 <= j < n ==> s[j] != '\n',
        n < s.len() ==> s[n] == '\n',
    ensures
        line_end(s) == n,
    decreases n,
{
    if n > 0 {
        assert forall|j: int| 0 <= j < n - 1 implies s.skip(1)[j] != '\n' by {
            assert(s.skip(1)[j] == s[j + 1]);
        }
        lemma_line_end(s.skip(1), n - 1);
    }
}

/// The lines of a text.
pub fn lines(s: &str) -> (r: Vec<String>)
    ensures
        texts(r@) == lines_of(s@),
{
    let chars = chars_of(s);
    let mut out: Vec<String> = Vec::new();
    let mut start: usize = 0;
    proof {
        assert(s@.skip(0) == s@);
        assert(texts(out@) + lines_of(s@) =~= lines_of(s@));
    }
    while start < chars.len()
        invariant
            start <= chars.len(),
            chars@ == s@,
            texts(out@) + lines_of(s@.skip(start as int)) == lines_of(s@),
        decreases chars.len() - start,
    {
        let ghost rest = s@.skip(start as int);
        let mut end: usize = start;
        while end < chars.len() && chars[end] != '\n'
            invariant
                start <= end <= chars.len(),
                chars@ == s@,
                forall|j: int| start <= j < end ==> s@[j] != '\n',
            decreases chars.len() - end,
        {
            end += 1;
        }
        proof {
            lemma_line_end(rest, end - start);
        }
        let mut stop: usize = end;
        if end < chars.len() && end > start && chars[end - 1] == '\r' {
            stop = end - 1;
        }
        let mut line: Vec<char> = Vec::new();
        let mut i: usize = start;
        while i < stop
            invariant
                start <= i <= stop <= chars.len(),
                chars@ == s@,
                line@ == s@.subrange(start as int, i as int),
            decreases stop - i,
        {
            line.push(chars[i]);
            assert(s@.subrange(start as int, i + 1) == s@.subrange(start as int, i as int).push(
                s@[i as int],
            ));
            i += 1;
        }
        let text = string_of(&line);
        let ghost before = out@;
        out.push(text);
        proof {
            assert(rest.take(end - start) == s@.subrange(start as int, end as int));
            if end < chars.len() {
                assert(rest.skip(end - start + 1) == s@.skip(end + 1));
                if end > start && s@[end - 1] == '\r' {
                    assert(s@.subrange(start as int, end as int).drop_last() == s@.subrange(
                        start as int,
                        stop as int,
                    ));
                }
                assert(text@ == without_return(rest.take(end - start)));
                assert(texts(out@) =~= texts(before) + seq![text@]);
                assert(texts(out@) + lines_of(s@.skip(end + 1)) =~= texts(before) + (seq![text@]
                    + lines_of(s@.skip(end + 1))));
            } else {
                assert(s@.subrange(start as int, end as int) == rest);
                assert(s@.skip(end as int).len() == 0);
                assert(texts(out@) =~= texts(before) + seq![text@]);
                assert(texts(out@) + lines_of(s@.skip(end as int)) =~= texts(before) + seq![rest]);
            }
        }
        if end < chars.len() {
            start = end + 1;
        } else {
            start = end;
        }
    }
    proof {
        assert(s@.skip(start as int).len() == 0);
        assert(texts(out@) + Seq::<Seq<char>>::empty() =~= texts(out@));
    }
    out
}

/// The decimal digit for a number below ten.
pub open spec fn digit(d: nat) -> char {
    if d == 0 {
        '0'
    } else if d == 1 {
        '1'
    } else if d == 2 {
        '2'
    } else if d == 3 {
        '3'
    } else if d == 4 {
        '4'
    } else if d == 5 {
        '5'
    } else if d == 6 {
        '6'
    } else if d == 7 {
        '7'
    } else if d == 8 {
        '8'
    } else {
        '9'
    }
}

/// A number in decimal digits, without leading zeros.
pub open spec fn decimal_text(n: nat) -> Seq<char>
    decreases n,
{
    if n < 10 {
        seq![digit(n)]
    } else {
        decimal_text(n / 10).push(digit(n % 10))
    }
}

/// The decimal digit for a number below ten.
fn digit_char(d: usize) -> (c: char)
    requires
        d < 10,
    ensures
        c == digit(d as nat),
{
    if d == 0 {
        '0'
    } else if d == 1 {
        '1'
    } else if d == 2 {
        '2'
    } else if d == 3 {
        '3'
    } else if d == 4 {
        '4'
    } else if d == 5 {
        '5'
    } else if d == 6 {
        '6'
    } else if d == 7 {
        '7'
    } else if d == 8 {
        '8'
    } else {
        '9'
    }
}

/// A number in decimal digits, without leading zeros.
pub fn decimal(n: usize) -> (r: String)
    ensures
        r@ == decimal_text(n as nat),
{
    let mut reversed: Vec<char> = Vec::new();
    let mut rest: usize = n;
    // `reversed` holds the digits below `rest`, the lowest first.
    let ghost mut low: Seq<char> = Seq::empty();
    while rest >= 10
        invariant
            reversed@ == low.reverse(),
            decimal_text(rest as nat) + low == decimal_text(n as nat),
        decreases rest,
    {
        let d = digit_char(rest % 10);
        reversed.push(d);
        proof {
            let next = seq![d] + low;
            assert(next.reverse() =~= low.reverse().push(d));
            assert(decimal_text((rest / 10) as nat) + next =~= decimal_text(rest as nat) + low);
            low = next;
        }
        rest = rest / 10;
    }
    let first = digit_char(rest);
    reversed.push(first);
    let ghost all = seq![first] + low;
    proof {
        assert(all.reverse() =~= low.reverse().push(first));
        assert(all =~= decimal_text(n as nat));
    }
    let mut out: Vec<char> = Vec::new();
    let mut i: usize = reversed.len();
    while i > 0
        invariant
            i <= reversed.len(),
            reversed@ == all.reverse(),
            out@ == all.take(reversed.len() - i),
        decreases i,
    {
        i -= 1;
        out.push(reversed[i]);
        assert(all.reverse()[i as int] == all[all.len() - 1 - i]);
        assert(all.take(reversed.len() - i) =~= all.take(reversed.len() - i - 1).push(
            all[all.len() - 1 - i],
        ));
    }
    assert(all.take(reversed.len() as int) =~= all);
    string_of(&out)
}

} // verus!
