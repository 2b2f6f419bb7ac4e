//! Text as sequences of characters: trimming, splitting into lines, splitting into fields.
use vstd::prelude::*;
use vstd::slice::slice_subrange;

verus! {

/// `String::push` appends the given character to the end of the string.
pub assume_specification[ String::push ](s: &mut String, c: char)
    ensures
        final(s)@ == old(s)@.push(c),
;

/// `char::is_whitespace` tells whether a character has the Unicode property `White_Space`; the
/// characters that have it are those of [`is_white_space`].
pub assume_specification[ char::is_whitespace ](c: char) -> (res: bool)
    ensures
        res == is_white_space(c),
;

/// The characters with the Unicode property `White_Space`.
pub open spec fn is_white_space(c: char) -> bool {
    ||| '\u{9}' <= c <= '\u{d}'
    ||| c == '\u{20}'
    ||| c == '\u{85}'
    ||| c == '\u{a0}'
    ||| c == '\u{1680}'
    ||| '\u{2000}' <= c <= '\u{200a}'
    ||| c == '\u{2028}'
    ||| c == '\u{2029}'
    ||| c == '\u{202f}'
    ||| c == '\u{205f}'
    ||| c == '\u{3000}'
}

/// `s` without the white space at its start.
pub open spec fn trimmed_start(s: Seq<char>) -> Seq<char>
    decreases s.len(),
{
    if s.len() > 0 && is_white_space(s[0]) {
        trimmed_start(s.skip(1))
    } else {
        s
    }
}

/// `s` without the white space at its end.
pub open spec fn trimmed_end(s: Seq<char>) -> Seq<char>
    decreases s.len(),
{
    if s.len() > 0 && is_white_space(s.last()) {
        trimmed_end(s.drop_last())
    } else {
        s
    }
}

/// `s` without the white space at either end.
pub open spec fn trimmed(s: Seq<char>) -> Seq<char> {
    trimmed_end(trimmed_start(s))
}

/// The position of the first `c` in `s`, or the length of `s` if there is none.
pub open spec fn position(s: Seq<char>, c: char) -> int
    decreases s.len(),
{
    if s.len() == 0 || s[0] == c {
        0
    } else {
        1 + position(s.skip(1), c)
    }
}

/// `s` without a carriage return at its end.
pub open spec fn without_return(s: Seq<char>) -> Seq<char> {
    if s.len() > 0 && s.last() == '\r' {
        s.drop_last()
    } else {
        s
    }
}

/// The lines of `s`: each ends at a line feed, which a carriage return may precede; neither belongs
/// to the line. The last line need not be ended, and no empty line follows the last line feed.
pub open spec fn lines(s: Seq<char>) -> Seq<Seq<char>>
    decreases s.len(),
    via lines_decreases
{
    if s.len() == 0 {
        seq![]
    } else {
        let n = position(s, '\n');
        if n >= s.len() {
            seq![s]
        } else {
            seq![without_return(s.take(n))] + lines(s.skip(n + 1))
        }
    }
}

#[via_fn]
proof fn lines_decreases(s: Seq<char>) {
    lemma_position(s, '\n');
}

/// The fields of `s`: the parts between the first `n - 1` occurrences of `separator`, the last of
/// them holding all that is left.
pub open spec fn fields(s: Seq<char>, n: nat, separator: char) -> Seq<Seq<char>>
    decreases n,
{
    let p = position(s, separator);
    if n == 0 {
        seq![]
    } else if n == 1 || p >= s.len() {
        seq![s]
    } else {
        seq![s.take(p)] + fields(s.skip(p + 1), (n - 1) as nat, separator)
    }
}

/// The texts that a sequence of strings holds.
pub open spec fn texts(strings: Seq<String>) -> Seq<Seq<char>> {
    strings.map_values(|s: String| s@)
}

/// Before its first occurrence a character does not occur, and there it does.
pub proof fn lemma_position(s: Seq<char>, c: char)
    ensures
        0 <= position(s, c) <= s.len(),
        forall|i: int| 0 <= i < position(s, c) ==> s[i] != c,
        position(s, c) < s.len() ==> s[position(s, c)] == c,
    decreases s.len(),
{
    if s.len() > 0 && s[0] != c {
        lemma_position(s.skip(1), c);
        assert forall|i: int| 0 <= i < position(s, c) implies s[i] != c by {
            if i > 0 {
                assert(s[i] == s.skip(1)[i - 1]);
            }
        }
    }
}

/// The first occurrence of a character is where it occurs and has not occurred before.
pub proof fn lemma_position_is(s: Seq<char>, c: char, p: int)
    requires
        0 <= p <= s.len(),
        forall|i: int| 0 <= i < p ==> s[i] != c,
        p < s.len() ==> s[p] == c,
    ensures
        position(s, c) == p,
{
    lemma_position(s, c);
}

/// There is at least one field.
pub proof fn lemma_fields_nonempty(s: Seq<char>, n: nat, separator: char)
    requires
        n > 0,
    ensures
        fields(s, n, separator).len() > 0,
{
}

/// What is left of a text without its outer white space is a part of it that neither begins nor ends
/// in white space.
pub proof fn lemma_trimmed(s: Seq<char>)
    ensures
        trimmed(s).len() > 0 ==> !is_white_space(trimmed(s)[0]) && !is_white_space(
            trimmed(s).last(),
        ),
        forall|c: char| #[trigger] trimmed(s).contains(c) ==> s.contains(c),
    decreases s.len(),
{
    if s.len() > 0 && is_white_space(s[0]) {
        lemma_trimmed(s.skip(1));
        assert forall|c: char| #[trigger] trimmed(s).contains(c) implies s.contains(c) by {
            assert(s.skip(1).contains(c));
            let i = choose|i: int| 0 <= i < s.skip(1).len() && s.skip(1)[i] == c;
            assert(s[i + 1] == c);
        }
    } else {
        lemma_trimmed_end(s);
    }
}

/// White space at the end makes no difference to what is left without it.
pub proof fn lemma_trimmed_push(s: Seq<char>, c: char)
    requires
        is_white_space(c),
    ensures
        trimmed(s.push(c)) == trimmed(s),
    decreases s.len(),
{
    if s.len() == 0 {
        assert(s.push(c).skip(1) == s);
    } else if is_white_space(s[0]) {
        assert(s.push(c).skip(1) == s.skip(1).push(c));
        lemma_trimmed_push(s.skip(1), c);
    } else {
        assert(s.push(c).drop_last() == s);
    }
}

/// A carriage return at the end makes no difference either.
pub proof fn lemma_trimmed_without_return(s: Seq<char>)
    ensures
        trimmed(without_return(s)) == trimmed(s),
{
    if s.len() > 0 && s.last() == '\r' {
        lemma_trimmed_push(s.drop_last(), '\r');
        assert(s.drop_last().push('\r') == s);
    }
}

proof fn lemma_trimmed_end(s: Seq<char>)
    ensures
        trimmed_end(s).len() > 0 ==> !is_white_space(trimmed_end(s).last()) && trimmed_end(s)[0]
            == s[0],
        forall|c: char| #[trigger] trimmed_end(s).contains(c) ==> s.contains(c),
    decreases s.len(),
{
    if s.len() > 0 && is_white_space(s.last()) {
        lemma_trimmed_end(s.drop_last());
        assert forall|c: char| #[trigger] trimmed_end(s).contains(c) implies s.contains(c) by {
            assert(s.drop_last().contains(c));
            let i = choose|i: int| 0 <= i < s.drop_last().len() && s.drop_last()[i] == c;
            assert(s[i] == c);
        }
    }
}

/// Texts that come one after the other, the first of which ends its last line, have the lines of the
/// one and then those of the other.
pub proof fn lemma_lines_concat(a: Seq<char>, b: Seq<char>)
    requires
        a.len() == 0 || a.last() == '\n',
    ensures
        lines(a + b) == lines(a) + lines(b),
    decreases a.len(),
{
    if a.len() == 0 {
        assert(a + b == b);
        assert(lines(a) + lines(b) == lines(b));
    } else {
        let n = position(a, '\n');
        lemma_position(a, '\n');
        assert(n < a.len()) by {
            assert(a[a.len() - 1] == '\n');
        }
        lemma_position_is(a + b, '\n', n);
        assert((a + b).take(n) == a.take(n));
        assert((a + b).skip(n + 1) == a.skip(n + 1) + b);
        lemma_lines_concat(a.skip(n + 1), b);
        let first = seq![without_return(a.take(n))];
        assert((first + lines(a.skip(n + 1))) + lines(b) == first + (lines(a.skip(n + 1)) + lines(
            b,
        )));
    }
}

/// A text that holds just one line feed, at its end, is one line.
pub proof fn lemma_one_line(s: Seq<char>)
    requires
        !s.contains('\n'),
    ensures
        lines(s.push('\n')) == seq![without_return(s)],
{
    let line = s.push('\n');
    assert forall|i: int| 0 <= i < s.len() implies line[i] != '\n' by {
        assert(s.contains(s[i]));
    }
    lemma_position_is(line, '\n', s.len() as int);
    assert(line.take(s.len() as int) == s);
    assert(line.skip(s.len() as int + 1) == Seq::<char>::empty());
    assert(lines(Seq::<char>::empty()) == Seq::<Seq<char>>::empty());
    assert(seq![without_return(s)] + lines(Seq::<char>::empty()) == seq![without_return(s)]);
}

/// No line holds a line feed.
pub proof fn lemma_lines_hold_no_line_feed(s: Seq<char>, i: int)
    requires
        0 <= i < lines(s).len(),
    ensures
        !lines(s)[i].contains('\n'),
    decreases s.len(),
{
    let n = position(s, '\n');
    lemma_position(s, '\n');
    if n < s.len() {
        if i == 0 {
            let line = lines(s)[0];
            assert(line == without_return(s.take(n)));
            assert forall|j: int| 0 <= j < line.len() implies line[j] != '\n' by {
                assert(line[j] == s[j]);
            }
        } else {
            assert(lines(s)[i] == lines(s.skip(n + 1))[i - 1]);
            lemma_lines_hold_no_line_feed(s.skip(n + 1), i - 1);
        }
    }
}

/// Whether a text is all white space.
pub open spec fn all_white(s: Seq<char>) -> bool {
    forall|i: int| 0 <= i < s.len() ==> is_white_space(#[trigger] s[i])
}

/// White space before and after a text makes no difference to what is left without it.
pub proof fn law_outer_space_is_dropped(before: Seq<char>, s: Seq<char>, after: Seq<char>)
    requires
        all_white(before),
        all_white(after),
    ensures
        trimmed(before + s + after) == trimmed(s),
    decreases before.len() + after.len(),
{
    if after.len() > 0 {
        let shorter = after.drop_last();
        assert forall|i: int| 0 <= i < shorter.len() implies is_white_space(#[trigger] shorter[i]) by {
            assert(shorter[i] == after[i]);
        }
        assert(is_white_space(after[after.len() - 1]));
        assert(before + s + after == (before + s + shorter).push(after.last()));
        lemma_trimmed_push(before + s + shorter, after.last());
        law_outer_space_is_dropped(before, s, shorter);
    } else if before.len() > 0 {
        let shorter = before.skip(1);
        assert forall|i: int| 0 <= i < shorter.len() implies is_white_space(#[trigger] shorter[i]) by {
            assert(shorter[i] == before[i + 1]);
        }
        let all = before + s + after;
        assert(is_white_space(before[0]));
        assert(all.skip(1) == shorter + s + after);
        law_outer_space_is_dropped(shorter, s, after);
    } else {
        assert(before + s + after == s);
    }
}

/// What is left of a text without its outer white space is what stands between its first and its last
/// character that are not white space.
pub proof fn law_trimmed(before: Seq<char>, core: Seq<char>, after: Seq<char>)
    requires
        all_white(before),
        all_white(after),
        core.len() > 0 ==> !is_white_space(core[0]) && !is_white_space(core.last()),
    ensures
        trimmed(before + core + after) == core,
{
    law_outer_space_is_dropped(before, core, after);
}

/// Every text is white space, what is left without it, and white space.
pub proof fn law_trimmed_is_the_middle(s: Seq<char>)
    ensures
        exists|a: int, b: int|
            0 <= a <= b <= s.len() && all_white(s.take(a)) && all_white(s.skip(b)) && trimmed(s)
                == #[trigger] s.subrange(a, b),
        trimmed(s).len() == 0 ==> all_white(s),
    decreases s.len(),
{
    if s.len() > 0 && is_white_space(s[0]) {
        let rest = s.skip(1);
        law_trimmed_is_the_middle(rest);
        let (a, b) = choose|a: int, b: int|
            0 <= a <= b <= rest.len() && all_white(rest.take(a)) && all_white(rest.skip(b))
                && trimmed(rest) == #[trigger] rest.subrange(a, b);
        assert(rest.subrange(a, b) == s.subrange(a + 1, b + 1));
        assert forall|i: int| 0 <= i < s.take(a + 1).len() implies is_white_space(
            #[trigger] s.take(a + 1)[i],
        ) by {
            if i > 0 {
                assert(is_white_space(rest.take(a)[i - 1]));
            }
        }
        assert(s.skip(b + 1) == rest.skip(b));
        assert(all_white(s.take(a + 1)));
        if trimmed(s).len() == 0 {
            assert forall|i: int| 0 <= i < s.len() implies is_white_space(#[trigger] s[i]) by {
                if i > 0 {
                    assert(is_white_space(rest[i - 1]));
                }
            }
        }
    } else if s.len() > 0 && is_white_space(s.last()) {
        let rest = s.drop_last();
        law_trimmed_is_the_middle(rest);
        lemma_trimmed_push(rest, s.last());
        assert(rest.push(s.last()) == s);
        let (a, b) = choose|a: int, b: int|
            0 <= a <= b <= rest.len() && all_white(rest.take(a)) && all_white(rest.skip(b))
                && trimmed(rest) == #[trigger] rest.subrange(a, b);
        assert(rest.subrange(a, b) == s.subrange(a, b));
        assert(s.take(a) == rest.take(a));
        assert forall|i: int| 0 <= i < s.skip(b).len() implies is_white_space(
            #[trigger] s.skip(b)[i],
        ) by {
            if i < rest.skip(b).len() {
                assert(is_white_space(rest.skip(b)[i]));
            }
        }
        if trimmed(s).len() == 0 {
            assert forall|i: int| 0 <= i < s.len() implies is_white_space(#[trigger] s[i]) by {
                if i < rest.len() {
                    assert(is_white_space(rest[i]));
                }
            }
        }
    } else {
        assert(s.subrange(0, s.len() as int) == s);
        assert(s.take(0).len() == 0 && s.skip(s.len() as int).len() == 0);
    }
}

/// A line is ended by a line feed, by a carriage return and a line feed, or by the end of the text; and
/// an empty text has no lines.
pub proof fn law_line_endings(line: Seq<char>)
    requires
        !line.contains('\n'),
    ensures
        lines(line.push('\r').push('\n')) == seq![line],
        line.len() == 0 || line.last() != '\r' ==> lines(line.push('\n')) == seq![line],
        line.len() > 0 ==> lines(line) == seq![line],
        line.len() == 0 ==> lines(line).len() == 0,
{
    lemma_one_line(line);
    let returned = line.push('\r');
    assert(!returned.contains('\n')) by {
        assert forall|i: int| 0 <= i < returned.len() implies returned[i] != '\n' by {
            if i < line.len() {
                assert(line.contains(line[i]));
            }
        }
    }
    lemma_one_line(returned);
    assert(returned.drop_last() == line);
    assert forall|i: int| 0 <= i < line.len() implies line[i] != '\n' by {
        assert(line.contains(line[i]));
    }
    lemma_position_is(line, '\n', line.len() as int);
}

/// These columns and then the last one, with the separator between each two of them.
pub open spec fn row(columns: Seq<Seq<char>>, last: Seq<char>, separator: char) -> Seq<char>
    decreases columns.len(),
{
    if columns.len() == 0 {
        last
    } else {
        columns[0].push(separator) + row(columns.skip(1), last, separator)
    }
}

/// A row falls into the columns that it was made of: as many as are asked for, the last of which may
/// hold the separator, or fewer, if there are no more.
pub proof fn law_row_has_its_fields(
    columns: Seq<Seq<char>>,
    last: Seq<char>,
    n: nat,
    separator: char,
)
    requires
        columns.len() < n,
        forall|i: int| 0 <= i < columns.len() ==> !(#[trigger] columns[i]).contains(separator),
        columns.len() + 1 == n || !last.contains(separator),
    ensures
        fields(row(columns, last, separator), n, separator) == columns.push(last),
    decreases columns.len(),
{
    let line = row(columns, last, separator);
    if columns.len() == 0 {
        if n > 1 {
            assert forall|i: int| 0 <= i < last.len() implies last[i] != separator by {
                assert(last.contains(last[i]));
            }
            lemma_position_is(last, separator, last.len() as int);
        }
        assert(columns.push(last) == seq![last]);
    } else {
        let first = columns[0];
        let rest = row(columns.skip(1), last, separator);
        assert(!columns[0].contains(separator));
        assert forall|i: int| 0 <= i < first.len() implies line[i] != separator by {
            assert(first.contains(first[i]));
        }
        lemma_position_is(line, separator, first.len() as int);
        assert(line.take(first.len() as int) == first);
        assert(line.skip(first.len() as int + 1) == rest);
        assert forall|i: int| 0 <= i < columns.skip(1).len() implies !(
        #[trigger] columns.skip(1)[i]).contains(separator) by {
            assert(columns.skip(1)[i] == columns[i + 1]);
        }
        law_row_has_its_fields(columns.skip(1), last, (n - 1) as nat, separator);
        assert(seq![first] + columns.skip(1).push(last) == columns.push(last));
    }
}

/// The texts of strings are what each of them holds, one for one.
pub proof fn law_texts(strings: Seq<String>)
    ensures
        texts(strings).len() == strings.len(),
        forall|i: int| 0 <= i < strings.len() ==> #[trigger] texts(strings)[i] == strings[i]@,
{
}

/// The characters of a string, one by one.
pub fn chars_of(s: &str) -> (res: Vec<char>)
    ensures
        res@ == s@,
{
    let mut chars: Vec<char> = Vec::new();
    for c in it: s.chars()
        invariant
            it.seq() == s@,
            chars@ == s@.take(it.index() as int),
    {
        chars.push(c);
    }
    chars
}

/// The string of the given characters.
pub fn string_of(s: &[char]) -> (res: String)
    ensures
        res@ == s@,
{
    let mut res: String = String::new();
    for i in 0..s.len()
        invariant
            res@ == s@.take(i as int),
    {
        res.push(s[i]);
    }
    res
}

/// Drops the white space at either end.
pub fn trim(s: &[char]) -> (res: &[char])
    ensures
        res@ == trimmed(s@),
{
    let mut start: usize = 0;
    assert(s@.skip(0) == s@);
    while start < s.len() && s[start].is_whitespace()
        invariant
            start <= s.len(),
            trimmed_start(s@) == trimmed_start(s@.skip(start as int)),
        decreases s.len() - start,
    {
        assert(s@.skip(start as int).skip(1) == s@.skip(start + 1));
        start = start + 1;
    }
    let mut end: usize = s.len();
    assert(s@.subrange(start as int, end as int) == s@.skip(start as int));
    while start < end && s[end - 1].is_whitespace()
        invariant
            start <= end <= s.len(),
            trimmed(s@) == trimmed_end(s@.subrange(start as int, end as int)),
        decreases end,
    {
        assert(s@.subrange(start as int, end as int).drop_last() == s@.subrange(
            start as int,
            end - 1,
        ));
        end = end - 1;
    }
    slice_subrange(s, start, end)
}

/// The position of the first `c`, or the length if there is none.
pub fn find(s: &[char], c: char) -> (res: usize)
    ensures
        res == position(s@, c),
{
    let mut i: usize = 0;
    while i < s.len() && s[i] != c
        invariant
            i <= s.len(),
            forall|j: int| 0 <= j < i ==> s[j] != c,
        decreases s.len() - i,
    {
        i = i + 1;
    }
    proof {
        lemma_position_is(s@, c, i as int);
    }
    i
}

/// Takes the first line off a text: the line and what comes after it.
pub fn next_line(s: &[char]) -> (res: (&[char], &[char]))
    requires
        s@.len() > 0,
    ensures
        lines(s@) == seq![res.0@] + lines(res.1@),
        res.1@.len() < s@.len(),
{
    let n: usize = find(s, '\n');
    proof {
        lemma_position(s@, '\n');
    }
    if n >= s.len() {
        let rest = slice_subrange(s, s.len(), s.len());
        assert(lines(rest@) == Seq::<Seq<char>>::empty());
        assert(seq![s@] + lines(rest@) == seq![s@]);
        (s, rest)
    } else {
        let rest = slice_subrange(s, n + 1, s.len());
        assert(rest@ == s@.skip(n + 1));
        assert(s@.subrange(0, n as int) == s@.take(n as int));
        if n > 0 && s[n - 1] == '\r' {
            assert(s@.subrange(0, n - 1) == s@.take(n as int).drop_last());
            (slice_subrange(s, 0, n - 1), rest)
        } else {
            (slice_subrange(s, 0, n), rest)
        }
    }
}

/// What follows `prefix` in `s`, if `s` starts with it.
pub fn strip_prefix<'a>(s: &'a [char], prefix: &[char]) -> (res: Option<&'a [char]>)
    ensures
        res is Some <==> prefix@.is_prefix_of(s@),
        res matches Some(rest) ==> rest@ == s@.skip(prefix@.len() as int),
{
    if s.len() < prefix.len() {
        return None;
    }
    for i in 0..prefix.len()
        invariant
            prefix@.len() <= s@.len(),
            forall|j: int| 0 <= j < i ==> s[j] == prefix[j],
    {
        if s[i] != prefix[i] {
            assert(s@.subrange(0, prefix@.len() as int)[i as int] == s@[i as int]);
            return None;
        }
    }
    assert(prefix@ == s@.subrange(0, prefix@.len() as int));
    Some(slice_subrange(s, prefix.len(), s.len()))
}

/// The last of the at most `n` fields of `s`.
pub fn last_field(s: &[char], n: usize, separator: char) -> (res: &[char])
    requires
        n > 0,
    ensures
        res@ == fields(s@, n as nat, separator).last(),
{
    let mut rest: &[char] = s;
    let mut left: usize = n;
    while left > 1
        invariant
            left > 0,
            fields(s@, n as nat, separator).last() == fields(rest@, left as nat, separator).last(),
        decreases left,
    {
        let p: usize = find(rest, separator);
        if p >= rest.len() {
            return rest;
        }
        let tail = slice_subrange(rest, p + 1, rest.len());
        proof {
            assert(tail@ == rest@.skip(p + 1));
            lemma_fields_nonempty(tail@, (left - 1) as nat, separator);
        }
        rest = tail;
        left = left - 1;
    }
    rest
}

} // verus!
