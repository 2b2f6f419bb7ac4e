//! The entries that the listings of `7z` and `unrar` name.
use crate::text::{
    all_white, chars_of, fields, is_white_space, last_field, law_line_endings,
    law_outer_space_is_dropped, law_row_has_its_fields, law_trimmed, law_trimmed_is_the_middle,
    lemma_fields_nonempty, lemma_lines_concat, lemma_lines_hold_no_line_feed, lemma_one_line,
    lemma_position, lemma_position_is, lemma_trimmed, lemma_trimmed_without_return, lines,
    next_line, position, row, string_of, strip_prefix, texts, trim, trimmed, without_return,
};
use vstd::prelude::*;

verus! {

/// The file that a line of a `7z l -slt` listing names: the path behind `Path = `, unless it is
/// empty or ends in a slash, as that of a directory does.
pub open spec fn sevenz_entry(line: Seq<char>) -> Option<Seq<char>> {
    let path = trimmed(trimmed(line).skip("Path = "@.len() as int));
    if "Path = "@.is_prefix_of(trimmed(line)) && path.len() > 0 && path.last() != '/' {
        Some(path)
    } else {
        None
    }
}

/// The files that a `7z l -slt` listing names, in its order.
pub open spec fn sevenz_entries(listing: Seq<char>) -> Seq<Seq<char>> {
    lines(listing).filter_map(|line: Seq<char>| sevenz_entry(line))
}

/// Whether a line of an `unrar l` listing is a rule: it opens or closes the table of files.
pub open spec fn is_rule(line: Seq<char>) -> bool {
    "-----------"@.is_prefix_of(trimmed(line))
}

/// The file that a line of the table of an `unrar l` listing names: the fifth of its fields, which
/// single spaces part, or the last one where there are fewer.
pub open spec fn unrar_entry(line: Seq<char>) -> Option<Seq<char>> {
    let name = trimmed(fields(trimmed(line), 5, ' ').last());
    if trimmed(line).len() > 0 && name.len() > 0 {
        Some(name)
    } else {
        None
    }
}

/// The files that these lines of an `unrar l` listing name, in their order; `in_table` tells
/// whether the first of them stands inside the table of files. Each rule opens or closes it.
pub open spec fn unrar_table(lines: Seq<Seq<char>>, in_table: bool) -> Seq<Seq<char>>
    decreases lines.len(),
{
    if lines.len() == 0 {
        seq![]
    } else if is_rule(lines[0]) {
        unrar_table(lines.skip(1), !in_table)
    } else {
        match unrar_entry(lines[0]) {
            Some(name) if in_table => seq![name] + unrar_table(lines.skip(1), in_table),
            _ => unrar_table(lines.skip(1), in_table),
        }
    }
}

/// The files that an `unrar l` listing names, in its order.
pub open spec fn unrar_entries(listing: Seq<char>) -> Seq<Seq<char>> {
    unrar_table(lines(listing), false)
}

/// Reads the listing that `7z l -slt -ba` prints.
pub fn parse_sevenz_listing(listing: &str) -> (entries: Vec<String>)
    ensures
        texts(entries@) == sevenz_entries(listing@),
{
    let key: Vec<char> = chars_of("Path = ");
    let chars: Vec<char> = chars_of(listing);
    let ghost all = lines(listing@);
    let ghost entry_of = |line: Seq<char>| sevenz_entry(line);
    let mut entries: Vec<String> = Vec::new();
    let mut rest: &[char] = chars.as_slice();
    let ghost mut read: int = 0;
    assert(all.skip(0) == all);
    assert(texts(entries@) == all.take(0).filter_map(entry_of));
    while rest.len() > 0
        invariant
            key@ == "Path = "@,
            all == lines(listing@),
            entry_of == (|line: Seq<char>| sevenz_entry(line)),
            0 <= read <= all.len(),
            lines(rest@) == all.skip(read),
            texts(entries@) == all.take(read).filter_map(entry_of),
        decreases rest.len(),
    {
        let (line, after) = next_line(rest);
        proof {
            assert(all.skip(read).len() > 0);
            assert(all.skip(read)[0] == line@);
            assert(all[read] == line@);
            assert(lines(after@) == all.skip(read).skip(1));
            assert(all.skip(read).skip(1) == all.skip(read + 1));
            all.lemma_filter_map_take_succ(entry_of, read);
        }
        if let Some(path) = strip_prefix(trim(line), key.as_slice()) {
            let path = trim(path);
            if path.len() > 0 && path[path.len() - 1] != '/' {
                let ghost before = entries@;
                let entry: String = string_of(path);
                entries.push(entry);
                assert(texts(entries@) == texts(before).push(entry@));
            }
        }
        rest = after;
        proof {
            read = read + 1;
        }
    }
    assert(lines(rest@).len() == 0);
    assert(all.take(read) == all);
    entries
}

/// Reads the listing that `unrar l -inul` prints.
pub fn parse_unrar_listing(listing: &str) -> (entries: Vec<String>)
    ensures
        texts(entries@) == unrar_entries(listing@),
{
    let rule: Vec<char> = chars_of("-----------");
    let chars: Vec<char> = chars_of(listing);
    let mut entries: Vec<String> = Vec::new();
    let mut in_table: bool = false;
    let mut rest: &[char] = chars.as_slice();
    assert(texts(entries@) == Seq::<Seq<char>>::empty());
    assert(texts(entries@) + unrar_entries(listing@) == unrar_entries(listing@));
    while rest.len() > 0
        invariant
            rule@ == "-----------"@,
            texts(entries@) + unrar_table(lines(rest@), in_table) == unrar_entries(listing@),
        decreases rest.len(),
    {
        let (line, after) = next_line(rest);
        let ghost before = texts(entries@);
        assert(lines(rest@)[0] == line@);
        assert(lines(rest@).skip(1) == lines(after@));
        let line = trim(line);
        if strip_prefix(line, rule.as_slice()).is_some() {
            in_table = !in_table;
        } else if in_table && line.len() > 0 {
            let name = trim(last_field(line, 5, ' '));
            if name.len() > 0 {
                let ghost old_entries = entries@;
                let entry: String = string_of(name);
                entries.push(entry);
                assert(texts(entries@) == texts(old_entries).push(entry@));
                assert(before.push(name@) + unrar_table(lines(after@), in_table) == before + (seq![
                    name@,
                ] + unrar_table(lines(after@), in_table)));
            }
        }
        rest = after;
    }
    assert(texts(entries@) + unrar_table(lines(rest@), in_table) == texts(entries@));
    entries
}

proof fn lemma_filter_map_concat<A, B>(a: Seq<A>, b: Seq<A>, f: spec_fn(A) -> Option<B>)
    ensures
        (a + b).filter_map(f) == a.filter_map(f) + b.filter_map(f),
    decreases b.len(),
{
    if b.len() == 0 {
        assert(a + b == a);
        assert(a.filter_map(f) + b.filter_map(f) == a.filter_map(f));
    } else {
        assert((a + b).drop_last() == a + b.drop_last());
        assert((a + b).last() == b.last());
        lemma_filter_map_concat(a, b.drop_last(), f);
        if let Some(last) = f(b.last()) {
            assert((a.filter_map(f) + b.drop_last().filter_map(f)) + seq![last] == a.filter_map(f)
                + (b.drop_last().filter_map(f) + seq![last]));
        }
    }
}

/// Whether a text can stand for a file in a listing: it is not empty, neither begins nor ends in
/// white space, and stays on one line.
pub open spec fn is_entry(name: Seq<char>) -> bool {
    &&& name.len() > 0
    &&& !is_white_space(name[0])
    &&& !is_white_space(name.last())
    &&& !name.contains('\n')
}

/// What a `7z` listing names are files.
pub proof fn law_sevenz_entries(listing: Seq<char>, i: int)
    requires
        0 <= i < sevenz_entries(listing).len(),
    ensures
        is_entry(sevenz_entries(listing)[i]),
        sevenz_entries(listing)[i].last() != '/',
{
    let entry = sevenz_entries(listing)[i];
    let entry_of = |line: Seq<char>| sevenz_entry(line);
    assert(lines(listing).filter_map(entry_of).contains(entry));
    lines(listing).lemma_filter_map_contains(entry_of, entry);
    let line = choose|line: Seq<char>| #[trigger]
        lines(listing).contains(line) && entry_of(line) == Some(entry);
    let k = choose|k: int| 0 <= k < lines(listing).len() && lines(listing)[k] == line;
    lemma_lines_hold_no_line_feed(listing, k);
    let path = trimmed(line).skip("Path = "@.len() as int);
    lemma_trimmed(line);
    lemma_trimmed(path);
    assert(!entry.contains('\n')) by {
        if entry.contains('\n') {
            assert(path.contains('\n'));
            let j = choose|j: int| 0 <= j < path.len() && path[j] == '\n';
            assert(trimmed(line)[j + "Path = "@.len()] == '\n');
            assert(trimmed(line).contains('\n'));
        }
    }
}

/// Listings of `7z` that come one after the other name the files of the one and then those of the
/// other.
pub proof fn law_sevenz_listings_concat(a: Seq<char>, b: Seq<char>)
    requires
        a.len() == 0 || a.last() == '\n',
    ensures
        sevenz_entries(a + b) == sevenz_entries(a) + sevenz_entries(b),
{
    lemma_lines_concat(a, b);
    lemma_filter_map_concat(lines(a), lines(b), |line: Seq<char>| sevenz_entry(line));
}

/// A line feed at the end of a `7z` listing makes no difference to it.
proof fn lemma_sevenz_line_feed(a: Seq<char>)
    ensures
        sevenz_entries(a.push('\n')) == sevenz_entries(a),
    decreases a.len(),
{
    let entry_of = |line: Seq<char>| sevenz_entry(line);
    let n = position(a, '\n');
    lemma_position(a, '\n');
    if n >= a.len() {
        lemma_one_line(a);
        lemma_trimmed_without_return(a);
        Seq::lemma_filter_map_singleton(without_return(a), entry_of);
        if a.len() == 0 {
            assert(trimmed(a).len() == 0);
            reveal_strlit("Path = ");
        } else {
            Seq::lemma_filter_map_singleton(a, entry_of);
        }
    } else {
        let first = a.take(n + 1);
        let rest = a.skip(n + 1);
        assert(first.last() == '\n');
        assert(first + rest == a);
        assert(first + rest.push('\n') == a.push('\n'));
        law_sevenz_listings_concat(first, rest);
        law_sevenz_listings_concat(first, rest.push('\n'));
        lemma_sevenz_line_feed(rest);
    }
}

/// Listings of `7z` on lines of their own name the files of the one and then those of the other,
/// whatever they hold.
pub proof fn law_sevenz_listings_join(a: Seq<char>, b: Seq<char>)
    ensures
        sevenz_entries(a.push('\n') + b) == sevenz_entries(a) + sevenz_entries(b),
{
    lemma_sevenz_line_feed(a);
    law_sevenz_listings_concat(a.push('\n'), b);
}

/// A line of a `7z` listing other than those that name files adds nothing to it.
pub proof fn law_sevenz_other_lines(line: Seq<char>)
    requires
        !line.contains('\n'),
        !"Path = "@.is_prefix_of(trimmed(line)),
    ensures
        sevenz_entries(line.push('\n')) == Seq::<Seq<char>>::empty(),
{
    lemma_one_line(line);
    lemma_trimmed_without_return(line);
    Seq::lemma_filter_map_singleton(
        without_return(line),
        |line: Seq<char>| sevenz_entry(line),
    );
}

/// The shortest `7z` listing that names these files.
pub open spec fn sevenz_listing(names: Seq<Seq<char>>) -> Seq<char>
    decreases names.len(),
{
    if names.len() == 0 {
        seq![]
    } else {
        sevenz_listing(names.drop_last()) + ("Path = "@ + names.last()).push('\n')
    }
}

/// The file that a line of a `7z` listing was written for is read back from it.
proof fn lemma_sevenz_line_is_read_back(name: Seq<char>)
    requires
        is_entry(name),
        name.last() != '/',
    ensures
        sevenz_entries(("Path = "@ + name).push('\n')) == seq![name],
{
    let line = "Path = "@ + name;
    reveal_strlit("Path = ");
    assert forall|i: int| 0 <= i < line.len() implies line[i] != '\n' by {
        if i >= 7 {
            assert(name.contains(name[i - 7]));
        }
    }
    lemma_one_line(line);
    lemma_trimmed_alone(line);
    lemma_trimmed_alone(name);
    assert(line.skip(7) == name);
    assert(line.subrange(0, 7) == "Path = "@);
    Seq::lemma_filter_map_singleton(line, |line: Seq<char>| sevenz_entry(line));
}

/// The files that a `7z` listing was written for are read back from it.
pub proof fn law_sevenz_listing_is_read_back(names: Seq<Seq<char>>)
    requires
        forall|i: int| 0 <= i < names.len() ==> is_entry(#[trigger] names[i]) && names[i].last()
            != '/',
    ensures
        sevenz_entries(sevenz_listing(names)) == names,
    decreases names.len(),
{
    if names.len() == 0 {
        assert(lines(sevenz_listing(names)).len() == 0);
        assert(sevenz_entries(sevenz_listing(names)) == names);
    } else {
        let name = names.last();
        let line = "Path = "@ + name;
        assert(is_entry(names[names.len() - 1]));
        lemma_sevenz_line_is_read_back(name);
        assert forall|i: int| 0 <= i < names.drop_last().len() implies is_entry(
            #[trigger] names.drop_last()[i],
        ) && names.drop_last()[i].last() != '/' by {
            assert(is_entry(names[i]));
        }
        law_sevenz_listing_is_read_back(names.drop_last());
        law_sevenz_listings_concat(sevenz_listing(names.drop_last()), line.push('\n'));
        assert(names.drop_last() + seq![name] == names);
    }
}

/// A text that neither begins nor ends in white space is left alone.
proof fn lemma_trimmed_alone(s: Seq<char>)
    requires
        s.len() > 0,
        !is_white_space(s[0]),
        !is_white_space(s.last()),
    ensures
        trimmed(s) == s,
{
}

proof fn lemma_table_entries(lines: Seq<Seq<char>>, in_table: bool, i: int)
    requires
        0 <= i < unrar_table(lines, in_table).len(),
    ensures
        exists|k: int|
            0 <= k < lines.len() && unrar_entry(#[trigger] lines[k]) == Some(
                unrar_table(lines, in_table)[i],
            ),
    decreases lines.len(),
{
    let entry = unrar_table(lines, in_table)[i];
    let rest = lines.skip(1);
    let inside = if is_rule(lines[0]) {
        !in_table
    } else {
        in_table
    };
    let named = !is_rule(lines[0]) && in_table && unrar_entry(lines[0]) is Some;
    if named && i == 0 {
        assert(unrar_entry(lines[0]) == Some(entry));
    } else {
        let j = if named {
            i - 1
        } else {
            i
        };
        lemma_table_entries(rest, inside, j);
        let k = choose|k: int|
            0 <= k < rest.len() && unrar_entry(#[trigger] rest[k]) == Some(entry);
        assert(lines[k + 1] == rest[k]);
    }
}

/// What an `unrar` listing names are files.
pub proof fn law_unrar_entries(listing: Seq<char>, i: int)
    requires
        0 <= i < unrar_entries(listing).len(),
    ensures
        is_entry(unrar_entries(listing)[i]),
{
    let entry = unrar_entries(listing)[i];
    lemma_table_entries(lines(listing), false, i);
    let k = choose|k: int|
        0 <= k < lines(listing).len() && unrar_entry(#[trigger] lines(listing)[k]) == Some(entry);
    let line = lines(listing)[k];
    lemma_lines_hold_no_line_feed(listing, k);
    lemma_trimmed(line);
    let last = fields(trimmed(line), 5, ' ').last();
    lemma_last_field_is_part(trimmed(line), 5, ' ');
    lemma_trimmed(last);
}

proof fn lemma_last_field_is_part(s: Seq<char>, n: nat, separator: char)
    requires
        n > 0,
    ensures
        fields(s, n, separator).len() > 0,
        forall|c: char| #[trigger] fields(s, n, separator).last().contains(c) ==> s.contains(c),
    decreases n,
{
    let p = position(s, separator);
    if n > 1 && p < s.len() {
        lemma_position(s, separator);
        let rest = s.skip(p + 1);
        lemma_last_field_is_part(rest, (n - 1) as nat, separator);
        assert(fields(s, n, separator).last() == fields(rest, (n - 1) as nat, separator).last());
        assert forall|c: char| #[trigger]
            fields(s, n, separator).last().contains(c) implies s.contains(c) by {
            assert(rest.contains(c));
            let i = choose|i: int| 0 <= i < rest.len() && rest[i] == c;
            assert(s[i + p + 1] == c);
        }
    }
}

/// Whether none of these lines is a rule.
pub open spec fn holds_no_rule(lines: Seq<Seq<char>>) -> bool {
    forall|i: int| 0 <= i < lines.len() ==> !is_rule(#[trigger] lines[i])
}

/// Lines up to the next rule are entries if they stand inside the table, and nothing otherwise.
proof fn lemma_table_without_rule(lines: Seq<Seq<char>>, rest: Seq<Seq<char>>, in_table: bool)
    requires
        holds_no_rule(lines),
    ensures
        unrar_table(lines + rest, in_table) == (if in_table {
            lines.filter_map(|line: Seq<char>| unrar_entry(line))
        } else {
            Seq::empty()
        }) + unrar_table(rest, in_table),
    decreases lines.len(),
{
    let entry_of = |line: Seq<char>| unrar_entry(line);
    if lines.len() == 0 {
        assert(lines + rest == rest);
        assert(Seq::<Seq<char>>::empty() + unrar_table(rest, in_table) == unrar_table(
            rest,
            in_table,
        ));
    } else {
        let tail = lines.skip(1);
        assert((lines + rest).skip(1) == tail + rest);
        assert(!is_rule(lines[0]));
        assert forall|i: int| 0 <= i < tail.len() implies !is_rule(#[trigger] tail[i]) by {
            assert(tail[i] == lines[i + 1]);
        }
        lemma_table_without_rule(tail, rest, in_table);
        assert(lines == seq![lines[0]] + tail);
        lemma_filter_map_concat(seq![lines[0]], tail, entry_of);
        Seq::lemma_filter_map_singleton(lines[0], entry_of);
        if in_table {
            if let Some(name) = unrar_entry(lines[0]) {
                assert(seq![name] + (tail.filter_map(entry_of) + unrar_table(rest, in_table)) == (
                seq![name] + tail.filter_map(entry_of)) + unrar_table(rest, in_table));
            } else {
                assert(Seq::<Seq<char>>::empty() + tail.filter_map(entry_of) == tail.filter_map(
                    entry_of,
                ));
            }
        }
    }
}

/// Of an `unrar` listing just the lines between its two rules name files: not its head, and not its
/// totals.
pub proof fn law_unrar_table(
    head: Seq<Seq<char>>,
    opening: Seq<char>,
    files: Seq<Seq<char>>,
    closing: Seq<char>,
    totals: Seq<Seq<char>>,
)
    requires
        is_rule(opening),
        is_rule(closing),
        holds_no_rule(head),
        holds_no_rule(files),
        holds_no_rule(totals),
    ensures
        unrar_table(head + (seq![opening] + (files + (seq![closing] + totals))), false)
            == files.filter_map(|line: Seq<char>| unrar_entry(line)),
{
    let entry_of = |line: Seq<char>| unrar_entry(line);
    let end = seq![closing] + totals;
    let table = seq![opening] + (files + end);
    lemma_table_without_rule(head, table, false);
    assert(table.skip(1) == files + end);
    lemma_table_without_rule(files, end, true);
    assert(end.skip(1) == totals);
    lemma_table_without_rule(totals, Seq::empty(), false);
    assert(totals + Seq::<Seq<char>>::empty() == totals);
    assert(unrar_table(totals, false) == Seq::<Seq<char>>::empty());
    assert(files.filter_map(entry_of) + Seq::<Seq<char>>::empty() == files.filter_map(entry_of));
    assert(Seq::<Seq<char>>::empty() + files.filter_map(entry_of) == files.filter_map(entry_of));
}

/// An `unrar` listing without a rule names no files.
pub proof fn law_unrar_listing_without_rule(listing: Seq<char>)
    requires
        holds_no_rule(lines(listing)),
    ensures
        unrar_entries(listing) == Seq::<Seq<char>>::empty(),
{
    lemma_table_without_rule(lines(listing), Seq::empty(), false);
    assert(lines(listing) + Seq::<Seq<char>>::empty() == lines(listing));
}

/// A line of the table whose first four columns have no spaces in them names what comes after the
/// fourth of these, spaces and all.
pub proof fn law_unrar_entry_after_four_columns(
    a: Seq<char>,
    b: Seq<char>,
    c: Seq<char>,
    d: Seq<char>,
    name: Seq<char>,
)
    requires
        a.len() > 0 && !is_white_space(a[0]),
        !a.contains(' ') && !b.contains(' ') && !c.contains(' ') && !d.contains(' '),
        name.len() > 0 && !is_white_space(name[0]) && !is_white_space(name.last()),
    ensures
        unrar_entry(a.push(' ') + (b.push(' ') + (c.push(' ') + (d.push(' ') + name)))) == Some(
            name,
        ),
{
    let after_c = d.push(' ') + name;
    let after_b = c.push(' ') + after_c;
    let after_a = b.push(' ') + after_b;
    let line = a.push(' ') + after_a;
    assert(line[0] == a[0]);
    assert(line.last() == name.last());
    lemma_trimmed_alone(line);
    lemma_trimmed_alone(name);
    lemma_first_column(a, after_a, 5);
    lemma_first_column(b, after_b, 4);
    lemma_first_column(c, after_c, 3);
    lemma_first_column(d, name, 2);
    assert(fields(name, 1, ' ') == seq![name]);
}

/// A first column without spaces is the first field, and the others are those of the rest.
proof fn lemma_first_column(column: Seq<char>, rest: Seq<char>, n: nat)
    requires
        n > 1,
        !column.contains(' '),
    ensures
        fields(column.push(' ') + rest, n, ' ') == seq![column] + fields(rest, (n - 1) as nat, ' '),
        fields(rest, (n - 1) as nat, ' ').len() > 0,
        fields(column.push(' ') + rest, n, ' ').last() == fields(rest, (n - 1) as nat, ' ').last(),
{
    let line = column.push(' ') + rest;
    assert forall|i: int| 0 <= i < column.len() implies line[i] != ' ' by {
        assert(column.contains(column[i]));
    }
    lemma_position_is(line, ' ', column.len() as int);
    assert(line.take(column.len() as int) == column);
    assert(line.skip(column.len() as int + 1) == rest);
    lemma_fields_nonempty(rest, (n - 1) as nat, ' ');
}

/// A line of a `7z` listing that holds `Path = ` and a path, with any white space around either, names
/// that path, unless it ends in a slash.
pub proof fn law_sevenz_path_is_named(
    before: Seq<char>,
    between: Seq<char>,
    path: Seq<char>,
    after: Seq<char>,
)
    requires
        all_white(before),
        all_white(between),
        all_white(after),
        path.len() > 0 && !is_white_space(path[0]) && !is_white_space(path.last()),
    ensures
        sevenz_entry(before + ("Path = "@ + between + path) + after) == (if path.last() == '/' {
            None
        } else {
            Some(path)
        }),
{
    let core = "Path = "@ + between + path;
    reveal_strlit("Path = ");
    assert(core[0] == 'P');
    assert(core.last() == path.last());
    law_trimmed(before, core, after);
    assert(core.subrange(0, 7) == "Path = "@);
    assert(core.skip(7) == between + path + Seq::<char>::empty());
    law_trimmed(between, path, Seq::empty());
}

/// A line of a `7z` listing with nothing but white space behind `Path = ` names no file.
pub proof fn law_sevenz_empty_path_is_not_named(before: Seq<char>, after: Seq<char>)
    requires
        all_white(before),
        all_white(after),
    ensures
        sevenz_entry(before + "Path = "@ + after) is None,
{
    reveal_strlit("Path = ");
    let key = "Path = "@;
    let core = key.take(6);
    let rest = key.skip(6) + after;
    assert forall|i: int| 0 <= i < rest.len() implies is_white_space(#[trigger] rest[i]) by {
        if i > 0 {
            assert(is_white_space(after[i - 1]));
        }
    }
    law_trimmed(before, core, rest);
    assert(before + key + after == before + core + rest);
}

/// Any other line of a `7z` listing names no file: one that names a file has `Path = ` as the first of
/// it that is not white space.
pub proof fn law_sevenz_named_by_path_only(line: Seq<char>)
    requires
        sevenz_entry(line) is Some,
    ensures
        exists|i: int|
            0 <= i <= line.len() && all_white(#[trigger] line.take(i)) && "Path = "@.is_prefix_of(
                line.skip(i),
            ),
{
    law_trimmed_is_the_middle(line);
    let (a, b) = choose|a: int, b: int|
        0 <= a <= b <= line.len() && all_white(line.take(a)) && all_white(line.skip(b)) && trimmed(
            line,
        ) == #[trigger] line.subrange(a, b);
    let n = "Path = "@.len() as int;
    assert(trimmed(line).subrange(0, n) == line.skip(a).subrange(0, n));
    assert(all_white(line.take(a)));
}

/// A `7z` listing of one line names the file of that line, if it names one, whether or not the line is
/// ended.
pub proof fn law_sevenz_one_line(line: Seq<char>)
    requires
        !line.contains('\n'),
    ensures
        sevenz_entries(line) == (match sevenz_entry(line) {
            Some(path) => seq![path],
            None => seq![],
        }),
        sevenz_entries(line.push('\n')) == sevenz_entries(line),
{
    law_line_endings(line);
    lemma_sevenz_line_feed(line);
    if line.len() > 0 {
        Seq::lemma_filter_map_singleton(line, |line: Seq<char>| sevenz_entry(line));
    } else {
        reveal_strlit("Path = ");
        assert(lines(line) == Seq::<Seq<char>>::empty());
    }
}

/// A line of an `unrar` listing is a rule just if eleven dashes are the first of it that is not white
/// space.
pub proof fn law_rule(line: Seq<char>)
    ensures
        is_rule(line) <==> exists|i: int|
            0 <= i <= line.len() && all_white(#[trigger] line.take(i)) && line.len() >= i + 11 && (
            forall|j: int| i <= j < i + 11 ==> line[j] == '-'),
{
    reveal_strlit("-----------");
    law_trimmed_is_the_middle(line);
    lemma_trimmed(line);
    let (a, b) = choose|a: int, b: int|
        0 <= a <= b <= line.len() && all_white(line.take(a)) && all_white(line.skip(b)) && trimmed(
            line,
        ) == #[trigger] line.subrange(a, b);
    let dashes = "-----------"@;
    if is_rule(line) {
        assert(all_white(line.take(a)));
        assert forall|j: int| a <= j < a + 11 implies line[j] == '-' by {
            assert(trimmed(line).subrange(0, 11)[j - a] == dashes[j - a]);
            assert(line[j] == trimmed(line)[j - a]);
        }
    }
    if exists|i: int|
        0 <= i <= line.len() && all_white(#[trigger] line.take(i)) && line.len() >= i + 11 && (
        forall|j: int| i <= j < i + 11 ==> line[j] == '-') {
        let i = choose|i: int|
            0 <= i <= line.len() && all_white(#[trigger] line.take(i)) && line.len() >= i + 11 && (
            forall|j: int| i <= j < i + 11 ==> line[j] == '-');
        assert(line[i] == '-');
        if a > i {
            assert(is_white_space(line.take(a)[i]));
        }
        if b <= i + 10 {
            assert(line[i + 10] == '-');
            assert(is_white_space(line.skip(b)[i + 10 - b]));
        }
        assert(a == i) by {
            if a < i {
                assert(is_white_space(line.take(i)[a]));
                assert(trimmed(line)[0] == line[a]);
            }
        }
        assert(trimmed(line).subrange(0, 11) == dashes);
    }
}

/// White space at either end of a line makes no difference to an `unrar` listing: neither to the file
/// that the line names nor to whether it is a rule.
pub proof fn law_unrar_outer_space(before: Seq<char>, line: Seq<char>, after: Seq<char>)
    requires
        all_white(before),
        all_white(after),
    ensures
        unrar_entry(before + line + after) == unrar_entry(line),
        is_rule(before + line + after) == is_rule(line),
{
    law_outer_space_is_dropped(before, line, after);
}

/// Lines that differ in outer white space alone name the same file, in listings of either program.
pub proof fn law_same_trimmed_same_entry(a: Seq<char>, b: Seq<char>)
    requires
        trimmed(a) == trimmed(b),
    ensures
        unrar_entry(a) == unrar_entry(b),
        is_rule(a) == is_rule(b),
        sevenz_entry(a) == sevenz_entry(b),
{
}

/// A line of the table of an `unrar` listing names what its fifth column holds, spaces and all, or its
/// last one where there are fewer, with any white space before and after the line.
pub proof fn law_unrar_row(
    before: Seq<char>,
    columns: Seq<Seq<char>>,
    name: Seq<char>,
    after: Seq<char>,
)
    requires
        all_white(before),
        all_white(after),
        columns.len() <= 4,
        forall|i: int| 0 <= i < columns.len() ==> !(#[trigger] columns[i]).contains(' '),
        columns.len() == 4 || !name.contains(' '),
        row(columns, name, ' ').len() > 0,
        !is_white_space(row(columns, name, ' ')[0]),
        !is_white_space(row(columns, name, ' ').last()),
    ensures
        unrar_entry(before + row(columns, name, ' ') + after) == Some(trimmed(name)),
{
    let line = row(columns, name, ' ');
    law_trimmed(before, line, after);
    law_row_has_its_fields(columns, name, 5, ' ');
    lemma_row_ends_with_last(columns, name, ' ');
    law_trimmed_is_the_middle(name);
    if trimmed(name).len() == 0 {
        assert(is_white_space(name[name.len() - 1]));
    }
}

proof fn lemma_row_ends_with_last(columns: Seq<Seq<char>>, last: Seq<char>, separator: char)
    requires
        row(columns, last, separator).len() > 0,
    ensures
        last.len() > 0 ==> row(columns, last, separator).last() == last.last(),
        last.len() == 0 ==> row(columns, last, separator).last() == separator,
    decreases columns.len(),
{
    if columns.len() > 0 {
        let rest = row(columns.skip(1), last, separator);
        if rest.len() > 0 {
            lemma_row_ends_with_last(columns.skip(1), last, separator);
            assert((columns[0].push(separator) + rest).last() == rest.last());
        } else {
            assert(last.len() == 0) by {
                lemma_row_is_long(columns.skip(1), last, separator);
            }
            assert((columns[0].push(separator) + rest).last() == separator);
        }
    }
}

proof fn lemma_row_is_long(columns: Seq<Seq<char>>, last: Seq<char>, separator: char)
    ensures
        row(columns, last, separator).len() >= last.len(),
    decreases columns.len(),
{
    if columns.len() > 0 {
        lemma_row_is_long(columns.skip(1), last, separator);
    }
}

/// Just the blank lines name no file.
pub proof fn law_unrar_blank_line(line: Seq<char>)
    ensures
        unrar_entry(line) is None <==> all_white(line),
{
    law_trimmed_is_the_middle(line);
    if all_white(line) {
        law_trimmed(line, Seq::empty(), Seq::empty());
        assert(line + Seq::<char>::empty() + Seq::<char>::empty() == line);
    } else {
        let core = trimmed(line);
        lemma_trimmed(line);
        lemma_last_field_is_end(core, 5, ' ');
        let last = fields(core, 5, ' ').last();
        law_trimmed_is_the_middle(last);
        if trimmed(last).len() == 0 && last.len() > 0 {
            assert(is_white_space(last[last.len() - 1]));
        }
    }
}

proof fn lemma_last_field_is_end(s: Seq<char>, n: nat, separator: char)
    requires
        n > 0,
        s.len() > 0,
        s.last() != separator,
    ensures
        fields(s, n, separator).len() > 0,
        fields(s, n, separator).last().len() > 0,
        fields(s, n, separator).last().last() == s.last(),
    decreases n,
{
    let p = position(s, separator);
    lemma_position(s, separator);
    if n > 1 && p < s.len() {
        assert(p < s.len() - 1);
        let rest = s.skip(p + 1);
        assert(rest.last() == s.last());
        lemma_last_field_is_end(rest, (n - 1) as nat, separator);
        assert(fields(s, n, separator).last() == fields(rest, (n - 1) as nat, separator).last());
    }
}

/// How many of these lines are rules.
pub open spec fn rule_count(lines: Seq<Seq<char>>) -> nat
    decreases lines.len(),
{
    if lines.len() == 0 {
        0
    } else {
        rule_count(lines.skip(1)) + if is_rule(lines[0]) {
            1nat
        } else {
            0nat
        }
    }
}

/// What a line adds to a listing after so many rules: the file that it names, if it is no rule itself and
/// the number of rules before it is odd.
pub open spec fn named_after(rules: nat, line: Seq<char>) -> Seq<Seq<char>> {
    if rules % 2 == 1 && !is_rule(line) && unrar_entry(line) is Some {
        seq![unrar_entry(line)->0]
    } else {
        seq![]
    }
}

proof fn lemma_table_push(lines: Seq<Seq<char>>, line: Seq<char>, in_table: bool)
    ensures
        unrar_table(lines.push(line), in_table) == unrar_table(lines, in_table) + named_after(
            (rule_count(lines) + if in_table {
                1nat
            } else {
                0nat
            }) as nat,
            line,
        ),
    decreases lines.len(),
{
    let all = lines.push(line);
    let tail = unrar_table(lines, in_table);
    if lines.len() == 0 {
        assert(all.skip(1) == Seq::<Seq<char>>::empty());
        reveal_with_fuel(unrar_table, 2);
        assert(Seq::<Seq<char>>::empty() + named_after(
            if in_table {
                1nat
            } else {
                0nat
            },
            line,
        ) == unrar_table(all, in_table));
    } else {
        let rest = lines.skip(1);
        assert(all.skip(1) == rest.push(line));
        assert(all[0] == lines[0]);
        if is_rule(lines[0]) {
            lemma_table_push(rest, line, !in_table);
        } else {
            lemma_table_push(rest, line, in_table);
            let added = named_after(
                (rule_count(rest) + if in_table {
                    1nat
                } else {
                    0nat
                }) as nat,
                line,
            );
            if let Some(name) = unrar_entry(lines[0]) {
                if in_table {
                    assert(seq![name] + (unrar_table(rest, in_table) + added) == (seq![name]
                        + unrar_table(rest, in_table)) + added);
                }
            }
        }
    }
}

/// An `unrar` listing that grows by a line names what it named before, and then the file of that line if
/// an odd number of rules comes before it and it is no rule; whether or not the line is ended. An empty
/// listing names nothing.
pub proof fn law_unrar_listing_grows(listing: Seq<char>, line: Seq<char>)
    requires
        listing.len() == 0 || listing.last() == '\n',
        !line.contains('\n'),
    ensures
        unrar_entries(listing + line) == unrar_entries(listing) + named_after(
            rule_count(lines(listing)),
            line,
        ),
        unrar_entries(listing + line.push('\n')) == unrar_entries(listing + line),
        listing.len() == 0 ==> unrar_entries(listing).len() == 0,
{
    let before = lines(listing);
    let rules = rule_count(before);
    let ended = without_return(line);
    law_line_endings(line);
    lemma_one_line(line);
    lemma_trimmed_without_return(line);
    lemma_lines_concat(listing, line);
    lemma_lines_concat(listing, line.push('\n'));
    lemma_table_push(before, ended, false);
    assert(before + seq![ended] == before.push(ended));
    assert(named_after(rules, ended) == named_after(rules, line));
    if line.len() > 0 {
        lemma_table_push(before, line, false);
        assert(before + seq![line] == before.push(line));
    } else {
        law_unrar_blank_line(line);
        assert(before + lines(line) == before);
        assert(unrar_entries(listing) + named_after(rules, line) == unrar_entries(listing));
    }
}

/// An `unrar` listing names the files of the lines between its two rules, and no others.
pub proof fn law_unrar_listing(
    listing: Seq<char>,
    head: Seq<Seq<char>>,
    opening: Seq<char>,
    files: Seq<Seq<char>>,
    closing: Seq<char>,
    totals: Seq<Seq<char>>,
)
    requires
        lines(listing) == head + (seq![opening] + (files + (seq![closing] + totals))),
        is_rule(opening),
        is_rule(closing),
        holds_no_rule(head),
        holds_no_rule(files),
        holds_no_rule(totals),
    ensures
        unrar_entries(listing) == files.filter_map(|line: Seq<char>| unrar_entry(line)),
{
    law_unrar_table(head, opening, files, closing, totals);
}

/// A line of the table of an `unrar` listing, with these four columns before the name of the file.
pub open spec fn unrar_line(
    a: Seq<char>,
    b: Seq<char>,
    c: Seq<char>,
    d: Seq<char>,
    name: Seq<char>,
) -> Seq<char> {
    a.push(' ') + (b.push(' ') + (c.push(' ') + (d.push(' ') + name)))
}

/// The opening rule of an `unrar` listing, and then a line for each of these files.
pub open spec fn unrar_listing(
    a: Seq<char>,
    b: Seq<char>,
    c: Seq<char>,
    d: Seq<char>,
    names: Seq<Seq<char>>,
) -> Seq<char>
    decreases names.len(),
{
    if names.len() == 0 {
        "-----------"@.push('\n')
    } else {
        unrar_listing(a, b, c, d, names.drop_last()) + unrar_line(a, b, c, d, names.last()).push(
            '\n',
        )
    }
}

proof fn lemma_rule_count_push(lines: Seq<Seq<char>>, line: Seq<char>)
    ensures
        rule_count(lines.push(line)) == rule_count(lines) + if is_rule(line) {
            1nat
        } else {
            0nat
        },
    decreases lines.len(),
{
    let all = lines.push(line);
    reveal_with_fuel(rule_count, 2);
    if lines.len() == 0 {
        assert(all.skip(1) == lines);
    } else {
        assert(all.skip(1) == lines.skip(1).push(line));
        lemma_rule_count_push(lines.skip(1), line);
    }
}

proof fn lemma_unrar_listing(
    a: Seq<char>,
    b: Seq<char>,
    c: Seq<char>,
    d: Seq<char>,
    names: Seq<Seq<char>>,
)
    requires
        a.len() > 0 && !is_white_space(a[0]) && a[0] != '-',
        !a.contains(' ') && !b.contains(' ') && !c.contains(' ') && !d.contains(' '),
        !a.contains('\n') && !b.contains('\n') && !c.contains('\n') && !d.contains('\n'),
        forall|i: int| 0 <= i < names.len() ==> is_entry(#[trigger] names[i]),
    ensures
        unrar_entries(unrar_listing(a, b, c, d, names)) == names,
        rule_count(lines(unrar_listing(a, b, c, d, names))) == 1,
        unrar_listing(a, b, c, d, names).len() > 0,
        unrar_listing(a, b, c, d, names).last() == '\n',
    decreases names.len(),
{
    reveal_strlit("-----------");
    if names.len() == 0 {
        let rule = "-----------"@;
        let none = Seq::<char>::empty();
        assert(!rule.contains('\n'));
        lemma_trimmed_alone(rule);
        assert(is_rule(rule)) by {
            assert(rule.subrange(0, rule.len() as int) == rule);
        }
        law_unrar_listing_grows(none, rule);
        assert(none + rule.push('\n') == rule.push('\n'));
        lemma_one_line(rule);
        assert(Seq::<Seq<char>>::empty().push(rule) == seq![rule]);
        lemma_rule_count_push(Seq::empty(), rule);
    } else {
        let before = names.drop_last();
        let name = names.last();
        assert(is_entry(names[names.len() - 1]));
        assert forall|i: int| 0 <= i < before.len() implies is_entry(#[trigger] before[i]) by {
            assert(before[i] == names[i]);
        }
        lemma_unrar_listing(a, b, c, d, before);
        let listing = unrar_listing(a, b, c, d, before);
        let line = unrar_line(a, b, c, d, name);
        law_unrar_entry_after_four_columns(a, b, c, d, name);
        lemma_holds_no_line_feed(d, name);
        lemma_holds_no_line_feed(c, d.push(' ') + name);
        lemma_holds_no_line_feed(b, c.push(' ') + (d.push(' ') + name));
        lemma_holds_no_line_feed(a, b.push(' ') + (c.push(' ') + (d.push(' ') + name)));
        assert(line[0] == a[0]);
        assert(line.last() == name.last());
        lemma_trimmed_alone(line);
        assert(!is_rule(line)) by {
            if is_rule(line) {
                assert(line.subrange(0, 11)[0] == '-');
            }
        }
        law_unrar_listing_grows(listing, line);
        assert(before + seq![name] == names);
        lemma_one_line(line);
        lemma_lines_concat(listing, line.push('\n'));
        assert(without_return(line) == line);
        assert(lines(listing) + seq![line] == lines(listing).push(line));
        lemma_rule_count_push(lines(listing), line);
    }
}

proof fn lemma_holds_no_line_feed(column: Seq<char>, rest: Seq<char>)
    requires
        !column.contains('\n'),
        !rest.contains('\n'),
    ensures
        !(column.push(' ') + rest).contains('\n'),
{
    let line = column.push(' ') + rest;
    assert forall|i: int| 0 <= i < line.len() implies line[i] != '\n' by {
        if i < column.len() {
            assert(column.contains(column[i]));
        } else if i > column.len() {
            assert(rest.contains(rest[i - column.len() - 1]));
        }
    }
}

/// The files that an `unrar` listing was written for are read back from it, whole and in their order,
/// however many they are, with or without a closing rule and the totals behind it.
pub proof fn law_unrar_listing_is_read_back(
    a: Seq<char>,
    b: Seq<char>,
    c: Seq<char>,
    d: Seq<char>,
    names: Seq<Seq<char>>,
    totals: Seq<char>,
)
    requires
        a.len() > 0 && !is_white_space(a[0]) && a[0] != '-',
        !a.contains(' ') && !b.contains(' ') && !c.contains(' ') && !d.contains(' '),
        !a.contains('\n') && !b.contains('\n') && !c.contains('\n') && !d.contains('\n'),
        forall|i: int| 0 <= i < names.len() ==> is_entry(#[trigger] names[i]),
        !totals.contains('\n'),
        !is_rule(totals),
    ensures
        unrar_entries(unrar_listing(a, b, c, d, names)) == names,
        unrar_entries(unrar_listing(a, b, c, d, names) + "-----------"@.push('\n') + totals)
            == names,
{
    reveal_strlit("-----------");
    let listing = unrar_listing(a, b, c, d, names);
    let rule = "-----------"@;
    lemma_unrar_listing(a, b, c, d, names);
    assert(!rule.contains('\n'));
    lemma_trimmed_alone(rule);
    assert(is_rule(rule)) by {
        assert(rule.subrange(0, rule.len() as int) == rule);
    }
    law_unrar_listing_grows(listing, rule);
    lemma_one_line(rule);
    lemma_lines_concat(listing, rule.push('\n'));
    assert(lines(listing) + seq![rule] == lines(listing).push(rule));
    lemma_rule_count_push(lines(listing), rule);
    law_unrar_listing_grows(listing + rule.push('\n'), totals);
    assert(names + Seq::<Seq<char>>::empty() == names);
}

} // verus!
