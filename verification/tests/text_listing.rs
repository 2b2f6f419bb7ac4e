use rga_adapters::listing::{parse_sevenz_listing, parse_unrar_listing};
use rga_adapters::text::{chars_of, find, last_field, next_line, string_of, strip_prefix, trim};

fn trimmed(s: &str) -> String {
    string_of(trim(&chars_of(s)))
}

fn all_lines(s: &str) -> Vec<String> {
    let chars = chars_of(s);
    let mut rest: &[char] = &chars;
    let mut lines = Vec::new();
    while !rest.is_empty() {
        let (line, after) = next_line(rest);
        lines.push(string_of(line));
        rest = after;
    }
    lines
}

#[test]
fn white_space_is_the_unicode_property() {
    for c in '\0'..=char::MAX {
        let expected = matches!(
            c as u32,
            0x9..=0xd
                | 0x20
                | 0x85
                | 0xa0
                | 0x1680
                | 0x2000..=0x200a
                | 0x2028
                | 0x2029
                | 0x202f
                | 0x205f
                | 0x3000
        );
        assert_eq!(trim(&[c]).is_empty(), expected, "{:?}", c);
    }
}

#[test]
fn trims_both_ends() {
    assert_eq!(trimmed(" \t a b \u{3000}\r\n"), "a b");
    assert_eq!(trimmed(""), "");
    assert_eq!(trimmed(" \n "), "");
    assert_eq!(trimmed("x"), "x");
}

#[test]
fn strings_keep_their_characters() {
    let s = "a\u{fc}\u{1f600}\u{0}b";
    assert_eq!(chars_of(s), s.chars().collect::<Vec<char>>());
    assert_eq!(string_of(&chars_of(s)), s);
}

#[test]
fn lines_end_at_line_feeds() {
    assert_eq!(all_lines("a\nb\r\n\nc\rd\r"), vec!["a", "b", "", "c\rd\r"]);
    assert_eq!(all_lines("a\r\r\n"), vec!["a\r"]);
    assert_eq!(all_lines("\n"), vec![""]);
    assert_eq!(all_lines("\r\n"), vec![""]);
    assert!(all_lines("").is_empty());
}

#[test]
fn lines_agree_with_std() {
    for s in ["", "a", "\n\n", "x\r\ny\n\r", "\r", "p\nq", "p\nq\n", "\r\r\n\r\n"] {
        assert_eq!(all_lines(s), s.lines().collect::<Vec<&str>>(), "{:?}", s);
    }
}

#[test]
fn prefixes_are_stripped() {
    let s = chars_of("Path = x");
    assert_eq!(strip_prefix(&s, &chars_of("Path = ")), Some(&['x'][..]));
    assert_eq!(strip_prefix(&s, &[]), Some(&s[..]));
    assert_eq!(strip_prefix(&s, &chars_of("path")), None);
    assert_eq!(strip_prefix(&['P'], &chars_of("Pa")), None);
}

#[test]
fn fields_agree_with_std() {
    for s in ["", " ", "a", "a b", "a b c d e f", "a  b  c", "a b c d e", "    x  y"] {
        for n in 1..7usize {
            let chars = chars_of(s);
            let expected = s.splitn(n, ' ').last().unwrap();
            assert_eq!(string_of(last_field(&chars, n, ' ')), expected, "{:?} {}", s, n);
        }
    }
}

#[test]
fn find_gives_the_first_position() {
    assert_eq!(find(&chars_of("abca"), 'a'), 0);
    assert_eq!(find(&chars_of("abca"), 'c'), 2);
    assert_eq!(find(&chars_of("abca"), 'x'), 4);
}

#[test]
fn sevenz_listing_names_files() {
    let listing = "Path = hello.txt\nSize = 6\nAttributes = A\n\nPath = dir\\sub\nSize = 0\n\n\
                   Path = dir/\n\n  Path =   spaced name.txt  \r\nPath = \nPath =\npath = no\n";
    assert_eq!(
        parse_sevenz_listing(listing),
        vec!["hello.txt", "dir\\sub", "spaced name.txt"]
    );
}

#[test]
fn sevenz_listing_of_nothing() {
    assert!(parse_sevenz_listing("").is_empty());
    assert!(parse_sevenz_listing("Size = 3\n\n").is_empty());
}

#[test]
fn sevenz_listing_needs_no_final_line_feed() {
    assert_eq!(parse_sevenz_listing("Path = a"), vec!["a"]);
    assert_eq!(parse_sevenz_listing("Path = a\r"), vec!["a"]);
}

#[test]
fn sevenz_listing_is_read_back() {
    let names = ["a", "b c.txt", "d/e/f", "\u{fc}ber", "a", "Path = x"];
    let mut listing = String::new();
    for name in names {
        listing.push_str("Path = ");
        listing.push_str(name);
        listing.push('\n');
    }
    assert_eq!(parse_sevenz_listing(&listing), names);
}

#[test]
fn sevenz_listings_concatenate() {
    let a = "Path = a\nSize = 1\n";
    let b = "Path = b/\nPath = c\n";
    let mut expected = parse_sevenz_listing(a);
    expected.extend(parse_sevenz_listing(b));
    assert_eq!(parse_sevenz_listing(&format!("{}{}", a, b)), expected);
    assert_eq!(expected, vec!["a", "c"]);
}

#[test]
fn sevenz_listings_join() {
    for a in ["", "x", "Path = a", "Path = a\r", "Path = a\n", "Path = d/", "\n\n"] {
        for b in ["", "Path = b", "Size = 1\nPath = c\n"] {
            let mut expected = parse_sevenz_listing(a);
            expected.extend(parse_sevenz_listing(b));
            assert_eq!(parse_sevenz_listing(&format!("{}\n{}", a, b)), expected);
        }
    }
}

#[test]
fn unrar_listing_names_files_between_rules() {
    let listing = "\
UNRAR 6.0

 Attributes Size Date Time Name
----------- --------- ---------- ----- ----
-rw-r--r-- 6 2024-01-01 10:00 hello.txt
-rw-r--r-- 7 2024-01-01 10:00 name with  spaces.txt

----------- --------- ---------- ----- ----
 13 2
";
    assert_eq!(parse_unrar_listing(listing), vec!["hello.txt", "name with  spaces.txt"]);
}

#[test]
fn unrar_fields_are_parted_by_single_spaces() {
    let rule = "-----------";
    let listing = format!("{}\n-rw  6 2024-01-01 10:00 x\none\na b\n{}\n", rule, rule);
    assert_eq!(parse_unrar_listing(&listing), vec!["10:00 x", "one", "b"]);
}

#[test]
fn unrar_rule_opens_and_closes() {
    let rule = "  -------------------  ";
    let listing = format!("x\n{}\ny\n{}\nz\n{}\nw", rule, rule, rule);
    assert_eq!(parse_unrar_listing(&listing), vec!["y", "w"]);
    assert_eq!(parse_unrar_listing("----------\nx\n"), Vec::<String>::new());
    assert!(parse_unrar_listing("a\nb\n").is_empty());
    assert!(parse_unrar_listing("").is_empty());
}
