use aperfetch::text::{
    chars_of, cleaned, contains, contains_any, count_lines_with_prefix, find, is_whitespace,
    last_line_with_prefix, line_with_part, line_with_prefix, line_with_trimmed_prefix, lines,
    patterns, piece_after, piece_last, replace, same, slice, split, starts_with,
    starts_with_any, string_of, strip, trim, Margin,
};

fn chars(s: &str) -> Vec<char> {
    s.chars().collect()
}

fn text(v: &[char]) -> String {
    v.iter().collect()
}

fn samples() -> Vec<&'static str> {
    vec![
        "",
        " ",
        "a",
        "  hello world \t\n",
        "\u{a0}x\u{3000}",
        "\u{2003}pad\u{2028}",
        "no-margin",
        "line one\nline two\n",
        "line one\r\nline two\r\n\r\nlast\r",
        "\n\nleading",
        "trailing\n\n",
        "a: b: c",
        "key:value",
        ":",
        "::",
        "  x  x  x ",
        "1920 x 1080 x 32",
        "\"quoted\"",
        "\"\"\"",
        "aaa",
        "Physical size: 1080x2400",
    ]
}

#[test]
fn chars_and_strings_round_trip() {
    for s in samples() {
        assert_eq!(chars_of(s), chars(s));
        assert_eq!(string_of(&chars(s)), s);
    }
}

#[test]
fn whitespace_is_that_of_the_standard_library() {
    let mut code: u32 = 0;
    while code <= 0x10ffff {
        if let Some(c) = char::from_u32(code) {
            assert_eq!(is_whitespace(c), c.is_whitespace(), "U+{:04X}", code);
        }
        code += 1;
    }
}

#[test]
fn trim_is_that_of_the_standard_library() {
    for s in samples() {
        assert_eq!(text(&trim(&chars(s))), s.trim());
    }
}

#[test]
fn trim_takes_both_ends_and_leaves_the_middle() {
    assert_eq!(text(&trim(&chars("  a  b  "))), "a  b");
    assert_eq!(text(&trim(&chars("\t\r\n"))), "");
}

#[test]
fn strip_quotes_is_trim_matches() {
    for s in samples() {
        assert_eq!(text(&strip(&chars(s), Margin::Quote)), s.trim_matches('"'));
    }
    assert_eq!(text(&strip(&chars("\"\"Ubuntu\" LTS\""), Margin::Quote)), "Ubuntu\" LTS");
}

#[test]
fn cleaned_drops_blank_text() {
    assert_eq!(cleaned(&chars("")), None);
    assert_eq!(cleaned(&chars(" \n\t")), None);
    assert_eq!(cleaned(&chars(" x ")), Some(chars("x")));
}

#[test]
fn lines_are_those_of_the_standard_library() {
    for s in samples() {
        let ours: Vec<String> = lines(&chars(s)).iter().map(|l| text(l)).collect();
        let theirs: Vec<String> = s.lines().map(|l| l.to_string()).collect();
        assert_eq!(ours, theirs, "{:?}", s);
    }
}

#[test]
fn lines_keep_a_lone_carriage_return() {
    let got = lines(&chars("a\rb\r\nc\r"));
    assert_eq!(got, vec![chars("a\rb"), chars("c\r")]);
}

#[test]
fn lines_of_empty_text_are_none() {
    assert_eq!(lines(&chars("")).len(), 0);
    assert_eq!(lines(&chars("\n")), vec![chars("")]);
}

#[test]
fn starts_with_is_that_of_the_standard_library() {
    for s in samples() {
        for p in ["", "a", "aa", "line", " ", "\"", "key:"] {
            assert_eq!(starts_with(&chars(s), &chars(p)), s.starts_with(p));
        }
    }
}

#[test]
fn find_gives_the_first_position() {
    assert_eq!(find(&chars("abcabc"), &chars("bc")), Some(1));
    assert_eq!(find(&chars("abcabc"), &chars("cb")), None);
    assert_eq!(find(&chars("abc"), &chars("")), Some(0));
    assert_eq!(find(&chars(""), &chars("")), Some(0));
    assert_eq!(find(&chars(""), &chars("a")), None);
    assert_eq!(find(&chars("ab"), &chars("abc")), None);
    assert_eq!(find(&chars("aab"), &chars("ab")), Some(1));
}

#[test]
fn contains_is_that_of_the_standard_library() {
    for s in samples() {
        for p in ["a", "x ", ": ", "line two", "\r\n", "zz"] {
            assert_eq!(contains(&chars(s), &chars(p)), s.contains(p));
        }
    }
}

#[test]
fn piece_after_is_the_second_piece_of_a_split() {
    for s in samples() {
        for p in [":", ": ", " x ", "a", "\n"] {
            let ours = piece_after(&chars(s), &chars(p)).map(|v| text(&v));
            let theirs = s.split(p).nth(1).map(|t| t.to_string());
            assert_eq!(ours, theirs, "{:?} split at {:?}", s, p);
        }
    }
}

#[test]
fn piece_after_stops_at_the_next_separator() {
    assert_eq!(piece_after(&chars("model name\t: Ryzen 7 : 8 cores"), &chars(":")), Some(chars(" Ryzen 7 ")));
    assert_eq!(piece_after(&chars("no separator"), &chars(":")), None);
    assert_eq!(piece_after(&chars("ends with:"), &chars(":")), Some(chars("")));
}

#[test]
fn piece_last_is_the_last_piece_of_a_split() {
    for s in samples() {
        for p in [":", ": ", " x ", "a", "aa", "\n"] {
            let ours = text(&piece_last(&chars(s), &chars(p)));
            let theirs = s.split(p).last().unwrap_or("").to_string();
            assert_eq!(ours, theirs, "{:?} split at {:?}", s, p);
        }
    }
}

#[test]
fn piece_last_without_separator_is_the_whole() {
    assert_eq!(piece_last(&chars("whole"), &chars(": ")), chars("whole"));
    assert_eq!(piece_last(&chars("whole"), &chars("")), chars("whole"));
}

#[test]
fn replace_is_that_of_the_standard_library() {
    for s in samples() {
        for (from, to) in [(" x ", "x"), ("Physical size: ", ""), ("a", "bb"), ("aa", "a"), (":", "::")] {
            let ours = text(&replace(&chars(s), &chars(from), &chars(to)));
            assert_eq!(ours, s.replace(from, to), "{:?}", s);
        }
    }
}

#[test]
fn replace_with_empty_pattern_changes_nothing() {
    assert_eq!(replace(&chars("abc"), &chars(""), &chars("-")), chars("abc"));
}

#[test]
fn replace_scans_from_the_left() {
    assert_eq!(text(&replace(&chars("1 x 2 x 3"), &chars(" x "), &chars("x"))), "1x2x3");
    assert_eq!(text(&replace(&chars(" x x "), &chars(" x "), &chars("x"))), "xx ");
}

#[test]
fn count_lines_with_prefix_counts_only_matching_lines() {
    let table = lines(&chars("ii  a\nrc  b\nii  c\n ii d\nii"));
    assert_eq!(count_lines_with_prefix(&table, &chars("ii")), 3);
    assert_eq!(count_lines_with_prefix(&Vec::new(), &chars("ii")), 0);
}

#[test]
fn same_compares_every_character() {
    assert!(same(&chars("abc"), &chars("abc")));
    assert!(!same(&chars("abc"), &chars("abd")));
    assert!(!same(&chars("abc"), &chars("ab")));
    assert!(same(&chars(""), &chars("")));
}

#[test]
fn slice_clips_at_the_end() {
    let v = chars("abcdef");
    assert_eq!(slice(&v, 1, 3), chars("bc"));
    assert_eq!(slice(&v, 4, 10), chars("ef"));
    assert_eq!(slice(&v, 3, 2), chars(""));
    assert_eq!(slice(&v, 7, 9), chars(""));
}

#[test]
fn patterns_are_the_characters_of_each_word() {
    assert_eq!(patterns(&vec!["ab", "", "c"]), vec![chars("ab"), chars(""), chars("c")]);
    assert_eq!(patterns(&Vec::new()), Vec::<Vec<char>>::new());
}

#[test]
fn any_of_the_patterns_will_do() {
    let ps = patterns(&vec!["model name", "Processor"]);
    assert!(starts_with_any(&chars("model name\t: x"), &ps));
    assert!(starts_with_any(&chars("Processor: x"), &ps));
    assert!(!starts_with_any(&chars("processor: x"), &ps));
    assert!(!starts_with_any(&chars("Processor"), &Vec::new()));
    assert!(contains_any(&chars("a 3D controller: x"), &patterns(&vec!["VGA", "3D controller"])));
    assert!(!contains_any(&chars("a 2D controller: x"), &patterns(&vec!["VGA", "3D controller"])));
    assert!(!contains_any(&chars("anything"), &Vec::new()));
}

#[test]
fn lines_are_chosen_by_position() {
    let table = lines(&chars("zero\n  one: a\none: b\ntwo\none more: c\nonly one"));
    assert_eq!(line_with_prefix(&table, &patterns(&vec!["two", "one"])), Some(2));
    assert_eq!(line_with_prefix(&table, &patterns(&vec!["three"])), None);
    assert_eq!(line_with_trimmed_prefix(&table, &chars("one")), Some(1));
    assert_eq!(line_with_trimmed_prefix(&table, &chars("three")), None);
    assert_eq!(line_with_part(&table, &patterns(&vec!["more", "two"])), Some(3));
    assert_eq!(line_with_part(&table, &patterns(&vec!["three"])), None);
    assert_eq!(last_line_with_prefix(&table, &chars("one"), &chars(":")), Some(4));
    assert_eq!(last_line_with_prefix(&table, &chars("two"), &chars(":")), None);
}

#[test]
fn split_keeps_empty_pieces() {
    assert_eq!(split(&chars("a,,b,"), ','), vec![chars("a"), chars(""), chars("b"), chars("")]);
    assert_eq!(split(&chars(""), ','), vec![chars("")]);
}
