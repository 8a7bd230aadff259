use deploytix::text::{
    lines, lower, number, parse, replace, same_ignoring_case, sort_unique, split, split_words,
    title, trim, upper,
};

fn strings(v: &[&str]) -> Vec<String> {
    v.iter().map(|s| s.to_string()).collect()
}

#[test]
fn texts_are_cut_like_the_standard_library_cuts_them() {
    for s in ["", "a", "a\n", "a\r\nb", "a\n\nb\n", "\n", " x \t y ", "\u{a0}z\u{2003}"] {
        assert_eq!(lines(s), s.lines().map(|l| l.to_string()).collect::<Vec<_>>(), "{s:?}");
        assert_eq!(
            split_words(s),
            s.split_whitespace().map(|l| l.to_string()).collect::<Vec<_>>(),
            "{s:?}"
        );
        assert_eq!(trim(s), s.trim(), "{s:?}");
        assert_eq!(
            split(s, 'a'),
            s.split('a').map(|l| l.to_string()).collect::<Vec<_>>(),
            "{s:?}"
        );
    }
}

#[test]
fn case_follows_unicode() {
    for s in ["ROOT", "Stra\u{df}e", "\u{c4}PFEL", "\u{130}", "mixed Case 12", "\u{3a3}\u{3a3}"] {
        assert_eq!(lower(s), s.to_lowercase());
        assert_eq!(upper(s), s.to_uppercase());
    }
    assert_eq!(title("hOME"), "Home");
    assert!(same_ignoring_case("HoMe", "hOmE"));
}

#[test]
fn numbers_are_read_and_written() {
    assert_eq!(parse("42", 100), Some(42));
    assert_eq!(parse("+7", 100), Some(7));
    assert_eq!(parse("101", 100), None);
    assert_eq!(parse("", 100), None);
    assert_eq!(parse("4 2", 100), None);
    assert_eq!(parse("18446744073709551616", u64::MAX), None);
    assert_eq!(number(0), "0");
    assert_eq!(number(u64::MAX), "18446744073709551615");
}

#[test]
fn lists_are_sorted_and_pruned() {
    assert_eq!(
        sort_unique(&strings(&["b", "a", "b", "A", "ab"])),
        strings(&["A", "a", "ab", "b"])
    );
}

#[test]
fn every_occurrence_is_replaced() {
    assert_eq!(replace("a--b--", "--", "+"), "a+b+");
    assert_eq!(replace("aaa", "aa", "b"), "ba");
}
