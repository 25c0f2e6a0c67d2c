use logbrowse::text::{chars_of, find_text, matches_at, rfind, slice_text, split_lines};

fn chars(s: &str) -> Vec<char> {
    s.chars().collect()
}

fn std_lines(s: &str) -> Vec<String> {
    s.lines().map(|l| l.to_string()).collect()
}

#[test]
fn chars_of_keeps_every_character() {
    assert_eq!(chars_of("a→b"), vec!['a', '→', 'b']);
    assert_eq!(chars_of(""), Vec::<char>::new());
}

#[test]
fn slice_text_takes_a_range_of_characters() {
    let all = chars("j  ↓  next");
    assert_eq!(slice_text(&all, 3, 4), "↓");
    assert_eq!(slice_text(&all, 0, 0), "");
    assert_eq!(slice_text(&all, 6, 10), "next");
    assert_eq!(slice_text(&all, 0, 10), "j  ↓  next");
}

#[test]
fn find_text_gives_the_first_occurrence() {
    assert_eq!(find_text(&chars("a | b | c"), &chars(" | ")), Some(1));
    assert_eq!(find_text(&chars("abc"), &chars(" | ")), None);
    assert_eq!(find_text(&chars("ab"), &chars("abc")), None);
    assert_eq!(find_text(&chars("abc"), &chars("")), Some(0));
    assert_eq!(find_text(&chars(""), &chars("")), Some(0));
    assert_eq!(find_text(&chars("xxab"), &chars("ab")), Some(2));
    assert_eq!(find_text(&chars("aab"), &chars("ab")), Some(1));
}

#[test]
fn rfind_gives_the_last_occurrence() {
    assert_eq!(rfind(&chars("12 ++ --"), ' '), Some(5));
    assert_eq!(rfind(&chars("abc"), ' '), None);
    assert_eq!(rfind(&chars(""), ' '), None);
    assert_eq!(rfind(&chars(" a"), ' '), Some(0));
}

#[test]
fn matches_at_compares_in_place() {
    assert!(matches_at(&chars("refs/tags/v1"), &chars("refs/tags/"), 0));
    assert!(!matches_at(&chars("refs/heads/v1"), &chars("refs/tags/"), 0));
    assert!(matches_at(&chars("xab"), &chars("ab"), 1));
    assert!(matches_at(&chars("xab"), &chars(""), 3));
}

#[test]
fn split_lines_ends_lines_at_line_feeds() {
    assert_eq!(split_lines("foo\r\nbar\n\nbaz\r"), vec!["foo", "bar", "", "baz\r"]);
    assert_eq!(split_lines(""), Vec::<String>::new());
    assert_eq!(split_lines("\n"), vec![""]);
    assert_eq!(split_lines("a"), vec!["a"]);
    assert_eq!(split_lines("a\n"), vec!["a"]);
    assert_eq!(split_lines("a\n\n"), vec!["a", ""]);
    assert_eq!(split_lines("\r\n"), vec![""]);
    assert_eq!(split_lines("a\rb\n"), vec!["a\rb"]);
    assert_eq!(split_lines("a\r\r\nb"), vec!["a\r", "b"]);
}

#[test]
fn split_lines_agrees_with_the_standard_library() {
    let samples = [
        "",
        "one",
        "one\ntwo",
        "one\ntwo\n",
        "\n\n\n",
        "a\r\nb\r\n",
        "a\r",
        "\r",
        "subject\n\nbody of the message\nmore → text\n",
        " src/a.rs | 2 +-\n 1 file changed, 1 insertion(+), 1 deletion(-)\n",
    ];
    for sample in samples {
        assert_eq!(split_lines(sample), std_lines(sample), "lines of {:?}", sample);
    }
}
