use wasm_core::text::{chars_of, contains, eq_ignoring_ascii_case, matches_at, to_ascii_lower};

fn chars(s: &str) -> Vec<char> {
    s.chars().collect()
}

#[test]
fn chars_of_keeps_every_character() {
    assert_eq!(chars_of(""), Vec::<char>::new());
    assert_eq!(chars_of("abc"), vec!['a', 'b', 'c']);
    assert_eq!(chars_of("\u{e9}t\u{e9}"), vec!['\u{e9}', 't', '\u{e9}']);
    assert_eq!(chars_of("a\u{1f600}b").len(), 3);
}

#[test]
fn ascii_capitals_are_lowered_and_nothing_else() {
    assert_eq!(to_ascii_lower('A'), 'a');
    assert_eq!(to_ascii_lower('Z'), 'z');
    assert_eq!(to_ascii_lower('M'), 'm');
    assert_eq!(to_ascii_lower('a'), 'a');
    assert_eq!(to_ascii_lower('z'), 'z');
    assert_eq!(to_ascii_lower('@'), '@');
    assert_eq!(to_ascii_lower('['), '[');
    assert_eq!(to_ascii_lower('0'), '0');
    assert_eq!(to_ascii_lower('\u{c9}'), '\u{c9}');
    assert_eq!(to_ascii_lower('\u{212a}'), '\u{212a}');
}

#[test]
fn ascii_lowering_agrees_with_std() {
    for code in 0u32..0x250 {
        if let Some(c) = char::from_u32(code) {
            assert_eq!(to_ascii_lower(c), c.to_ascii_lowercase());
        }
    }
}

#[test]
fn match_at_a_position() {
    let hay = chars("not-running");
    assert!(matches_at(&hay, &chars("running"), 4));
    assert!(!matches_at(&hay, &chars("running"), 3));
    assert!(!matches_at(&hay, &chars("running"), 0));
    assert!(matches_at(&hay, &chars("not"), 0));
    assert!(matches_at(&hay, &chars(""), 0));
    assert!(matches_at(&hay, &chars(""), 11));
    assert!(matches_at(&hay, &hay, 0));
    assert!(!matches_at(&hay, &chars("runnin!"), 4));
}

#[test]
fn contains_finds_a_part_anywhere() {
    assert!(contains(&chars("crashloopbackoff"), &chars("crash")));
    assert!(contains(&chars("crashloopbackoff"), &chars("loop")));
    assert!(contains(&chars("crashloopbackoff"), &chars("off")));
    assert!(contains(&chars("crashloopbackoff"), &chars("crashloopbackoff")));
    assert!(!contains(&chars("crashloopbackoff"), &chars("crashloopbackoff!")));
    assert!(!contains(&chars("crashloopbackoff"), &chars("error")));
    assert!(!contains(&chars("crashloopbackoff"), &chars("of f")));
    assert!(contains(&chars("aaab"), &chars("aab")));
    assert!(!contains(&chars("aaab"), &chars("aba")));
}

#[test]
fn contains_on_empty_texts() {
    assert!(contains(&chars(""), &chars("")));
    assert!(contains(&chars("abc"), &chars("")));
    assert!(!contains(&chars(""), &chars("a")));
    assert!(!contains(&chars("ab"), &chars("abc")));
}

#[test]
fn contains_agrees_with_std() {
    let hays = ["", "a", "running", "not-running-anymore", "\u{e9}rror", "err\u{f6}r error", "aaaa"];
    let needles = ["", "a", "aa", "running", "error", "r", "\u{e9}", "rror", "anymore!", "aaaaa"];
    for hay in hays {
        for needle in needles {
            assert_eq!(contains(&chars(hay), &chars(needle)), hay.contains(needle));
        }
    }
}

#[test]
fn comparison_without_ascii_case() {
    assert!(eq_ignoring_ascii_case(&chars("Pod"), &chars("pOD")));
    assert!(eq_ignoring_ascii_case(&chars(""), &chars("")));
    assert!(eq_ignoring_ascii_case(&chars("a-1_Z"), &chars("A-1_z")));
    assert!(!eq_ignoring_ascii_case(&chars("pod"), &chars("pods")));
    assert!(!eq_ignoring_ascii_case(&chars("pod"), &chars("pot")));
    // '@' and '`' differ by 32 as 'A' and 'a' do, yet are no letters.
    assert!(!eq_ignoring_ascii_case(&chars("@"), &chars("`")));
    assert!(!eq_ignoring_ascii_case(&chars("["), &chars("{")));
    // Letters outside ASCII keep their case.
    assert!(!eq_ignoring_ascii_case(&chars("\u{c9}"), &chars("\u{e9}")));
    assert!(eq_ignoring_ascii_case(&chars("\u{c9}A"), &chars("\u{c9}a")));
}

#[test]
fn comparison_agrees_with_std() {
    let words = ["", "pod", "POD", "Pod", "pods", "p\u{f6}d", "P\u{d6}D", "P\u{f6}D", "@", "`"];
    for a in words {
        for b in words {
            assert_eq!(eq_ignoring_ascii_case(&chars(a), &chars(b)), a.eq_ignore_ascii_case(b));
        }
    }
}

#[test]
fn no_match_past_the_end() {
    let hay = chars("running");
    assert!(!matches_at(&hay, &chars("ing"), 5));
    assert!(!matches_at(&hay, &chars("g"), 7));
    assert!(!matches_at(&hay, &chars(""), 8));
    assert!(!matches_at(&hay, &chars("running!"), 0));
    assert!(!matches_at(&hay, &chars("r"), usize::MAX));
    assert!(matches_at(&hay, &chars("ing"), 4));
}
