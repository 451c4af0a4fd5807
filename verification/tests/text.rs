use gl_generator::text::{all_distinct, join, mentions_word, replace_all, same_text, to_chars};

fn strings(items: &[&str]) -> Vec<String> {
    items.iter().map(|s| s.to_string()).collect()
}

#[test]
fn characters_of_a_text() {
    assert_eq!(to_chars(""), Vec::<char>::new());
    assert_eq!(to_chars("aé\n"), vec!['a', 'é', '\n']);
}

#[test]
fn same_text_compares_characters() {
    assert!(same_text("", ""));
    assert!(same_text("()", "()"));
    assert!(!same_text("()", "( )"));
    assert!(!same_text("a", "A"));
    assert!(!same_text("ab", "a"));
}

#[test]
fn join_puts_the_separator_between_neighbours() {
    assert_eq!(join(&strings(&[]), ", "), "");
    assert_eq!(join(&strings(&["a"]), ", "), "a");
    assert_eq!(join(&strings(&["a", "b"]), ", "), "a, b");
    assert_eq!(join(&strings(&["a", "", "c"]), "-"), "a--c");
    assert_eq!(join(&strings(&["", ""]), "+"), "+");
    assert_eq!(join(&strings(&["x", "y", "z"]), ""), "xyz");
}

#[test]
fn replace_all_agrees_with_the_standard_replacement() {
    let texts = [
        "",
        "a",
        "aaa",
        "aaaa",
        "abcabc",
        "let {param} = {param}.as_ptr();",
        "{param}{param}",
        "{para{param}m}",
        "line one\nline two\n\nline four",
        "ünïcödé {cmd} ünïcödé",
        "{{cmd}}",
        "ab",
        "aab",
        "abab",
        "ababab",
    ];
    let patterns = ["a", "aa", "ab", "aba", "{param}", "{cmd}", "\n", "é", "abc", "x"];
    let values = ["", "b", "a", "aa", "name", "\n    ", "{param}"];
    for text in texts {
        for pattern in patterns {
            for value in values {
                assert_eq!(
                    replace_all(text, pattern, value),
                    text.replace(pattern, value),
                    "{:?} {:?} {:?}",
                    text,
                    pattern,
                    value
                );
            }
        }
    }
}

#[test]
fn replace_all_by_examples() {
    assert_eq!(replace_all("let {param} = {param}.as_ptr();", "{param}", "data"), "let data = data.as_ptr();");
    assert_eq!(replace_all("aaa", "aa", "b"), "ba");
    assert_eq!(replace_all("a\nb", "\n", "\n  "), "a\n  b");
    assert_eq!(replace_all("abc", "", "x"), "abc");
    assert_eq!(replace_all("", "a", "x"), "");
}

#[test]
fn mentions_word_ignores_letter_case() {
    assert!(mentions_word("callback", "callback"));
    assert!(mentions_word("errorCallback", "callback"));
    assert!(mentions_word("CALLBACK", "callback"));
    assert!(mentions_word("my_callback_fn", "callback"));
    assert!(mentions_word("xcallbackx", "CallBack"));
    assert!(!mentions_word("callbac", "callback"));
    assert!(!mentions_word("call_back", "callback"));
    assert!(!mentions_word("", "callback"));
    assert!(mentions_word("", ""));
    assert!(mentions_word("abc", ""));
    assert!(!mentions_word("c@llback", "callback"));
    assert!(!mentions_word("`allback", "@allback"));
}

#[test]
fn all_distinct_finds_repetitions() {
    assert!(all_distinct(&strings(&[])));
    assert!(all_distinct(&strings(&["a"])));
    assert!(all_distinct(&strings(&["a", "b", "c"])));
    assert!(!all_distinct(&strings(&["a", "b", "a"])));
    assert!(!all_distinct(&strings(&["a", "a"])));
    assert!(!all_distinct(&strings(&["x", "b", "c", "c"])));
    assert!(all_distinct(&strings(&["a", "A"])));
}
