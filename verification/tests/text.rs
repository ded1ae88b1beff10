use komodo_logic::report::ErrorChain;
use komodo_logic::sort::{sort_strings, sort_unique_strings, string_le};
use komodo_logic::text::{join_strings, nonempty_lines, split_chars};

fn strings(v: &[&str]) -> Vec<String> {
    v.iter().map(|s| s.to_string()).collect()
}

#[test]
fn error_chains_join_outermost_first() {
    let e = ErrorChain::single("root cause".into()).context("middle".into()).context("outer".into());
    assert_eq!(e.message(), "outer: middle: root cause");
    assert_eq!(e.chain, strings(&["outer", "middle", "root cause"]));
}

#[test]
fn sorting_strings() {
    assert!(string_le(&"abc".to_string(), &"abd".to_string()));
    assert!(string_le(&"ab".to_string(), &"abc".to_string()));
    assert!(!string_le(&"b".to_string(), &"abc".to_string()));
    assert_eq!(sort_strings(strings(&["b", "a", "c", "a"])), strings(&["a", "a", "b", "c"]));
    assert_eq!(sort_unique_strings(strings(&["b", "a", "c", "a"])), strings(&["a", "b", "c"]));
    assert_eq!(sort_unique_strings(strings(&["B", "a"])), strings(&["B", "a"]));
}

#[test]
fn splitting_and_joining() {
    let pieces = split_chars(&"a,,b".chars().collect::<Vec<_>>(), ',');
    assert_eq!(pieces.len(), 3);
    assert!(pieces[1].is_empty());
    assert_eq!(nonempty_lines("x\n\ny\n"), strings(&["x", "y"]));
    assert_eq!(join_strings(&strings(&["a", "b", "c"]), ", "), "a, b, c");
    assert_eq!(join_strings(&strings(&[]), ", "), "");
}
