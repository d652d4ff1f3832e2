use chez_backend::order::{precedes, sort};

fn before(a: &str, b: &str) -> bool {
    precedes(&a.to_string(), &b.to_string())
}

#[test]
fn a_name_stands_before_what_it_begins() {
    assert!(before("", ""));
    assert!(before("", "a"));
    assert!(!before("a", ""));
    assert!(before("a", "a"));
    assert!(before("a", "ab"));
    assert!(!before("ab", "a"));
}

#[test]
fn the_first_character_that_differs_decides() {
    assert!(before("a", "b"));
    assert!(!before("b", "a"));
    assert!(before("abc", "abd"));
    assert!(!before("abd", "abc"));
    assert!(before("az", "b"));
    assert!(before("Z", "a"));
    assert!(before("m.a", "m.a?"));
    // 'z' is U+007A and 'é' is U+00E9
    assert!(before("z", "é"));
    assert!(!before("é", "z"));
}

fn sorted(names: Vec<&str>) -> Vec<String> {
    sort(names.into_iter().map(|name| name.to_string()).collect())
}

#[test]
fn names_are_put_in_order() {
    assert_eq!(sorted(vec![]), Vec::<String>::new());
    assert_eq!(sorted(vec!["one"]), vec!["one"]);
    assert_eq!(sorted(vec!["b", "a", "c"]), vec!["a", "b", "c"]);
    assert_eq!(sorted(vec!["c", "b", "a"]), vec!["a", "b", "c"]);
    assert_eq!(sorted(vec!["a", "b", "c"]), vec!["a", "b", "c"]);
    assert_eq!(sorted(vec!["ab", "", "b", "a", "B"]), vec!["", "B", "a", "ab", "b"]);
}
