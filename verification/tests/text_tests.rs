use workspace_launcher::text::precedes;

#[test]
fn precedes_orders_by_the_first_difference() {
    assert!(precedes("abc", "abd"));
    assert!(!precedes("abd", "abc"));
    assert!(precedes("a", "b"));
    assert!(!precedes("b", "abd"));
}

#[test]
fn precedes_puts_a_prefix_first() {
    assert!(precedes("ab", "abc"));
    assert!(!precedes("abc", "ab"));
    assert!(precedes("", "a"));
    assert!(!precedes("a", ""));
}

#[test]
fn precedes_holds_of_equal_texts() {
    assert!(precedes("", ""));
    assert!(precedes("same", "same"));
}

#[test]
fn precedes_puts_capitals_before_small_letters() {
    assert!(precedes("Beta", "alpha"));
    assert!(!precedes("alpha", "Beta"));
    assert!(precedes("Z", "a"));
}

#[test]
fn precedes_agrees_with_the_order_of_strings() {
    let samples = [
        "", "a", "A", "ab", "abc", "abd", "b", "Beta", "alpha", "é", "e", "z", "zz", "日本", "日",
        "\u{10000}", "\u{ffff}", "~", "0", "10", "9", "a b", "a-b", "a_b",
    ];
    for a in samples {
        for b in samples {
            assert_eq!(precedes(a, b), a <= b, "{:?} and {:?}", a, b);
        }
    }
}
