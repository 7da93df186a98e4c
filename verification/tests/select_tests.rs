use workspace_launcher::error::LaunchError;
use workspace_launcher::select::{accept_choice, find_project, position_of, sort_names};

fn owned(list: &[&str]) -> Vec<String> {
    list.iter().map(|s| s.to_string()).collect()
}

#[test]
fn a_capitalised_name_matches_a_small_entry() {
    let projects = owned(&["bar", "foo"]);
    assert_eq!(find_project(&projects, "Foo"), Ok("foo".to_string()));
}

#[test]
fn a_small_name_matches_a_capitalised_entry() {
    let projects = owned(&["bar", "Foo"]);
    assert_eq!(find_project(&projects, "foo"), Ok("Foo".to_string()));
}

#[test]
fn a_missing_name_is_not_found() {
    let projects = owned(&["alpha", "Beta"]);
    assert_eq!(find_project(&projects, "missing"), Err(LaunchError::NotFound("missing".to_string())));
}

#[test]
fn an_upper_case_argument_resolves_to_the_entry_as_listed() {
    let projects = owned(&["alpha", "Beta"]);
    assert_eq!(find_project(&projects, "BETA"), Ok("Beta".to_string()));
}

#[test]
fn the_first_of_several_matches_is_taken() {
    let projects = owned(&["other", "Foo", "foo", "FOO"]);
    assert_eq!(find_project(&projects, "foo"), Ok("Foo".to_string()));
    assert_eq!(find_project(&projects, "FOO"), Ok("Foo".to_string()));
}

#[test]
fn matching_is_exact_but_for_case() {
    let projects = owned(&["foobar", "fo", " foo", "foo "]);
    assert_eq!(find_project(&projects, "foo"), Err(LaunchError::NotFound("foo".to_string())));
}

#[test]
fn nothing_is_found_among_no_projects() {
    assert_eq!(find_project(&Vec::new(), "foo"), Err(LaunchError::NotFound("foo".to_string())));
}

#[test]
fn matching_ignores_the_case_of_letters_beyond_ascii() {
    let projects = owned(&["ÉCOLE", "straße"]);
    assert_eq!(find_project(&projects, "école"), Ok("ÉCOLE".to_string()));
    assert_eq!(find_project(&projects, "STRASSE"), Err(LaunchError::NotFound("STRASSE".to_string())));
}

#[test]
fn position_of_gives_the_first_equal_key() {
    let keys = owned(&["x", "y", "z", "y"]);
    assert_eq!(position_of(&keys, &"y".to_string()), Some(1));
    assert_eq!(position_of(&keys, &"x".to_string()), Some(0));
    assert_eq!(position_of(&keys, &"z".to_string()), Some(2));
}

#[test]
fn position_of_gives_nothing_for_an_absent_key() {
    let keys = owned(&["x", "y"]);
    assert_eq!(position_of(&keys, &"Y".to_string()), None);
    assert_eq!(position_of(&Vec::new(), &"x".to_string()), None);
}

#[test]
fn sort_names_puts_capitals_first() {
    assert_eq!(sort_names(owned(&["alpha", "Beta"])), owned(&["Beta", "alpha"]));
}

#[test]
fn sort_names_orders_like_a_dictionary_by_code() {
    let names = owned(&["b", "abc", "", "ab", "a", "B", "10", "9", "abd"]);
    assert_eq!(sort_names(names), owned(&["", "10", "9", "B", "a", "ab", "abc", "abd", "b"]));
}

#[test]
fn sort_names_keeps_repeated_names() {
    assert_eq!(sort_names(owned(&["b", "a", "b", "a"])), owned(&["a", "a", "b", "b"]));
}

#[test]
fn sort_names_leaves_short_lists_alone() {
    assert_eq!(sort_names(Vec::new()), Vec::<String>::new());
    assert_eq!(sort_names(owned(&["only"])), owned(&["only"]));
}

#[test]
fn sort_names_agrees_with_the_standard_sort() {
    let names = owned(&[
        "zeta", "Alpha", "alpha", "émile", "emile", "日本語", "日本", "_hidden", "10", "2", "Zeta",
        "a b", "a-b", "\u{10000}x", "\u{ffff}x", "",
    ]);
    let mut expected = owned(&[
        "zeta", "Alpha", "alpha", "émile", "emile", "日本語", "日本", "_hidden", "10", "2", "Zeta",
        "a b", "a-b", "\u{10000}x", "\u{ffff}x", "",
    ]);
    expected.sort();
    assert_eq!(sort_names(names), expected);
}

#[test]
fn sorted_choices_do_not_depend_on_the_listing_order() {
    let first = sort_names(owned(&["one", "Two", "three"]));
    let second = sort_names(owned(&["three", "one", "Two"]));
    assert_eq!(first, second);
    assert_eq!(first, owned(&["Two", "one", "three"]));
}

#[test]
fn accept_choice_takes_the_chosen_name() {
    assert_eq!(accept_choice(Some("alpha".to_string())), Ok("alpha".to_string()));
}

#[test]
fn accept_choice_without_a_choice_is_an_abort() {
    assert_eq!(accept_choice(None), Err(LaunchError::SelectionAborted));
}
