//! Project Selector: the project that a name stands for, and the choices
//! shown when no name was given.

use crate::enumerate::{enumeration_ignores_order, project_names, EntryView};
use crate::error::{outcome_of, LaunchError, LaunchErrorView};
use crate::text::{
    precedes, text_le, text_le_total, text_le_transitive, text_order, text_order_is_total,
};
use vstd::multiset::group_multiset_axioms;
use vstd::prelude::*;
use vstd::relations::sorted_by;
use vstd::seq_lib::{
    lemma_sorted_unique, to_multiset_contains, to_multiset_insert, to_multiset_remove,
};

verus! {

/// The lowercase form of a text, as `str::to_lowercase` of the standard
/// library gives it.
pub uninterp spec fn lowercase_of(text: Seq<char>) -> Seq<char>;

/// Calls `str::to_lowercase`. The standard library documents the result as
/// the lowercase equivalent of the text by the Unicode rules for lowercase,
/// a function of the text alone. That function is not spelled out here: the
/// contract only names it.
#[verifier::external_body]
fn lowercase(text: &str) -> (lowered: String)
    ensures
        lowered@ == lowercase_of(text@),
{
    text.to_lowercase()
}

/// Two names are the same but for the case of their letters.
pub open spec fn same_name(a: Seq<char>, b: Seq<char>) -> bool {
    lowercase_of(a) == lowercase_of(b)
}

/// The lowercase forms of some names, in the same order.
pub open spec fn lowercased(names: Seq<Seq<char>>) -> Seq<Seq<char>> {
    names.map_values(|name: Seq<char>| lowercase_of(name))
}

/// The project that `wanted` stands for: the first of `projects` with the
/// same name but for case. Where there is none, the name is reported as not
/// found.
pub open spec fn named_project(projects: Seq<Seq<char>>, wanted: Seq<char>) -> Result<
    Seq<char>,
    LaunchErrorView,
> {
    match lowercased(projects).index_of_first(lowercase_of(wanted)) {
        Some(at) => Ok(projects[at]),
        None => Err(LaunchErrorView::NotFound(wanted)),
    }
}

/// The position of the first of `keys` that equals `key`, if any does.
pub fn position_of(keys: &Vec<String>, key: &String) -> (position: Option<usize>)
    ensures
        match position {
            Some(at) => {
                &&& at < keys.len()
                &&& keys[at as int]@ == key@
                &&& forall|j: int| 0 <= j < at ==> keys[j]@ != key@
            },
            None => forall|j: int| 0 <= j < keys.len() ==> keys[j]@ != key@,
        },
        match position {
            Some(at) => Some(at as int),
            None => None,
        } == keys.deep_view().index_of_first(key@),
{
    let ghost texts = keys.deep_view();
    proof {
        texts.index_of_first_ensures(key@);
    }
    let mut at: usize = 0;
    while at < keys.len()
        invariant
            at <= keys.len(),
            texts == keys.deep_view(),
            forall|j: int| 0 <= j < at ==> keys[j]@ != key@,
            match texts.index_of_first(key@) {
                Some(first) => {
                    &&& 0 <= first < texts.len()
                    &&& texts[first] == key@
                    &&& forall|j: int| 0 <= j < first ==> texts[j] != key@
                },
                None => !texts.contains(key@),
            },
        decreases keys.len() - at,
    {
        if keys[at] == *key {
            assert(texts[at as int] == key@);
            return Some(at);
        }
        at += 1;
    }
    None
}

/// The lowercase form of each of `names`, in the same order.
fn lowercase_all(names: &Vec<String>) -> (lowered: Vec<String>)
    ensures
        lowered.len() == names.len(),
        lowered.deep_view() == lowercased(names.deep_view()),
{
    let mut lowered: Vec<String> = Vec::new();
    let mut i: usize = 0;
    while i < names.len()
        invariant
            i <= names.len(),
            lowered.len() == i,
            forall|j: int| 0 <= j < i ==> lowered[j]@ == lowercase_of(names[j]@),
        decreases names.len() - i,
    {
        lowered.push(lowercase(names[i].as_str()));
        i += 1;
    }
    assert(lowered.deep_view() =~= lowercased(names.deep_view()));
    lowered
}

/// Resolves a project given by name: the first of `projects` that equals
/// `wanted` but for the case of its letters. It fails with `NotFound`, and
/// the name, exactly when no project matches.
pub fn find_project(projects: &Vec<String>, wanted: &str) -> (found: Result<String, LaunchError>)
    ensures
        outcome_of(found) == named_project(projects.deep_view(), wanted@),
{
    let keys = lowercase_all(projects);
    let key = lowercase(wanted);
    match position_of(&keys, &key) {
        Some(at) => Ok(projects[at].clone()),
        None => Err(LaunchError::NotFound(wanted.to_owned())),
    }
}

/// The names in ascending dictionary order.
pub open spec fn sorted_names(names: Seq<Seq<char>>) -> Seq<Seq<char>> {
    names.sort_by(text_order())
}

/// Sorts names into ascending dictionary order by character code, capital
/// letters before small ones. The result holds the same names, each as often
/// as before. Names that compare equal are the same text, so the sort is
/// stable.
pub fn sort_names(names: Vec<String>) -> (sorted: Vec<String>)
    ensures
        sorted_by(sorted.deep_view(), text_order()),
        sorted.deep_view().to_multiset() == names.deep_view().to_multiset(),
        sorted.deep_view() == sorted_names(names.deep_view()),
{
    let ghost given = names.deep_view();
    let mut sorted = names;
    let mut done: usize = 0;
    while done < sorted.len()
        invariant
            done <= sorted.len(),
            sorted.deep_view().to_multiset() == given.to_multiset(),
            sorted_by(sorted.deep_view().take(done as int), text_order()),
        decreases sorted.len() - done,
    {
        let ghost before = sorted.deep_view();
        let name = sorted.remove(done);
        let ghost rest = sorted.deep_view();
        assert(rest =~= before.remove(done as int));
        let mut at: usize = done;
        while at > 0 && !precedes(sorted[at - 1].as_str(), name.as_str())
            invariant
                at <= done <= sorted.len(),
                rest == sorted.deep_view(),
                forall|k: int| at <= k < done ==> text_le(name@, #[trigger] rest[k]),
            decreases at,
        {
            proof {
                text_le_total(rest[at - 1], name@);
            }
            at -= 1;
        }
        sorted.insert(at, name);
        proof {
            let after = sorted.deep_view();
            assert(after =~= rest.insert(at as int, name@));
            assert(after.to_multiset() =~= before.to_multiset()) by {
                broadcast use group_multiset_axioms;

                to_multiset_remove(before, done as int);
                to_multiset_insert(rest, at as int, name@);
                to_multiset_contains(before, name@);
            }
            let prefix = after.take(done + 1);
            let earlier = before.take(done as int);
            assert forall|i: int, j: int| 0 <= i < j < prefix.len() implies #[trigger] text_order()(
                prefix[i],
                prefix[j],
            ) by {
                if j < at {
                    assert(text_order()(earlier[i], earlier[j]));
                } else if j == at {
                    if i < at - 1 {
                        assert(text_order()(earlier[i], earlier[at - 1]));
                        text_le_transitive(rest[i], rest[at - 1], name@);
                    }
                } else if i < at {
                    assert(text_order()(earlier[i], earlier[j - 1]));
                } else if i == at {
                    assert(text_le(name@, rest[j - 1]));
                } else {
                    assert(text_order()(earlier[i - 1], earlier[j - 1]));
                }
            }
        }
        done += 1;
    }
    proof {
        assert(sorted.deep_view().take(done as int) =~= sorted.deep_view());
        text_order_is_total();
        given.lemma_sort_by_ensures(text_order());
        lemma_sorted_unique(sorted.deep_view(), sorted_names(given), text_order());
    }
    sorted
}

/// What the answer of the interactive prompt stands for: the chosen name,
/// or an aborted selection where there is none.
pub open spec fn chosen_project(choice: Option<Seq<char>>) -> Result<Seq<char>, LaunchErrorView> {
    match choice {
        Some(name) => Ok(name),
        None => Err(LaunchErrorView::SelectionAborted),
    }
}

/// Takes the answer of the interactive prompt: the chosen name, or
/// `SelectionAborted` when the prompt was cancelled or could not be shown.
pub fn accept_choice(choice: Option<String>) -> (chosen: Result<String, LaunchError>)
    ensures
        outcome_of(chosen) == chosen_project(choice.deep_view()),
{
    match choice {
        Some(name) => Ok(name),
        None => Err(LaunchError::SelectionAborted),
    }
}

/// Matching by name ignores case in both directions: if `a` selects `b`,
/// then `b` selects `a`, and every name selects itself.
pub proof fn same_name_is_symmetric(a: Seq<char>, b: Seq<char>)
    ensures
        same_name(a, b) == same_name(b, a),
        same_name(a, a),
{
}

/// A name resolves to the first project that equals it but for case, and
/// is reported as not found exactly when no project does.
pub proof fn named_project_is_first_match(projects: Seq<Seq<char>>, wanted: Seq<char>)
    ensures
        match named_project(projects, wanted) {
            Ok(name) => exists|at: int|
                {
                    &&& 0 <= at < projects.len()
                    &&& #[trigger] projects[at] == name
                    &&& same_name(projects[at], wanted)
                    &&& forall|j: int| 0 <= j < at ==> !same_name(#[trigger] projects[j], wanted)
                },
            Err(error) => {
                &&& error == LaunchErrorView::NotFound(wanted)
                &&& forall|j: int|
                    0 <= j < projects.len() ==> !same_name(#[trigger] projects[j], wanted)
            },
        },
{
    let keys = lowercased(projects);
    let key = lowercase_of(wanted);
    keys.index_of_first_ensures(key);
    match keys.index_of_first(key) {
        Some(at) => {
            assert(same_name(projects[at], wanted));
            assert forall|j: int| 0 <= j < at implies !same_name(#[trigger] projects[j], wanted) by {
                assert(keys[j] != key);
            }
        },
        None => {
            assert forall|j: int| 0 <= j < projects.len() implies !same_name(
                #[trigger] projects[j],
                wanted,
            ) by {
                assert(keys.contains(keys[j]));
            }
        },
    }
}

/// The sorted names are in ascending order and hold the same names as
/// before, each as often. No other sequence does both.
pub proof fn sorted_names_is_the_sorted_permutation(names: Seq<Seq<char>>, other: Seq<Seq<char>>)
    ensures
        sorted_by(sorted_names(names), text_order()),
        sorted_names(names).to_multiset() == names.to_multiset(),
        sorted_by(other, text_order()) && other.to_multiset() == names.to_multiset() ==> other
            == sorted_names(names),
{
    text_order_is_total();
    names.lemma_sort_by_ensures(text_order());
    if sorted_by(other, text_order()) && other.to_multiset() == names.to_multiset() {
        lemma_sorted_unique(other, sorted_names(names), text_order());
    }
}

/// The choices shown do not depend on the order in which the workspace root
/// was listed: two listings that hold the same entries give the same names
/// in the same order once sorted.
pub proof fn sorted_choices_ignore_order(first: Seq<EntryView>, second: Seq<EntryView>)
    requires
        first.to_multiset() == second.to_multiset(),
    ensures
        sorted_names(project_names(first)) == sorted_names(project_names(second)),
{
    enumeration_ignores_order(first, second);
    sorted_names_is_the_sorted_permutation(
        project_names(second),
        sorted_names(project_names(first)),
    );
    sorted_names_is_the_sorted_permutation(project_names(first), Seq::empty());
}

} // verus!
