//! Project Enumerator: the names of the directories directly below the
//! workspace root.

use crate::error::{outcome_of, IoKind, LaunchError, LaunchErrorView};
use vstd::prelude::*;
use vstd::seq_lib::{group_to_multiset_ensures, lemma_multiset_commutative};

verus! {

/// One entry of the workspace root, as the directory read reported it.
#[derive(Debug, PartialEq, Eq)]
pub enum Entry {
    /// The entry could not be read.
    Unreadable,
    /// An entry that was read. `name` is its base name, or `None` where the
    /// name is not valid Unicode; `is_dir` says whether it is a directory.
    Found { name: Option<String>, is_dir: bool },
}

/// The mathematical value of an [`Entry`].
pub enum EntryView {
    Unreadable,
    Found { name: Option<Seq<char>>, is_dir: bool },
}

impl View for Entry {
    type V = EntryView;

    open spec fn view(&self) -> EntryView {
        match *self {
            Entry::Unreadable => EntryView::Unreadable,
            Entry::Found { name, is_dir } => EntryView::Found { name: name.deep_view(), is_dir },
        }
    }
}

impl DeepView for Entry {
    type V = EntryView;

    open spec fn deep_view(&self) -> EntryView {
        self@
    }
}

impl EntryView {
    /// The project that this entry stands for: its base name if it is a
    /// directory with a name, nothing otherwise.
    pub open spec fn project_name(self) -> Option<Seq<char>> {
        match self {
            EntryView::Found { name: Some(name), is_dir: true } => Some(name),
            _ => None,
        }
    }
}

/// The project names of a listing: the base names of its directories, in
/// the order of the listing.
pub open spec fn project_names(listing: Seq<EntryView>) -> Seq<Seq<char>> {
    listing.filter_map(|entry: EntryView| entry.project_name())
}

/// The mathematical value of what reading a directory gave.
pub open spec fn reading_of(reading: Result<Vec<Entry>, IoKind>) -> Result<Seq<EntryView>, IoKind> {
    match reading {
        Ok(listing) => Ok(listing.deep_view()),
        Err(kind) => Err(kind),
    }
}

/// What enumerating the workspace root at `root` gives, from what reading it
/// gave: the project names of the listing, or the failure of the read.
pub open spec fn projects_of(root: Seq<char>, reading: Result<Seq<EntryView>, IoKind>) -> Result<
    Seq<Seq<char>>,
    LaunchErrorView,
> {
    match reading {
        Ok(listing) => Ok(project_names(listing)),
        Err(kind) => Err(LaunchErrorView::Io { path: root, kind }),
    }
}

/// The project names of a listing. Entries that are not directories, that
/// could not be read, or whose name is not valid Unicode are left out.
pub fn directories(listing: &Vec<Entry>) -> (names: Vec<String>)
    ensures
        names.deep_view() == project_names(listing.deep_view()),
{
    let ghost entries = listing.deep_view();
    let mut names: Vec<String> = Vec::new();
    let mut i: usize = 0;
    while i < listing.len()
        invariant
            i <= listing.len(),
            entries == listing.deep_view(),
            names.deep_view() == project_names(entries.take(i as int)),
        decreases listing.len() - i,
    {
        proof {
            project_names_push(entries.take(i as int), entries[i as int]);
            assert(entries.take(i + 1) =~= entries.take(i as int).push(entries[i as int]));
        }
        let ghost before = names.deep_view();
        match &listing[i] {
            Entry::Found { name: Some(name), is_dir: true } => {
                names.push(name.clone());
            },
            _ => {},
        }
        i += 1;
    }
    assert(entries.take(i as int) =~= entries);
    names
}

/// Enumerates the projects below the workspace root at `workspace_root`,
/// given what reading that directory gave. A failed read is reported with
/// the path; a successful one gives the names of the directories in it.
pub fn get_projects(workspace_root: &String, reading: Result<Vec<Entry>, IoKind>) -> (projects:
    Result<Vec<String>, LaunchError>)
    ensures
        outcome_of(projects) == projects_of(workspace_root@, reading_of(reading)),
{
    match reading {
        Ok(listing) => Ok(directories(&listing)),
        Err(kind) => Err(LaunchError::Io { path: workspace_root.clone(), kind }),
    }
}

/// The set of names that a listing holds a directory for.
pub open spec fn directory_names(listing: Seq<EntryView>) -> Set<Seq<char>> {
    Set::new(
        |name: Seq<char>| listing.contains(EntryView::Found { name: Some(name), is_dir: true }),
    )
}

/// The names that one entry adds to an enumeration: its project name, if it
/// has one.
pub open spec fn names_from(entry: EntryView) -> Seq<Seq<char>> {
    match entry.project_name() {
        Some(name) => seq![name],
        None => Seq::empty(),
    }
}

/// Enumerating a listing with one more entry at its end adds that entry's
/// names at the end.
pub proof fn project_names_push(listing: Seq<EntryView>, entry: EntryView)
    ensures
        project_names(listing.push(entry)) == project_names(listing) + names_from(entry),
{
    let longer = listing.push(entry);
    assert(longer.drop_last() =~= listing);
}

/// Enumerating two listings one after the other gives the names of the
/// first followed by those of the second.
pub proof fn project_names_concat(front: Seq<EntryView>, back: Seq<EntryView>)
    ensures
        project_names(front + back) == project_names(front) + project_names(back),
    decreases back.len(),
{
    if back.len() > 0 {
        let shorter = back.drop_last();
        let entry = back.last();
        assert(back =~= shorter.push(entry));
        project_names_concat(front, shorter);
        project_names_push(front + shorter, entry);
        project_names_push(shorter, entry);
    }
}

/// The enumerated names are exactly the names of the entries that are
/// directories: a name is enumerated if and only if the listing holds a
/// directory of that name.
pub proof fn enumeration_is_the_directories(listing: Seq<EntryView>)
    ensures
        project_names(listing).to_set() == directory_names(listing),
    decreases listing.len(),
{
    if listing.len() > 0 {
        let shorter = listing.drop_last();
        let entry = listing.last();
        let names = project_names(shorter);
        let longer = project_names(listing);
        assert(listing =~= shorter.push(entry));
        enumeration_is_the_directories(shorter);
        project_names_push(shorter, entry);
        assert forall|name: Seq<char>| longer.contains(name) <==> directory_names(
            listing,
        ).contains(name) by {
            let wanted = EntryView::Found { name: Some(name), is_dir: true };
            assert(names.contains(name) <==> shorter.contains(wanted)) by {
                assert(names.to_set().contains(name) <==> names.contains(name));
            }
            assert(listing.contains(wanted) <==> shorter.contains(wanted) || entry == wanted) by {
                if shorter.contains(wanted) {
                    let j = choose|j: int| 0 <= j < shorter.len() && shorter[j] == wanted;
                    assert(listing[j] == wanted);
                }
                if entry == wanted {
                    assert(listing[listing.len() - 1] == wanted);
                }
            }
            assert(longer.contains(name) <==> names.contains(name) || entry == wanted) by {
                if names.contains(name) {
                    let i = choose|i: int| 0 <= i < names.len() && names[i] == name;
                    assert(longer[i] == name);
                }
                if entry == wanted {
                    assert(longer[names.len() as int] == name);
                }
            }
        }
    }
}

/// Taking one entry out of a listing takes that entry's names out of the
/// enumeration, as far as counting goes.
proof fn project_names_remove(listing: Seq<EntryView>, at: int)
    requires
        0 <= at < listing.len(),
    ensures
        project_names(listing).to_multiset() == project_names(listing.remove(at)).to_multiset().add(
            names_from(listing[at]).to_multiset(),
        ),
{
    let front = listing.take(at);
    let back = listing.skip(at + 1);
    let entry = listing[at];
    assert(listing =~= front.push(entry) + back);
    assert(listing.remove(at) =~= front + back);
    project_names_concat(front.push(entry), back);
    project_names_concat(front, back);
    project_names_push(front, entry);
    lemma_multiset_commutative(project_names(front) + names_from(entry), project_names(back));
    lemma_multiset_commutative(project_names(front), names_from(entry));
    lemma_multiset_commutative(project_names(front), project_names(back));
    assert(project_names(listing).to_multiset() =~= project_names(
        listing.remove(at),
    ).to_multiset().add(names_from(entry).to_multiset()));
}

/// Enumeration does not depend on the order of the listing: two listings
/// that hold the same entries, in whatever order, give the same names, each
/// as often in one as in the other, and so the same set of names.
pub proof fn enumeration_ignores_order(first: Seq<EntryView>, second: Seq<EntryView>)
    requires
        first.to_multiset() == second.to_multiset(),
    ensures
        project_names(first).to_multiset() == project_names(second).to_multiset(),
        project_names(first).to_set() == project_names(second).to_set(),
    decreases first.len(),
{
    broadcast use group_to_multiset_ensures;

    if first.len() == 0 {
        assert(second.to_multiset().len() == second.len());
    } else {
        let at = first.len() - 1;
        let entry = first[at];
        assert(second.contains(entry)) by {
            assert(first.to_multiset().count(entry) > 0);
        }
        let other = choose|other: int| 0 <= other < second.len() && second[other] == entry;
        enumeration_ignores_order(first.remove(at), second.remove(other));
        project_names_remove(first, at);
        project_names_remove(second, other);
    }
    let names = project_names(first);
    let others = project_names(second);
    assert forall|name: Seq<char>| names.to_set().contains(name) <==> others.to_set().contains(
        name,
    ) by {
        assert(names.contains(name) <==> names.to_multiset().count(name) > 0);
        assert(others.contains(name) <==> others.to_multiset().count(name) > 0);
    }
}

} // verus!
