//! Searching the listing of a directory.

use vstd::prelude::*;

verus! {

/// One child of a directory, as its listing shows it.
#[derive(Debug, PartialEq, Eq)]
pub struct DirectoryEntry {
    /// The child's name, without the directories above it.
    pub name: String,
    /// The path by which the child is reached.
    pub path: String,
    /// Whether the child is a directory.
    pub is_dir: bool,
}

/// The mathematical value of a [`DirectoryEntry`].
pub struct DirectoryEntryView {
    pub name: Seq<char>,
    pub path: Seq<char>,
    pub is_dir: bool,
}

impl View for DirectoryEntry {
    type V = DirectoryEntryView;

    open spec fn view(&self) -> DirectoryEntryView {
        DirectoryEntryView { name: self.name@, path: self.path@, is_dir: self.is_dir }
    }
}

impl DeepView for DirectoryEntry {
    type V = DirectoryEntryView;

    open spec fn deep_view(&self) -> DirectoryEntryView {
        self@
    }
}

impl DirectoryEntryView {
    /// Whether this child is a directory of the given name. Names are
    /// compared character by character.
    pub open spec fn is_directory_named(self, name: Seq<char>) -> bool {
        self.is_dir && self.name == name
    }
}

/// The position of the first directory of the given name in a listing, if
/// there is one.
pub open spec fn first_directory(entries: Seq<DirectoryEntryView>, name: Seq<char>) -> Option<int>
    decreases entries.len(),
{
    if entries.len() == 0 {
        None
    } else {
        match first_directory(entries.drop_last(), name) {
            Some(i) => Some(i),
            None => if entries.last().is_directory_named(name) {
                Some(entries.len() - 1)
            } else {
                None
            },
        }
    }
}

/// Whether a listing has a child of the given name, of whatever kind.
pub open spec fn has_entry_named(entries: Seq<DirectoryEntryView>, name: Seq<char>) -> bool {
    exists|i: int| 0 <= i < entries.len() && (#[trigger] entries[i]).name == name
}

/// [`first_directory`] finds a directory of the given name, and the first of
/// them; it finds none only where there is none.
pub proof fn lemma_first_directory(entries: Seq<DirectoryEntryView>, name: Seq<char>)
    ensures
        match first_directory(entries, name) {
            Some(i) => {
                &&& 0 <= i < entries.len()
                &&& entries[i].is_directory_named(name)
                &&& forall|j: int| 0 <= j < i ==> !(#[trigger] entries[j]).is_directory_named(name)
            },
            None => forall|j: int|
                0 <= j < entries.len() ==> !(#[trigger] entries[j]).is_directory_named(name),
        },
    decreases entries.len(),
{
    if entries.len() > 0 {
        let front = entries.drop_last();
        lemma_first_directory(front, name);
        assert forall|j: int| 0 <= j < front.len() implies front[j] == entries[j] by {}
    }
}

/// A directory found among the first `n` children is the one found in the
/// whole listing.
pub proof fn lemma_first_directory_prefix(
    entries: Seq<DirectoryEntryView>,
    name: Seq<char>,
    n: int,
)
    requires
        0 <= n <= entries.len(),
        first_directory(entries.subrange(0, n), name) is Some,
    ensures
        first_directory(entries, name) == first_directory(entries.subrange(0, n), name),
    decreases entries.len(),
{
    if n == entries.len() {
        assert(entries.subrange(0, n) =~= entries);
    } else {
        assert(entries.drop_last().subrange(0, n) =~= entries.subrange(0, n));
        lemma_first_directory_prefix(entries.drop_last(), name, n);
    }
}

/// Finds the first directory of the given name among the children of a
/// directory, and gives its position in the listing.
pub fn locate_directory(entries: &Vec<DirectoryEntry>, name: &str) -> (r: Option<usize>)
    ensures
        match r {
            Some(i) => i < entries.len() && first_directory(entries.deep_view(), name@) == Some(
                i as int,
            ),
            None => first_directory(entries.deep_view(), name@) is None,
        },
{
    let ghost all = entries.deep_view();
    let wanted: String = name.to_owned();
    let mut i: usize = 0;
    while i < entries.len()
        invariant
            i <= entries.len(),
            all == entries.deep_view(),
            wanted@ == name@,
            first_directory(all.subrange(0, i as int), name@) is None,
        decreases entries.len() - i,
    {
        let entry = &entries[i];
        proof {
            assert(all.subrange(0, i + 1).drop_last() =~= all.subrange(0, i as int));
        }
        if entry.is_dir && entry.name == wanted {
            proof {
                lemma_first_directory_prefix(all, name@, i + 1);
            }
            return Some(i);
        }
        i = i + 1;
    }
    proof {
        assert(all.subrange(0, i as int) =~= all);
    }
    None
}

/// Whether a directory has a child of the given name.
pub fn verify_file_exists(entries: &Vec<DirectoryEntry>, file_name: &str) -> (r: bool)
    ensures
        r == has_entry_named(entries.deep_view(), file_name@),
{
    let ghost all = entries.deep_view();
    let wanted: String = file_name.to_owned();
    let mut i: usize = 0;
    while i < entries.len()
        invariant
            i <= entries.len(),
            all == entries.deep_view(),
            wanted@ == file_name@,
            forall|j: int| 0 <= j < i ==> (#[trigger] all[j]).name != file_name@,
        decreases entries.len() - i,
    {
        if entries[i].name == wanted {
            assert(all[i as int].name == file_name@);
            return true;
        }
        i = i + 1;
    }
    false
}

} // verus!
