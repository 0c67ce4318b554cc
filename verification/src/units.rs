//! Compilation units: the entries of the source folder that are native
//! sources.

use crate::paths::{extension, file_extension};
use crate::text::same_text;
use vstd::prelude::*;

verus! {

/// One entry of a folder, as its listing gives it.
#[derive(Clone, Debug, PartialEq, Eq)]
pub struct FolderEntry {
    /// The path under which the entry is reached.
    pub path: String,
    /// The name of the entry inside the folder.
    pub name: String,
}

/// An entry as contracts see it.
pub struct FolderEntryView {
    pub path: Seq<char>,
    pub name: Seq<char>,
}

impl View for FolderEntry {
    type V = FolderEntryView;

    open spec fn view(&self) -> FolderEntryView {
        FolderEntryView { path: self.path@, name: self.name@ }
    }
}

impl DeepView for FolderEntry {
    type V = FolderEntryView;

    open spec fn deep_view(&self) -> FolderEntryView {
        self@
    }
}

/// A native source is a file whose extension is exactly `cpp`.
pub open spec fn is_native_source(name: Seq<char>) -> bool {
    extension(name) == "cpp"@
}

/// The path under which an entry is compiled, if it is a native source.
pub open spec fn unit_of(entry: FolderEntryView) -> Option<Seq<char>> {
    if is_native_source(entry.name) {
        Some(entry.path)
    } else {
        None
    }
}

/// The paths of the native sources among the entries, in the order of the
/// entries.
pub open spec fn units_of(entries: Seq<FolderEntryView>) -> Seq<Seq<char>> {
    entries.filter_map(|entry: FolderEntryView| unit_of(entry))
}

impl FolderEntry {
    /// The entry with this path and this name.
    pub fn new(path: &str, name: &str) -> (entry: FolderEntry)
        ensures
            entry@ == (FolderEntryView { path: path@, name: name@ }),
    {
        FolderEntry { path: String::from_str(path), name: String::from_str(name) }
    }

    /// Tells whether the entry is a native source.
    pub fn is_native_source(&self) -> (native: bool)
        ensures
            native == is_native_source(self@.name),
    {
        same_text(file_extension(self.name.as_str()).as_str(), "cpp")
    }
}

/// Collects the native sources of a folder, in the order of its listing.
pub fn compilation_units(entries: &Vec<FolderEntry>) -> (units: Vec<String>)
    ensures
        units.deep_view() == units_of(entries.deep_view()),
{
    let mut units: Vec<String> = Vec::new();
    let ghost all = entries.deep_view();
    let ghost pick = |entry: FolderEntryView| unit_of(entry);
    let mut i: usize = 0;
    assert(units.deep_view() =~= all.take(0).filter_map(pick));
    while i < entries.len()
        invariant
            i <= entries.len(),
            all == entries.deep_view(),
            pick == |entry: FolderEntryView| unit_of(entry),
            units.deep_view() == all.take(i as int).filter_map(pick),
        decreases entries.len() - i,
    {
        proof {
            all.lemma_filter_map_take_succ(pick, i as int);
        }
        let ghost before = units.deep_view();
        if entries[i].is_native_source() {
            units.push(entries[i].path.clone());
            assert(units.deep_view() =~= before + seq![entries@[i as int]@.path]);
        }
        i += 1;
    }
    assert(all.take(entries.len() as int) =~= all);
    units
}

} // verus!
