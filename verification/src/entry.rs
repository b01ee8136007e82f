//! What the search reads of one file-system entry, and the rule that decides
//! whether the entry matches.

use vstd::prelude::*;
use crate::text::{contains, is_substring};

verus! {

/// One entry met while walking a directory tree.
#[derive(Debug, PartialEq, Eq)]
pub struct Entry {
    /// The full path of the entry, ancestors and all.
    pub path: String,
    /// The last component of the path, where the path has one.
    pub name: Option<String>,
    /// Whether the entry is a directory.
    pub is_dir: bool,
}

/// The mathematical content of an [`Entry`].
pub struct EntryView {
    pub path: Seq<char>,
    pub name: Option<Seq<char>>,
    pub is_dir: bool,
}

impl View for Entry {
    type V = EntryView;

    open spec fn view(&self) -> EntryView {
        EntryView {
            path: self.path@,
            name: match self.name {
                Some(name) => Some(name@),
                None => None,
            },
            is_dir: self.is_dir,
        }
    }
}

/// What a walk of a directory tree yields at one step.
#[derive(Debug, PartialEq, Eq)]
pub enum Walked {
    /// An entry that could be read.
    Entry(Entry),
    /// Something that could not be read: a directory that may not be opened,
    /// a link that leads nowhere, and the like.
    Unreadable,
}

/// The mathematical content of a [`Walked`].
pub enum WalkedView {
    Entry(EntryView),
    Unreadable,
}

impl View for Walked {
    type V = WalkedView;

    open spec fn view(&self) -> WalkedView {
        match *self {
            Walked::Entry(entry) => WalkedView::Entry(entry@),
            Walked::Unreadable => WalkedView::Unreadable,
        }
    }
}

impl WalkedView {
    /// The entry that the step yielded, where it yielded one.
    pub open spec fn entry(self) -> Option<EntryView> {
        match self {
            WalkedView::Entry(entry) => Some(entry),
            WalkedView::Unreadable => None,
        }
    }
}

/// The views of the steps of a walk, in the same order.
pub open spec fn walked_views(walk: Seq<Walked>) -> Seq<WalkedView> {
    walk.map_values(|walked: Walked| walked@)
}

/// The function that picks the entry out of a step of a walk.
pub open spec fn entry_of() -> spec_fn(WalkedView) -> Option<EntryView> {
    |walked: WalkedView| walked.entry()
}

/// The entries that a walk could read, in the order of the walk.
pub open spec fn readable(walk: Seq<WalkedView>) -> Seq<EntryView> {
    walk.filter_map(entry_of())
}

/// The two kinds of match that the search reports.
#[derive(Clone, Copy, Debug, PartialEq, Eq)]
pub enum Kind {
    Directory,
    File,
}

impl EntryView {
    /// The entry is a directory whose full path contains `target`.
    pub open spec fn is_directory_match(self, target: Seq<char>) -> bool {
        self.is_dir && is_substring(target, self.path)
    }

    /// The entry is not a directory, its full path contains `target`, and so
    /// does its own name.
    ///
    /// The second condition is not implied by the first: the path may contain
    /// `target` only in the name of an ancestor.
    pub open spec fn is_file_match(self, target: Seq<char>) -> bool {
        &&& !self.is_dir
        &&& is_substring(target, self.path)
        &&& self.name matches Some(name) && is_substring(target, name)
    }

    /// How the entry matches `target`, if it does.
    pub open spec fn classify(self, target: Seq<char>) -> Option<Kind> {
        if self.is_directory_match(target) {
            Some(Kind::Directory)
        } else if self.is_file_match(target) {
            Some(Kind::File)
        } else {
            None
        }
    }
}

impl Entry {
    /// An entry with the given path, last component and kind.
    pub fn new(path: String, name: Option<String>, is_dir: bool) -> (entry: Entry)
        ensures
            entry.path == path,
            entry.name == name,
            entry.is_dir == is_dir,
    {
        Entry { path, name, is_dir }
    }

    /// How the entry matches `target`, if it does.
    ///
    /// A directory matches when its full path contains `target`. Anything else
    /// matches when its full path and its own name both contain `target`; an
    /// entry without a name of its own is then no match.
    pub fn classify(&self, target: &str) -> (kind: Option<Kind>)
        ensures
            kind == self@.classify(target@),
    {
        if !contains(self.path.as_str(), target) {
            None
        } else if self.is_dir {
            Some(Kind::Directory)
        } else {
            match &self.name {
                Some(name) => {
                    if contains(name.as_str(), target) {
                        Some(Kind::File)
                    } else {
                        None
                    }
                },
                None => None,
            }
        }
    }
}

} // verus!
