//! The final report of a search: one section for directories, one for files,
//! and a closing line.

use vstd::prelude::*;
use crate::entry::Kind;
use crate::message::{closing, closing_line, heading, heading_line, not_found, not_found_line};
use crate::text::{copy_lines, texts};

verus! {

/// One section of a report.
#[derive(Debug, PartialEq, Eq)]
pub enum Section {
    /// There are matches: a heading, and the matches in the order in which
    /// they were found.
    Listing { heading: String, items: Vec<String> },
    /// There is no match: a single line that says so.
    Missing { message: String },
}

/// The mathematical content of a [`Section`].
pub enum SectionView {
    Listing { heading: Seq<char>, items: Seq<Seq<char>> },
    Missing { message: Seq<char> },
}

impl View for Section {
    type V = SectionView;

    open spec fn view(&self) -> SectionView {
        match *self {
            Section::Listing { heading, items } => SectionView::Listing {
                heading: heading@,
                items: texts(items@),
            },
            Section::Missing { message } => SectionView::Missing { message: message@ },
        }
    }
}

/// The final report of a search.
#[derive(Debug, PartialEq, Eq)]
pub struct Report {
    pub directories: Section,
    pub files: Section,
    pub closing: String,
}

/// The mathematical content of a [`Report`].
pub struct ReportView {
    pub directories: SectionView,
    pub files: SectionView,
    pub closing: Seq<char>,
}

impl View for Report {
    type V = ReportView;

    open spec fn view(&self) -> ReportView {
        ReportView {
            directories: self.directories@,
            files: self.files@,
            closing: self.closing@,
        }
    }
}

/// The section that reports the matches `items` of the given kind in a search
/// for `target`: the list under its heading, or the line that says that
/// nothing was found when the list is empty.
pub open spec fn section_of(kind: Kind, items: Seq<Seq<char>>, target: Seq<char>) -> SectionView {
    if items.len() == 0 {
        SectionView::Missing { message: not_found(kind, target) }
    } else {
        SectionView::Listing { heading: heading(kind), items }
    }
}

/// The report of a search for `target` that found `directories` and `files`.
pub open spec fn report_of(
    directories: Seq<Seq<char>>,
    files: Seq<Seq<char>>,
    target: Seq<char>,
) -> ReportView {
    ReportView {
        directories: section_of(Kind::Directory, directories, target),
        files: section_of(Kind::File, files, target),
        closing: closing(),
    }
}

impl Section {
    /// The section that reports the matches `items` of the given kind in a
    /// search for `target`.
    pub fn new(kind: Kind, items: &Vec<String>, target: &str) -> (section: Section)
        ensures
            section@ == section_of(kind, texts(items@), target@),
    {
        if items.len() == 0 {
            Section::Missing { message: not_found_line(kind, target) }
        } else {
            Section::Listing { heading: heading_line(kind), items: copy_lines(items) }
        }
    }
}

impl Report {
    /// The report of a search for `target` that found `directories` and
    /// `files`.
    pub fn new(directories: &Vec<String>, files: &Vec<String>, target: &str) -> (report: Report)
        ensures
            report@ == report_of(texts(directories@), texts(files@), target@),
    {
        Report {
            directories: Section::new(Kind::Directory, directories, target),
            files: Section::new(Kind::File, files, target),
            closing: closing_line(),
        }
    }
}

} // verus!
