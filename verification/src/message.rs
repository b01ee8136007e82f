//! The lines that a search says, as character sequences and as strings.

use vstd::prelude::*;
use crate::entry::Kind;

verus! {

/// The line that announces a search for `target` below `source`.
pub open spec fn announcement(target: Seq<char>, source: Seq<char>) -> Seq<char> {
    "Searching for "@ + target + " in "@ + source
}

/// The label of the progress indicator while a search runs.
pub open spec fn progress_label() -> Seq<char> {
    "Searching"@
}

/// The line that tells of one match of the given kind at `path`.
///
/// It starts with a carriage return, so that it overwrites the progress
/// indicator on the same line.
pub open spec fn found_notice(kind: Kind, path: Seq<char>) -> Seq<char> {
    match kind {
        Kind::Directory => "\rdirectory was found: "@ + path,
        Kind::File => "\rfile was found: "@ + path,
    }
}

/// The heading above the list of matches of the given kind.
pub open spec fn heading(kind: Kind) -> Seq<char> {
    match kind {
        Kind::Directory => "\rThe target directories are:"@,
        Kind::File => "\rThe target files are:"@,
    }
}

/// The line that stands for an empty list of matches of the given kind.
pub open spec fn not_found(kind: Kind, target: Seq<char>) -> Seq<char> {
    match kind {
        Kind::Directory => "\rthe directory "@ + target + " was not found"@,
        Kind::File => "\rthe file "@ + target + " was not found"@,
    }
}

/// The last line of a report.
pub open spec fn closing() -> Seq<char> {
    "\rSearch completed"@
}

/// The line that explains how the program is called.
pub open spec fn usage() -> Seq<char> {
    "Usage: rufind source_directory target_[file/directory]"@
}

/// `head` and `tail` joined into one string.
pub fn join2(head: &str, tail: &str) -> (line: String)
    ensures
        line@ == head@ + tail@,
{
    let mut line = head.to_owned();
    line.append(tail);
    line
}

/// `head`, `middle` and `tail` joined into one string.
pub fn join3(head: &str, middle: &str, tail: &str) -> (line: String)
    ensures
        line@ == head@ + middle@ + tail@,
{
    let mut line = join2(head, middle);
    line.append(tail);
    line
}

/// The line that announces a search for `target` below `source`.
pub fn announcement_line(target: &str, source: &str) -> (line: String)
    ensures
        line@ == announcement(target@, source@),
{
    let mut line = join3("Searching for ", target, " in ");
    line.append(source);
    line
}

/// The label of the progress indicator while a search runs.
pub fn progress_label_line() -> (line: String)
    ensures
        line@ == progress_label(),
{
    "Searching".to_owned()
}

/// The line that tells of one match of the given kind at `path`.
pub fn found_notice_line(kind: Kind, path: &str) -> (line: String)
    ensures
        line@ == found_notice(kind, path@),
{
    match kind {
        Kind::Directory => join2("\rdirectory was found: ", path),
        Kind::File => join2("\rfile was found: ", path),
    }
}

/// The heading above the list of matches of the given kind.
pub fn heading_line(kind: Kind) -> (line: String)
    ensures
        line@ == heading(kind),
{
    match kind {
        Kind::Directory => "\rThe target directories are:".to_owned(),
        Kind::File => "\rThe target files are:".to_owned(),
    }
}

/// The line that stands for an empty list of matches of the given kind.
pub fn not_found_line(kind: Kind, target: &str) -> (line: String)
    ensures
        line@ == not_found(kind, target@),
{
    match kind {
        Kind::Directory => join3("\rthe directory ", target, " was not found"),
        Kind::File => join3("\rthe file ", target, " was not found"),
    }
}

/// The last line of a report.
pub fn closing_line() -> (line: String)
    ensures
        line@ == closing(),
{
    "\rSearch completed".to_owned()
}

/// The line that explains how the program is called.
pub fn usage_line() -> (line: String)
    ensures
        line@ == usage(),
{
    "Usage: rufind source_directory target_[file/directory]".to_owned()
}

} // verus!
