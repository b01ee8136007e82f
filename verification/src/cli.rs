//! The command line: a source directory and a target text.

use vstd::prelude::*;
use crate::message::{usage, usage_line};
use crate::model::SearchView;
use crate::search::Search;

verus! {

/// The exit status of a call with too few arguments.
pub const USAGE_STATUS: i32 = 1;

/// The fewest arguments of a proper call: the program's own name, the source
/// directory and the target text.
pub const ARGUMENTS_NEEDED: usize = 3;

/// A call with too few arguments.
#[derive(Debug, PartialEq, Eq)]
pub struct UsageError {
    /// The line that explains how the program is called.
    pub message: String,
    /// The exit status that the program ends with.
    pub status: i32,
}

/// The search that a command line asks for.
///
/// `arguments[0]` is the program's own name, `arguments[1]` the source
/// directory and `arguments[2]` the target text. What follows them is
/// ignored; no filter on file name endings is read. With fewer
/// than three arguments there is no search, and the error holds the usage
/// line and the exit status.
pub fn search_from_arguments<'a>(arguments: &'a Vec<String>) -> (outcome: Result<
    Search<'a>,
    UsageError,
>)
    ensures
        outcome is Ok <==> arguments.len() >= ARGUMENTS_NEEDED,
        outcome matches Ok(search) ==> search@ == SearchView::fresh(
            arguments[1]@,
            arguments[2]@,
        ),
        outcome matches Err(error) ==> error.message@ == usage() && error.status
            == USAGE_STATUS,
{
    if arguments.len() < ARGUMENTS_NEEDED {
        Err(UsageError { message: usage_line(), status: USAGE_STATUS })
    } else {
        Ok(Search::new(arguments[1].as_str(), arguments[2].as_str()))
    }
}

} // verus!
