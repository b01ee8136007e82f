//! Recursive search of a directory tree for entries whose path contains a
//! given piece of text.
//!
//! The crate holds the rules of the search: which entries match, how matches
//! accumulate, what the progress indicator shows, and in which order the
//! coordinator lets things happen. Reading the file system, printing and
//! threading belong to the caller.

pub mod cli;
pub mod entry;
pub mod laws;
pub mod message;
pub mod model;
pub mod report;
pub mod search;
pub mod spinner;
pub mod text;

pub use crate::cli::{search_from_arguments, UsageError};
pub use crate::entry::{Entry, Kind, Walked};
pub use crate::model::{Phase, Signal};
pub use crate::report::{Report, Section};
pub use crate::search::{Directive, Launch, Search};
