//! The search as a mathematical object: its state, the steps that change it,
//! and what each step hands to the caller.
//!
//! A search is driven from outside. The caller starts it, feeds it what a
//! walk of the tree yields, asks it what the progress indicator should show,
//! and tells it when the walk and the indicator have ended. Every such step
//! is a function of the state before it.

use vstd::prelude::*;
use crate::entry::{EntryView, Kind, WalkedView};
use crate::message::{announcement, found_notice, progress_label};
use crate::report::{report_of, ReportView};
use crate::spinner::cycle;
use crate::text::is_substring;

verus! {

/// How far a search has come. A search only ever moves forward through these.
#[derive(Clone, Copy, Debug, PartialEq, Eq)]
pub enum Phase {
    /// Created, not started.
    Idle,
    /// The walk and the progress indicator run.
    Searching,
    /// The walk has ended and the progress indicator has been told to stop.
    Stopping,
    /// The progress indicator has ended and the report is out.
    Finished,
}

/// What the caller tells a running search.
#[derive(Clone, Copy, Debug, PartialEq, Eq)]
pub enum Signal {
    /// The walk of the tree has ended, and whoever ran it has been joined.
    TraversalJoined,
    /// The progress indicator has ended, and whoever ran it has been joined.
    SpinnerJoined,
}

impl Phase {
    /// The position of the phase in the order in which a search passes
    /// through the phases.
    pub open spec fn rank(self) -> nat {
        match self {
            Phase::Idle => 0,
            Phase::Searching => 1,
            Phase::Stopping => 2,
            Phase::Finished => 3,
        }
    }

    /// Whether the progress indicator has been told to stop.
    pub open spec fn job_completed(self) -> bool {
        self is Stopping || self is Finished
    }
}

/// The path of `entry` where it is a directory that matches `target`.
pub open spec fn directory_hit(target: Seq<char>) -> spec_fn(EntryView) -> Option<Seq<char>> {
    |entry: EntryView|
        if entry.is_directory_match(target) {
            Some(entry.path)
        } else {
            None
        }
}

/// The path of `entry` where it is a file that matches `target`.
pub open spec fn file_hit(target: Seq<char>) -> spec_fn(EntryView) -> Option<Seq<char>> {
    |entry: EntryView|
        if entry.is_file_match(target) {
            Some(entry.path)
        } else {
            None
        }
}

/// The line that tells of `entry` where it matches `target`.
pub open spec fn notice_hit(target: Seq<char>) -> spec_fn(EntryView) -> Option<Seq<char>> {
    |entry: EntryView|
        match entry.classify(target) {
            Some(kind) => Some(found_notice(kind, entry.path)),
            None => None,
        }
}

/// The paths of the directories among `entries` that match `target`, in the
/// order of `entries`.
pub open spec fn matched_directories(entries: Seq<EntryView>, target: Seq<char>) -> Seq<
    Seq<char>,
> {
    entries.filter_map(directory_hit(target))
}

/// The paths of the files among `entries` that match `target`, in the order
/// of `entries`.
pub open spec fn matched_files(entries: Seq<EntryView>, target: Seq<char>) -> Seq<Seq<char>> {
    entries.filter_map(file_hit(target))
}

/// The lines that tell of the matches among `entries`, in the order of
/// `entries`.
pub open spec fn match_notices(entries: Seq<EntryView>, target: Seq<char>) -> Seq<Seq<char>> {
    entries.filter_map(notice_hit(target))
}

/// The paths of the directories among `entries` whose full path contains
/// `target`, as a set.
pub open spec fn directory_paths_containing(entries: Seq<EntryView>, target: Seq<char>) -> Set<
    Seq<char>,
> {
    Set::new(
        |path: Seq<char>|
            exists|i: int|
                0 <= i < entries.len() && (#[trigger] entries[i]).is_dir && entries[i].path
                    == path && is_substring(target, path),
    )
}

/// The paths of the files among `entries` whose full path contains `target`
/// and whose own name contains `target` too, as a set.
pub open spec fn file_paths_containing(entries: Seq<EntryView>, target: Seq<char>) -> Set<
    Seq<char>,
> {
    Set::new(
        |path: Seq<char>|
            exists|i: int|
                0 <= i < entries.len() && !(#[trigger] entries[i]).is_dir && entries[i].path
                    == path && is_substring(target, path) && (entries[i].name matches Some(name)
                    && is_substring(target, name)),
    )
}

/// What a search hands out when it starts.
pub struct LaunchView {
    /// The line that announces the search.
    pub announcement: Seq<char>,
    /// The label of the progress indicator.
    pub label: Seq<char>,
}

/// What a search asks of its caller after a signal.
pub enum DirectiveView {
    /// The progress indicator has been told to stop: wait for it to end.
    AwaitSpinner,
    /// Show the report.
    Publish(ReportView),
    /// The signal came out of turn and changed nothing.
    Nothing,
}

/// One thing that a caller does with a search.
pub enum Step {
    /// Asks the search to start.
    Start,
    /// Hands the search what the walk yielded at one step.
    Visit(WalkedView),
    /// Asks what the progress indicator shows next under a label.
    Spin(Seq<char>),
    /// Hands the search a signal.
    Advance(Signal),
}

/// The steps of a caller who hands over what a walk yields, one step of the
/// walk after the other.
pub open spec fn visits(walk: Seq<WalkedView>) -> Seq<Step> {
    walk.map_values(|walked: WalkedView| Step::Visit(walked))
}

/// The steps of a caller who starts a search, hands over what a walk yields,
/// and then tells the search that the walk has ended.
pub open spec fn run_of(walk: Seq<WalkedView>) -> Seq<Step> {
    seq![Step::Start] + visits(walk) + seq![Step::Advance(Signal::TraversalJoined)]
}

/// The state of a search.
pub struct SearchView {
    /// The root of the tree that is searched.
    pub source: Seq<char>,
    /// The text that a match contains.
    pub target: Seq<char>,
    /// The directories found so far, in the order in which they were found.
    pub directories: Seq<Seq<char>>,
    /// The files found so far, in the order in which they were found.
    pub files: Seq<Seq<char>>,
    /// How far the search has come.
    pub phase: Phase,
}

impl SearchView {
    /// A search for `target` below `source` that has not started.
    pub open spec fn fresh(source: Seq<char>, target: Seq<char>) -> SearchView {
        SearchView {
            source,
            target,
            directories: Seq::empty(),
            files: Seq::empty(),
            phase: Phase::Idle,
        }
    }

    /// Whether the progress indicator has been told to stop.
    pub open spec fn job_completed(self) -> bool {
        self.phase.job_completed()
    }

    /// The state after the search was asked to start.
    pub open spec fn started(self) -> SearchView {
        if self.phase is Idle {
            SearchView { phase: Phase::Searching, ..self }
        } else {
            self
        }
    }

    /// What the search hands out when it is asked to start: something only
    /// the first time.
    pub open spec fn launch(self) -> Option<LaunchView> {
        if self.phase is Idle {
            Some(
                LaunchView {
                    announcement: announcement(self.target, self.source),
                    label: progress_label(),
                },
            )
        } else {
            None
        }
    }

    /// As what `entry` is recorded in this state: as a match of some kind
    /// while the search runs, and not at all before or after.
    pub open spec fn recorded_as(self, entry: EntryView) -> Option<Kind> {
        if self.phase is Searching {
            entry.classify(self.target)
        } else {
            None
        }
    }

    /// The state after `entry` was met.
    pub open spec fn recorded(self, entry: EntryView) -> SearchView {
        match self.recorded_as(entry) {
            Some(Kind::Directory) => SearchView {
                directories: self.directories.push(entry.path),
                ..self
            },
            Some(Kind::File) => SearchView { files: self.files.push(entry.path), ..self },
            None => self,
        }
    }

    /// The line that tells of `entry`, where it is recorded.
    pub open spec fn notice(self, entry: EntryView) -> Option<Seq<char>> {
        match self.recorded_as(entry) {
            Some(kind) => Some(found_notice(kind, entry.path)),
            None => None,
        }
    }

    /// The state after one step of the walk: an entry is recorded, and what
    /// could not be read is passed over.
    pub open spec fn visited(self, walked: WalkedView) -> SearchView {
        match walked {
            WalkedView::Entry(entry) => self.recorded(entry),
            WalkedView::Unreadable => self,
        }
    }

    /// The line to show after one step of the walk, where there is one.
    pub open spec fn visit_notice(self, walked: WalkedView) -> Option<Seq<char>> {
        match walked {
            WalkedView::Entry(entry) => self.notice(entry),
            WalkedView::Unreadable => None,
        }
    }

    /// The state after all of `entries` were met, one after the other.
    pub open spec fn searched(self, entries: Seq<EntryView>) -> SearchView {
        if self.phase is Searching {
            SearchView {
                directories: self.directories + matched_directories(entries, self.target),
                files: self.files + matched_files(entries, self.target),
                ..self
            }
        } else {
            self
        }
    }

    /// The lines that tell of the entries recorded among `entries`, in the
    /// order of `entries`.
    pub open spec fn notices(self, entries: Seq<EntryView>) -> Seq<Seq<char>> {
        if self.phase is Searching {
            match_notices(entries, self.target)
        } else {
            Seq::empty()
        }
    }

    /// What the progress indicator shows next under `label`: one more
    /// rotation, or nothing once it has been told to stop.
    pub open spec fn frames(self, label: Seq<char>) -> Option<Seq<Seq<char>>> {
        if self.job_completed() {
            None
        } else {
            Some(cycle(label))
        }
    }

    /// The report on what has been found so far.
    pub open spec fn report(self) -> ReportView {
        report_of(self.directories, self.files, self.target)
    }

    /// The state after `signal`.
    ///
    /// The end of the walk moves a running search on to stopping the progress
    /// indicator; the end of the indicator then finishes the search. A signal
    /// that comes out of turn changes nothing.
    pub open spec fn advanced(self, signal: Signal) -> SearchView {
        match (self.phase, signal) {
            (Phase::Searching, Signal::TraversalJoined) => SearchView {
                phase: Phase::Stopping,
                ..self
            },
            (Phase::Stopping, Signal::SpinnerJoined) => SearchView {
                phase: Phase::Finished,
                ..self
            },
            _ => self,
        }
    }

    /// What the search asks of its caller after `signal`.
    pub open spec fn directive(self, signal: Signal) -> DirectiveView {
        match (self.phase, signal) {
            (Phase::Searching, Signal::TraversalJoined) => DirectiveView::AwaitSpinner,
            (Phase::Stopping, Signal::SpinnerJoined) => DirectiveView::Publish(self.report()),
            _ => DirectiveView::Nothing,
        }
    }

    /// The state after `step`.
    pub open spec fn after(self, step: Step) -> SearchView {
        match step {
            Step::Start => self.started(),
            Step::Visit(walked) => self.visited(walked),
            Step::Spin(_) => self,
            Step::Advance(signal) => self.advanced(signal),
        }
    }

    /// The state after all of `steps`, one after the other.
    pub open spec fn after_all(self, steps: Seq<Step>) -> SearchView
        decreases steps.len(),
    {
        if steps.len() == 0 {
            self
        } else {
            self.after_all(steps.drop_last()).after(steps.last())
        }
    }

    /// The state in which step `k` of `steps` is taken: the state after the
    /// `k` steps before it.
    pub open spec fn before(self, steps: Seq<Step>, k: int) -> SearchView {
        self.after_all(steps.take(k))
    }

    /// Whether `step`, taken in this state, puts frames of the progress
    /// indicator on screen.
    pub open spec fn shows_frames(self, step: Step) -> bool {
        step matches Step::Spin(label) && self.frames(label) is Some
    }

    /// Whether `step`, taken in this state, tells the progress indicator to
    /// stop.
    pub open spec fn stops_spinner(self, step: Step) -> bool {
        step matches Step::Advance(signal) && self.directive(signal) is AwaitSpinner
    }

    /// Whether `step`, taken in this state, puts the report on screen.
    pub open spec fn shows_report(self, step: Step) -> bool {
        step matches Step::Advance(signal) && self.directive(signal) is Publish
    }
}

} // verus!
