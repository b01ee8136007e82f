//! The search itself: the matches found so far and the phase that the
//! coordinator is in.

use vstd::prelude::*;
use crate::entry::{readable, walked_views, Entry, Kind, Walked};
use crate::message::{announcement, announcement_line, found_notice_line, progress_label_line};
use crate::laws::{lemma_searched_nothing, lemma_walked_one_more};
use crate::model::{DirectiveView, LaunchView, Phase, SearchView, Signal};
use crate::report::Report;
use crate::spinner::cycle_lines;
use crate::text::{optional_text, optional_texts, texts};

verus! {

/// What a search hands out when it starts.
#[derive(Debug, PartialEq, Eq)]
pub struct Launch {
    /// The line that announces the search.
    pub announcement: String,
    /// The label of the progress indicator.
    pub label: String,
}

impl View for Launch {
    type V = LaunchView;

    open spec fn view(&self) -> LaunchView {
        LaunchView { announcement: self.announcement@, label: self.label@ }
    }
}

/// The content of a launch that may be absent.
pub open spec fn optional_launch(launch: Option<Launch>) -> Option<LaunchView> {
    match launch {
        Some(launch) => Some(launch@),
        None => None,
    }
}

/// What a search asks of its caller after a signal.
#[derive(Debug, PartialEq, Eq)]
pub enum Directive {
    /// The progress indicator has been told to stop: wait for it to end.
    AwaitSpinner,
    /// Show the report.
    Publish(Report),
    /// The signal came out of turn and changed nothing.
    Nothing,
}

impl View for Directive {
    type V = DirectiveView;

    open spec fn view(&self) -> DirectiveView {
        match *self {
            Directive::AwaitSpinner => DirectiveView::AwaitSpinner,
            Directive::Publish(report) => DirectiveView::Publish(report@),
            Directive::Nothing => DirectiveView::Nothing,
        }
    }
}

/// A search of the tree below `source` for the entries whose path contains
/// `target`.
///
/// The search does no input or output of its own. Its caller walks the tree
/// and shows what the search hands out, in this order:
///
/// - [`Search::start`] gives the line that announces the search and the label
///   of the progress indicator.
/// - While the walk runs, [`Search::visit`] takes what the walk yields, step
///   by step, and gives the line to show where an entry matches, and
///   [`Search::display_spinner`] gives the frames of the progress indicator,
///   one rotation at a time.
/// - [`Search::advance`] with [`Signal::TraversalJoined`] closes the lists of
///   matches and tells the progress indicator to stop.
/// - [`Search::advance`] with [`Signal::SpinnerJoined`] gives the report.
#[derive(Debug)]
pub struct Search<'a> {
    source: &'a str,
    target: &'a str,
    results_dir: Vec<String>,
    results_file: Vec<String>,
    phase: Phase,
}

impl<'a> View for Search<'a> {
    type V = SearchView;

    closed spec fn view(&self) -> SearchView {
        SearchView {
            source: self.source@,
            target: self.target@,
            directories: texts(self.results_dir@),
            files: texts(self.results_file@),
            phase: self.phase,
        }
    }
}

impl<'a> Search<'a> {
    /// A search for `target` below `source`, not started, with nothing found.
    pub fn new(source: &'a str, target: &'a str) -> (search: Self)
        ensures
            search@ == SearchView::fresh(source@, target@),
    {
        let search = Self {
            source,
            target,
            results_dir: Vec::new(),
            results_file: Vec::new(),
            phase: Phase::Idle,
        };
        assert(search@.directories =~= Seq::empty());
        assert(search@.files =~= Seq::empty());
        search
    }

    /// The root of the tree that is searched.
    pub fn source(&self) -> (source: &'a str)
        ensures
            source@ == self@.source,
    {
        self.source
    }

    /// The text that a match contains.
    pub fn target(&self) -> (target: &'a str)
        ensures
            target@ == self@.target,
    {
        self.target
    }

    /// The directories found so far, in the order in which they were found.
    pub fn results_dir(&self) -> (found: &Vec<String>)
        ensures
            texts(found@) == self@.directories,
    {
        &self.results_dir
    }

    /// The files found so far, in the order in which they were found.
    pub fn results_file(&self) -> (found: &Vec<String>)
        ensures
            texts(found@) == self@.files,
    {
        &self.results_file
    }

    /// How far the search has come.
    pub fn phase(&self) -> (phase: Phase)
        ensures
            phase == self@.phase,
    {
        self.phase
    }

    /// Whether the progress indicator has been told to stop.
    pub fn job_completed(&self) -> (completed: bool)
        ensures
            completed == self@.job_completed(),
    {
        match self.phase {
            Phase::Stopping | Phase::Finished => true,
            Phase::Idle | Phase::Searching => false,
        }
    }

    /// The line that announces the search.
    fn info_search(&self) -> (line: String)
        ensures
            line@ == announcement(self@.target, self@.source),
    {
        announcement_line(self.target, self.source)
    }

    /// Starts the search.
    ///
    /// The first call on a search moves it from idle to searching and hands
    /// out what the caller needs to set things going. Any later call changes
    /// nothing and hands out nothing: a search runs once.
    pub fn start(&mut self) -> (launch: Option<Launch>)
        ensures
            final(self)@ == old(self)@.started(),
            optional_launch(launch) == old(self)@.launch(),
    {
        match self.phase {
            Phase::Idle => {
                let launch = Launch {
                    announcement: self.info_search(),
                    label: progress_label_line(),
                };
                self.phase = Phase::Searching;
                Some(launch)
            },
            _ => None,
        }
    }

    /// Takes what the walk yielded at one step.
    ///
    /// An entry is recorded, as [`Search::record`] says. What could not be
    /// read is passed over: it changes nothing and there is nothing to show
    /// for it, and the walk goes on.
    pub fn visit(&mut self, walked: &Walked) -> (notice: Option<String>)
        ensures
            final(self)@ == old(self)@.visited(walked@),
            optional_text(notice) == old(self)@.visit_notice(walked@),
    {
        match walked {
            Walked::Entry(entry) => self.record(entry),
            Walked::Unreadable => None,
        }
    }

    /// Takes one entry of the walk.
    ///
    /// While the search runs, an entry that matches is added to the end of the
    /// list of its kind, and the line that tells of it is handed out. Before
    /// the start and after the end of the walk nothing is recorded.
    pub fn record(&mut self, entry: &Entry) -> (notice: Option<String>)
        ensures
            final(self)@ == old(self)@.recorded(entry@),
            optional_text(notice) == old(self)@.notice(entry@),
    {
        match self.phase {
            Phase::Searching => {},
            _ => {
                return None;
            },
        }
        match entry.classify(self.target) {
            Some(Kind::Directory) => {
                self.results_dir.push(entry.path.clone());
                assert(texts(self.results_dir@) =~= texts(old(self).results_dir@).push(
                    entry.path@,
                ));
                Some(found_notice_line(Kind::Directory, entry.path.as_str()))
            },
            Some(Kind::File) => {
                self.results_file.push(entry.path.clone());
                assert(texts(self.results_file@) =~= texts(old(self).results_file@).push(
                    entry.path@,
                ));
                Some(found_notice_line(Kind::File, entry.path.as_str()))
            },
            None => None,
        }
    }

    /// Takes a whole walk, step by step.
    ///
    /// While the search runs, the matching directories and the matching files
    /// among the entries that the walk could read are added to the ends of
    /// their lists in the order of the walk, and the lines that tell of them
    /// are handed out in that order. What the walk could not read is passed
    /// over. Before the start and after the end of the walk nothing is
    /// recorded.
    pub fn search(&mut self, walk: &Vec<Walked>) -> (notices: Vec<String>)
        ensures
            final(self)@ == old(self)@.searched(readable(walked_views(walk@))),
            texts(notices@) == old(self)@.notices(readable(walked_views(walk@))),
    {
        let ghost all = walked_views(walk@);
        let mut notices: Vec<String> = Vec::new();
        let mut i: usize = 0;
        proof {
            lemma_searched_nothing(old(self)@);
            assert(readable(all.take(0)) =~= Seq::empty());
            assert(texts(notices@) =~= Seq::empty());
        }
        while i < walk.len()
            invariant
                i <= walk.len(),
                all == walked_views(walk@),
                self@ == old(self)@.searched(readable(all.take(i as int))),
                texts(notices@) == old(self)@.notices(readable(all.take(i as int))),
            decreases walk.len() - i,
        {
            let ghost before = texts(notices@);
            let notice = self.visit(&walk[i]);
            proof {
                lemma_walked_one_more(old(self)@, all, i as int);
            }
            match notice {
                Some(line) => {
                    notices.push(line);
                    assert(texts(notices@) =~= before.push(line@));
                },
                None => {},
            }
            i += 1;
        }
        assert(all.take(walk.len() as int) =~= all);
        notices
    }

    /// What the progress indicator shows next under `label`.
    ///
    /// Until the indicator has been told to stop, this is one more rotation of
    /// the glyph; from then on it is nothing. The caller asks again after each
    /// rotation, so the indicator ends within one rotation of being told.
    pub fn display_spinner(&self, label: &str) -> (frames: Option<Vec<String>>)
        ensures
            optional_texts(frames) == self@.frames(label@),
    {
        if self.job_completed() {
            None
        } else {
            Some(cycle_lines(label))
        }
    }

    /// The report on what has been found so far.
    fn display_results(&self) -> (report: Report)
        ensures
            report@ == self@.report(),
    {
        Report::new(&self.results_dir, &self.results_file, self.target)
    }

    /// Takes a signal from the caller.
    ///
    /// The end of the walk, while the search runs, tells the progress
    /// indicator to stop. The end of the indicator, once it has been told to
    /// stop, finishes the search and hands out the report. A signal that
    /// comes out of turn changes nothing and hands out nothing.
    pub fn advance(&mut self, signal: Signal) -> (directive: Directive)
        ensures
            final(self)@ == old(self)@.advanced(signal),
            directive@ == old(self)@.directive(signal),
    {
        match (self.phase, signal) {
            (Phase::Searching, Signal::TraversalJoined) => {
                self.phase = Phase::Stopping;
                Directive::AwaitSpinner
            },
            (Phase::Stopping, Signal::SpinnerJoined) => {
                let report = self.display_results();
                self.phase = Phase::Finished;
                Directive::Publish(report)
            },
            _ => Directive::Nothing,
        }
    }
}

} // verus!
