//! What holds of every search.

use vstd::prelude::*;
use crate::entry::{entry_of, readable, EntryView, Kind, WalkedView};
use crate::message::not_found;
use crate::model::{
    directory_hit, directory_paths_containing, file_hit, file_paths_containing,
    match_notices, matched_directories, matched_files, notice_hit, run_of, visits,
    DirectiveView, Phase, SearchView, Signal, Step,
};
use crate::report::{report_of, SectionView};
use crate::text::is_substring;

verus! {

/// An element that `f` keeps is among what `filter_map` hands out.
proof fn lemma_filter_map_keeps<A, B>(s: Seq<A>, f: spec_fn(A) -> Option<B>, i: int, kept: B)
    requires
        0 <= i < s.len(),
        f(s[i]) == Some(kept),
    ensures
        s.filter_map(f).contains(kept),
    decreases s.len(),
{
    let rest = s.drop_last();
    let mapped = s.filter_map(f);
    if i == s.len() - 1 {
        assert(mapped == rest.filter_map(f) + seq![kept]);
        assert(mapped[mapped.len() - 1] == kept);
    } else {
        lemma_filter_map_keeps(rest, f, i, kept);
        let at = choose|at: int| 0 <= at < rest.filter_map(f).len() && rest.filter_map(f)[at] == kept;
        assert(mapped[at] == kept);
    }
}

/// What `filter_map` hands out is empty where `f` keeps nothing.
proof fn lemma_filter_map_of_none<A, B>(s: Seq<A>, f: spec_fn(A) -> Option<B>)
    requires
        forall|i: int| 0 <= i < s.len() ==> f(#[trigger] s[i]) is None,
    ensures
        s.filter_map(f) == Seq::<B>::empty(),
    decreases s.len(),
{
    if s.len() > 0 {
        let rest = s.drop_last();
        assert forall|i: int| 0 <= i < rest.len() implies f(#[trigger] rest[i]) is None by {
            assert(rest[i] == s[i]);
        }
        lemma_filter_map_of_none(rest, f);
        assert(f(s[s.len() - 1]) is None);
    }
}

/// A search that takes no entries stays as it is and says nothing.
pub proof fn lemma_searched_nothing(search: SearchView)
    ensures
        search.searched(Seq::empty()) == search,
        search.notices(Seq::empty()) == Seq::<Seq<char>>::empty(),
{
    let none = Seq::<EntryView>::empty();
    assert(search.directories + none.filter_map(directory_hit(search.target))
        =~= search.directories);
    assert(search.files + none.filter_map(file_hit(search.target)) =~= search.files);
}

/// Taking a run of entries at once is taking them one by one: the state after
/// the first `i + 1` entries is the state after the first `i`, with entry `i`
/// recorded, and the lines grow by the line for entry `i`, if it has one.
pub proof fn lemma_searched_one_more(search: SearchView, entries: Seq<EntryView>, i: int)
    requires
        0 <= i < entries.len(),
    ensures
        search.searched(entries.take(i + 1)) == search.searched(entries.take(i)).recorded(
            entries[i],
        ),
        search.notices(entries.take(i + 1)) == search.notices(entries.take(i)) + (match search.searched(
            entries.take(i),
        ).notice(entries[i]) {
            Some(line) => seq![line],
            None => Seq::empty(),
        }),
{
    let target = search.target;
    entries.lemma_filter_map_take_succ(directory_hit(target), i);
    entries.lemma_filter_map_take_succ(file_hit(target), i);
    entries.lemma_filter_map_take_succ(notice_hit(target), i);
    let earlier = search.searched(entries.take(i));
    let later = search.searched(entries.take(i + 1));
    let stepped = earlier.recorded(entries[i]);
    assert(later.directories =~= stepped.directories);
    assert(later.files =~= stepped.files);
    assert(search.notices(entries.take(i + 1)) =~= search.notices(entries.take(i)) + (
    match earlier.notice(entries[i]) {
        Some(line) => seq![line],
        None => Seq::empty(),
    }));
}

/// One more step of a walk: the state after the first `i + 1` steps is the
/// state after the first `i`, with step `i` visited, and the lines grow by
/// the line for step `i`, if it has one. What could not be read leaves both
/// as they are.
pub proof fn lemma_walked_one_more(search: SearchView, walk: Seq<WalkedView>, i: int)
    requires
        0 <= i < walk.len(),
    ensures
        search.searched(readable(walk.take(i + 1))) == search.searched(
            readable(walk.take(i)),
        ).visited(walk[i]),
        search.notices(readable(walk.take(i + 1))) == search.notices(readable(walk.take(i)))
            + (match search.searched(readable(walk.take(i))).visit_notice(walk[i]) {
            Some(line) => seq![line],
            None => Seq::empty(),
        }),
{
    walk.lemma_filter_map_take_succ(entry_of(), i);
    let earlier = readable(walk.take(i));
    match walk[i] {
        WalkedView::Entry(entry) => {
            let later = earlier.push(entry);
            let last = earlier.len() as int;
            assert(readable(walk.take(i + 1)) =~= later);
            assert(later.take(last) =~= earlier);
            assert(later.take(last + 1) =~= later);
            lemma_searched_one_more(search, later, last);
        },
        WalkedView::Unreadable => {
            assert(readable(walk.take(i + 1)) =~= earlier);
            assert(search.notices(earlier) + Seq::<Seq<char>>::empty() =~= search.notices(
                earlier,
            ));
        },
    }
}

/// Handing a search what a walk yields step by step, with nothing in between,
/// leaves it as handing it the readable entries of the walk all at once does.
pub proof fn lemma_visits_are_a_search(search: SearchView, walk: Seq<WalkedView>)
    ensures
        search.after_all(visits(walk)) == search.searched(readable(walk)),
    decreases walk.len(),
{
    if walk.len() == 0 {
        lemma_searched_nothing(search);
        assert(readable(walk) =~= Seq::empty());
    } else {
        let last = walk.len() - 1;
        lemma_visits_are_a_search(search, walk.drop_last());
        lemma_walked_one_more(search, walk, last);
        assert(visits(walk).drop_last() =~= visits(walk.drop_last()));
        assert(walk.take(last) =~= walk.drop_last());
        assert(walk.take(last + 1) =~= walk);
    }
}

/// What a walk could not read changes nothing: two walks with the same
/// readable entries in the same order leave a search in the same state and
/// make it say the same.
pub proof fn lemma_unreadable_is_passed_over(
    search: SearchView,
    first: Seq<WalkedView>,
    second: Seq<WalkedView>,
)
    requires
        readable(first) == readable(second),
    ensures
        search.after_all(visits(first)) == search.after_all(visits(second)),
{
    lemma_visits_are_a_search(search, first);
    lemma_visits_are_a_search(search, second);
}

/// The directories that a search finds among `entries` are, as a set, the
/// directories among `entries` whose full path contains `target`: none is
/// left out and nothing else comes in.
pub proof fn lemma_directories_found(entries: Seq<EntryView>, target: Seq<char>)
    ensures
        matched_directories(entries, target).to_set() == directory_paths_containing(
            entries,
            target,
        ),
{
    let found = matched_directories(entries, target);
    let expected = directory_paths_containing(entries, target);
    assert forall|path: Seq<char>| found.to_set().contains(path) <==> expected.contains(
        path,
    ) by {
        if found.to_set().contains(path) {
            entries.lemma_filter_map_contains(directory_hit(target), path);
            let entry = choose|entry: EntryView| #[trigger]
                entries.contains(entry) && directory_hit(target)(entry) == Some(path);
            let i = choose|i: int| 0 <= i < entries.len() && entries[i] == entry;
            assert(entries[i].is_dir && entries[i].path == path);
        }
        if expected.contains(path) {
            let i = choose|i: int|
                0 <= i < entries.len() && (#[trigger] entries[i]).is_dir && entries[i].path
                    == path && is_substring(target, path);
            lemma_filter_map_keeps(entries, directory_hit(target), i, path);
        }
    }
    assert(found.to_set() =~= expected);
}

/// The files that a search finds among `entries` are, as a set, the files
/// among `entries` whose full path contains `target` and whose own name
/// contains `target` as well. A file whose path contains `target` only in the
/// name of an ancestor is not found.
pub proof fn lemma_files_found(entries: Seq<EntryView>, target: Seq<char>)
    ensures
        matched_files(entries, target).to_set() == file_paths_containing(entries, target),
{
    let found = matched_files(entries, target);
    let expected = file_paths_containing(entries, target);
    assert forall|path: Seq<char>| found.to_set().contains(path) <==> expected.contains(
        path,
    ) by {
        if found.to_set().contains(path) {
            entries.lemma_filter_map_contains(file_hit(target), path);
            let entry = choose|entry: EntryView| #[trigger]
                entries.contains(entry) && file_hit(target)(entry) == Some(path);
            let i = choose|i: int| 0 <= i < entries.len() && entries[i] == entry;
            assert(!entries[i].is_dir && entries[i].path == path);
        }
        if expected.contains(path) {
            let i = choose|i: int|
                0 <= i < entries.len() && !(#[trigger] entries[i]).is_dir && entries[i].path
                    == path && is_substring(target, path) && (entries[i].name matches Some(name)
                    && is_substring(target, name));
            lemma_filter_map_keeps(entries, file_hit(target), i, path);
        }
    }
    assert(found.to_set() =~= expected);
}

/// Two walks that meet the same entries, in whatever order and however often,
/// find the same set of directories and the same set of files. So a search
/// run twice on a tree that has not changed finds the same both times.
pub proof fn lemma_same_entries_same_matches(
    first: Seq<EntryView>,
    second: Seq<EntryView>,
    target: Seq<char>,
)
    requires
        first.to_set() == second.to_set(),
    ensures
        matched_directories(first, target).to_set() == matched_directories(
            second,
            target,
        ).to_set(),
        matched_files(first, target).to_set() == matched_files(second, target).to_set(),
{
    lemma_directories_found(first, target);
    lemma_directories_found(second, target);
    lemma_files_found(first, target);
    lemma_files_found(second, target);
    lemma_paths_containing_by_set(first, second, target);
    lemma_paths_containing_by_set(second, first, target);
    assert(directory_paths_containing(first, target) =~= directory_paths_containing(
        second,
        target,
    ));
    assert(file_paths_containing(first, target) =~= file_paths_containing(second, target));
}

/// Every path that counts among `first` counts among `second`, where `second`
/// holds every entry of `first`.
proof fn lemma_paths_containing_by_set(
    first: Seq<EntryView>,
    second: Seq<EntryView>,
    target: Seq<char>,
)
    requires
        first.to_set() == second.to_set(),
    ensures
        directory_paths_containing(first, target).subset_of(
            directory_paths_containing(second, target),
        ),
        file_paths_containing(first, target).subset_of(file_paths_containing(second, target)),
{
    assert forall|path: Seq<char>| directory_paths_containing(first, target).contains(
        path,
    ) implies directory_paths_containing(second, target).contains(path) by {
        let i = choose|i: int|
            0 <= i < first.len() && (#[trigger] first[i]).is_dir && first[i].path == path
                && is_substring(target, path);
        assert(first.to_set().contains(first[i]));
        assert(second.contains(first[i]));
        let j = choose|j: int| 0 <= j < second.len() && second[j] == first[i];
        assert(second[j].is_dir);
    }
    assert forall|path: Seq<char>| file_paths_containing(first, target).contains(
        path,
    ) implies file_paths_containing(second, target).contains(path) by {
        let i = choose|i: int|
            0 <= i < first.len() && !(#[trigger] first[i]).is_dir && first[i].path == path
                && is_substring(target, path) && (first[i].name matches Some(name)
                && is_substring(target, name));
        assert(first.to_set().contains(first[i]));
        assert(second.contains(first[i]));
        let j = choose|j: int| 0 <= j < second.len() && second[j] == first[i];
        assert(!second[j].is_dir);
    }
}

/// Where no path among `entries` contains `target`, a search finds nothing
/// and says nothing on the way, and both sections of its report are the line
/// that says that nothing was found.
pub proof fn lemma_no_match_no_result(entries: Seq<EntryView>, target: Seq<char>)
    requires
        forall|i: int| 0 <= i < entries.len() ==> !is_substring(target, (#[trigger] entries[i]).path),
    ensures
        matched_directories(entries, target) == Seq::<Seq<char>>::empty(),
        matched_files(entries, target) == Seq::<Seq<char>>::empty(),
        match_notices(entries, target) == Seq::<Seq<char>>::empty(),
        report_of(
            matched_directories(entries, target),
            matched_files(entries, target),
            target,
        ).directories == (SectionView::Missing { message: not_found(Kind::Directory, target) }),
        report_of(
            matched_directories(entries, target),
            matched_files(entries, target),
            target,
        ).files == (SectionView::Missing { message: not_found(Kind::File, target) }),
{
    lemma_filter_map_of_none(entries, directory_hit(target));
    lemma_filter_map_of_none(entries, file_hit(target));
    lemma_filter_map_of_none(entries, notice_hit(target));
}

/// A run of one step is that step.
pub proof fn lemma_single_step(search: SearchView, step: Step)
    ensures
        search.after_all(seq![step]) == search.after(step),
{
    reveal_with_fuel(SearchView::after_all, 2);
    assert(seq![step].drop_last() =~= Seq::<Step>::empty());
}

/// Taking one run of steps and then another is taking the two end to end.
pub proof fn lemma_steps_end_to_end(search: SearchView, first: Seq<Step>, second: Seq<Step>)
    ensures
        search.after_all(first + second) == search.after_all(first).after_all(second),
    decreases second.len(),
{
    if second.len() == 0 {
        assert(first + second =~= first);
    } else {
        lemma_steps_end_to_end(search, first, second.drop_last());
        assert((first + second).drop_last() =~= first + second.drop_last());
    }
}

/// A whole run: a new search is started, is handed what a walk yields, and is
/// told that the walk has ended. The search is then about to stop the
/// progress indicator, and holds the matching directories and the matching
/// files among the entries that the walk could read, in the order of the walk.
/// As sets, these are the directories whose path contains `target`, and the
/// files whose path and name both do. When the search is next told that the
/// progress indicator has ended, it hands out the report on just these.
pub proof fn lemma_run_reports_matches(
    source: Seq<char>,
    target: Seq<char>,
    walk: Seq<WalkedView>,
)
    ensures
        ({
            let walked = SearchView::fresh(source, target).after_all(run_of(walk));
            let entries = readable(walk);
            &&& walked.phase == Phase::Stopping
            &&& walked.directories == matched_directories(entries, target)
            &&& walked.files == matched_files(entries, target)
            &&& walked.directories.to_set() == directory_paths_containing(entries, target)
            &&& walked.files.to_set() == file_paths_containing(entries, target)
            &&& walked.directive(Signal::SpinnerJoined) == DirectiveView::Publish(
                report_of(
                    matched_directories(entries, target),
                    matched_files(entries, target),
                    target,
                ),
            )
        }),
{
    let fresh = SearchView::fresh(source, target);
    let entries = readable(walk);
    let first = seq![Step::Start];
    let last = seq![Step::Advance(Signal::TraversalJoined)];
    let started = fresh.started();
    let searched = started.searched(entries);
    lemma_steps_end_to_end(fresh, first + visits(walk), last);
    lemma_steps_end_to_end(fresh, first, visits(walk));
    lemma_single_step(fresh, Step::Start);
    lemma_visits_are_a_search(started, walk);
    lemma_single_step(searched, Step::Advance(Signal::TraversalJoined));
    assert(searched.directories =~= matched_directories(entries, target));
    assert(searched.files =~= matched_files(entries, target));
    lemma_directories_found(entries, target);
    lemma_files_found(entries, target);
}

/// No step takes a search back to an earlier phase.
pub proof fn lemma_phase_moves_forward(search: SearchView, steps: Seq<Step>, i: int, j: int)
    requires
        0 <= i <= j <= steps.len(),
    ensures
        search.before(steps, i).phase.rank() <= search.before(steps, j).phase.rank(),
    decreases j - i,
{
    if i < j {
        lemma_phase_moves_forward(search, steps, i, j - 1);
        assert(steps.take(j).drop_last() =~= steps.take(j - 1));
    }
}

/// Once the progress indicator has been told to stop, it stays told: no later
/// step takes that back.
pub proof fn lemma_job_completed_stays(search: SearchView, steps: Seq<Step>, i: int, j: int)
    requires
        0 <= i <= j <= steps.len(),
        search.before(steps, i).job_completed(),
    ensures
        search.before(steps, j).job_completed(),
{
    lemma_phase_moves_forward(search, steps, i, j);
}

/// The lists of matches only grow at their ends: what has been found stays
/// found, and stays where it is.
pub proof fn lemma_lists_only_grow(search: SearchView, steps: Seq<Step>, i: int, j: int)
    requires
        0 <= i <= j <= steps.len(),
    ensures
        search.before(steps, i).directories.is_prefix_of(search.before(steps, j).directories),
        search.before(steps, i).files.is_prefix_of(search.before(steps, j).files),
    decreases j - i,
{
    if i < j {
        lemma_lists_only_grow(search, steps, i, j - 1);
        assert(steps.take(j).drop_last() =~= steps.take(j - 1));
    }
}

/// Once the walk has been joined, the lists of matches are closed: no later
/// step adds to them or takes from them. So the report shows the lists as
/// they stood when the walk ended.
pub proof fn lemma_lists_closed_after_walk(search: SearchView, steps: Seq<Step>, i: int, j: int)
    requires
        0 <= i <= j <= steps.len(),
        search.before(steps, i).job_completed(),
    ensures
        search.before(steps, j).directories == search.before(steps, i).directories,
        search.before(steps, j).files == search.before(steps, i).files,
    decreases j - i,
{
    if i < j {
        lemma_lists_closed_after_walk(search, steps, i, j - 1);
        lemma_job_completed_stays(search, steps, i, j - 1);
        assert(steps.take(j).drop_last() =~= steps.take(j - 1));
    }
}

/// The progress indicator and the report never mix: a step that puts frames
/// of the indicator on screen comes before the step that puts the report on
/// screen.
pub proof fn lemma_frames_end_before_report(search: SearchView, steps: Seq<Step>, i: int, j: int)
    requires
        0 <= i < steps.len(),
        0 <= j < steps.len(),
        search.before(steps, i).shows_frames(steps[i]),
        search.before(steps, j).shows_report(steps[j]),
    ensures
        i < j,
{
    if j <= i {
        lemma_job_completed_stays(search, steps, j, i);
    }
}

/// From the step that tells the progress indicator to stop, no later step
/// puts frames of the indicator on screen.
pub proof fn lemma_no_frames_after_stop(search: SearchView, steps: Seq<Step>, i: int, j: int)
    requires
        0 <= i < j < steps.len(),
        search.before(steps, i).stops_spinner(steps[i]),
    ensures
        !search.before(steps, j).shows_frames(steps[j]),
{
    assert(steps.take(i + 1).drop_last() =~= steps.take(i));
    assert(search.before(steps, i + 1).job_completed());
    lemma_job_completed_stays(search, steps, i + 1, j);
}

/// In a run that begins before the progress indicator was told to stop:
/// where the indicator has been told to stop by step `j`, as it must have
/// been for step `j` to put the report on screen, an earlier step `k` told
/// it, and that step was the signal that the walk had ended.
pub proof fn lemma_report_needs_stop(search: SearchView, steps: Seq<Step>, j: int) -> (k: int)
    requires
        !search.job_completed(),
        0 <= j <= steps.len(),
        search.before(steps, j).job_completed(),
    ensures
        0 <= k < j,
        search.before(steps, k).stops_spinner(steps[k]),
        steps[k] == Step::Advance(Signal::TraversalJoined),
    decreases j,
{
    if j == 0 {
        assert(steps.take(0) =~= Seq::<Step>::empty());
        0
    } else {
        assert(steps.take(j).drop_last() =~= steps.take(j - 1));
        if search.before(steps, j - 1).job_completed() {
            lemma_report_needs_stop(search, steps, j - 1)
        } else {
            j - 1
        }
    }
}

/// A run tells the progress indicator to stop at most once.
pub proof fn lemma_one_stop(search: SearchView, steps: Seq<Step>, i: int, j: int)
    requires
        0 <= i < steps.len(),
        0 <= j < steps.len(),
        search.before(steps, i).stops_spinner(steps[i]),
        search.before(steps, j).stops_spinner(steps[j]),
    ensures
        i == j,
{
    if i < j {
        assert(steps.take(i + 1).drop_last() =~= steps.take(i));
        lemma_phase_moves_forward(search, steps, i + 1, j);
    }
    if j < i {
        assert(steps.take(j + 1).drop_last() =~= steps.take(j));
        lemma_phase_moves_forward(search, steps, j + 1, i);
    }
}

/// A run puts the report on screen at most once.
pub proof fn lemma_one_report(search: SearchView, steps: Seq<Step>, i: int, j: int)
    requires
        0 <= i < steps.len(),
        0 <= j < steps.len(),
        search.before(steps, i).shows_report(steps[i]),
        search.before(steps, j).shows_report(steps[j]),
    ensures
        i == j,
{
    if i < j {
        assert(steps.take(i + 1).drop_last() =~= steps.take(i));
        lemma_phase_moves_forward(search, steps, i + 1, j);
    }
    if j < i {
        assert(steps.take(j + 1).drop_last() =~= steps.take(j));
        lemma_phase_moves_forward(search, steps, j + 1, i);
    }
}

} // verus!
