use rufind::entry::{Entry, Walked};
use rufind::model::{Phase, Signal};
use rufind::report::{Report, Section};
use rufind::search::{Directive, Search};

fn directory(path: &str) -> Walked {
    let name = path.rsplit('/').next().map(|name| name.to_string());
    Walked::Entry(Entry::new(path.to_string(), name, true))
}

fn file(path: &str) -> Walked {
    let name = path.rsplit('/').next().map(|name| name.to_string());
    Walked::Entry(Entry::new(path.to_string(), name, false))
}

fn small_tree() -> Vec<Walked> {
    vec![
        directory("root"),
        file("root/a.txt"),
        directory("root/sub"),
        file("root/sub/a_copy.txt"),
        directory("root/sub2"),
        file("root/sub2/other.log"),
    ]
}

fn run(source: &str, target: &str, entries: &Vec<Walked>) -> (Vec<String>, Report) {
    let mut search = Search::new(source, target);
    assert!(search.start().is_some());
    let notices = search.search(entries);
    assert_eq!(search.advance(Signal::TraversalJoined), Directive::AwaitSpinner);
    match search.advance(Signal::SpinnerJoined) {
        Directive::Publish(report) => (notices, report),
        other => panic!("no report: {other:?}"),
    }
}

fn sorted(mut lines: Vec<String>) -> Vec<String> {
    lines.sort();
    lines
}

fn items_of(section: &Section) -> Vec<String> {
    match section {
        Section::Listing { items, .. } => items.clone(),
        Section::Missing { .. } => Vec::new(),
    }
}

#[test]
fn small_tree_with_target_a() {
    let (notices, report) = run("root", "a", &small_tree());
    assert_eq!(
        report.files,
        Section::Listing {
            heading: "\rThe target files are:".to_string(),
            items: vec!["root/a.txt".to_string(), "root/sub/a_copy.txt".to_string()],
        }
    );
    assert_eq!(
        report.directories,
        Section::Missing { message: "\rthe directory a was not found".to_string() }
    );
    assert_eq!(report.closing, "\rSearch completed");
    assert_eq!(
        notices,
        vec![
            "\rfile was found: root/a.txt".to_string(),
            "\rfile was found: root/sub/a_copy.txt".to_string(),
        ]
    );
}

#[test]
fn small_tree_leaves_out_the_log_file() {
    let (_, report) = run("root", "a", &small_tree());
    assert!(!items_of(&report.files).contains(&"root/sub2/other.log".to_string()));
    assert!(items_of(&report.directories).is_empty());
}

#[test]
fn target_without_match_gives_two_not_found_lines() {
    let (notices, report) = run("root", "zzz_no_match", &small_tree());
    assert!(notices.is_empty());
    assert_eq!(
        report,
        Report {
            directories: Section::Missing {
                message: "\rthe directory zzz_no_match was not found".to_string(),
            },
            files: Section::Missing {
                message: "\rthe file zzz_no_match was not found".to_string(),
            },
            closing: "\rSearch completed".to_string(),
        }
    );
}

#[test]
fn empty_tree_gives_two_not_found_lines() {
    let (notices, report) = run("root", "a", &Vec::new());
    assert!(notices.is_empty());
    assert_eq!(
        report.directories,
        Section::Missing { message: "\rthe directory a was not found".to_string() }
    );
    assert_eq!(report.files, Section::Missing { message: "\rthe file a was not found".to_string() });
}

#[test]
fn directories_are_those_whose_path_contains_the_target() {
    let entries = vec![
        directory("data"),
        directory("data/2024"),
        file("data/2024/notes.txt"),
        directory("other"),
        directory("other/metadata"),
        file("other/metadata/data.csv"),
    ];
    let (_, report) = run("data", "data", &entries);
    assert_eq!(
        items_of(&report.directories),
        vec!["data".to_string(), "data/2024".to_string(), "other/metadata".to_string()]
    );
}

#[test]
fn files_need_the_target_in_their_own_name_too() {
    let entries = vec![
        directory("data"),
        file("data/notes.txt"),
        file("data/data.csv"),
        file("data/2024/report_data.txt"),
        file("elsewhere/data.csv"),
        file("elsewhere/notes.txt"),
    ];
    let (notices, report) = run("data", "data", &entries);
    assert_eq!(
        items_of(&report.files),
        vec![
            "data/data.csv".to_string(),
            "data/2024/report_data.txt".to_string(),
            "elsewhere/data.csv".to_string(),
        ]
    );
    assert_eq!(
        notices,
        vec![
            "\rdirectory was found: data".to_string(),
            "\rfile was found: data/data.csv".to_string(),
            "\rfile was found: data/2024/report_data.txt".to_string(),
            "\rfile was found: elsewhere/data.csv".to_string(),
        ]
    );
}

#[test]
fn matches_keep_the_order_of_the_walk() {
    let entries = vec![file("root/b_a"), file("root/a_b"), directory("root/a"), directory("a")];
    let (_, report) = run("root", "a", &entries);
    assert_eq!(items_of(&report.files), vec!["root/b_a".to_string(), "root/a_b".to_string()]);
    assert_eq!(items_of(&report.directories), vec!["root/a".to_string(), "a".to_string()]);
}

#[test]
fn an_entry_met_twice_is_listed_twice() {
    let entries = vec![file("root/a.txt"), file("root/a.txt")];
    let (_, report) = run("root", "a", &entries);
    assert_eq!(items_of(&report.files), vec!["root/a.txt".to_string(), "root/a.txt".to_string()]);
}

#[test]
fn two_runs_on_the_same_tree_find_the_same() {
    let (first_notices, first) = run("root", "a", &small_tree());
    let (second_notices, second) = run("root", "a", &small_tree());
    assert_eq!(first, second);
    assert_eq!(first_notices, second_notices);
}

#[test]
fn order_of_the_walk_does_not_change_what_is_found() {
    let forward = small_tree();
    let mut backward = small_tree();
    backward.reverse();
    let (_, first) = run("root", "o", &forward);
    let (_, second) = run("root", "o", &backward);
    assert_eq!(sorted(items_of(&first.files)), sorted(items_of(&second.files)));
    assert_eq!(sorted(items_of(&first.directories)), sorted(items_of(&second.directories)));
    assert_eq!(
        sorted(items_of(&first.directories)),
        vec!["root".to_string(), "root/sub".to_string(), "root/sub2".to_string()]
    );
    assert_eq!(sorted(items_of(&first.files)), vec!["root/sub/a_copy.txt".to_string(), "root/sub2/other.log".to_string()]);
}

#[test]
fn what_cannot_be_read_is_passed_over() {
    let walk = vec![
        Walked::Unreadable,
        directory("root"),
        file("root/a.txt"),
        Walked::Unreadable,
        Walked::Unreadable,
        directory("root/sub"),
        file("root/sub/a_copy.txt"),
        directory("root/sub2"),
        file("root/sub2/other.log"),
        Walked::Unreadable,
    ];
    assert_eq!(run("root", "a", &walk), run("root", "a", &small_tree()));
    assert_eq!(run("root", "sub", &walk), run("root", "sub", &small_tree()));
}

#[test]
fn walk_that_reads_nothing_finds_nothing() {
    let walk = vec![Walked::Unreadable, Walked::Unreadable];
    let (notices, report) = run("root", "", &walk);
    assert!(notices.is_empty());
    assert_eq!(report.directories, Section::Missing { message: "\rthe directory  was not found".to_string() });
    assert_eq!(report.files, Section::Missing { message: "\rthe file  was not found".to_string() });
}

#[test]
fn visit_goes_on_after_what_cannot_be_read() {
    let mut search = Search::new("root", "a");
    search.start();
    assert_eq!(search.visit(&Walked::Unreadable), None);
    assert_eq!(search.phase(), Phase::Searching);
    assert!(search.results_dir().is_empty());
    assert!(search.results_file().is_empty());
    assert_eq!(search.visit(&file("root/a.txt")), Some("\rfile was found: root/a.txt".to_string()));
    assert_eq!(search.visit(&Walked::Unreadable), None);
    assert_eq!(search.results_file(), &vec!["root/a.txt".to_string()]);
}

#[test]
fn record_takes_an_entry_as_visit_does() {
    let mut search = Search::new("root", "a");
    search.start();
    let entry = Entry::new("root/a".to_string(), Some("a".to_string()), true);
    assert_eq!(search.record(&entry), Some("\rdirectory was found: root/a".to_string()));
    assert_eq!(search.visit(&Walked::Entry(entry)), Some("\rdirectory was found: root/a".to_string()));
    assert_eq!(search.results_dir(), &vec!["root/a".to_string(), "root/a".to_string()]);
    let other = Entry::new("root/b".to_string(), Some("b".to_string()), true);
    assert_eq!(search.record(&other), None);
    let mut idle = Search::new("root", "a");
    assert_eq!(idle.record(&Entry::new("a".to_string(), Some("a".to_string()), true)), None);
    assert!(idle.results_dir().is_empty());
}

#[test]
fn visit_records_one_entry_at_a_time() {
    let mut search = Search::new("root", "sub");
    search.start();
    assert_eq!(search.visit(&directory("root")), None);
    assert_eq!(
        search.visit(&directory("root/sub")),
        Some("\rdirectory was found: root/sub".to_string())
    );
    assert_eq!(search.visit(&file("root/sub/a_copy.txt")), None);
    assert_eq!(
        search.visit(&file("root/sub/sub.txt")),
        Some("\rfile was found: root/sub/sub.txt".to_string())
    );
    assert_eq!(search.results_dir(), &vec!["root/sub".to_string()]);
    assert_eq!(search.results_file(), &vec!["root/sub/sub.txt".to_string()]);
    assert_eq!(search.phase(), Phase::Searching);
}

#[test]
fn search_adds_to_what_visit_has_recorded() {
    let mut search = Search::new("root", "a");
    search.start();
    search.visit(&file("root/a.txt"));
    let notices = search.search(&vec![file("root/sub/a_copy.txt"), directory("root/a")]);
    assert_eq!(
        notices,
        vec![
            "\rfile was found: root/sub/a_copy.txt".to_string(),
            "\rdirectory was found: root/a".to_string(),
        ]
    );
    assert_eq!(
        search.results_file(),
        &vec!["root/a.txt".to_string(), "root/sub/a_copy.txt".to_string()]
    );
    assert_eq!(search.results_dir(), &vec!["root/a".to_string()]);
}

#[test]
fn nothing_is_recorded_before_the_start() {
    let mut search = Search::new("root", "a");
    assert_eq!(search.visit(&file("root/a.txt")), None);
    assert!(search.search(&small_tree()).is_empty());
    assert!(search.results_dir().is_empty());
    assert!(search.results_file().is_empty());
    assert_eq!(search.phase(), Phase::Idle);
}

#[test]
fn nothing_is_recorded_after_the_walk_has_ended() {
    let mut search = Search::new("root", "a");
    search.start();
    search.search(&small_tree());
    search.advance(Signal::TraversalJoined);
    assert_eq!(search.visit(&file("root/late_a.txt")), None);
    assert!(search.search(&small_tree()).is_empty());
    assert_eq!(
        search.results_file(),
        &vec!["root/a.txt".to_string(), "root/sub/a_copy.txt".to_string()]
    );
    search.advance(Signal::SpinnerJoined);
    assert_eq!(search.visit(&file("root/later_a.txt")), None);
    assert_eq!(
        search.results_file(),
        &vec!["root/a.txt".to_string(), "root/sub/a_copy.txt".to_string()]
    );
}

#[test]
fn report_shows_one_section_of_each_kind() {
    let (_, report) = run("root", "a", &vec![file("root/a.txt")]);
    assert_eq!(
        report,
        Report {
            directories: Section::Missing {
                message: "\rthe directory a was not found".to_string(),
            },
            files: Section::Listing {
                heading: "\rThe target files are:".to_string(),
                items: vec!["root/a.txt".to_string()],
            },
            closing: "\rSearch completed".to_string(),
        }
    );
}
