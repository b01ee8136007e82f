use rufind::cli::{search_from_arguments, UsageError, ARGUMENTS_NEEDED, USAGE_STATUS};
use rufind::model::Phase;

fn arguments_of(words: &[&str]) -> Vec<String> {
    words.iter().map(|word| word.to_string()).collect()
}

fn usage_error() -> UsageError {
    UsageError {
        message: "Usage: rufind source_directory target_[file/directory]".to_string(),
        status: 1,
    }
}

#[test]
fn no_argument_gives_the_usage_error() {
    let arguments = arguments_of(&["rufind"]);
    assert_eq!(search_from_arguments(&arguments).err(), Some(usage_error()));
}

#[test]
fn one_argument_gives_the_usage_error() {
    let arguments = arguments_of(&["rufind", "root"]);
    assert_eq!(search_from_arguments(&arguments).err(), Some(usage_error()));
}

#[test]
fn not_even_a_program_name_gives_the_usage_error() {
    let arguments = arguments_of(&[]);
    assert_eq!(search_from_arguments(&arguments).err(), Some(usage_error()));
}

#[test]
fn usage_status_is_not_zero() {
    assert_eq!(USAGE_STATUS, 1);
    assert_eq!(ARGUMENTS_NEEDED, 3);
}

#[test]
fn two_arguments_give_a_search_that_has_not_started() {
    let arguments = arguments_of(&["rufind", "root", "a"]);
    let search = search_from_arguments(&arguments).expect("two arguments are enough");
    assert_eq!(search.source(), "root");
    assert_eq!(search.target(), "a");
    assert_eq!(search.phase(), Phase::Idle);
    assert!(search.results_dir().is_empty());
    assert!(search.results_file().is_empty());
}

#[test]
fn further_arguments_are_ignored() {
    let arguments = arguments_of(&["rufind", "root", "a", "txt", "more"]);
    let search = search_from_arguments(&arguments).expect("more arguments do no harm");
    assert_eq!(search.source(), "root");
    assert_eq!(search.target(), "a");
}
