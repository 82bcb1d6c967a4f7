use book_examples::config::{run, Config, ConfigError};
use book_examples::search::{search, search_case_insensitive};

#[test]
fn case_sensitive() {
    let query = "safe";
    let contents = "\
Rust:
safe, fast, productive.
Pick three";

    assert_eq!(vec!["safe, fast, productive."], search(query, contents),)
}

#[test]
fn case_insensitive() {
    let query = "RusT";
    let contents = "\
Rust:
Safe, fast, productive.
Pick three
Trust me.";

    assert_eq!(vec!["Rust:", "Trust me."], search_case_insensitive(query, contents),)
}

#[test]
fn empty_query_matches_every_line() {
    let contents = "Rust:\nsafe, fast, productive.\nPick three";
    assert_eq!(
        vec!["Rust:", "safe, fast, productive.", "Pick three"],
        search("", contents),
    );
}

#[test]
fn empty_content_yields_no_matches() {
    let empty: Vec<&str> = Vec::new();
    assert_eq!(empty, search("safe", ""));
    assert_eq!(empty, search_case_insensitive("safe", ""));
}

#[test]
fn searching_twice_gives_identical_results() {
    let query = "st";
    let contents = "Rust:\nSafe, fast, productive.\nPick three\nTrust me.";
    assert_eq!(search(query, contents), search(query, contents));
    assert_eq!(
        search_case_insensitive(query, contents),
        search_case_insensitive(query, contents),
    );
}

#[test]
fn carriage_returns_before_terminators_are_dropped() {
    let contents = "mat\r\nmiss\r\nmat again";
    assert_eq!(vec!["mat", "mat again"], search("mat", contents));
}

#[test]
fn a_trailing_terminator_adds_no_line() {
    assert_eq!(vec!["one", "two"], search("", "one\ntwo\n"));
}

#[test]
fn query_longer_than_line_never_matches() {
    let empty: Vec<&str> = Vec::new();
    assert_eq!(empty, search("threee", "three"));
}

#[test]
fn build_without_query_fails() {
    let args = vec![String::from("progname")];
    assert_eq!(Some(ConfigError::MissingQuery), Config::build(args, false).err());
}

#[test]
fn build_without_source_path_fails() {
    let args = vec![String::from("progname"), String::from("safe")];
    assert_eq!(Some(ConfigError::MissingSourcePath), Config::build(args, false).err());
}

#[test]
fn build_collects_query_path_and_mode() {
    let args = vec![
        String::from("progname"),
        String::from("safe"),
        String::from("poem.txt"),
    ];
    let config = Config::build(args, true).ok().unwrap();
    assert_eq!("safe", config.query);
    assert_eq!("poem.txt", config.file_path);
    assert!(config.ignore_case);
}

#[test]
fn run_dispatches_on_the_mode() {
    let contents = "Rust:\nTrust me.";
    let args = vec![
        String::from("progname"),
        String::from("rust"),
        String::from("poem.txt"),
    ];
    let exact = Config::build(args.clone(), false).ok().unwrap();
    let folded = Config::build(args, true).ok().unwrap();
    assert_eq!(vec!["Trust me."], run(&exact, contents));
    assert_eq!(vec!["Rust:", "Trust me."], run(&folded, contents));
}
