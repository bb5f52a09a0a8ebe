use wiki::command::{parse_command, usage, Command, Rejection};

fn args(list: &[&str]) -> Vec<String> {
    list.iter().map(|s| s.to_string()).collect()
}

#[test]
fn no_arguments_print_usage_and_fail() {
    let rejection = parse_command(&args(&[])).unwrap_err();
    assert_eq!(rejection, Rejection::NoCommand);
    assert!(rejection.shows_usage());
    assert_eq!(rejection.message(), usage());
    assert_ne!(rejection.exit_status(), 0);
    assert_eq!(rejection.exit_status(), 1);
}

#[test]
fn unknown_command_prints_usage_and_succeeds() {
    let rejection = parse_command(&args(&["frobnicate", "x"])).unwrap_err();
    assert_eq!(rejection, Rejection::UnknownCommand);
    assert!(rejection.shows_usage());
    assert_eq!(rejection.message(), usage());
    assert_eq!(rejection.exit_status(), 0);
}

#[test]
fn usage_text_is_exact() {
    assert_eq!(
        usage(),
        "Usage: wiki <command> [args]\n\nCommands:\n  search <term>  Search Wikipedia for a term\n  page   <id>    Get the content of a Wikipedia page by ID\n  random [n]     Get n random Wikipedia pages (default: 1)"
    );
}

#[test]
fn search_takes_its_term() {
    match parse_command(&args(&["search", "rust language"])) {
        Ok(Command::Search(term)) => assert_eq!(term, "rust language"),
        other => panic!("unexpected: {:?}", other),
    }
}

#[test]
fn search_without_term_is_fatal() {
    let rejection = parse_command(&args(&["search"])).unwrap_err();
    assert_eq!(rejection, Rejection::MissingSearchTerm);
    assert!(!rejection.shows_usage());
    assert_eq!(rejection.message(), "No search term provided");
    assert_eq!(rejection.exit_status(), 101);
}

#[test]
fn page_takes_a_number() {
    assert!(matches!(parse_command(&args(&["page", "736"])), Ok(Command::Page(736))));
    assert!(matches!(
        parse_command(&args(&["page", "18446744073709551615"])),
        Ok(Command::Page(u64::MAX))
    ));
}

#[test]
fn page_with_non_numeric_id_is_fatal() {
    let rejection = parse_command(&args(&["page", "abc"])).unwrap_err();
    assert_eq!(rejection, Rejection::InvalidPageId);
    assert!(!rejection.shows_usage());
    assert_eq!(rejection.message(), "Invalid page ID");
    assert_ne!(rejection.exit_status(), 0);
}

#[test]
fn page_with_too_large_or_negative_id_is_fatal() {
    assert_eq!(
        parse_command(&args(&["page", "18446744073709551616"])).unwrap_err(),
        Rejection::InvalidPageId
    );
    assert_eq!(parse_command(&args(&["page", "-3"])).unwrap_err(), Rejection::InvalidPageId);
}

#[test]
fn page_without_id_is_fatal() {
    let rejection = parse_command(&args(&["page"])).unwrap_err();
    assert_eq!(rejection, Rejection::MissingPageId);
    assert_eq!(rejection.message(), "No page ID provided");
    assert_eq!(rejection.exit_status(), 101);
}

#[test]
fn random_defaults_to_one() {
    let bare = parse_command(&args(&["random"]));
    let one = parse_command(&args(&["random", "1"]));
    assert!(matches!(bare, Ok(Command::Random(1))));
    assert!(matches!(one, Ok(Command::Random(1))));
    assert_eq!(bare.unwrap().url(), one.unwrap().url());
}

#[test]
fn random_takes_a_count() {
    assert!(matches!(parse_command(&args(&["random", "3"])), Ok(Command::Random(3))));
    assert!(matches!(parse_command(&args(&["random", "0"])), Ok(Command::Random(0))));
}

#[test]
fn random_with_invalid_count_is_fatal() {
    let rejection = parse_command(&args(&["random", "many"])).unwrap_err();
    assert_eq!(rejection, Rejection::InvalidCount);
    assert_eq!(rejection.message(), "Invalid number of random pages");
    assert_eq!(rejection.exit_status(), 101);
}

#[test]
fn further_arguments_are_ignored() {
    assert!(matches!(parse_command(&args(&["page", "5", "extra"])), Ok(Command::Page(5))));
}

#[test]
fn commands_are_case_sensitive() {
    assert_eq!(parse_command(&args(&["Search", "x"])).unwrap_err(), Rejection::UnknownCommand);
    assert_eq!(parse_command(&args(&[""])).unwrap_err(), Rejection::UnknownCommand);
}

#[test]
fn command_url_matches_the_operation() {
    assert_eq!(
        Command::Search("a b".to_string()).url(),
        "https://en.wikipedia.org/w/api.php?action=query&list=search&srsearch=a+b&format=json"
    );
    assert_eq!(Command::Page(9).url(), wiki::request::page_url(9));
    assert_eq!(Command::Random(2).url(), wiki::request::random_url(2));
}
