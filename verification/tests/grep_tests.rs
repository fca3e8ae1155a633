use fs_watch_event::{longest_word, search, search_case_insensitive, Config};

#[test]
fn one_result() {
    let query = "hello";
    let contents = "\
        hello world
        how are you?
        i am good.
        ";

    assert_eq!(vec!["hello world"], search(query, contents));
}

#[test]
fn case_insensitive() {
    let query = "hello";
    let contents = "\
        Hello world
        how are you?
        i am good.
        ";

    assert_eq!(
        vec!["Hello world"],
        search_case_insensitive(query, contents)
    );
}

#[test]
fn search_is_case_sensitive() {
    let query = "hello";
    let contents = "Hello world\nhello there";
    assert_eq!(vec!["hello there"], search(query, contents));
}

#[test]
fn case_insensitive_upper_query() {
    // Would fail if lower-casing handed its argument back unchanged.
    let query = "HELLO";
    let contents = "Hello world\nnothing here";
    assert_eq!(vec!["Hello world"], search_case_insensitive(query, contents));
}

#[test]
fn empty_query_matches_every_line() {
    // Would fail if line splitting handed the whole text back as one line.
    let contents = "one\r\ntwo\nthree\n";
    assert_eq!(vec!["one", "two", "three"], search("", contents));
}

#[test]
fn final_line_keeps_lone_carriage_return() {
    // A carriage return is dropped only as part of a CRLF ending.
    assert_eq!(vec!["foo", "bar", "", "baz\r"], search("", "foo\r\nbar\n\nbaz\r"));
}

#[test]
fn no_match_is_empty() {
    let found: Vec<&str> = search("absent", "a\nb\nc");
    assert!(found.is_empty());
}

#[test]
fn longest_word_picks_longer() {
    assert_eq!("greeting", longest_word("greeting", "welcome"));
    assert_eq!("welcome", longest_word("hi", "welcome"));
    assert_eq!("b", longest_word("a", "b"));
}

#[test]
fn config_needs_three_arguments() {
    let args = vec![String::from("prog"), String::from("query")];
    assert!(Config::new(&args, false).is_err());
}

#[test]
fn config_takes_query_and_path() {
    let args = vec![
        String::from("prog"),
        String::from("needle"),
        String::from("notes.txt"),
    ];
    let config = Config::new(&args, true).unwrap();
    assert_eq!("needle", config.query);
    assert_eq!("notes.txt", config.file_path);
    assert!(config.ignore_case);
}
