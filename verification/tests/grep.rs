use exercises::grep::{search, search_case_insensitive, is_truthy_value, Config};
use exercises::text::{lines, str_contains, str_eq, str_ends_with};

#[test]
fn one_result() {
    let query = "duct";
    let contents = "Rust:\nsafe, fast, productive.\nPick three.";
    assert_eq!(vec!["safe, fast, productive."], search(query, contents));
}

#[test]
fn search_is_case_sensitive() {
    let contents = "Rust\nsafe\nfast\nproductive";
    assert_eq!(search("safe", contents), vec!["safe"]);
    assert_eq!(search("Safe", contents), Vec::<&str>::new());
}

#[test]
fn search_folds_case() {
    let contents = "Rust\nSafe\nfast\nproductive";
    assert_eq!(search_case_insensitive("safe", contents), vec!["Safe"]);
    assert_eq!(search_case_insensitive("RUST", contents), vec!["Rust"]);
}

#[test]
fn lines_split_and_strip() {
    assert_eq!(lines("a\nb\nc"), vec!["a", "b", "c"]);
    assert_eq!(lines("a\r\nb\r\n"), vec!["a", "b"]);
    assert_eq!(lines("one\ntwo\n"), vec!["one", "two"]);
    assert_eq!(lines(""), Vec::<&str>::new());
    assert_eq!(lines("\n\n"), vec!["", ""]);
    assert_eq!(lines("tail\r"), vec!["tail\r"]);
}

#[test]
fn contains_and_eq() {
    assert!(str_contains("hello world", "o w"));
    assert!(str_contains("hello", ""));
    assert!(!str_contains("hello", "world"));
    assert!(str_eq("same", "same"));
    assert!(!str_eq("same", "sane"));
    assert!(str_ends_with("GET / HTTP/1.1", "HTTP/1.1"));
    assert!(!str_ends_with("GET / HTTP/1.1", "HTTP/1.0"));
}

#[test]
fn truthy_values_fold_case() {
    assert!(is_truthy_value("1"));
    assert!(is_truthy_value("TRUE"));
    assert!(is_truthy_value("Yes"));
    assert!(is_truthy_value("oN"));
    assert!(is_truthy_value("Enabled"));
    assert!(!is_truthy_value("no"));
    assert!(!is_truthy_value(""));
    assert!(!is_truthy_value("truthy"));
}

#[test]
fn config_requires_both_arguments() {
    let ok = Config::new(
        Some(String::from("needle")),
        Some(String::from("hay.txt")),
        true,
    )
    .unwrap();
    assert_eq!(ok.query, "needle");
    assert_eq!(ok.file_path, "hay.txt");
    assert!(ok.ignore_case);

    let no_query = Config::new(None, Some(String::from("hay.txt")), false);
    assert_eq!(no_query.unwrap_err(), "Didn't get a query string");

    let no_path = Config::new(Some(String::from("needle")), None, false);
    assert_eq!(no_path.unwrap_err(), "Didn't get a file path");
}
