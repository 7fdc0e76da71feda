use zk_gadgets::minigrep::{build, search};

fn args(list: &[&str]) -> Vec<String> {
    list.iter().map(|s| s.to_string()).collect()
}

#[test]
fn build_rejects_short_command_lines() {
    assert!(matches!(build(args(&["prog"])), Err("invalid arguments")));
    assert!(matches!(build(args(&["prog", "file"])), Err("invalid arguments")));
}

#[test]
fn build_takes_path_then_query() {
    let cfg = build(args(&["prog", "poem.txt", "frog"])).unwrap();
    assert_eq!(cfg.file_path, "poem.txt");
    assert_eq!(cfg.query, "frog");
}

#[test]
fn search_finds_matching_lines_in_order() {
    let contents = String::from("safe, fast, productive.\nPick three.\nfast cars\n");
    let found = search("fast", &contents);
    assert_eq!(found, vec!["safe, fast, productive.", "fast cars"]);
}

#[test]
fn search_without_matches_is_empty() {
    let contents = String::from("one\ntwo\nthree");
    let found = search("four", &contents);
    assert!(found.is_empty());
}

#[test]
fn search_strips_carriage_returns_before_line_feeds() {
    let contents = String::from("alpha\r\nbeta\r\nalpha beta");
    let found = search("alpha", &contents);
    assert_eq!(found, vec!["alpha", "alpha beta"]);
}

#[test]
fn search_with_empty_query_returns_every_line() {
    let contents = String::from("a\nb\n");
    let found = search("", &contents);
    assert_eq!(found, vec!["a", "b"]);
}
