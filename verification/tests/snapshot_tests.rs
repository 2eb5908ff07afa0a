use nfm::entry::{Entry, EntryMark};
use nfm::snapshot::build_snapshot;

fn raw(names: &[(&str, bool)]) -> Vec<Entry> {
    names.iter().map(|(n, d)| Entry::new(n.to_string(), *d)).collect()
}

fn names_of(entries: &[Entry]) -> Vec<String> {
    entries.iter().map(|e| e.name.clone()).collect()
}

#[test]
fn hidden_excluded_and_sorted() {
    // ["b.txt", "a.txt", ".hidden"] with hidden entries off and no
    // search text lists exactly ["a.txt", "b.txt"].
    let entries = build_snapshot(
        raw(&[("b.txt", false), ("a.txt", false), (".hidden", false)]),
        false,
        "",
    );
    assert_eq!(names_of(&entries), vec!["a.txt", "b.txt"]);
}

#[test]
fn show_hidden_keeps_the_raw_listing() {
    // With hidden entries shown and an empty search text the snapshot
    // is exactly the raw listing, only sorted.
    let entries = build_snapshot(
        raw(&[("b.txt", false), ("a.txt", false), (".hidden", false)]),
        true,
        "",
    );
    assert_eq!(names_of(&entries), vec![".hidden", "a.txt", "b.txt"]);
}

#[test]
fn matching_is_case_insensitive() {
    let listing = [("Readme.MD", false), ("notes.txt", false)];
    let entries = build_snapshot(raw(&listing), false, "readme");
    assert_eq!(names_of(&entries), vec!["Readme.MD"]);
    // An uppercase search text still matches lowercase names: this
    // fails if the names and the search text are compared unlowered.
    let entries = build_snapshot(raw(&listing), false, "TXT");
    assert_eq!(names_of(&entries), vec!["notes.txt"]);
}

#[test]
fn substring_matches_anywhere() {
    let listing = [("alpha.rs", false), ("beta.rs", false), ("gamma.md", false)];
    let entries = build_snapshot(raw(&listing), false, "a.r");
    assert_eq!(names_of(&entries), vec!["alpha.rs", "beta.rs"]);
}

#[test]
fn unmatched_filter_empties_the_snapshot() {
    let entries = build_snapshot(raw(&[("a.txt", false), ("b.txt", false)]), false, "zzz");
    assert!(entries.is_empty());
}

#[test]
fn order_is_case_sensitive_byte_order() {
    // 'B' sorts before 'a' in byte order.
    let entries = build_snapshot(raw(&[("a", false), ("B", false)]), false, "");
    assert_eq!(names_of(&entries), vec!["B", "a"]);
}

#[test]
fn directories_keep_their_kind_and_fresh_marks() {
    let entries = build_snapshot(raw(&[("docs", true), ("a.txt", false)]), false, "");
    assert_eq!(names_of(&entries), vec!["a.txt", "docs"]);
    assert!(!entries[0].is_directory);
    assert!(entries[1].is_directory);
    assert!(entries.iter().all(|e| e.mark == EntryMark::Normal));
}

#[test]
fn hidden_entries_match_search_when_shown() {
    let listing = [(".config", false), ("config.toml", false)];
    let shown = build_snapshot(raw(&listing), true, "conf");
    assert_eq!(names_of(&shown), vec![".config", "config.toml"]);
    let hidden = build_snapshot(raw(&listing), false, "conf");
    assert_eq!(names_of(&hidden), vec!["config.toml"]);
}

#[test]
fn empty_directory_gives_empty_snapshot() {
    let entries = build_snapshot(Vec::new(), true, "");
    assert!(entries.is_empty());
}

#[test]
fn mark_for_removal_toggles() {
    let mut e = Entry::new("a.txt".to_string(), false);
    assert_eq!(e.mark, EntryMark::Normal);
    e.mark_for_removal();
    assert_eq!(e.mark, EntryMark::Removal);
    e.mark_for_removal();
    assert_eq!(e.mark, EntryMark::Normal);
}
