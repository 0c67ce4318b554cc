use wxrs::error::BuildError;
use wxrs::stale::{assess, find_newer, is_newer, is_stale, Reading, StaleState};

fn listed(entries: Vec<Reading>) -> Option<Vec<Reading>> {
    Some(entries)
}

#[test]
fn missing_archive_is_stale() {
    assert_eq!(is_stale(Reading::Unreadable, &listed(vec![])), Ok(true));
    assert_eq!(is_stale(Reading::Unreadable, &listed(vec![Reading::Age(5)])), Ok(true));
    assert_eq!(is_stale(Reading::Unreadable, &None), Ok(true));
}

#[test]
fn archive_from_the_future_is_stale() {
    assert_eq!(is_stale(Reading::Future, &listed(vec![])), Ok(true));
    assert_eq!(is_stale(Reading::Future, &listed(vec![Reading::Age(1_000_000)])), Ok(true));
    assert_eq!(is_stale(Reading::Future, &None), Ok(true));
}

#[test]
fn older_entries_leave_the_archive_fresh() {
    let entries = vec![Reading::Age(11), Reading::Age(500), Reading::Age(u128::MAX)];
    assert_eq!(is_stale(Reading::Age(10), &listed(entries)), Ok(false));
}

#[test]
fn empty_folder_leaves_the_archive_fresh() {
    assert_eq!(is_stale(Reading::Age(10), &listed(vec![])), Ok(false));
}

#[test]
fn entry_of_the_same_age_is_not_newer() {
    assert_eq!(is_stale(Reading::Age(10), &listed(vec![Reading::Age(10)])), Ok(false));
    assert!(!is_newer(Reading::Age(10), 10));
}

#[test]
fn one_newer_entry_makes_the_archive_stale() {
    assert_eq!(is_stale(Reading::Age(10), &listed(vec![Reading::Age(20), Reading::Age(9)])), Ok(true));
    assert_eq!(is_stale(Reading::Age(10), &listed(vec![Reading::Age(9), Reading::Age(20)])), Ok(true));
    assert_eq!(is_stale(Reading::Age(10), &listed(vec![Reading::Age(0)])), Ok(true));
}

#[test]
fn verdict_does_not_depend_on_the_order() {
    let one = listed(vec![Reading::Age(30), Reading::Unreadable, Reading::Age(3), Reading::Age(7)]);
    let other = listed(vec![Reading::Age(7), Reading::Age(3), Reading::Age(30), Reading::Unreadable]);
    assert_eq!(is_stale(Reading::Age(10), &one), is_stale(Reading::Age(10), &other));
    assert_eq!(is_stale(Reading::Age(2), &one), is_stale(Reading::Age(2), &other));
    assert_eq!(is_stale(Reading::Age(10), &one), Ok(true));
    assert_eq!(is_stale(Reading::Age(2), &one), Ok(false));
    let ahead = listed(vec![Reading::Age(30), Reading::Future]);
    let behind = listed(vec![Reading::Future, Reading::Age(30)]);
    assert_eq!(is_stale(Reading::Age(2), &ahead), Ok(true));
    assert_eq!(is_stale(Reading::Age(2), &behind), Ok(true));
}

#[test]
fn entries_that_cannot_be_read_are_passed_over() {
    let entries = listed(vec![Reading::Unreadable, Reading::Unreadable]);
    assert_eq!(is_stale(Reading::Age(10), &entries), Ok(false));
    assert!(!is_newer(Reading::Unreadable, 10));
    assert!(!is_newer(Reading::Unreadable, u128::MAX));
    assert!(is_newer(Reading::Age(9), 10));
}

#[test]
fn entry_dated_in_the_future_makes_the_archive_stale() {
    assert_eq!(is_stale(Reading::Age(10), &listed(vec![Reading::Future])), Ok(true));
    assert_eq!(
        is_stale(Reading::Age(10), &listed(vec![Reading::Age(50), Reading::Future, Reading::Age(60)])),
        Ok(true)
    );
    assert_eq!(is_stale(Reading::Age(0), &listed(vec![Reading::Future])), Ok(true));
    assert!(is_newer(Reading::Future, 10));
    assert!(is_newer(Reading::Future, 0));
    assert_eq!(find_newer(&vec![Reading::Age(50), Reading::Unreadable, Reading::Future], 10), Some(2));
}

#[test]
fn folder_that_cannot_be_listed_fails_the_check() {
    assert_eq!(is_stale(Reading::Age(10), &None), Err(BuildError::SourceFolderUnreadable));
    assert_eq!(is_stale(Reading::Age(0), &None), Err(BuildError::SourceFolderUnreadable));
}

#[test]
fn failed_check_leaves_the_archive_stale() {
    assert_eq!(assess(is_stale(Reading::Age(10), &None)), StaleState::Stale);
    assert_eq!(assess(Err(BuildError::SourceFolderUnreadable)), StaleState::Stale);
}

#[test]
fn assessment_follows_the_verdict() {
    assert_eq!(assess(is_stale(Reading::Age(10), &listed(vec![Reading::Age(12)]))), StaleState::Fresh);
    assert_eq!(assess(is_stale(Reading::Age(10), &listed(vec![Reading::Age(8)]))), StaleState::Stale);
    assert_eq!(assess(is_stale(Reading::Future, &listed(vec![]))), StaleState::Stale);
    assert_eq!(assess(Ok(true)), StaleState::Stale);
    assert_eq!(assess(Ok(false)), StaleState::Fresh);
}

#[test]
fn search_stops_at_the_first_newer_entry() {
    let entries = vec![
        Reading::Age(30),
        Reading::Unreadable,
        Reading::Age(9),
        Reading::Age(40),
        Reading::Age(1),
    ];
    assert_eq!(find_newer(&entries, 10), Some(2));
    assert_eq!(find_newer(&entries, 2), Some(4));
    assert_eq!(find_newer(&entries, 1), None);
    assert_eq!(find_newer(&entries, 31), Some(0));
    assert_eq!(find_newer(&vec![], 31), None);
}
