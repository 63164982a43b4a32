//! The formatted sentence on its own.

use repo_stars::analyser::RepoAnalyser;
use repo_stars::reader::FakeRepoReader;
use repo_stars::text::format_analysis;

#[test]
fn renders_the_sentence() {
    assert_eq!(format_analysis("owner/name", 7), "owner/name has 7 stars");
}

#[test]
fn renders_zero_stars() {
    let analyser = RepoAnalyser::new(FakeRepoReader { star_count: 0 });
    let out = analyser.analyse_repo("owner/name").expect("analysis failed");
    assert_eq!(out, "owner/name has 0 stars");
}

#[test]
fn renders_the_largest_count() {
    let analyser = RepoAnalyser::new(FakeRepoReader { star_count: u32::MAX });
    let out = analyser.analyse_repo("owner/name").expect("analysis failed");
    assert_eq!(out, "owner/name has 4294967295 stars");
}

#[test]
fn identifier_and_count_appear_verbatim() {
    let analyser = RepoAnalyser::new(FakeRepoReader { star_count: 12345 });
    let out = analyser.analyse_repo("some-owner/some-repo").expect("analysis failed");
    assert!(out.starts_with("some-owner/some-repo"));
    assert!(out.contains("12345"));
    assert_eq!(out, "some-owner/some-repo has 12345 stars");
}

#[test]
fn renders_round_counts_without_stray_digits() {
    assert_eq!(format_analysis("o/r", 10), "o/r has 10 stars");
    assert_eq!(format_analysis("o/r", 100), "o/r has 100 stars");
    assert_eq!(format_analysis("o/r", 1000), "o/r has 1000 stars");
}
