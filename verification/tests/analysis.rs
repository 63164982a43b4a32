//! The analysis operation with an injected fixed-count reader.

use repo_stars::analyser::RepoAnalyser;
use repo_stars::reader::FakeRepoReader;

#[test]
fn formats_repo_name_and_stars() {
    // set up business logic to use a fake instead of talking to the network
    let analyser = RepoAnalyser { repo_reader: FakeRepoReader { star_count: 1000 } };

    const REPO_PATH: &str = "timabell/gitopolis";
    let repo_analysis = analyser.analyse_repo(REPO_PATH).expect("analysis failed");
    assert_eq!(repo_analysis, "timabell/gitopolis has 1000 stars");
}

#[test]
fn fake_injected() {
    let analyser = RepoAnalyser { repo_reader: FakeRepoReader { star_count: 1000 } };

    const REPO_PATH: &str = "timabell/gitopolis";
    let repo_analysis = analyser.analyse_repo(REPO_PATH).expect("analysis failed");
    assert_eq!(repo_analysis, "timabell/gitopolis has 1000 stars");
}

#[test]
fn fake_injected_with_new() {
    let analyser = RepoAnalyser::new(FakeRepoReader { star_count: 1000 });

    const REPO_PATH: &str = "timabell/gitopolis";
    let repo_analysis = analyser.analyse_repo(REPO_PATH).expect("analysis failed");
    assert_eq!(repo_analysis, "timabell/gitopolis has 1000 stars");
}

#[test]
fn generic_trait_struct_injection_formats_star_info() {
    let analyser = RepoAnalyser { repo_reader: FakeRepoReader { star_count: 1000 } };

    const REPO_PATH: &str = "timabell/gitopolis";
    let repo_analysis = analyser.analyse_repo(REPO_PATH).expect("analysis failed");
    assert_eq!(repo_analysis, "timabell/gitopolis has 1000 stars");
}

#[test]
fn formats_star_info_with_new() {
    let analyser = RepoAnalyser::new(FakeRepoReader { star_count: 1000 });

    const REPO_PATH: &str = "timabell/gitopolis";
    let repo_analysis = analyser.analyse_repo(REPO_PATH).expect("analysis failed");
    assert_eq!(repo_analysis, "timabell/gitopolis has 1000 stars");
}

/// Construction by owned-value injection and construction through `new`
/// yield byte-identical results for the same injected behaviour.
#[test]
fn construction_styles_agree() {
    let by_literal = RepoAnalyser { repo_reader: FakeRepoReader { star_count: 7 } };
    let by_new = RepoAnalyser::new(FakeRepoReader { star_count: 7 });

    let a = by_literal.analyse_repo("owner/name").expect("analysis failed");
    let b = by_new.analyse_repo("owner/name").expect("analysis failed");
    assert_eq!(a, b);
    assert_eq!(a.as_bytes(), b.as_bytes());
}
