//! Error classification, propagation and rendering.

use repo_stars::analyser::RepoAnalyser;
use repo_stars::reader::{FailingRepoReader, ReaderError};

#[test]
fn transport_failure_propagates_with_message() {
    let reader =
        FailingRepoReader { error: ReaderError::TransportError("connection refused".to_string()) };
    let analyser = RepoAnalyser::new(reader);

    let err = analyser.analyse_repo("timabell/gitopolis").expect_err("analysis succeeded");
    assert!(matches!(err, ReaderError::TransportError(_)));
    assert!(err.message().contains("connection refused"));
}

#[test]
fn parse_failure_propagates_with_message() {
    let reader =
        FailingRepoReader { error: ReaderError::ParseError("unexpected end of input".to_string()) };
    let analyser = RepoAnalyser::new(reader);

    let err = analyser.analyse_repo("timabell/gitopolis").expect_err("analysis succeeded");
    assert!(matches!(err, ReaderError::ParseError(_)));
    assert_eq!(err.message(), "unexpected end of input");
}

#[test]
fn message_is_uniform_across_variants() {
    let transport = ReaderError::TransportError("no route to host".to_string());
    let parse = ReaderError::ParseError("expected value at line 1".to_string());
    assert_eq!(transport.message(), "no route to host");
    assert_eq!(parse.message(), "expected value at line 1");
}
