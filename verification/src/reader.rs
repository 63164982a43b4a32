//! The star-reading capability and its error taxonomy.
//!
//! A [`RepoReader`] is the injected dependency: asked for a repository
//! identifier, it produces the repository's star count or fails with a
//! classified [`ReaderError`]. The trait carries its behaviour as a spec
//! function, so that a consumer's contract can speak about what the injected
//! reader would return. Two deterministic readers live here: a fixed-count
//! one and an always-failing one, both meant to stand in for the
//! network-backed reader when its behaviour must be under the caller's
//! control.

use vstd::prelude::*;

verus! {

/// The abstract value of a [`ReaderError`]: the kind of failure and the
/// message text carried over from the underlying cause.
pub enum ErrorModel {
    Transport(Seq<char>),
    Parse(Seq<char>),
}

/// A classified failure of a star-reading call.
///
/// `TransportError`: the request could not be sent or no response was
/// received. `ParseError`: a response was received but could not be
/// interpreted as the expected JSON shape. Each variant wraps the underlying
/// cause's message.
#[derive(Debug)]
pub enum ReaderError {
    TransportError(String),
    ParseError(String),
}

impl View for ReaderError {
    type V = ErrorModel;

    open spec fn view(&self) -> ErrorModel {
        match self {
            ReaderError::TransportError(m) => ErrorModel::Transport(m@),
            ReaderError::ParseError(m) => ErrorModel::Parse(m@),
        }
    }
}

/// The message text of an error, the same whichever kind occurred.
pub open spec fn message_of(e: ErrorModel) -> Seq<char> {
    match e {
        ErrorModel::Transport(m) => m,
        ErrorModel::Parse(m) => m,
    }
}

impl ReaderError {
    /// The human-readable message: the underlying cause's text. Callers can
    /// render a failure without knowing which variant occurred.
    pub fn message(&self) -> (m: &str)
        ensures
            m@ == message_of(self@),
    {
        match self {
            ReaderError::TransportError(m) => m.as_str(),
            ReaderError::ParseError(m) => m.as_str(),
        }
    }
}

/// Whether the outcome `r` of a call is the one the model `m` prescribes:
/// the same count on success, an error of the same kind with the same
/// message text on failure.
pub open spec fn matches_model(r: Result<u32, ReaderError>, m: Result<u32, ErrorModel>) -> bool {
    match (r, m) {
        (Ok(a), Ok(b)) => a == b,
        (Err(e), Err(em)) => e@ == em,
        _ => false,
    }
}

/// The injected capability: something that can produce a star count for a
/// repository identifier.
pub trait RepoReader {
    /// The reader's behaviour as a function of the identifier: what one call
    /// on `repo` produces.
    spec fn spec_stars(&self, repo: Seq<char>) -> Result<u32, ErrorModel>;

    /// Returns the star count of `repo`, or a classified error. The
    /// identifier must be non-empty; no further validation is asked of it.
    fn get_stars(&self, repo: &str) -> (r: Result<u32, ReaderError>)
        requires
            repo@.len() > 0,
        ensures
            matches_model(r, self.spec_stars(repo@)),
    ;
}

/// A reader that holds a preconfigured count and returns it for every
/// identifier, performing no outside call.
pub struct FakeRepoReader {
    pub star_count: u32,
}

impl RepoReader for FakeRepoReader {
    open spec fn spec_stars(&self, repo: Seq<char>) -> Result<u32, ErrorModel> {
        Ok(self.star_count)
    }

    fn get_stars(&self, repo: &str) -> (r: Result<u32, ReaderError>) {
        Ok(self.star_count)
    }
}

/// A reader that fails every call with a preconfigured error, performing no
/// outside call.
pub struct FailingRepoReader {
    pub error: ReaderError,
}

impl RepoReader for FailingRepoReader {
    open spec fn spec_stars(&self, repo: Seq<char>) -> Result<u32, ErrorModel> {
        Err(self.error@)
    }

    fn get_stars(&self, repo: &str) -> (r: Result<u32, ReaderError>) {
        match &self.error {
            ReaderError::TransportError(m) => Err(ReaderError::TransportError(m.clone())),
            ReaderError::ParseError(m) => Err(ReaderError::ParseError(m.clone())),
        }
    }
}

} // verus!
