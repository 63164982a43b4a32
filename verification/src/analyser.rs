//! The consumer of the star-reading capability.
//!
//! A [`RepoAnalyser`] holds one injected [`RepoReader`] and exposes the
//! single analysis operation: fetch the count, format the sentence, or
//! propagate the reader's error unchanged. The analysis an injected
//! behaviour prescribes is itself a spec function, [`spec_analysis`], so
//! that what the operation returns can be stated — and related laws proved —
//! independently of any particular reader.

use crate::reader::{ErrorModel, FailingRepoReader, FakeRepoReader, ReaderError, RepoReader};
use crate::text::{analysis_text, format_analysis};
use vstd::prelude::*;

verus! {

/// The analysis that a reader behaviour `stars` prescribes for `repo`: on
/// success the formatted sentence, on failure the reader's error unchanged.
pub open spec fn spec_analysis(stars: Result<u32, ErrorModel>, repo: Seq<char>) -> Result<
    Seq<char>,
    ErrorModel,
> {
    match stars {
        Ok(n) => Ok(analysis_text(repo, n)),
        Err(e) => Err(e),
    }
}

/// Whether the outcome `r` of an analysis call is the one the model `m`
/// prescribes: the same sentence on success, an error of the same kind with
/// the same message text on failure.
pub open spec fn analysis_matches(
    r: Result<String, ReaderError>,
    m: Result<Seq<char>, ErrorModel>,
) -> bool {
    match (r, m) {
        (Ok(s), Ok(t)) => s@ == t,
        (Err(e), Err(em)) => e@ == em,
        _ => false,
    }
}

/// The business logic: holds an injected reader and produces the analysis
/// sentence for a repository.
pub struct RepoAnalyser<R: RepoReader> {
    pub repo_reader: R,
}

impl<R: RepoReader> RepoAnalyser<R> {
    /// Builds an analyser around the injected reader.
    pub fn new(repo_reader: R) -> (a: Self)
        ensures
            a.repo_reader == repo_reader,
    {
        RepoAnalyser { repo_reader }
    }

    /// Fetches the star count of `repo` through the injected reader and, on
    /// success, formats `"<repo> has <count> stars"`; a reader failure is
    /// propagated unchanged.
    pub fn analyse_repo(&self, repo: &str) -> (r: Result<String, ReaderError>)
        requires
            repo@.len() > 0,
        ensures
            analysis_matches(r, spec_analysis(self.repo_reader.spec_stars(repo@), repo@)),
    {
        let stars = match self.repo_reader.get_stars(repo) {
            Ok(n) => n,
            Err(e) => {
                return Err(e);
            },
        };
        Ok(format_analysis(repo, stars))
    }
}

/// For every fixed count and every identifier, a fixed-count reader's
/// behaviour prescribes success with exactly the formatted sentence.
pub proof fn lemma_fixed_count_analysis(reader: FakeRepoReader, repo: Seq<char>)
    ensures
        spec_analysis(reader.spec_stars(repo), repo) == Ok::<Seq<char>, ErrorModel>(
            analysis_text(repo, reader.star_count),
        ),
{
}

/// The analysis depends on the injected behaviour alone: two readers that
/// behave the same on an identifier prescribe the same analysis for it,
/// whatever their types and however they were supplied.
pub proof fn lemma_analysis_determined_by_behaviour<R1: RepoReader, R2: RepoReader>(
    r1: R1,
    r2: R2,
    repo: Seq<char>,
)
    requires
        r1.spec_stars(repo) == r2.spec_stars(repo),
    ensures
        spec_analysis(r1.spec_stars(repo), repo) == spec_analysis(r2.spec_stars(repo), repo),
{
}

/// A reader that fails with a transport error makes the analysis fail with
/// that same transport error: propagation, not transformation.
pub proof fn lemma_transport_error_propagated(reader: FailingRepoReader, repo: Seq<char>)
    requires
        reader.error@ is Transport,
    ensures
        spec_analysis(reader.spec_stars(repo), repo) == Err::<Seq<char>, ErrorModel>(
            reader.error@,
        ),
{
}

/// A reader that fails with a parse error makes the analysis fail with that
/// same parse error: propagation, not transformation.
pub proof fn lemma_parse_error_propagated(reader: FailingRepoReader, repo: Seq<char>)
    requires
        reader.error@ is Parse,
    ensures
        spec_analysis(reader.spec_stars(repo), repo) == Err::<Seq<char>, ErrorModel>(
            reader.error@,
        ),
{
}

} // verus!
