//! The network-backed reader's pure half.
//!
//! Fetching a real star count is one HTTPS GET followed by one JSON read.
//! Everything around the transport call is plain computation and lives
//! here, verified: building the request URL for an identifier, and turning
//! the transport's outcome — a response body, or a failure message — into a
//! star count or a classified [`ReaderError`]. The caller owns the
//! transport: it sends the request this module prepares and hands back what
//! arrived.
//!
//! No HTTP status code is inspected: any received body goes to JSON
//! parsing, so an error response whose body is not the expected shape is
//! reported as a parse failure.

use crate::analyser::{analysis_matches, spec_analysis};
use crate::reader::{ErrorModel, ReaderError, matches_model};
use crate::text::format_analysis;
use vstd::prelude::*;

verus! {

/// The URL of the repository-metadata endpoint for `repo`.
pub open spec fn request_url_text(repo: Seq<char>) -> Seq<char> {
    "https://api.github.com/repos/"@ + repo
}

/// What reading `stargazers_count` out of a JSON body yields: the count if
/// the body is a JSON object with that field holding a number in range, and
/// the cause's message otherwise. The outcome is a function of the body
/// text alone.
pub uninterp spec fn stargazers_in(body: Seq<char>) -> Result<u32, Seq<char>>;

/// Whether the outcome `r` of a parse is the one `m` prescribes: the same
/// count, or a failure with the same message text.
pub open spec fn parse_matches(r: Result<u32, String>, m: Result<u32, Seq<char>>) -> bool {
    match (r, m) {
        (Ok(a), Ok(b)) => a == b,
        (Err(e), Err(t)) => e@ == t,
        _ => false,
    }
}

/// Relies on serde_json — `from_str` parses the body into a JSON value
/// exactly when it is valid JSON, `Value::get` looks up a field of an
/// object, `Value::as_u64` reads a non-negative integer back out — and on
/// the parse outcome depending on the body text alone. `u32::try_from`
/// narrows the number, failing on a count that does not fit.
#[verifier::external_body]
fn extract_stargazers(body: &str) -> (r: Result<u32, String>)
    ensures
        parse_matches(r, stargazers_in(body@)),
{
    let value: serde_json::Value = match serde_json::from_str(body) {
        Ok(v) => v,
        Err(e) => return Err(e.to_string()),
    };
    match value.get("stargazers_count").and_then(serde_json::Value::as_u64) {
        Some(n) => match u32::try_from(n) {
            Ok(c) => Ok(c),
            Err(e) => Err(e.to_string()),
        },
        None => Err("missing or non-integer stargazers_count".to_string()),
    }
}

/// Reads the star count out of a response body: the JSON object's
/// `stargazers_count` field. A body that cannot be parsed, or that lacks
/// the field, gives a `ParseError` wrapping the cause's message.
pub fn parse_star_count(body: &str) -> (r: Result<u32, ReaderError>)
    ensures
        matches_model(
            r,
            match stargazers_in(body@) {
                Ok(n) => Ok(n),
                Err(m) => Err(ErrorModel::Parse(m)),
            },
        ),
{
    match extract_stargazers(body) {
        Ok(n) => Ok(n),
        Err(m) => Err(ReaderError::ParseError(m)),
    }
}

/// A transport's outcome as abstract text: the response body it received,
/// or the message of the failure that kept it from receiving one.
pub open spec fn outcome_view(outcome: Result<String, String>) -> Result<Seq<char>, Seq<char>> {
    match outcome {
        Ok(body) => Ok(body@),
        Err(m) => Err(m@),
    }
}

/// The star-count reading that a transport outcome prescribes: a transport
/// failure becomes a `Transport` error with the same message; a received
/// body is read as JSON, failing as `Parse` if it is not the expected
/// shape.
pub open spec fn transport_interpretation(outcome: Result<Seq<char>, Seq<char>>) -> Result<
    u32,
    ErrorModel,
> {
    match outcome {
        Ok(body) => match stargazers_in(body) {
            Ok(n) => Ok(n),
            Err(m) => Err(ErrorModel::Parse(m)),
        },
        Err(m) => Err(ErrorModel::Transport(m)),
    }
}

/// The reader that talks to the real endpoint, less the talking: it
/// prepares the request URL and interprets what the transport brought back.
/// The HTTPS call itself is the caller's, so this type performs no outside
/// call and holds no state.
pub struct RealRepoReader {}

impl RealRepoReader {
    /// The URL a transport must GET to fetch the metadata of `repo`.
    pub fn request_url(&self, repo: &str) -> (r: String)
        ensures
            r@ == request_url_text(repo@),
    {
        let mut s = "https://api.github.com/repos/".to_owned();
        s.append(repo);
        proof {
            assert(s@ =~= request_url_text(repo@));
        }
        s
    }

    /// Turns a transport outcome — the response body, or the transport
    /// failure's message — into the star count or the classified error.
    pub fn interpret_transport(&self, outcome: Result<String, String>) -> (r: Result<
        u32,
        ReaderError,
    >)
        ensures
            matches_model(r, transport_interpretation(outcome_view(outcome))),
    {
        match outcome {
            Ok(body) => parse_star_count(body.as_str()),
            Err(m) => Err(ReaderError::TransportError(m)),
        }
    }
}

/// Completes one analysis of `repo` from a transport outcome: exactly what
/// [`crate::analyser::RepoAnalyser::analyse_repo`] would produce were the
/// transport's behaviour the injected reader's. The caller sends the GET to
/// [`RealRepoReader::request_url`]`(repo)` and hands back the body it
/// received, or the failure's message.
pub fn analyse_fetched(repo: &str, outcome: Result<String, String>) -> (r: Result<
    String,
    ReaderError,
>)
    requires
        repo@.len() > 0,
    ensures
        analysis_matches(r, spec_analysis(transport_interpretation(outcome_view(outcome)), repo@)),
{
    let reader = RealRepoReader {};
    let stars = match reader.interpret_transport(outcome) {
        Ok(n) => n,
        Err(e) => {
            return Err(e);
        },
    };
    Ok(format_analysis(repo, stars))
}

} // verus!
