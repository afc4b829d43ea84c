//! Query bookkeeping messages exchanged over the network: the result a
//! worker returns for a query, the condensed form kept once the query is
//! finished — the payload replaced by its size and SHA3-256 digest — and the
//! protocol version a ping declares.

use vstd::prelude::*;

verus! {

/// The SHA3-256 digest of a byte string.
pub uninterp spec fn sha3_256_of(data: Seq<u8>) -> Seq<u8>;

/// Relies on `sha3::Sha3_256` through `Digest::digest`: the digest is
/// 32 bytes and a function of the input bytes alone.
#[verifier::external_body]
fn sha3_256_digest(data: &Vec<u8>) -> (r: Vec<u8>)
    ensures
        r@ == sha3_256_of(data@),
        r@.len() == 32,
{
    <sha3::Sha3_256 as sha3::Digest>::digest(data.as_slice()).to_vec()
}

/// A query payload condensed to its size and SHA3-256 digest.
pub struct SizeAndHash {
    pub size: Option<u32>,
    pub sha3_256: Vec<u8>,
}

impl SizeAndHash {
    /// Condenses a payload. Payloads are far smaller than 4 GiB; the size
    /// field is 32 bits wide, so larger inputs are ruled out.
    pub fn compute(data: &Vec<u8>) -> (r: SizeAndHash)
        requires
            data@.len() <= u32::MAX,
        ensures
            r.size == Some(data@.len() as u32),
            r.sha3_256@ == sha3_256_of(data@),
            r.sha3_256@.len() == 32,
    {
        let size = data.len() as u32;
        let hash = sha3_256_digest(data);
        SizeAndHash { size: Some(size), sha3_256: hash }
    }
}

/// The major, minor and patch parts a version string parses to under
/// semantic-versioning rules, or `None` when it does not parse.
pub uninterp spec fn semver_parts(s: Seq<char>) -> Option<(u64, u64, u64)>;

/// Relies on `str::parse::<semver::Version>`: whether and to what a version
/// string parses is a function of its characters alone.
#[verifier::external_body]
fn parse_semver(s: &str) -> (r: Option<(u64, u64, u64)>)
    ensures
        r == semver_parts(s@),
{
    s.parse::<semver::Version>().ok().map(|v| (v.major, v.minor, v.patch))
}

/// A version under semantic-versioning rules.
#[derive(Clone, Copy, Debug, PartialEq, Eq, Structural)]
pub struct SemVersion {
    pub major: u64,
    pub minor: u64,
    pub patch: u64,
}

/// The liveness message a peer broadcasts, carrying the protocol version it
/// declares.
pub struct Ping {
    pub version: Option<String>,
}

impl Ping {
    /// The declared version, `0.0.1` when none is declared or it does not
    /// parse.
    pub fn sem_version(&self) -> (r: SemVersion)
        ensures
            r == (match self.version {
                Some(v) => match semver_parts(v@) {
                    Some(parts) => (SemVersion {
                        major: parts.0,
                        minor: parts.1,
                        patch: parts.2,
                    }),
                    None => (SemVersion { major: 0, minor: 0, patch: 1 }),
                },
                None => (SemVersion { major: 0, minor: 0, patch: 1 }),
            }),
    {
        match &self.version {
            Some(v) => match parse_semver(v.as_str()) {
                Some(parts) => SemVersion { major: parts.0, minor: parts.1, patch: parts.2 },
                None => SemVersion { major: 0, minor: 0, patch: 1 },
            },
            None => SemVersion { major: 0, minor: 0, patch: 1 },
        }
    }
}

/// The payload and execution plan a successfully served query returned.
pub struct OkResult {
    pub data: Vec<u8>,
    pub exec_plan: Option<Vec<u8>>,
}

/// The outcome a worker reports for one query.
pub enum QueryOutcome {
    Served(OkResult),
    BadRequest(String),
    ServerError(String),
    NoAllocation,
    Timeout,
}

/// The outcome kept once a query is finished: the payload of a served query
/// is condensed to its size and digest, every other outcome is kept as is.
pub enum QueryFinished {
    Served(SizeAndHash),
    BadRequest(String),
    ServerError(String),
    NoAllocation,
    Timeout,
}

/// Condenses a query outcome into its finished form. The payload of a served
/// query is far smaller than 4 GiB; see `SizeAndHash::compute`.
pub fn finished_of_outcome(result: &QueryOutcome) -> (r: QueryFinished)
    requires
        result matches QueryOutcome::Served(ok) ==> ok.data@.len() <= u32::MAX,
    ensures
        (match *result {
            QueryOutcome::Served(ref ok) => r matches QueryFinished::Served(sh) && sh.size == Some(
                ok.data@.len() as u32,
            ) && sh.sha3_256@ == sha3_256_of(ok.data@),
            QueryOutcome::BadRequest(ref e) => r matches QueryFinished::BadRequest(f) && f@ == e@,
            QueryOutcome::ServerError(ref e) => r matches QueryFinished::ServerError(f) && f@ == e@,
            QueryOutcome::NoAllocation => r is NoAllocation,
            QueryOutcome::Timeout => r is Timeout,
        }),
{
    match result {
        QueryOutcome::Served(ok) => QueryFinished::Served(SizeAndHash::compute(&ok.data)),
        QueryOutcome::BadRequest(e) => QueryFinished::BadRequest(e.clone()),
        QueryOutcome::ServerError(e) => QueryFinished::ServerError(e.clone()),
        QueryOutcome::NoAllocation => QueryFinished::NoAllocation,
        QueryOutcome::Timeout => QueryFinished::Timeout,
    }
}

/// A query's identifier together with its outcome, as reported back to the
/// gateway that issued the query.
pub struct QueryResult {
    pub query_id: String,
    pub result: Option<QueryOutcome>,
}

impl QueryResult {
    /// Wraps an outcome under its query identifier.
    pub fn new(query_id: String, result: QueryOutcome) -> (r: QueryResult)
        ensures
            r.query_id@ == query_id@,
            r.result == Some(result),
    {
        QueryResult { query_id, result: Some(result) }
    }
}

} // verus!
