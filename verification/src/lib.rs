pub mod bitbucket;
pub mod config;
pub mod decode;
pub mod github;
pub mod gitlab;
pub mod json;
pub mod numbers;
pub mod text;

use vstd::prelude::*;

verus! {

/// Why a crawl stopped before completing: the selected provider has no
/// credentials, a transport-level fetch failed, a response body did not match
/// the expected shape, or the OAuth token exchange failed.
#[derive(Debug, Clone, PartialEq, Eq, Structural)]
pub enum CrawlError {
    ConfigMissing,
    Fetch,
    Parse,
    TokenExchange,
}

/// The incremental-persistence failure a batch sink may report. The drivers
/// treat it as best-effort: a failed write is the caller's to log and never
/// stops a crawl.
#[derive(Debug, Clone, PartialEq, Eq, Structural)]
pub struct SinkError;

/// Consumes each page's repository URLs as the page arrives, before they are
/// added to the crawl's accumulated result.
pub trait BatchSink {
    fn on_batch(&mut self, urls: &Vec<String>) -> Result<(), SinkError>;
}

} // verus!
