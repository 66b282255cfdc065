//! Per-provider credentials, loaded once at startup and passed by reference
//! into the drivers. Reading the credential file itself is the embedding
//! program's business; these are the plain records it fills in.
use vstd::prelude::*;

verus! {

pub struct BitbucketConfig {
    pub app_id: String,
    pub app_password: String,
    pub client_id: String,
    pub client_secret: String,
}

pub struct GitlabConfig {
    pub token: String,
}

pub struct GithubConfig {
    pub user: String,
    pub token: String,
}

/// The full credential record: one optional section per provider. A crawl for
/// a provider whose section is absent fails before any request is made.
pub struct Config {
    pub gitlab: Option<GitlabConfig>,
    pub bitbucket: Option<BitbucketConfig>,
    pub github: Option<GithubConfig>,
}

/// Why the credential record could not be produced.
#[derive(Debug, Clone, PartialEq, Eq, Structural)]
pub enum LoadError {
    FileNotFound,
    HomeEnvNotFound,
    ParseError,
}

} // verus!
