//! The request of a lookup.

use vstd::prelude::*;
use crate::url::{api_url, spec_api_url};

verus! {

/// The one request of a lookup: a GET of `url` without a body, whose
/// `User-Agent` header holds `user_agent`.
#[derive(Clone, Debug, PartialEq, Eq)]
pub struct Request {
    pub url: String,
    pub user_agent: &'static str,
}

/// The name that a client gives for itself in the `User-Agent` header of
/// its request. The service turns away clients that give none.
pub fn user_agent() -> (r: &'static str)
    ensures
        r@ == "gh-repo-info"@,
{
    "gh-repo-info"
}

/// The request that looks up the repository `repo` of `owner`: the
/// repository's endpoint, asked for under the client's name.
pub fn request(owner: &str, repo: &str) -> (r: Request)
    ensures
        r.url@ == spec_api_url(owner@, repo@),
        r.user_agent@ == "gh-repo-info"@,
{
    Request { url: api_url(owner, repo), user_agent: user_agent() }
}

} // verus!
