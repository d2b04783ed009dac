//! Metadata of one hosted repository: the request that asks for it, the
//! record that the service's JSON answer decodes to, and the failures of a
//! lookup. The network call itself is left to the caller, who sends what
//! [`request::request`] describes and hands the status code and the body of
//! the answer to [`response::read_response`].

pub mod error;
pub mod json;
pub mod request;
pub mod response;
pub mod schema;
pub mod url;

pub use crate::error::{DecodeCause, GhRepoInfoError};
pub use crate::schema::{GhRepoInfo, GhRepoLicenseInfo, GhRepoOwnerInfo, GhRepoOwnerKind};
