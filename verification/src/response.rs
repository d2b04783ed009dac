//! From the server's answer to the result of a lookup.

use vstd::prelude::*;
use crate::error::{DecodeCause, GhRepoInfoError};
use crate::json::{json_document, parse};
use crate::schema::{decode_repo, repo_of, GhRepoInfo, RepoModel};

verus! {

/// Whether a status code reports success.
pub open spec fn is_success(status: u16) -> bool {
    200 <= status <= 299
}

/// What a body decodes to: the repository that its JSON document describes.
pub open spec fn decoded(body: Seq<u8>) -> Result<RepoModel, DecodeCause> {
    match json_document(body) {
        None => Err(DecodeCause::Syntax),
        Some(value) => match repo_of(value) {
            Some(repo) => Ok(repo),
            None => Err(DecodeCause::Schema),
        },
    }
}

/// The result of a lookup that the server answered with `status` and
/// `body`. The body counts only under a status that reports success.
pub open spec fn outcome(status: u16, body: Seq<u8>) -> Result<RepoModel, GhRepoInfoError> {
    if !is_success(status) {
        Err(GhRepoInfoError::ResponseNonSuccess(status))
    } else {
        match decoded(body) {
            Ok(repo) => Ok(repo),
            Err(cause) => Err(GhRepoInfoError::DeserializeFailed(cause)),
        }
    }
}

/// A result with its repository taken as a mathematical value.
pub open spec fn result_model(r: Result<GhRepoInfo, GhRepoInfoError>) -> Result<
    RepoModel,
    GhRepoInfoError,
> {
    match r {
        Ok(info) => Ok(info@),
        Err(error) => Err(error),
    }
}

/// Whether a status code reports success.
pub fn status_is_success(status: u16) -> (r: bool)
    ensures
        r == is_success(status),
{
    200 <= status && status <= 299
}

/// Passes a status code that reports success, and reports any other with
/// the code. A caller that gets the failure has no use for the body.
pub fn check_status(status: u16) -> (r: Result<(), GhRepoInfoError>)
    ensures
        is_success(status) ==> r is Ok,
        !is_success(status) ==> r == Err::<(), GhRepoInfoError>(
            GhRepoInfoError::ResponseNonSuccess(status),
        ),
{
    if status_is_success(status) {
        Ok(())
    } else {
        Err(GhRepoInfoError::ResponseNonSuccess(status))
    }
}

/// Decodes the body of an answer.
pub fn decode_body(body: &[u8]) -> (r: Result<GhRepoInfo, DecodeCause>)
    ensures
        (match r {
            Ok(info) => decoded(body@) == Ok::<RepoModel, DecodeCause>(info@),
            Err(cause) => decoded(body@) == Err::<RepoModel, DecodeCause>(cause),
        }),
{
    match parse(body) {
        Err(_) => Err(DecodeCause::Syntax),
        Ok(value) => match decode_repo(&value) {
            Some(info) => Ok(info),
            None => Err(DecodeCause::Schema),
        },
    }
}

/// Turns the server's answer into the result of the lookup. A status code
/// outside the success range is reported with the code, and the body is
/// then not looked at; otherwise the body is decoded.
pub fn read_response(status: u16, body: &[u8]) -> (r: Result<GhRepoInfo, GhRepoInfoError>)
    ensures
        result_model(r) == outcome(status, body@),
{
    match check_status(status) {
        Err(error) => {
            return Err(error);
        },
        Ok(_) => {},
    }
    match decode_body(body) {
        Ok(info) => Ok(info),
        Err(cause) => Err(GhRepoInfoError::DeserializeFailed(cause)),
    }
}

/// Under a status code outside the success range the result is that code,
/// whatever the body holds.
pub proof fn lemma_failure_ignores_body(status: u16, first: Seq<u8>, second: Seq<u8>)
    requires
        !is_success(status),
    ensures
        outcome(status, first) == outcome(status, second),
        outcome(status, first) == Err::<RepoModel, GhRepoInfoError>(
            GhRepoInfoError::ResponseNonSuccess(status),
        ),
{
}

/// A lookup never ends in a transport failure once the server has answered,
/// and it ends in a repository only under a status that reports success.
pub proof fn lemma_outcome_kinds(status: u16, body: Seq<u8>)
    ensures
        !(outcome(status, body) matches Err(GhRepoInfoError::SendRequest(_))),
        outcome(status, body) is Ok ==> is_success(status),
        outcome(status, body) matches Err(GhRepoInfoError::DeserializeFailed(_)) ==> is_success(
            status,
        ),
{
}

/// Two lookups that the server answered alike end alike: whichever way the
/// answer was fetched, results read from the same status code and the same
/// body are the same error or describe the same repository.
pub proof fn lemma_same_answer_same_result(
    first: Result<GhRepoInfo, GhRepoInfoError>,
    second: Result<GhRepoInfo, GhRepoInfoError>,
    status: u16,
    body: Seq<u8>,
)
    requires
        result_model(first) == outcome(status, body),
        result_model(second) == outcome(status, body),
    ensures
        result_model(first) == result_model(second),
        first is Ok <==> second is Ok,
        first matches Ok(one) ==> second matches Ok(other) && one@ == other@,
{
}

} // verus!
