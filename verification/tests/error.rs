use gh_repo_info::error::{decimal_text, DecodeCause, GhRepoInfoError};

#[test]
fn numbers_are_written_in_decimal() {
    assert_eq!(decimal_text(0), "0");
    assert_eq!(decimal_text(7), "7");
    assert_eq!(decimal_text(10), "10");
    assert_eq!(decimal_text(404), "404");
    assert_eq!(decimal_text(1000), "1000");
    assert_eq!(decimal_text(65535), "65535");
    for n in [9u16, 99, 100, 299, 12345] {
        assert_eq!(decimal_text(n), n.to_string());
    }
}

#[test]
fn messages_name_the_failure() {
    assert_eq!(
        GhRepoInfoError::SendRequest("connection refused".to_string()).message(),
        "send request failed: connection refused"
    );
    assert_eq!(
        GhRepoInfoError::ResponseNonSuccess(404).message(),
        "response non-successful: 404"
    );
    assert_eq!(
        GhRepoInfoError::DeserializeFailed(DecodeCause::Syntax).message(),
        "deserialization failed: the body is not a JSON document"
    );
    assert_eq!(
        GhRepoInfoError::DeserializeFailed(DecodeCause::Schema).message(),
        "deserialization failed: the body does not describe a repository"
    );
}

#[test]
fn causes_have_messages() {
    assert_eq!(DecodeCause::Syntax.message(), "the body is not a JSON document");
    assert_eq!(DecodeCause::Schema.message(), "the body does not describe a repository");
}

#[test]
fn only_chained_failures_have_a_source() {
    assert_eq!(
        GhRepoInfoError::SendRequest("timed out".to_string()).source(),
        Some("timed out".to_string())
    );
    assert_eq!(GhRepoInfoError::ResponseNonSuccess(500).source(), None);
    assert_eq!(
        GhRepoInfoError::DeserializeFailed(DecodeCause::Schema).source(),
        Some("the body does not describe a repository".to_string())
    );
    for cause in [DecodeCause::Syntax, DecodeCause::Schema] {
        let error = GhRepoInfoError::DeserializeFailed(cause);
        assert_eq!(error.message(), format!("deserialization failed: {}", error.source().unwrap()));
    }
}
