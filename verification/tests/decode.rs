use gh_repo_info::error::{DecodeCause, GhRepoInfoError};
use gh_repo_info::json::{read_count, read_flag, read_text};
use gh_repo_info::request::{request, user_agent};
use gh_repo_info::response::{check_status, decode_body, read_response, status_is_success};
use gh_repo_info::schema::{
    decode_license, decode_owner, decode_repo, decode_topics, parse_kind, GhRepoInfo,
    GhRepoLicenseInfo, GhRepoOwnerInfo, GhRepoOwnerKind,
};

fn owner_json(kind: &str) -> String {
    format!(
        "{{\"login\": \"rust-lang\", \"html_url\": \"https://github.com/rust-lang\", \
         \"avatar_url\": \"https://avatars.githubusercontent.com/u/5430905?v=4\", \
         \"type\": {kind}}}"
    )
}

fn body_with(owner: &str, stars: &str, license: &str, topics: &str) -> String {
    format!(
        "{{\"name\": \"rust\", \"full_name\": \"rust-lang/rust\", \
         \"html_url\": \"https://github.com/rust-lang/rust\", \"owner\": {owner}, \
         \"stargazers_count\": {stars}, \"subscribers_count\": 1489, \"forks_count\": 10830, \
         \"open_issues_count\": 9549, \"fork\": false, \"archived\": false, \
         \"default_branch\": \"master\", \"homepage\": \"https://www.rust-lang.org\", \
         \"description\": \"Empowering everyone to build reliable and efficient software.\", \
         {license}\"language\": \"Rust\", \"topics\": {topics}, \"id\": 724712, \"private\": false}}"
    )
}

const LICENSE: &str = "\"license\": {\"key\": \"other\", \"name\": \"Other\"}, ";

const TOPICS: &str = "[\"compiler\", \"hacktoberfest\", \"language\", \"rust\"]";

fn sample_body() -> String {
    body_with(&owner_json("\"Organization\""), "82127", LICENSE, TOPICS)
}

fn sample_repo() -> GhRepoInfo {
    GhRepoInfo {
        name: "rust".to_string(),
        full_name: "rust-lang/rust".to_string(),
        url: "https://github.com/rust-lang/rust".to_string(),
        owner: GhRepoOwnerInfo {
            name: "rust-lang".to_string(),
            url: "https://github.com/rust-lang".to_string(),
            avatar_url: "https://avatars.githubusercontent.com/u/5430905?v=4".to_string(),
            kind: GhRepoOwnerKind::Organization,
        },
        stargazers_count: 82127,
        subscribers_count: 1489,
        forks_count: 10830,
        open_issues_count: 9549,
        is_fork: false,
        is_archived: false,
        default_branch: "master".to_string(),
        homepage: "https://www.rust-lang.org".to_string(),
        description: "Empowering everyone to build reliable and efficient software.".to_string(),
        license: GhRepoLicenseInfo { key: "other".to_string(), name: "Other".to_string() },
        language: "Rust".to_string(),
        topics: vec![
            "compiler".to_string(),
            "hacktoberfest".to_string(),
            "language".to_string(),
            "rust".to_string(),
        ],
    }
}

fn schema_failure() -> Result<GhRepoInfo, GhRepoInfoError> {
    Err(GhRepoInfoError::DeserializeFailed(DecodeCause::Schema))
}

#[test]
fn sample_body_decodes() {
    let repo = read_response(200, sample_body().as_bytes()).unwrap();
    assert_eq!(repo.name, "rust");
    assert_eq!(repo.owner.kind, GhRepoOwnerKind::Organization);
    assert!(!repo.is_fork);
    assert_eq!(repo, sample_repo());
}

#[test]
fn members_are_read_under_their_wire_names() {
    let body = "{\"name\": \"n\", \"full_name\": \"o/n\", \"html_url\": \"U\", \
        \"url\": \"not this\", \"owner\": {\"login\": \"o\", \"name\": \"not this\", \
        \"html_url\": \"OU\", \"avatar_url\": \"A\", \"type\": \"User\", \"kind\": \"Organization\"}, \
        \"stargazers_count\": 1, \"subscribers_count\": 2, \"forks_count\": 3, \
        \"open_issues_count\": 4, \"fork\": true, \"is_fork\": false, \"archived\": true, \
        \"is_archived\": false, \"default_branch\": \"main\", \"homepage\": \"\", \
        \"description\": \"\", \"license\": {\"key\": \"mit\", \"name\": \"MIT License\"}, \
        \"language\": \"C\", \"topics\": []}";
    let repo = read_response(200, body.as_bytes()).unwrap();
    assert_eq!(repo.url, "U");
    assert_eq!(repo.owner.name, "o");
    assert_eq!(repo.owner.url, "OU");
    assert_eq!(repo.owner.avatar_url, "A");
    assert_eq!(repo.owner.kind, GhRepoOwnerKind::User);
    assert_eq!(
        (repo.stargazers_count, repo.subscribers_count, repo.forks_count, repo.open_issues_count),
        (1, 2, 3, 4)
    );
    assert!(repo.is_fork);
    assert!(repo.is_archived);
    assert_eq!(repo.homepage, "");
    assert_eq!(repo.description, "");
    assert_eq!(repo.license.key, "mit");
    assert_eq!(repo.license.name, "MIT License");
    assert!(repo.topics.is_empty());
}

#[test]
fn status_404_is_reported_and_the_body_is_not_read() {
    let expected: Result<GhRepoInfo, GhRepoInfoError> =
        Err(GhRepoInfoError::ResponseNonSuccess(404));
    assert_eq!(read_response(404, sample_body().as_bytes()), expected);
    assert_eq!(read_response(404, b"{\"message\": \"Not Found\"}"), expected);
    assert_eq!(read_response(404, b"\xff not json"), expected);
    assert_eq!(read_response(404, b""), expected);
}

#[test]
fn success_is_200_to_299() {
    for status in [200u16, 201, 204, 299] {
        assert!(status_is_success(status));
        assert_eq!(check_status(status), Ok(()));
        assert_eq!(read_response(status, sample_body().as_bytes()), Ok(sample_repo()));
    }
    for status in [0u16, 100, 199, 300, 301, 403, 500, 65535] {
        assert!(!status_is_success(status));
        assert_eq!(check_status(status), Err(GhRepoInfoError::ResponseNonSuccess(status)));
        assert_eq!(
            read_response(status, sample_body().as_bytes()),
            Err(GhRepoInfoError::ResponseNonSuccess(status))
        );
    }
}

#[test]
fn missing_license_is_a_decode_failure() {
    let body = body_with(&owner_json("\"Organization\""), "82127", "", TOPICS);
    assert_eq!(read_response(200, body.as_bytes()), schema_failure());
}

#[test]
fn null_license_is_a_decode_failure() {
    let body = body_with(&owner_json("\"User\""), "1", "\"license\": null, ", TOPICS);
    assert_eq!(read_response(200, body.as_bytes()), schema_failure());
}

#[test]
fn unknown_owner_kind_is_a_decode_failure() {
    let body = body_with(&owner_json("\"Bot\""), "82127", LICENSE, TOPICS);
    assert_eq!(read_response(200, body.as_bytes()), schema_failure());
    let body = body_with(&owner_json("\"user\""), "82127", LICENSE, TOPICS);
    assert_eq!(read_response(200, body.as_bytes()), schema_failure());
    let body = body_with(&owner_json("7"), "82127", LICENSE, TOPICS);
    assert_eq!(read_response(200, body.as_bytes()), schema_failure());
}

#[test]
fn user_owner_kind_decodes() {
    let body = body_with(&owner_json("\"User\""), "82127", LICENSE, TOPICS);
    let repo = read_response(200, body.as_bytes()).unwrap();
    assert_eq!(repo.owner.kind, GhRepoOwnerKind::User);
}

#[test]
fn counts_must_be_non_negative_integers() {
    for stars in ["-1", "1.5", "\"7\"", "null", "true", "18446744073709551616"] {
        let body = body_with(&owner_json("\"User\""), stars, LICENSE, TOPICS);
        assert_eq!(read_response(200, body.as_bytes()), schema_failure());
    }
    let body = body_with(&owner_json("\"User\""), "0", LICENSE, TOPICS);
    assert_eq!(read_response(200, body.as_bytes()).unwrap().stargazers_count, 0);
}

#[test]
fn topics_must_be_a_list_of_strings() {
    for topics in ["[\"a\", 1]", "\"a\"", "null", "{}", "[[\"a\"]]"] {
        let body = body_with(&owner_json("\"User\""), "1", LICENSE, topics);
        assert_eq!(read_response(200, body.as_bytes()), schema_failure());
    }
    let body = body_with(&owner_json("\"User\""), "1", LICENSE, "[\"b\", \"a\", \"b\"]");
    assert_eq!(read_response(200, body.as_bytes()).unwrap().topics, ["b", "a", "b"]);
}

#[test]
fn a_body_that_is_not_json_is_a_syntax_failure() {
    for body in ["", "not json", "{\"name\": \"rust\"", "{} trailing", "\u{feff}{}"] {
        assert_eq!(
            read_response(200, body.as_bytes()),
            Err(GhRepoInfoError::DeserializeFailed(DecodeCause::Syntax))
        );
        assert_eq!(decode_body(body.as_bytes()), Err(DecodeCause::Syntax));
    }
    assert_eq!(decode_body(b"\"\xff\""), Err(DecodeCause::Syntax));
}

#[test]
fn a_json_value_that_is_no_repository_is_a_schema_failure() {
    for body in ["{}", "[]", "null", "7", "\"rust\"", "{\"name\": \"rust\"}"] {
        assert_eq!(decode_body(body.as_bytes()), Err(DecodeCause::Schema));
    }
    assert_eq!(decode_body(sample_body().as_bytes()), Ok(sample_repo()));
}

#[test]
fn the_same_answer_gives_the_same_result() {
    let body = sample_body();
    assert_eq!(read_response(200, body.as_bytes()), read_response(200, body.as_bytes()));
    assert_eq!(read_response(500, body.as_bytes()), read_response(500, b"other"));
    assert_eq!(read_response(200, b"{"), read_response(200, b"{"));
}

#[test]
fn lookups_do_not_share_state() {
    let rust = sample_body();
    let other = "{\"name\": \"linux\", \"full_name\": \"torvalds/linux\", \"html_url\": \"U\", \
        \"owner\": {\"login\": \"torvalds\", \"html_url\": \"OU\", \"avatar_url\": \"A\", \
        \"type\": \"User\"}, \"stargazers_count\": 1, \"subscribers_count\": 2, \
        \"forks_count\": 3, \"open_issues_count\": 4, \"fork\": false, \"archived\": false, \
        \"default_branch\": \"master\", \"homepage\": \"\", \"description\": \"kernel\", \
        \"license\": {\"key\": \"other\", \"name\": \"Other\"}, \"language\": \"C\", \
        \"topics\": []}";
    let first = read_response(200, rust.as_bytes()).unwrap();
    let second = read_response(200, other.as_bytes()).unwrap();
    let failed = read_response(404, other.as_bytes());
    assert_eq!(first, sample_repo());
    assert_eq!(second.name, "linux");
    assert_eq!(second.owner.kind, GhRepoOwnerKind::User);
    assert_eq!(failed, Err(GhRepoInfoError::ResponseNonSuccess(404)));
    assert_eq!(read_response(200, rust.as_bytes()).unwrap(), first);
}

#[test]
fn readers_take_members_by_type() {
    let value: serde_json::Value =
        serde_json::from_str("{\"s\": \"text\", \"n\": 42, \"b\": true, \"z\": null}").unwrap();
    assert_eq!(read_text(&value, "s"), Some("text".to_string()));
    assert_eq!(read_text(&value, "n"), None);
    assert_eq!(read_text(&value, "missing"), None);
    assert_eq!(read_count(&value, "n"), Some(42));
    assert_eq!(read_count(&value, "s"), None);
    assert_eq!(read_count(&value, "missing"), None);
    assert_eq!(read_flag(&value, "b"), Some(true));
    assert_eq!(read_flag(&value, "z"), None);
    assert_eq!(read_flag(&value, "missing"), None);
    let list: serde_json::Value = serde_json::from_str("[\"s\"]").unwrap();
    assert_eq!(read_text(&list, "s"), None);
}

#[test]
fn parts_decode_alone() {
    assert_eq!(parse_kind("User"), Some(GhRepoOwnerKind::User));
    assert_eq!(parse_kind("Organization"), Some(GhRepoOwnerKind::Organization));
    assert_eq!(parse_kind("Bot"), None);
    assert_eq!(parse_kind(""), None);
    let owner: serde_json::Value = serde_json::from_str(&owner_json("\"User\"")).unwrap();
    assert_eq!(decode_owner(&owner).unwrap().name, "rust-lang");
    assert_eq!(decode_license(&owner), None);
    let license: serde_json::Value =
        serde_json::from_str("{\"key\": \"mit\", \"name\": \"MIT License\"}").unwrap();
    assert_eq!(
        decode_license(&license),
        Some(GhRepoLicenseInfo { key: "mit".to_string(), name: "MIT License".to_string() })
    );
    assert_eq!(decode_owner(&license), None);
    let topics: serde_json::Value = serde_json::from_str(TOPICS).unwrap();
    assert_eq!(decode_topics(&topics).unwrap(), ["compiler", "hacktoberfest", "language", "rust"]);
    assert_eq!(decode_topics(&license), None);
    let repo: serde_json::Value = serde_json::from_str(&sample_body()).unwrap();
    assert_eq!(decode_repo(&repo), Some(sample_repo()));
    assert_eq!(decode_repo(&topics), None);
}

#[test]
fn the_client_names_itself() {
    assert_eq!(user_agent(), "gh-repo-info");
}

#[test]
fn a_request_asks_for_the_endpoint_under_the_clients_name() {
    let asked = request("rust-lang", "rust");
    assert_eq!(asked.url, "https://api.github.com/repos/rust-lang/rust");
    assert_eq!(asked.user_agent, "gh-repo-info");
    assert_eq!(request("a b", "c/d").url, "https://api.github.com/repos/a%20b/c%2Fd");
}

#[test]
fn the_records_are_found_at_the_root() {
    let kind: gh_repo_info::GhRepoOwnerKind = GhRepoOwnerKind::User;
    assert_eq!(kind, gh_repo_info::GhRepoOwnerKind::User);
    let error: gh_repo_info::GhRepoInfoError = GhRepoInfoError::ResponseNonSuccess(418);
    assert_eq!(error.message(), "response non-successful: 418");
}
