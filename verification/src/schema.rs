//! The repository record and how a JSON document decodes to it.

use vstd::prelude::*;
use vstd::string::*;
use crate::json::{
    as_items, as_text, count_at, flag_at, json_items, json_member, json_text, member, read_count,
    read_flag, read_text, text_at,
};

verus! {

/// The kind of account that owns a repository.
#[derive(Clone, Copy, Debug, PartialEq, Eq, Structural)]
pub enum GhRepoOwnerKind {
    User,
    Organization,
}

/// The account that owns a repository.
#[derive(Clone, Debug, PartialEq, Eq)]
pub struct GhRepoOwnerInfo {
    /// The account's login.
    pub name: String,
    pub url: String,
    pub avatar_url: String,
    pub kind: GhRepoOwnerKind,
}

/// The license of a repository.
#[derive(Clone, Debug, PartialEq, Eq)]
pub struct GhRepoLicenseInfo {
    /// The short identifier, such as `mit`.
    pub key: String,
    /// The license's full name.
    pub name: String,
}

/// One repository, as the service described it at the time of the request.
#[derive(Clone, Debug, PartialEq, Eq)]
pub struct GhRepoInfo {
    pub name: String,
    pub full_name: String,
    pub url: String,
    pub owner: GhRepoOwnerInfo,
    pub stargazers_count: usize,
    pub subscribers_count: usize,
    pub forks_count: usize,
    /// Open issues and open pull requests together.
    pub open_issues_count: usize,
    pub is_fork: bool,
    pub is_archived: bool,
    pub default_branch: String,
    pub homepage: String,
    pub description: String,
    pub license: GhRepoLicenseInfo,
    pub language: String,
    pub topics: Vec<String>,
}

/// An owner as a mathematical value.
pub struct OwnerModel {
    pub name: Seq<char>,
    pub url: Seq<char>,
    pub avatar_url: Seq<char>,
    pub kind: GhRepoOwnerKind,
}

/// A license as a mathematical value.
pub struct LicenseModel {
    pub key: Seq<char>,
    pub name: Seq<char>,
}

/// A repository as a mathematical value.
pub struct RepoModel {
    pub name: Seq<char>,
    pub full_name: Seq<char>,
    pub url: Seq<char>,
    pub owner: OwnerModel,
    pub stargazers_count: usize,
    pub subscribers_count: usize,
    pub forks_count: usize,
    pub open_issues_count: usize,
    pub is_fork: bool,
    pub is_archived: bool,
    pub default_branch: Seq<char>,
    pub homepage: Seq<char>,
    pub description: Seq<char>,
    pub license: LicenseModel,
    pub language: Seq<char>,
    pub topics: Seq<Seq<char>>,
}

/// The texts of a list of strings, in order.
pub open spec fn texts(list: Seq<String>) -> Seq<Seq<char>> {
    Seq::new(list.len(), |i: int| list[i]@)
}

impl View for GhRepoOwnerInfo {
    type V = OwnerModel;

    open spec fn view(&self) -> OwnerModel {
        OwnerModel {
            name: self.name@,
            url: self.url@,
            avatar_url: self.avatar_url@,
            kind: self.kind,
        }
    }
}

impl View for GhRepoLicenseInfo {
    type V = LicenseModel;

    open spec fn view(&self) -> LicenseModel {
        LicenseModel { key: self.key@, name: self.name@ }
    }
}

impl View for GhRepoInfo {
    type V = RepoModel;

    open spec fn view(&self) -> RepoModel {
        RepoModel {
            name: self.name@,
            full_name: self.full_name@,
            url: self.url@,
            owner: self.owner@,
            stargazers_count: self.stargazers_count,
            subscribers_count: self.subscribers_count,
            forks_count: self.forks_count,
            open_issues_count: self.open_issues_count,
            is_fork: self.is_fork,
            is_archived: self.is_archived,
            default_branch: self.default_branch@,
            homepage: self.homepage@,
            description: self.description@,
            license: self.license@,
            language: self.language@,
            topics: texts(self.topics@),
        }
    }
}

/// The owner kind that a text names: one of the two known names, and
/// nothing else.
pub open spec fn kind_of(text: Seq<char>) -> Option<GhRepoOwnerKind> {
    if text == "User"@ {
        Some(GhRepoOwnerKind::User)
    } else if text == "Organization"@ {
        Some(GhRepoOwnerKind::Organization)
    } else {
        None
    }
}

/// The owner that a JSON value describes: an object with the strings
/// `login`, `html_url`, `avatar_url` and a `type` that names a known kind.
pub open spec fn owner_of(value: serde_json::Value) -> Option<OwnerModel> {
    if text_at(value, "login"@) is Some && text_at(value, "html_url"@) is Some && text_at(
        value,
        "avatar_url"@,
    ) is Some && text_at(value, "type"@) is Some && kind_of(text_at(value, "type"@).unwrap())
        is Some {
        Some(
            OwnerModel {
                name: text_at(value, "login"@).unwrap(),
                url: text_at(value, "html_url"@).unwrap(),
                avatar_url: text_at(value, "avatar_url"@).unwrap(),
                kind: kind_of(text_at(value, "type"@).unwrap()).unwrap(),
            },
        )
    } else {
        None
    }
}

/// The license that a JSON value describes: an object with the strings
/// `key` and `name`.
pub open spec fn license_of(value: serde_json::Value) -> Option<LicenseModel> {
    if text_at(value, "key"@) is Some && text_at(value, "name"@) is Some {
        Some(
            LicenseModel {
                key: text_at(value, "key"@).unwrap(),
                name: text_at(value, "name"@).unwrap(),
            },
        )
    } else {
        None
    }
}

/// The topics that a JSON value lists: an array of strings, in its order.
pub open spec fn topics_of(value: serde_json::Value) -> Option<Seq<Seq<char>>> {
    match json_items(value) {
        Some(items) => if forall|i: int|
            0 <= i < items.len() ==> (#[trigger] json_text(items[i])) is Some {
            Some(Seq::new(items.len(), |i: int| json_text(items[i]).unwrap()))
        } else {
            None
        },
        None => None,
    }
}

/// Whether a JSON value has every member of a repository, each of its type.
pub open spec fn is_repo(value: serde_json::Value) -> bool {
    &&& text_at(value, "name"@) is Some
    &&& text_at(value, "full_name"@) is Some
    &&& text_at(value, "html_url"@) is Some
    &&& json_member(value, "owner"@) is Some
    &&& owner_of(json_member(value, "owner"@).unwrap()) is Some
    &&& count_at(value, "stargazers_count"@) is Some
    &&& count_at(value, "subscribers_count"@) is Some
    &&& count_at(value, "forks_count"@) is Some
    &&& count_at(value, "open_issues_count"@) is Some
    &&& flag_at(value, "fork"@) is Some
    &&& flag_at(value, "archived"@) is Some
    &&& text_at(value, "default_branch"@) is Some
    &&& text_at(value, "homepage"@) is Some
    &&& text_at(value, "description"@) is Some
    &&& json_member(value, "license"@) is Some
    &&& license_of(json_member(value, "license"@).unwrap()) is Some
    &&& text_at(value, "language"@) is Some
    &&& json_member(value, "topics"@) is Some
    &&& topics_of(json_member(value, "topics"@).unwrap()) is Some
}

/// The repository that a JSON value describes; `None` where a member is
/// missing, has another type, or the owner's kind is not a known one.
pub open spec fn repo_of(value: serde_json::Value) -> Option<RepoModel> {
    if is_repo(value) {
        Some(
            RepoModel {
                name: text_at(value, "name"@).unwrap(),
                full_name: text_at(value, "full_name"@).unwrap(),
                url: text_at(value, "html_url"@).unwrap(),
                owner: owner_of(json_member(value, "owner"@).unwrap()).unwrap(),
                stargazers_count: count_at(value, "stargazers_count"@).unwrap(),
                subscribers_count: count_at(value, "subscribers_count"@).unwrap(),
                forks_count: count_at(value, "forks_count"@).unwrap(),
                open_issues_count: count_at(value, "open_issues_count"@).unwrap(),
                is_fork: flag_at(value, "fork"@).unwrap(),
                is_archived: flag_at(value, "archived"@).unwrap(),
                default_branch: text_at(value, "default_branch"@).unwrap(),
                homepage: text_at(value, "homepage"@).unwrap(),
                description: text_at(value, "description"@).unwrap(),
                license: license_of(json_member(value, "license"@).unwrap()).unwrap(),
                language: text_at(value, "language"@).unwrap(),
                topics: topics_of(json_member(value, "topics"@).unwrap()).unwrap(),
            },
        )
    } else {
        None
    }
}

/// Reads an owner kind from its name.
pub fn parse_kind(text: &str) -> (r: Option<GhRepoOwnerKind>)
    ensures
        r == kind_of(text@),
{
    let given = String::from_str(text);
    if given == String::from_str("User") {
        Some(GhRepoOwnerKind::User)
    } else if given == String::from_str("Organization") {
        Some(GhRepoOwnerKind::Organization)
    } else {
        None
    }
}

/// Decodes an owner.
pub fn decode_owner(value: &serde_json::Value) -> (r: Option<GhRepoOwnerInfo>)
    ensures
        r.is_some() == owner_of(*value).is_some(),
        r matches Some(owner) ==> owner_of(*value) == Some(owner@),
{
    let name = read_text(value, "login")?;
    let url = read_text(value, "html_url")?;
    let avatar_url = read_text(value, "avatar_url")?;
    let kind_name = read_text(value, "type")?;
    let kind = parse_kind(kind_name.as_str())?;
    Some(GhRepoOwnerInfo { name, url, avatar_url, kind })
}

/// Decodes a license.
pub fn decode_license(value: &serde_json::Value) -> (r: Option<GhRepoLicenseInfo>)
    ensures
        r.is_some() == license_of(*value).is_some(),
        r matches Some(license) ==> license_of(*value) == Some(license@),
{
    let key = read_text(value, "key")?;
    let name = read_text(value, "name")?;
    Some(GhRepoLicenseInfo { key, name })
}

/// Decodes a list of topics.
pub fn decode_topics(value: &serde_json::Value) -> (r: Option<Vec<String>>)
    ensures
        r.is_some() == topics_of(*value).is_some(),
        r matches Some(topics) ==> topics_of(*value) == Some(texts(topics@)),
{
    let items = as_items(value)?;
    let mut topics: Vec<String> = Vec::new();
    let mut i: usize = 0;
    while i < items.len()
        invariant
            json_items(*value) == Some(items@),
            i <= items.len(),
            topics.len() == i,
            forall|j: int| 0 <= j < i ==> (#[trigger] json_text(items@[j])) == Some(topics@[j]@),
        decreases items.len() - i,
    {
        match as_text(&items[i]) {
            Some(text) => topics.push(text.to_owned()),
            None => {
                return None;
            },
        }
        i += 1;
    }
    assert(texts(topics@) =~= topics_of(*value).unwrap());
    Some(topics)
}

/// Decodes a repository from a JSON value. It succeeds exactly on the
/// values that have every member of a repository, and then returns the
/// record with those members.
pub fn decode_repo(value: &serde_json::Value) -> (r: Option<GhRepoInfo>)
    ensures
        r.is_some() == repo_of(*value).is_some(),
        r matches Some(info) ==> repo_of(*value) == Some(info@),
{
    let name = read_text(value, "name")?;
    let full_name = read_text(value, "full_name")?;
    let url = read_text(value, "html_url")?;
    let owner = decode_owner(member(value, "owner")?)?;
    let stargazers_count = read_count(value, "stargazers_count")?;
    let subscribers_count = read_count(value, "subscribers_count")?;
    let forks_count = read_count(value, "forks_count")?;
    let open_issues_count = read_count(value, "open_issues_count")?;
    let is_fork = read_flag(value, "fork")?;
    let is_archived = read_flag(value, "archived")?;
    let default_branch = read_text(value, "default_branch")?;
    let homepage = read_text(value, "homepage")?;
    let description = read_text(value, "description")?;
    let license = decode_license(member(value, "license")?)?;
    let language = read_text(value, "language")?;
    let topics = decode_topics(member(value, "topics")?)?;
    Some(
        GhRepoInfo {
            name,
            full_name,
            url,
            owner,
            stargazers_count,
            subscribers_count,
            forks_count,
            open_issues_count,
            is_fork,
            is_archived,
            default_branch,
            homepage,
            description,
            license,
            language,
            topics,
        },
    )
}

} // verus!
