//! URL rendering: the path is exactly `{base}/{path}` and the query
//! parameters match the supplied filters, with the four fixed role
//! spellings.

use bitbucket::error::Error;
use bitbucket::repository::Role;
use bitbucket::requests::{RepositoriesRequest, RepositoryRequest};

const BASE: &str = "https://api.example.org/2.0";

#[test]
fn repositories_url_without_filters() {
    let url = RepositoriesRequest::all().to_url(BASE).unwrap();
    assert_eq!(url, "https://api.example.org/2.0/repositories");
}

#[test]
fn repositories_url_with_account() {
    let url = RepositoriesRequest::of_account("alice").to_url(BASE).unwrap();
    assert_eq!(url, "https://api.example.org/2.0/repositories/alice");
}

#[test]
fn repositories_url_role_spellings() {
    let cases = [
        (Role::Admin, "admin"),
        (Role::Contributor, "contributor"),
        (Role::Member, "member"),
        (Role::Owner, "owner"),
    ];
    for (role, spelling) in cases {
        let url = RepositoriesRequest::with_role(role).to_url(BASE).unwrap();
        assert_eq!(
            url,
            format!("https://api.example.org/2.0/repositories?role={}", spelling)
        );
    }
}

#[test]
fn repositories_url_with_account_and_role() {
    let url = RepositoriesRequest::of_account_with_role("team9", Role::Member)
        .to_url(BASE)
        .unwrap();
    assert_eq!(
        url,
        "https://api.example.org/2.0/repositories/team9?role=member"
    );
}

#[test]
fn repository_url_has_owner_and_slug_segments() {
    let url = RepositoryRequest::new("alice", "widget").to_url(BASE).unwrap();
    assert_eq!(
        url,
        "https://api.example.org/2.0/repositories/alice/widget"
    );
}

#[test]
fn unparseable_base_is_rejected_as_invalid_url() {
    let r = RepositoriesRequest::all().to_url("not a url at all");
    match r {
        Err(Error::InvalidUrl { url }) => {
            assert_eq!(url, "not a url at all/repositories");
        }
        other => panic!("expected InvalidUrl, got {:?}", other),
    }
}

#[test]
fn repository_url_unparseable_base_is_rejected() {
    let r = RepositoryRequest::new("alice", "widget").to_url("");
    assert!(matches!(r, Err(Error::InvalidUrl { .. })));
}
