//! The client: builder calls, uniform authorization across chained fetches,
//! and the real fetch path against an unreachable endpoint.

use bitbucket::internal_api::{Page, RequestAuth};
use bitbucket::pagination::Paginated;
use bitbucket::requests::{RepositoriesRequest, RepositoryCreationRequest, RepositoryRequest};
use bitbucket::{Error, API};

// a port nothing listens on: the connection is refused at once
const DEAD_BASE: &str = "http://127.0.0.1:1";

#[test]
fn new_client_has_no_credential_and_the_public_base() {
    let api = API::new();
    assert_eq!(api.url, "https://api.bitbucket.org/2.0");
    assert!(api.auth_type.is_none());
    assert!(api.client.is_none());
    assert_eq!(api.request_auth(), RequestAuth::Anonymous);
    let api = API::default();
    assert_eq!(api.url, "https://api.bitbucket.org/2.0");
}

#[test]
fn bearer_credential_decides_the_same_header_for_every_request() {
    let api = API::new().with_bearer("abc");
    // three chained page fetches decide their decoration three times over;
    // each decision is the same full header value
    let first = api.request_auth();
    let second = api.request_auth();
    let third = api.request_auth();
    assert_eq!(first, RequestAuth::AuthorizationHeader("Bearer abc".to_string()));
    assert_eq!(second, first);
    assert_eq!(third, first);
}

#[test]
fn basic_credential_decides_the_username_password_pair() {
    let api = API::new().with_basic("alice", "SECRET-REDACTED");
    assert_eq!(
        api.request_auth(),
        RequestAuth::BasicCredentials {
            username: "alice".to_string(),
            password: "SECRET-REDACTED".to_string(),
        }
    );
}

#[test]
fn builder_calls_keep_the_base_url() {
    let api = API::new().with_bearer("t");
    assert_eq!(api.url, "https://api.bitbucket.org/2.0");
    let api = API::new().with_basic("u", "p");
    assert_eq!(api.url, "https://api.bitbucket.org/2.0");
}

fn dead_client() -> API {
    API { url: DEAD_BASE.to_string(), auth_type: None, client: None }
}

#[test]
fn transport_failure_is_an_http_error_naming_the_url() {
    let api = dead_client();
    let r = api.get_repository(&RepositoryRequest::new("alice", "widget"));
    match r {
        Err(Error::Http { url, .. }) => {
            assert_eq!(url, "http://127.0.0.1:1/repositories/alice/widget");
        }
        other => panic!("expected Http, got {:?}", other),
    }
}

#[test]
fn listing_against_unreachable_host_is_an_http_error() {
    let api = dead_client();
    let r = api.get_repositories(&RepositoriesRequest::all());
    match r {
        Err(Error::Http { url, .. }) => {
            assert_eq!(url, "http://127.0.0.1:1/repositories");
        }
        other => panic!("expected Http, got {:?}", other),
    }
}

#[test]
fn creation_against_unreachable_host_is_an_http_error() {
    let api = dead_client();
    let r = api.create_repository(
        &RepositoryRequest::new("alice", "widget"),
        &RepositoryCreationRequest::empty().private(true),
    );
    assert!(matches!(r, Err(Error::Http { .. })));
}

#[test]
fn unparseable_base_fails_before_anything_is_sent() {
    let api = API { url: "not a url".to_string(), auth_type: None, client: None };
    let r = api.get_repository(&RepositoryRequest::new("a", "b"));
    assert!(matches!(r, Err(Error::InvalidUrl { .. })));
}

#[test]
fn iterator_yields_buffered_items_then_absorbs_the_failing_fetch() {
    let api = dead_client();
    let first: Page<String> = Page {
        pagelen: 2,
        size: None,
        page: 1,
        next: Some(format!("{}/repositories?page=2", DEAD_BASE)),
        previous: None,
        values: vec!["a".to_string(), "b".to_string()],
    };
    let paginated = Paginated { has_more: first.next.is_some(), current_page: first, client: &api };
    assert!(paginated.has_more);

    let mut it = paginated.into_iter();
    assert_eq!(it.next().as_deref(), Some("a"));
    assert_eq!(it.next().as_deref(), Some("b"));
    assert!(it.last_error().is_none());
    // the follow-up fetch is refused; the sequence ends instead of raising
    assert!(it.next().is_none());
    match it.last_error() {
        Some(Error::Http { url, .. }) => {
            assert_eq!(url, &format!("{}/repositories?page=2", DEAD_BASE));
        }
        other => panic!("expected the absorbed Http failure, got {:?}", other),
    }
    // and stays terminated
    assert!(it.next().is_none());
    assert!(it.next().is_none());
}

#[test]
fn iterator_without_cursor_terminates_after_the_seed_page() {
    let api = dead_client();
    let only: Page<String> = Page {
        pagelen: 1,
        size: Some(1),
        page: 1,
        next: None,
        previous: None,
        values: vec!["a".to_string()],
    };
    let paginated = Paginated { has_more: only.next.is_some(), current_page: only, client: &api };
    assert!(!paginated.has_more);
    let values = paginated.current_page_values();
    assert_eq!(values, vec!["a".to_string()]);
}

#[test]
fn iterator_with_unparseable_cursor_ends_with_invalid_url() {
    let api = dead_client();
    let first: Page<String> = Page {
        pagelen: 1,
        size: None,
        page: 1,
        next: Some("no scheme here".to_string()),
        previous: None,
        values: vec![],
    };
    let paginated = Paginated { has_more: true, current_page: first, client: &api };
    let mut it = paginated.into_iter();
    assert!(it.next().is_none());
    assert!(matches!(it.last_error(), Some(Error::InvalidUrl { .. })));
}
