//! The API client: base URL, optional credential, optional reusable
//! transport handle. Built once with the builder-style calls below, then
//! used read-only; the credential is applied identically to every request
//! the client issues.

use vstd::prelude::*;
use vstd::string::StringExecFns;

use crate::error::Error;
use crate::internal_api::{error_message_of, is_success_status, page_decodes, parses_as_url, AuthType};
use crate::json::{json_of, FromJson};
use crate::pagination::Paginated;
use crate::repository::Repository;
use crate::requests::{
    repositories_url_text, repository_url_text, RepositoriesRequest, RepositoryCreationRequest,
    RepositoryRequest,
};

verus! {

/// API client for a cursor-paginated REST service.
#[derive(Debug)]
pub struct API {
    /// base URL every request path is appended to
    pub url: String,
    /// the credential strategy, if one was set
    pub auth_type: Option<AuthType>,
    /// a reusable transport handle; a fresh one is made per request when none
    /// is held
    pub client: Option<reqwest::blocking::Client>,
}

impl API {
    /// A new client for the public service, with no credential and no held
    /// transport handle.
    pub fn new() -> (r: Self)
        ensures
            r.url@ == "https://api.bitbucket.org/2.0"@,
            r.auth_type is None,
            r.client is None,
    {
        API {
            url: String::from_str("https://api.bitbucket.org/2.0"),
            auth_type: None,
            client: None,
        }
    }

    /// The same client, set to authenticate with a bearer token.
    pub fn with_bearer(self, bearer: &str) -> (r: Self)
        ensures
            r.url == self.url,
            r.client == self.client,
            r.auth_type matches Some(AuthType::Bearer { token }) && token@ == bearer@,
    {
        API {
            url: self.url,
            auth_type: Some(AuthType::Bearer { token: String::from_str(bearer) }),
            client: self.client,
        }
    }

    /// The same client, set to authenticate with a username and password.
    pub fn with_basic(self, username: &str, password: &str) -> (r: Self)
        ensures
            r.url == self.url,
            r.client == self.client,
            r.auth_type matches Some(AuthType::Basic { username: u, password: p }) && u@
                == username@ && p@ == password@,
    {
        API {
            url: self.url,
            auth_type: Some(
                AuthType::Basic {
                    username: String::from_str(username),
                    password: String::from_str(password),
                },
            ),
            client: self.client,
        }
    }

    /// Fetch the first page of a repository listing. The URL is exactly the
    /// request's render over this client's base URL; a render the URL parser
    /// rejects fails with `InvalidUrl` and nothing is sent.
    pub fn get_repositories<'a>(&'a self, request: &RepositoriesRequest) -> (r: Result<
        Paginated<'a, Repository>,
        Error,
    >)
        ensures
            r matches Ok(p) ==> ({
                &&& p.client == self
                &&& p.has_more == (p.current_page.next is Some)
                &&& parses_as_url(repositories_url_text(*request, self.url@))
                &&& exists|b: Seq<char>|
                    {
                        &&& #[trigger] json_of(b) matches Some(j)
                        &&& page_decodes::<Repository>(j) matches Some(model)
                        &&& p.current_page.deep_view() == model
                    }
            }),
            r matches Err(Error::InvalidUrl { url: u }) ==> u@ == repositories_url_text(
                *request,
                self.url@,
            ) && !parses_as_url(u@),
            r matches Err(Error::Http { url: u, .. }) ==> u@ == repositories_url_text(
                *request,
                self.url@,
            ),
            r matches Err(Error::ErrorResponse { url: u, status_code: s, .. }) ==> u@
                == repositories_url_text(*request, self.url@) && !is_success_status(s),
            r matches Err(Error::ErrorResponse { message: m, .. }) ==> exists|b: Seq<char>| m@
                == #[trigger] error_message_of(b),
            !parses_as_url(repositories_url_text(*request, self.url@)) ==> r matches Err(
                Error::InvalidUrl { .. },
            ),
    {
        let url = match request.to_url(self.url.as_str()) {
            Ok(u) => u,
            Err(e) => {
                return Err(e);
            },
        };
        self.get_paginated::<Repository>(url)
    }

    /// Fetch one repository. The URL is exactly the request's render over
    /// this client's base URL; a render the URL parser rejects fails with
    /// `InvalidUrl` and nothing is sent.
    pub fn get_repository(&self, request: &RepositoryRequest) -> (r: Result<Repository, Error>)
        ensures
            r matches Ok(t) ==> ({
                &&& parses_as_url(repository_url_text(*request, self.url@))
                &&& exists|b: Seq<char>|
                    {
                        &&& #[trigger] json_of(b) matches Some(j)
                        &&& Repository::json_decodes(j) matches Some(model)
                        &&& t.deep_view() == model
                    }
            }),
            r matches Err(Error::InvalidUrl { url: u }) ==> u@ == repository_url_text(
                *request,
                self.url@,
            ) && !parses_as_url(u@),
            r matches Err(Error::Http { url: u, .. }) ==> u@ == repository_url_text(
                *request,
                self.url@,
            ),
            r matches Err(Error::ErrorResponse { url: u, status_code: s, .. }) ==> u@
                == repository_url_text(*request, self.url@) && !is_success_status(s),
            r matches Err(Error::ErrorResponse { message: m, .. }) ==> exists|b: Seq<char>| m@
                == #[trigger] error_message_of(b),
            !parses_as_url(repository_url_text(*request, self.url@)) ==> r matches Err(
                Error::InvalidUrl { .. },
            ),
    {
        let url = match request.to_url(self.url.as_str()) {
            Ok(u) => u,
            Err(e) => {
                return Err(e);
            },
        };
        self.get::<Repository>(&url)
    }

    /// Create a repository: `POST` the creation payload — encoded exactly as
    /// its render says, unset fields omitted — to the repository's URL, and
    /// decode the record the server answers with.
    pub fn create_repository(
        &self,
        request: &RepositoryRequest,
        repository_creation: &RepositoryCreationRequest,
    ) -> (r: Result<Repository, Error>)
        ensures
            r matches Ok(t) ==> ({
                &&& parses_as_url(repository_url_text(*request, self.url@))
                &&& exists|b: Seq<char>|
                    {
                        &&& #[trigger] json_of(b) matches Some(j)
                        &&& Repository::json_decodes(j) matches Some(model)
                        &&& t.deep_view() == model
                    }
            }),
            r matches Err(Error::InvalidUrl { url: u }) ==> u@ == repository_url_text(
                *request,
                self.url@,
            ) && !parses_as_url(u@),
            r matches Err(Error::Http { url: u, .. }) ==> u@ == repository_url_text(
                *request,
                self.url@,
            ),
            r matches Err(Error::ErrorResponse { url: u, status_code: s, .. }) ==> u@
                == repository_url_text(*request, self.url@) && !is_success_status(s),
            r matches Err(Error::ErrorResponse { message: m, .. }) ==> exists|b: Seq<char>| m@
                == #[trigger] error_message_of(b),
            !parses_as_url(repository_url_text(*request, self.url@)) ==> r matches Err(
                Error::InvalidUrl { .. },
            ),
    {
        let url = match request.to_url(self.url.as_str()) {
            Ok(u) => u,
            Err(e) => {
                return Err(e);
            },
        };
        let body = repository_creation.encoded_body();
        self.post::<Repository>(&url, body)
    }
}

impl Default for API {
    /// The same client as [`API::new`].
    fn default() -> (r: Self)
        ensures
            r.url@ == "https://api.bitbucket.org/2.0"@,
            r.auth_type is None,
            r.client is None,
    {
        Self::new()
    }
}

} // verus!
