//! Request for a list of repositories: everything visible, one account's,
//! or those where the caller holds a given role.

use vstd::prelude::*;
use vstd::string::StringExecFns;

use crate::error::Error;
use crate::internal_api::{parses_as_url, url_parses};
use crate::repository::{role_spelling, Role};

verus! {

/// Request for a list of repositories.
#[derive(Debug)]
pub struct RepositoriesRequest {
    /// username or team to list repositories of
    pub username: Option<String>,
    /// keep only repositories where the logged-in user holds this role
    pub role: Option<Role>,
}

/// The URL text a repository listing renders to: the `repositories` path
/// under the base, the username appended as one more path segment when one
/// is given, and the role filter appended as the one query parameter when
/// one is given.
pub open spec fn repositories_url_text(r: RepositoriesRequest, base: Seq<char>) -> Seq<char> {
    let path = match r.username {
        None => base + "/repositories"@,
        Some(u) => base + "/repositories/"@ + u@,
    };
    match r.role {
        None => path,
        Some(role) => path + "?role="@ + role_spelling(role),
    }
}

impl RepositoriesRequest {
    /// The request for every repository visible to the caller.
    pub fn all() -> (r: Self)
        ensures
            r.username is None,
            r.role is None,
    {
        RepositoriesRequest { username: None, role: None }
    }

    /// The request for one account's repositories.
    pub fn of_account(username: &str) -> (r: Self)
        ensures
            r.username matches Some(u) && u@ == username@,
            r.role is None,
    {
        RepositoriesRequest { username: Some(String::from_str(username)), role: None }
    }

    /// The request for the repositories where the caller holds `role`.
    pub fn with_role(role: Role) -> (r: Self)
        ensures
            r.username is None,
            r.role == Some(role),
    {
        RepositoriesRequest { username: None, role: Some(role) }
    }

    /// The request for one account's repositories where the caller holds
    /// `role`.
    pub fn of_account_with_role(username: &str, role: Role) -> (r: Self)
        ensures
            r.username matches Some(u) && u@ == username@,
            r.role == Some(role),
    {
        RepositoriesRequest { username: Some(String::from_str(username)), role: Some(role) }
    }

    /// Render this request to the URL it fetches: exactly
    /// [`repositories_url_text`], rejected when the URL parser does not
    /// accept the rendered text.
    pub fn to_url(&self, base_url: &str) -> (r: Result<String, Error>)
        ensures
            r matches Ok(u) ==> u@ == repositories_url_text(*self, base_url@) && parses_as_url(
                u@,
            ),
            r matches Err(e) ==> (e matches Error::InvalidUrl { url } && url@
                == repositories_url_text(*self, base_url@) && !parses_as_url(url@)),
    {
        let path = match &self.username {
            None => String::from_str(base_url).concat("/repositories"),
            Some(username) => String::from_str(base_url).concat("/repositories/").concat(
                username.as_str(),
            ),
        };
        let url = match &self.role {
            None => path,
            Some(role) => path.concat("?role=").concat(role.spelling()),
        };
        if url_parses(url.as_str()) {
            Ok(url)
        } else {
            Err(Error::InvalidUrl { url })
        }
    }
}

} // verus!
