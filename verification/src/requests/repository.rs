//! Request for one repository by owner and name, and the payload for
//! creating a repository.

use vstd::prelude::*;
use vstd::string::StringExecFns;

use crate::error::Error;
use crate::internal_api::{parses_as_url, url_parses};
use crate::repository::{scm_spelling, Scm};

verus! {

/// Request for a repository by its owner and name.
#[derive(Debug)]
pub struct RepositoryRequest {
    /// owner of the repository
    pub username: String,
    /// name of the repository
    pub repo_slug: String,
}

/// The URL text a single-repository request renders to: the owner and the
/// repository name as two path segments under `repositories`.
pub open spec fn repository_url_text(r: RepositoryRequest, base: Seq<char>) -> Seq<char> {
    base + "/repositories/"@ + r.username@ + "/"@ + r.repo_slug@
}

impl RepositoryRequest {
    /// The request for `username`'s repository named `repo_slug`.
    pub fn new(username: &str, repo_slug: &str) -> (r: Self)
        ensures
            r.username@ == username@,
            r.repo_slug@ == repo_slug@,
    {
        RepositoryRequest {
            username: String::from_str(username),
            repo_slug: String::from_str(repo_slug),
        }
    }

    /// Render this request to the URL it fetches: exactly
    /// [`repository_url_text`], rejected when the URL parser does not accept
    /// the rendered text.
    pub fn to_url(&self, base_url: &str) -> (r: Result<String, Error>)
        ensures
            r matches Ok(u) ==> u@ == repository_url_text(*self, base_url@) && parses_as_url(u@),
            r matches Err(e) ==> (e matches Error::InvalidUrl { url } && url@
                == repository_url_text(*self, base_url@) && !parses_as_url(url@)),
    {
        let url = String::from_str(base_url).concat("/repositories/").concat(
            self.username.as_str(),
        ).concat("/").concat(self.repo_slug.as_str());
        if url_parses(url.as_str()) {
            Ok(url)
        } else {
            Err(Error::InvalidUrl { url })
        }
    }
}

/// The payload for creating a repository. An unset field is left out of the
/// encoded body entirely — absence, not `null`.
#[derive(Debug, Clone, Copy)]
pub struct RepositoryCreationRequest {
    /// is the repository private
    pub is_private: Option<bool>,
    /// source control system of the new repository
    pub scm: Option<Scm>,
}

/// The text a boolean encodes to.
pub open spec fn bool_text(b: bool) -> Seq<char> {
    if b {
        "true"@
    } else {
        "false"@
    }
}

/// The body a creation payload encodes to, character for character: a JSON
/// object holding exactly the fields that are set, `is_private` first.
pub open spec fn creation_body_text(r: RepositoryCreationRequest) -> Seq<char> {
    match (r.is_private, r.scm) {
        (None, None) => "{}"@,
        (Some(p), None) => "{\"is_private\":"@ + bool_text(p) + "}"@,
        (None, Some(s)) => "{\"scm\":\""@ + scm_spelling(s) + "\"}"@,
        (Some(p), Some(s)) => "{\"is_private\":"@ + bool_text(p) + ",\"scm\":\""@ + scm_spelling(
            s,
        ) + "\"}"@,
    }
}

impl RepositoryCreationRequest {
    /// The payload with neither field set.
    pub fn empty() -> (r: Self)
        ensures
            r.is_private is None,
            r.scm is None,
    {
        RepositoryCreationRequest { is_private: None, scm: None }
    }

    /// set the privacy of the repository that will be created
    pub fn private(self, private: bool) -> (r: Self)
        ensures
            r.is_private == Some(private),
            r.scm == self.scm,
    {
        RepositoryCreationRequest { is_private: Some(private), scm: self.scm }
    }

    /// set the source control system of the repository that will be created
    pub fn scm(self, scm: Scm) -> (r: Self)
        ensures
            r.is_private == self.is_private,
            r.scm == Some(scm),
    {
        RepositoryCreationRequest { is_private: self.is_private, scm: Some(scm) }
    }

    /// Encode this payload as the request body: exactly
    /// [`creation_body_text`].
    pub fn encoded_body(&self) -> (r: String)
        ensures
            r@ == creation_body_text(*self),
    {
        match (&self.is_private, &self.scm) {
            (None, None) => String::from_str("{}"),
            (Some(p), None) => String::from_str("{\"is_private\":").concat(
                if *p {
                    "true"
                } else {
                    "false"
                },
            ).concat("}"),
            (None, Some(s)) => String::from_str("{\"scm\":\"").concat(s.spelling()).concat(
                "\"}",
            ),
            (Some(p), Some(s)) => String::from_str("{\"is_private\":").concat(
                if *p {
                    "true"
                } else {
                    "false"
                },
            ).concat(",\"scm\":\"").concat(s.spelling()).concat("\"}"),
        }
    }
}

impl Default for RepositoryCreationRequest {
    /// The payload with neither field set.
    fn default() -> (r: Self)
        ensures
            r.is_private is None,
            r.scm is None,
    {
        RepositoryCreationRequest { is_private: None, scm: None }
    }
}

/// Law: an unset field is omitted from the encoded body entirely, never sent
/// as `null`. With only `scm` set the body holds the `scm` field alone; with
/// only `is_private` set it holds `is_private` alone; with neither set the
/// body is the empty object. The concrete equalities pin the whole body down
/// to the character for one value of each field.
pub proof fn lemma_creation_body_omits_unset_fields(p: bool, s: Scm)
    ensures
        creation_body_text(RepositoryCreationRequest { is_private: None, scm: Some(s) })
            == "{\"scm\":\""@ + scm_spelling(s) + "\"}"@,
        creation_body_text(RepositoryCreationRequest { is_private: Some(p), scm: None })
            == "{\"is_private\":"@ + bool_text(p) + "}"@,
        creation_body_text(RepositoryCreationRequest { is_private: None, scm: None }) == "{}"@,
        creation_body_text(RepositoryCreationRequest { is_private: None, scm: Some(Scm::Git) })
            == "{\"scm\":\"git\"}"@,
        creation_body_text(
            RepositoryCreationRequest { is_private: Some(true), scm: None },
        ) == "{\"is_private\":true}"@,
{
    reveal_strlit("{\"scm\":\"");
    reveal_strlit("git");
    reveal_strlit("\"}");
    reveal_strlit("{\"scm\":\"git\"}");
    reveal_strlit("{\"is_private\":");
    reveal_strlit("true");
    reveal_strlit("}");
    reveal_strlit("{\"is_private\":true}");
    assert(creation_body_text(RepositoryCreationRequest { is_private: None, scm: Some(Scm::Git) })
        =~= "{\"scm\":\"git\"}"@);
    assert(creation_body_text(RepositoryCreationRequest { is_private: Some(true), scm: None })
        =~= "{\"is_private\":true}"@);
}

} // verus!
