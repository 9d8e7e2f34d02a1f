//! Object models for the resources the service returns, held as plain
//! values, each with a verified decode from a parsed JSON document.
//! Timestamps stay as the text the server sent: the client never computes
//! with them.

use vstd::prelude::*;

use crate::json::{
    decoded_field_of, opt_decoded_field_of, read_decoded_field, read_opt_decoded_field, str_eq,
    FromJson, Json,
};

verus! {

/// One hyperlink the server hands out.
#[derive(Debug)]
pub struct Link {
    /// where the link points
    pub href: String,
    /// an optional label, present on clone links
    pub name: Option<String>,
}

/// A [`Link`], seen through deep views.
#[verifier::ext_equal]
pub struct LinkModel {
    pub href: Seq<char>,
    pub name: Option<Seq<char>>,
}

impl DeepView for Link {
    type V = LinkModel;

    open spec fn deep_view(&self) -> LinkModel {
        LinkModel { href: self.href@, name: self.name.deep_view() }
    }
}

impl FromJson for Link {
    open spec fn json_decodes(j: Json) -> Option<LinkModel> {
        match (
            decoded_field_of::<String>(j, "href"@),
            opt_decoded_field_of::<String>(j, "name"@),
        ) {
            (Some(href), Some(name)) => Some(LinkModel { href, name }),
            _ => None,
        }
    }

    fn from_json(j: &Json) -> (r: Option<Self>) {
        let href = match read_decoded_field::<String>(j, "href") {
            Some(v) => v,
            None => return None,
        };
        let name = match read_opt_decoded_field::<String>(j, "name") {
            Some(v) => v,
            None => return None,
        };
        let result = Link { href, name };
        proof {
            assert(Some(result).deep_view() =~~= Self::json_decodes(*j));
        }
        Some(result)
    }
}

/// The links attached to a repository.
#[derive(Debug)]
pub struct RepositoryLinks {
    pub watchers: Link,
    pub branches: Link,
    pub tags: Link,
    pub commits: Link,
    pub clone: Vec<Link>,
    /// the link the server files under the key `self`
    pub zelf: Link,
    pub source: Link,
    pub html: Link,
    pub avatar: Link,
    pub hooks: Link,
    pub forks: Link,
    pub downloads: Link,
    pub pullrequests: Link,
}

/// [`RepositoryLinks`], seen through deep views.
#[verifier::ext_equal]
pub struct RepositoryLinksModel {
    pub watchers: LinkModel,
    pub branches: LinkModel,
    pub tags: LinkModel,
    pub commits: LinkModel,
    pub clone: Seq<LinkModel>,
    pub zelf: LinkModel,
    pub source: LinkModel,
    pub html: LinkModel,
    pub avatar: LinkModel,
    pub hooks: LinkModel,
    pub forks: LinkModel,
    pub downloads: LinkModel,
    pub pullrequests: LinkModel,
}

impl DeepView for RepositoryLinks {
    type V = RepositoryLinksModel;

    open spec fn deep_view(&self) -> RepositoryLinksModel {
        RepositoryLinksModel {
            watchers: self.watchers.deep_view(),
            branches: self.branches.deep_view(),
            tags: self.tags.deep_view(),
            commits: self.commits.deep_view(),
            clone: self.clone.deep_view(),
            zelf: self.zelf.deep_view(),
            source: self.source.deep_view(),
            html: self.html.deep_view(),
            avatar: self.avatar.deep_view(),
            hooks: self.hooks.deep_view(),
            forks: self.forks.deep_view(),
            downloads: self.downloads.deep_view(),
            pullrequests: self.pullrequests.deep_view(),
        }
    }
}

impl FromJson for RepositoryLinks {
    open spec fn json_decodes(j: Json) -> Option<RepositoryLinksModel> {
        match (
            decoded_field_of::<Link>(j, "watchers"@),
            decoded_field_of::<Link>(j, "branches"@),
            decoded_field_of::<Link>(j, "tags"@),
            decoded_field_of::<Link>(j, "commits"@),
            decoded_field_of::<Vec<Link>>(j, "clone"@),
            decoded_field_of::<Link>(j, "self"@),
            decoded_field_of::<Link>(j, "source"@),
        ) {
            (
                Some(watchers),
                Some(branches),
                Some(tags),
                Some(commits),
                Some(clone),
                Some(zelf),
                Some(source),
            ) => match (
                decoded_field_of::<Link>(j, "html"@),
                decoded_field_of::<Link>(j, "avatar"@),
                decoded_field_of::<Link>(j, "hooks"@),
                decoded_field_of::<Link>(j, "forks"@),
                decoded_field_of::<Link>(j, "downloads"@),
                decoded_field_of::<Link>(j, "pullrequests"@),
            ) {
                (
                    Some(html),
                    Some(avatar),
                    Some(hooks),
                    Some(forks),
                    Some(downloads),
                    Some(pullrequests),
                ) => Some(
                    RepositoryLinksModel {
                        watchers,
                        branches,
                        tags,
                        commits,
                        clone,
                        zelf,
                        source,
                        html,
                        avatar,
                        hooks,
                        forks,
                        downloads,
                        pullrequests,
                    },
                ),
                _ => None,
            },
            _ => None,
        }
    }

    fn from_json(j: &Json) -> (r: Option<Self>) {
        let watchers = match read_decoded_field::<Link>(j, "watchers") {
            Some(v) => v,
            None => return None,
        };
        let branches = match read_decoded_field::<Link>(j, "branches") {
            Some(v) => v,
            None => return None,
        };
        let tags = match read_decoded_field::<Link>(j, "tags") {
            Some(v) => v,
            None => return None,
        };
        let commits = match read_decoded_field::<Link>(j, "commits") {
            Some(v) => v,
            None => return None,
        };
        let clone = match read_decoded_field::<Vec<Link>>(j, "clone") {
            Some(v) => v,
            None => return None,
        };
        let zelf = match read_decoded_field::<Link>(j, "self") {
            Some(v) => v,
            None => return None,
        };
        let source = match read_decoded_field::<Link>(j, "source") {
            Some(v) => v,
            None => return None,
        };
        let html = match read_decoded_field::<Link>(j, "html") {
            Some(v) => v,
            None => return None,
        };
        let avatar = match read_decoded_field::<Link>(j, "avatar") {
            Some(v) => v,
            None => return None,
        };
        let hooks = match read_decoded_field::<Link>(j, "hooks") {
            Some(v) => v,
            None => return None,
        };
        let forks = match read_decoded_field::<Link>(j, "forks") {
            Some(v) => v,
            None => return None,
        };
        let downloads = match read_decoded_field::<Link>(j, "downloads") {
            Some(v) => v,
            None => return None,
        };
        let pullrequests = match read_decoded_field::<Link>(j, "pullrequests") {
            Some(v) => v,
            None => return None,
        };
        let result = RepositoryLinks {
            watchers,
            branches,
            tags,
            commits,
            clone,
            zelf,
            source,
            html,
            avatar,
            hooks,
            forks,
            downloads,
            pullrequests,
        };
        proof {
            assert(Some(result).deep_view() =~~= Self::json_decodes(*j));
        }
        Some(result)
    }
}

/// The source control system of a repository.
#[derive(Debug, Clone, Copy, PartialEq, Eq, Structural)]
pub enum Scm {
    Git,
    Mercurial,
}

/// The spelling the wire format uses for each source control system.
pub open spec fn scm_spelling(s: Scm) -> Seq<char> {
    match s {
        Scm::Git => "git"@,
        Scm::Mercurial => "mercurial"@,
    }
}

impl Scm {
    /// The wire spelling of this value.
    pub fn spelling(&self) -> (r: &'static str)
        ensures
            r@ == scm_spelling(*self),
    {
        match self {
            Scm::Git => "git",
            Scm::Mercurial => "mercurial",
        }
    }
}

impl DeepView for Scm {
    type V = Scm;

    open spec fn deep_view(&self) -> Scm {
        *self
    }
}

impl FromJson for Scm {
    open spec fn json_decodes(j: Json) -> Option<Scm> {
        match j {
            Json::Str(s) => if s@ == "git"@ {
                Some(Scm::Git)
            } else if s@ == "mercurial"@ {
                Some(Scm::Mercurial)
            } else {
                None
            },
            _ => None,
        }
    }

    fn from_json(j: &Json) -> (r: Option<Self>) {
        match j {
            Json::Str(s) => if str_eq(s.as_str(), "git") {
                Some(Scm::Git)
            } else if str_eq(s.as_str(), "mercurial") {
                Some(Scm::Mercurial)
            } else {
                None
            },
            _ => None,
        }
    }
}

/// Who may fork a repository.
#[derive(Debug, Clone, Copy, PartialEq, Eq, Structural)]
pub enum ForkPolicy {
    NoPublicForks,
    NoForks,
    AllowForks,
}

impl DeepView for ForkPolicy {
    type V = ForkPolicy;

    open spec fn deep_view(&self) -> ForkPolicy {
        *self
    }
}

impl FromJson for ForkPolicy {
    open spec fn json_decodes(j: Json) -> Option<ForkPolicy> {
        match j {
            Json::Str(s) => if s@ == "no_public_forks"@ {
                Some(ForkPolicy::NoPublicForks)
            } else if s@ == "no_forks"@ {
                Some(ForkPolicy::NoForks)
            } else if s@ == "allow_forks"@ {
                Some(ForkPolicy::AllowForks)
            } else {
                None
            },
            _ => None,
        }
    }

    fn from_json(j: &Json) -> (r: Option<Self>) {
        match j {
            Json::Str(s) => if str_eq(s.as_str(), "no_public_forks") {
                Some(ForkPolicy::NoPublicForks)
            } else if str_eq(s.as_str(), "no_forks") {
                Some(ForkPolicy::NoForks)
            } else if str_eq(s.as_str(), "allow_forks") {
                Some(ForkPolicy::AllowForks)
            } else {
                None
            },
            _ => None,
        }
    }
}

/// What kind of object a record describes.
#[derive(Debug, Clone, Copy, PartialEq, Eq, Structural)]
pub enum ObjectType {
    Branch,
    Repository,
    Project,
    Team,
}

impl DeepView for ObjectType {
    type V = ObjectType;

    open spec fn deep_view(&self) -> ObjectType {
        *self
    }
}

impl FromJson for ObjectType {
    open spec fn json_decodes(j: Json) -> Option<ObjectType> {
        match j {
            Json::Str(s) => if s@ == "branch"@ {
                Some(ObjectType::Branch)
            } else if s@ == "repository"@ {
                Some(ObjectType::Repository)
            } else if s@ == "project"@ {
                Some(ObjectType::Project)
            } else if s@ == "team"@ {
                Some(ObjectType::Team)
            } else {
                None
            },
            _ => None,
        }
    }

    fn from_json(j: &Json) -> (r: Option<Self>) {
        match j {
            Json::Str(s) => if str_eq(s.as_str(), "branch") {
                Some(ObjectType::Branch)
            } else if str_eq(s.as_str(), "repository") {
                Some(ObjectType::Repository)
            } else if str_eq(s.as_str(), "project") {
                Some(ObjectType::Project)
            } else if str_eq(s.as_str(), "team") {
                Some(ObjectType::Team)
            } else {
                None
            },
            _ => None,
        }
    }
}

/// The short link set attached to projects and owners.
#[derive(Debug)]
pub struct ShortLinks {
    /// the link the server files under the key `self`
    pub zelf: Link,
    pub html: Link,
    pub avatar: Link,
}

/// [`ShortLinks`], seen through deep views.
#[verifier::ext_equal]
pub struct ShortLinksModel {
    pub zelf: LinkModel,
    pub html: LinkModel,
    pub avatar: LinkModel,
}

impl DeepView for ShortLinks {
    type V = ShortLinksModel;

    open spec fn deep_view(&self) -> ShortLinksModel {
        ShortLinksModel {
            zelf: self.zelf.deep_view(),
            html: self.html.deep_view(),
            avatar: self.avatar.deep_view(),
        }
    }
}

impl FromJson for ShortLinks {
    open spec fn json_decodes(j: Json) -> Option<ShortLinksModel> {
        match (
            decoded_field_of::<Link>(j, "self"@),
            decoded_field_of::<Link>(j, "html"@),
            decoded_field_of::<Link>(j, "avatar"@),
        ) {
            (Some(zelf), Some(html), Some(avatar)) => Some(
                ShortLinksModel { zelf, html, avatar },
            ),
            _ => None,
        }
    }

    fn from_json(j: &Json) -> (r: Option<Self>) {
        let zelf = match read_decoded_field::<Link>(j, "self") {
            Some(v) => v,
            None => return None,
        };
        let html = match read_decoded_field::<Link>(j, "html") {
            Some(v) => v,
            None => return None,
        };
        let avatar = match read_decoded_field::<Link>(j, "avatar") {
            Some(v) => v,
            None => return None,
        };
        let result = ShortLinks { zelf, html, avatar };
        proof {
            assert(Some(result).deep_view() =~~= Self::json_decodes(*j));
        }
        Some(result)
    }
}

/// A project a repository belongs to.
#[derive(Debug)]
pub struct Project {
    pub key: String,
    /// what the record describes, filed under the key `type`
    pub ty: ObjectType,
    pub uuid: String,
    pub links: ShortLinks,
    pub name: String,
}

/// A [`Project`], seen through deep views.
#[verifier::ext_equal]
pub struct ProjectModel {
    pub key: Seq<char>,
    pub ty: ObjectType,
    pub uuid: Seq<char>,
    pub links: ShortLinksModel,
    pub name: Seq<char>,
}

impl DeepView for Project {
    type V = ProjectModel;

    open spec fn deep_view(&self) -> ProjectModel {
        ProjectModel {
            key: self.key@,
            ty: self.ty,
            uuid: self.uuid@,
            links: self.links.deep_view(),
            name: self.name@,
        }
    }
}

impl FromJson for Project {
    open spec fn json_decodes(j: Json) -> Option<ProjectModel> {
        match (
            decoded_field_of::<String>(j, "key"@),
            decoded_field_of::<ObjectType>(j, "type"@),
            decoded_field_of::<String>(j, "uuid"@),
            decoded_field_of::<ShortLinks>(j, "links"@),
            decoded_field_of::<String>(j, "name"@),
        ) {
            (Some(key), Some(ty), Some(uuid), Some(links), Some(name)) => Some(
                ProjectModel { key, ty, uuid, links, name },
            ),
            _ => None,
        }
    }

    fn from_json(j: &Json) -> (r: Option<Self>) {
        let key = match read_decoded_field::<String>(j, "key") {
            Some(v) => v,
            None => return None,
        };
        let ty = match read_decoded_field::<ObjectType>(j, "type") {
            Some(v) => v,
            None => return None,
        };
        let uuid = match read_decoded_field::<String>(j, "uuid") {
            Some(v) => v,
            None => return None,
        };
        let links = match read_decoded_field::<ShortLinks>(j, "links") {
            Some(v) => v,
            None => return None,
        };
        let name = match read_decoded_field::<String>(j, "name") {
            Some(v) => v,
            None => return None,
        };
        let result = Project { key, ty, uuid, links, name };
        proof {
            assert(Some(result).deep_view() =~~= Self::json_decodes(*j));
        }
        Some(result)
    }
}

/// The account that owns a repository.
#[derive(Debug)]
pub struct Owner {
    pub username: String,
    pub display_name: String,
    /// what the record describes, filed under the key `type`
    pub ty: ObjectType,
    pub uuid: String,
    pub links: ShortLinks,
}

/// An [`Owner`], seen through deep views.
#[verifier::ext_equal]
pub struct OwnerModel {
    pub username: Seq<char>,
    pub display_name: Seq<char>,
    pub ty: ObjectType,
    pub uuid: Seq<char>,
    pub links: ShortLinksModel,
}

impl DeepView for Owner {
    type V = OwnerModel;

    open spec fn deep_view(&self) -> OwnerModel {
        OwnerModel {
            username: self.username@,
            display_name: self.display_name@,
            ty: self.ty,
            uuid: self.uuid@,
            links: self.links.deep_view(),
        }
    }
}

impl FromJson for Owner {
    open spec fn json_decodes(j: Json) -> Option<OwnerModel> {
        match (
            decoded_field_of::<String>(j, "username"@),
            decoded_field_of::<String>(j, "display_name"@),
            decoded_field_of::<ObjectType>(j, "type"@),
            decoded_field_of::<String>(j, "uuid"@),
            decoded_field_of::<ShortLinks>(j, "links"@),
        ) {
            (Some(username), Some(display_name), Some(ty), Some(uuid), Some(links)) => Some(
                OwnerModel { username, display_name, ty, uuid, links },
            ),
            _ => None,
        }
    }

    fn from_json(j: &Json) -> (r: Option<Self>) {
        let username = match read_decoded_field::<String>(j, "username") {
            Some(v) => v,
            None => return None,
        };
        let display_name = match read_decoded_field::<String>(j, "display_name") {
            Some(v) => v,
            None => return None,
        };
        let ty = match read_decoded_field::<ObjectType>(j, "type") {
            Some(v) => v,
            None => return None,
        };
        let uuid = match read_decoded_field::<String>(j, "uuid") {
            Some(v) => v,
            None => return None,
        };
        let links = match read_decoded_field::<ShortLinks>(j, "links") {
            Some(v) => v,
            None => return None,
        };
        let result = Owner { username, display_name, ty, uuid, links };
        proof {
            assert(Some(result).deep_view() =~~= Self::json_decodes(*j));
        }
        Some(result)
    }
}

/// A branch of a repository.
#[derive(Debug)]
pub struct Branch {
    /// what the record describes, filed under the key `type`
    pub ty: ObjectType,
    pub name: String,
}

/// A [`Branch`], seen through deep views.
#[verifier::ext_equal]
pub struct BranchModel {
    pub ty: ObjectType,
    pub name: Seq<char>,
}

impl DeepView for Branch {
    type V = BranchModel;

    open spec fn deep_view(&self) -> BranchModel {
        BranchModel { ty: self.ty, name: self.name@ }
    }
}

impl FromJson for Branch {
    open spec fn json_decodes(j: Json) -> Option<BranchModel> {
        match (
            decoded_field_of::<ObjectType>(j, "type"@),
            decoded_field_of::<String>(j, "name"@),
        ) {
            (Some(ty), Some(name)) => Some(BranchModel { ty, name }),
            _ => None,
        }
    }

    fn from_json(j: &Json) -> (r: Option<Self>) {
        let ty = match read_decoded_field::<ObjectType>(j, "type") {
            Some(v) => v,
            None => return None,
        };
        let name = match read_decoded_field::<String>(j, "name") {
            Some(v) => v,
            None => return None,
        };
        let result = Branch { ty, name };
        proof {
            assert(Some(result).deep_view() =~~= Self::json_decodes(*j));
        }
        Some(result)
    }
}

/// The role a user holds on a repository; a filter for repository listings.
#[derive(Debug, Clone, Copy, PartialEq, Eq, Structural)]
pub enum Role {
    Admin,
    Contributor,
    Member,
    Owner,
}

/// The four fixed spellings the query parameter uses.
pub open spec fn role_spelling(r: Role) -> Seq<char> {
    match r {
        Role::Admin => "admin"@,
        Role::Contributor => "contributor"@,
        Role::Member => "member"@,
        Role::Owner => "owner"@,
    }
}

impl Role {
    /// The query-parameter spelling of this value.
    pub fn spelling(&self) -> (r: &'static str)
        ensures
            r@ == role_spelling(*self),
    {
        match self {
            Role::Admin => "admin",
            Role::Contributor => "contributor",
            Role::Member => "member",
            Role::Owner => "owner",
        }
    }
}

/// One repository record.
#[derive(Debug)]
pub struct Repository {
    pub scm: Scm,
    pub website: String,
    pub has_wiki: bool,
    pub uuid: String,
    pub links: RepositoryLinks,
    pub fork_policy: ForkPolicy,
    pub name: String,
    pub language: String,
    /// creation timestamp, kept as the text the server sent
    pub created_on: String,
    pub mainbranch: Option<Branch>,
    pub full_name: String,
    pub has_issues: bool,
    /// last-update timestamp, kept as the text the server sent
    pub updated_on: String,
    pub size: u32,
    /// what the record describes, filed under the key `type`
    pub ty: ObjectType,
    pub slug: String,
    pub is_private: bool,
    pub description: String,
}

/// A [`Repository`], seen through deep views.
#[verifier::ext_equal]
pub struct RepositoryModel {
    pub scm: Scm,
    pub website: Seq<char>,
    pub has_wiki: bool,
    pub uuid: Seq<char>,
    pub links: RepositoryLinksModel,
    pub fork_policy: ForkPolicy,
    pub name: Seq<char>,
    pub language: Seq<char>,
    pub created_on: Seq<char>,
    pub mainbranch: Option<BranchModel>,
    pub full_name: Seq<char>,
    pub has_issues: bool,
    pub updated_on: Seq<char>,
    pub size: u32,
    pub ty: ObjectType,
    pub slug: Seq<char>,
    pub is_private: bool,
    pub description: Seq<char>,
}

impl DeepView for Repository {
    type V = RepositoryModel;

    open spec fn deep_view(&self) -> RepositoryModel {
        RepositoryModel {
            scm: self.scm,
            website: self.website@,
            has_wiki: self.has_wiki,
            uuid: self.uuid@,
            links: self.links.deep_view(),
            fork_policy: self.fork_policy,
            name: self.name@,
            language: self.language@,
            created_on: self.created_on@,
            mainbranch: self.mainbranch.deep_view(),
            full_name: self.full_name@,
            has_issues: self.has_issues,
            updated_on: self.updated_on@,
            size: self.size,
            ty: self.ty,
            slug: self.slug@,
            is_private: self.is_private,
            description: self.description@,
        }
    }
}

impl FromJson for Repository {
    open spec fn json_decodes(j: Json) -> Option<RepositoryModel> {
        match (
            decoded_field_of::<Scm>(j, "scm"@),
            decoded_field_of::<String>(j, "website"@),
            decoded_field_of::<bool>(j, "has_wiki"@),
            decoded_field_of::<String>(j, "uuid"@),
            decoded_field_of::<RepositoryLinks>(j, "links"@),
            decoded_field_of::<ForkPolicy>(j, "fork_policy"@),
        ) {
            (Some(scm), Some(website), Some(has_wiki), Some(uuid), Some(links), Some(
                fork_policy,
            )) => match (
                decoded_field_of::<String>(j, "name"@),
                decoded_field_of::<String>(j, "language"@),
                decoded_field_of::<String>(j, "created_on"@),
                opt_decoded_field_of::<Branch>(j, "mainbranch"@),
                decoded_field_of::<String>(j, "full_name"@),
                decoded_field_of::<bool>(j, "has_issues"@),
            ) {
                (Some(name), Some(language), Some(created_on), Some(mainbranch), Some(
                    full_name,
                ), Some(has_issues)) => match (
                    decoded_field_of::<String>(j, "updated_on"@),
                    decoded_field_of::<u32>(j, "size"@),
                    decoded_field_of::<ObjectType>(j, "type"@),
                    decoded_field_of::<String>(j, "slug"@),
                    decoded_field_of::<bool>(j, "is_private"@),
                    decoded_field_of::<String>(j, "description"@),
                ) {
                    (Some(updated_on), Some(size), Some(ty), Some(slug), Some(is_private), Some(
                        description,
                    )) => Some(
                        RepositoryModel {
                            scm,
                            website,
                            has_wiki,
                            uuid,
                            links,
                            fork_policy,
                            name,
                            language,
                            created_on,
                            mainbranch,
                            full_name,
                            has_issues,
                            updated_on,
                            size,
                            ty,
                            slug,
                            is_private,
                            description,
                        },
                    ),
                    _ => None,
                },
                _ => None,
            },
            _ => None,
        }
    }

    fn from_json(j: &Json) -> (r: Option<Self>) {
        let scm = match read_decoded_field::<Scm>(j, "scm") {
            Some(v) => v,
            None => return None,
        };
        let website = match read_decoded_field::<String>(j, "website") {
            Some(v) => v,
            None => return None,
        };
        let has_wiki = match read_decoded_field::<bool>(j, "has_wiki") {
            Some(v) => v,
            None => return None,
        };
        let uuid = match read_decoded_field::<String>(j, "uuid") {
            Some(v) => v,
            None => return None,
        };
        let links = match read_decoded_field::<RepositoryLinks>(j, "links") {
            Some(v) => v,
            None => return None,
        };
        let fork_policy = match read_decoded_field::<ForkPolicy>(j, "fork_policy") {
            Some(v) => v,
            None => return None,
        };
        let name = match read_decoded_field::<String>(j, "name") {
            Some(v) => v,
            None => return None,
        };
        let language = match read_decoded_field::<String>(j, "language") {
            Some(v) => v,
            None => return None,
        };
        let created_on = match read_decoded_field::<String>(j, "created_on") {
            Some(v) => v,
            None => return None,
        };
        let mainbranch = match read_opt_decoded_field::<Branch>(j, "mainbranch") {
            Some(v) => v,
            None => return None,
        };
        let full_name = match read_decoded_field::<String>(j, "full_name") {
            Some(v) => v,
            None => return None,
        };
        let has_issues = match read_decoded_field::<bool>(j, "has_issues") {
            Some(v) => v,
            None => return None,
        };
        let updated_on = match read_decoded_field::<String>(j, "updated_on") {
            Some(v) => v,
            None => return None,
        };
        let size = match read_decoded_field::<u32>(j, "size") {
            Some(v) => v,
            None => return None,
        };
        let ty = match read_decoded_field::<ObjectType>(j, "type") {
            Some(v) => v,
            None => return None,
        };
        let slug = match read_decoded_field::<String>(j, "slug") {
            Some(v) => v,
            None => return None,
        };
        let is_private = match read_decoded_field::<bool>(j, "is_private") {
            Some(v) => v,
            None => return None,
        };
        let description = match read_decoded_field::<String>(j, "description") {
            Some(v) => v,
            None => return None,
        };
        let result = Repository {
            scm,
            website,
            has_wiki,
            uuid,
            links,
            fork_policy,
            name,
            language,
            created_on,
            mainbranch,
            full_name,
            has_issues,
            updated_on,
            size,
            ty,
            slug,
            is_private,
            description,
        };
        proof {
            assert(Some(result).deep_view() =~~= Self::json_decodes(*j));
        }
        Some(result)
    }
}

} // verus!
