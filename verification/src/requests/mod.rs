//! Typed request descriptors: each one renders to the URL text the client
//! fetches, with the render pinned down character for character.

mod repositories;
mod repository;

pub use repositories::repositories_url_text;
pub use repositories::RepositoriesRequest;
pub use repository::creation_body_text;
pub use repository::repository_url_text;
pub use repository::RepositoryCreationRequest;
pub use repository::RepositoryRequest;
