//! The data model: content items, revisions, sites, templates, users and roles.

pub mod collaborator;
pub mod content;
pub mod content_kind;
pub mod content_revision;
pub mod content_status;
pub mod homepage_type;
pub mod role;
pub mod site;
pub mod site_template;
pub mod user;

pub use collaborator::ContentCollaborator;
pub use content::{ContentCreate, ContentItem, ContentUpdate};
pub use content_kind::ContentKind;
pub use content_revision::{ContentItemRevision, ContentItemRevisionMeta};
pub use content_status::ContentStatus;
pub use homepage_type::HomepageType;
pub use role::RoleName;
pub use site::{Site, SiteCreate, SiteUpdate};
pub use site_template::{SiteTemplate, SiteTemplateCreate, SiteTemplateUpdate};
pub use user::{
    check_email_purged, purged_email, Timestamp, User, UserCreate, UserDelete, UserIden, UserLogin, UserQuery,
    UserUpdate, UserWithOldState,
};
