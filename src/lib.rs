//! A package registry core: name canonicalization, an in-memory registry
//! store of authors, packages and upload sessions, and the publication
//! coordinator that keeps package ownership consistent.

pub mod canonical;
pub mod issuer;
pub mod records;
pub mod coordinator;
pub mod registry;
pub mod laws;

pub use canonical::canonicalize;
pub use coordinator::{decide_publish, PublishDecision};
pub use issuer::issue_credential;
pub use records::{
    Author, Config, Files, NewPackage, NewPackageResult, NewPackageUpload, NewUser, Package,
    PublicUser, PublishOutcome, RegistryError, UploadOutcome, UploadSession, User,
};
pub use registry::Registry;
