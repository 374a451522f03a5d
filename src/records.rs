//! The rows and request records of the registry.

use vstd::prelude::*;

verus! {

/// A package row. Timestamps are milliseconds since the Unix epoch.
#[derive(Debug)]
pub struct Package {
    pub name: String,
    pub normalized_name: String,
    pub owner: String,
    pub description: String,
    pub repository: String,
    pub latest_version: String,
    pub latest_stable_version: String,
    pub package_upload_names: Vec<String>,
    pub locked: bool,
    pub malicious: bool,
    pub unlisted: bool,
    pub updated_at: i64,
    pub created_at: i64,
}

/// An author row as the store keeps it. The packages an author owns are not
/// stored here: they are the packages whose `owner` is this author's name.
#[derive(Debug)]
pub struct Author {
    pub name: String,
    pub normalized_name: String,
    pub api_key: String,
    pub created_at: i64,
}

/// An author together with the credential and the names of owned packages.
#[derive(Debug)]
pub struct User {
    pub name: String,
    pub normalized_name: String,
    pub api_key: String,
    pub package_names: Vec<String>,
    pub created_at: i64,
}

/// An author as anyone may see it: without the credential.
#[derive(Debug)]
pub struct PublicUser {
    pub name: String,
    pub normalized_name: String,
    pub package_names: Vec<String>,
    pub created_at: i64,
}

/// A request to record an upload of a package version.
#[derive(Debug)]
pub struct NewPackageUpload {
    pub name: String,
    pub api_key: String,
    pub description: String,
    pub repository: String,
    pub upload: bool,
    pub entry: String,
    pub stable: bool,
    pub unlisted: bool,
    pub version: String,
}

/// A request to publish (create or update) a package.
#[derive(Debug)]
pub struct NewPackage {
    pub name: String,
    pub api_key: String,
    pub description: String,
    pub repository: String,
    pub locked: bool,
    pub malicious: bool,
    pub unlisted: bool,
}

/// A request to create an author account.
#[derive(Debug)]
pub struct NewUser {
    pub name: String,
    pub password: String,
}

/// The tagged result handed to the transport layer.
#[derive(Debug)]
pub struct NewPackageResult {
    pub ok: bool,
    pub msg: String,
}

/// The content manifest of an upload and the reference that the external
/// content-addressing service issued for it.
#[derive(Debug)]
pub struct Files {
    pub in_manifest: String,
    pub tx_id: String,
}

/// The metadata part of a multipart package upload.
#[derive(Debug)]
pub struct Config {
    pub api_key: String,
    pub package_name: String,
}

/// A recorded upload of one package version, identified by `name@version`.
#[derive(Debug)]
pub struct UploadSession {
    pub name: String,
    pub package: String,
    pub entry: String,
    pub version: String,
    pub prefix: String,
    pub files: Files,
    pub created_at: i64,
}

/// The kinds of failure of a registry operation.
#[derive(Debug, Clone, Copy, PartialEq, Eq, Structural)]
pub enum RegistryError {
    /// The target entity is absent.
    NotFound,
    /// A uniqueness constraint would be violated.
    Conflict,
    /// The credential does not own the target.
    NotAuthorized,
    /// The input is malformed: its canonical key is empty.
    Invalid,
    /// The store could not be reached.
    Unavailable,
}

/// What a successful publication did.
#[derive(Debug, Clone, Copy, PartialEq, Eq, Structural)]
pub enum PublishOutcome {
    Created,
    Updated,
}

/// What a successful upload call did.
#[derive(Debug, Clone, Copy, PartialEq, Eq, Structural)]
pub enum UploadOutcome {
    /// The request carried no content; nothing was recorded.
    Skipped,
    /// An upload session was recorded.
    Recorded,
}

/// Copies a list of strings.
fn copy_strings(v: &Vec<String>) -> (r: Vec<String>)
    ensures
        r@ == v@,
{
    let mut r: Vec<String> = Vec::new();
    let mut i: usize = 0;
    while i < v.len()
        invariant
            i <= v@.len(),
            r@ =~= v@.subrange(0, i as int),
        decreases v@.len() - i,
    {
        r.push(v[i].clone());
        i = i + 1;
    }
    assert(r@ =~= v@);
    r
}

impl Package {
    /// The two rows hold the same values.
    pub open spec fn same_as(&self, other: &Package) -> bool {
        &&& self.name == other.name
        &&& self.normalized_name == other.normalized_name
        &&& self.owner == other.owner
        &&& self.description == other.description
        &&& self.repository == other.repository
        &&& self.latest_version == other.latest_version
        &&& self.latest_stable_version == other.latest_stable_version
        &&& self.package_upload_names@ == other.package_upload_names@
        &&& self.locked == other.locked
        &&& self.malicious == other.malicious
        &&& self.unlisted == other.unlisted
        &&& self.updated_at == other.updated_at
        &&& self.created_at == other.created_at
    }

    /// A copy of this row.
    pub fn duplicate(&self) -> (r: Package)
        ensures
            r.same_as(self),
    {
        Package {
            name: self.name.clone(),
            normalized_name: self.normalized_name.clone(),
            owner: self.owner.clone(),
            description: self.description.clone(),
            repository: self.repository.clone(),
            latest_version: self.latest_version.clone(),
            latest_stable_version: self.latest_stable_version.clone(),
            package_upload_names: copy_strings(&self.package_upload_names),
            locked: self.locked,
            malicious: self.malicious,
            unlisted: self.unlisted,
            updated_at: self.updated_at,
            created_at: self.created_at,
        }
    }
}

} // verus!
