//! The upload session recorder: it records one upload of a package version
//! and appends its identity to the package, in one atomic unit.

use vstd::prelude::*;
use crate::canonical::{canonical_key, canonicalize};
use crate::issuer::now_millis;
use crate::records::{Files, NewPackageUpload, Package, RegistryError, UploadOutcome, UploadSession};
use super::{has_author_named, package_key_exists, upload_exists, Registry};

verus! {

/// The package whose canonical name is `key`, where there is one.
pub open spec fn package_with_key(packages: Seq<Package>, key: Seq<char>) -> Package {
    packages[choose|p: int| 0 <= p < packages.len() && #[trigger] packages[p].normalized_name@ == key]
}

/// The identity of an upload session: `name@version`.
pub open spec fn upload_identity(name: Seq<char>, version: Seq<char>) -> Seq<char> {
    name + seq!['@'] + version
}

/// Package `q` is package `p` after upload `id` was recorded at time `now`:
/// `id` is appended to its upload names and its update time is `now`.
pub open spec fn recorded_package(p: Package, q: Package, id: Seq<char>, now: i64) -> bool {
    &&& q.name == p.name
    &&& q.normalized_name == p.normalized_name
    &&& q.owner == p.owner
    &&& q.description == p.description
    &&& q.repository == p.repository
    &&& q.latest_version == p.latest_version
    &&& q.latest_stable_version == p.latest_stable_version
    &&& q.package_upload_names@.len() == p.package_upload_names@.len() + 1
    &&& q.package_upload_names@.subrange(0, p.package_upload_names@.len() as int)
        == p.package_upload_names@
    &&& q.package_upload_names@.last()@ == id
    &&& q.locked == p.locked
    &&& q.malicious == p.malicious
    &&& q.unlisted == p.unlisted
    &&& q.updated_at == now
    &&& q.created_at == p.created_at
}

impl Registry {
    /// `self` is `old` after the upload `req` of the package with canonical
    /// name `key` was recorded at time `now`: one session appended, its
    /// identity appended to that package's upload names; nothing else changed.
    pub open spec fn recorded_from(
        &self,
        old: &Registry,
        key: Seq<char>,
        req: NewPackageUpload,
        files: Files,
        prefix: String,
        now: i64,
    ) -> bool {
        let pkg = package_with_key(old.packages(), key);
        let id = upload_identity(pkg.name@, req.version@);
        &&& self.authors() == old.authors()
        &&& self.uploads().len() == old.uploads().len() + 1
        &&& self.uploads().subrange(0, old.uploads().len() as int) == old.uploads()
        &&& self.uploads().last().name@ == id
        &&& self.uploads().last().package == pkg.name
        &&& self.uploads().last().entry == req.entry
        &&& self.uploads().last().version == req.version
        &&& self.uploads().last().prefix == prefix
        &&& self.uploads().last().files == files
        &&& self.uploads().last().created_at == now
        &&& self.packages().len() == old.packages().len()
        &&& forall|i: int|
            0 <= i < old.packages().len() ==> if old.packages()[i].normalized_name@ == key {
                recorded_package(old.packages()[i], #[trigger] self.packages()[i], id, now)
            } else {
                self.packages()[i] == old.packages()[i]
            }
    }

    /// What recording the upload `req` at time `now` does to `old`, giving
    /// `self` and the result `r`.
    pub open spec fn uploaded_from(
        &self,
        old: &Registry,
        req: NewPackageUpload,
        files: Files,
        prefix: String,
        now: i64,
        r: Result<UploadOutcome, RegistryError>,
    ) -> bool {
        let key = canonical_key(req.name@);
        if !req.upload {
            r == Ok::<UploadOutcome, RegistryError>(UploadOutcome::Skipped) && self.same_rows(old)
        } else if !package_key_exists(old.packages(), key) {
            r == Err::<UploadOutcome, RegistryError>(RegistryError::NotFound) && self.same_rows(old)
        } else if upload_exists(
            old.uploads(),
            upload_identity(package_with_key(old.packages(), key).name@, req.version@),
        ) {
            r == Err::<UploadOutcome, RegistryError>(RegistryError::Conflict) && self.same_rows(old)
        } else {
            r == Ok::<UploadOutcome, RegistryError>(UploadOutcome::Recorded) && self.recorded_from(
                old,
                key,
                req,
                files,
                prefix,
                now,
            )
        }
    }
}

impl Registry {
    /// The position of the upload session with identity `id`.
    pub(super) fn upload_index(&self, id: &String) -> (r: Option<usize>)
        ensures
            match r {
                Some(i) => i < self.uploads().len() && self.uploads()[i as int].name@ == id@,
                None => !upload_exists(self.uploads(), id@),
            },
    {
        let mut i: usize = 0;
        while i < self.uploads.len()
            invariant
                i <= self.uploads@.len(),
                forall|j: int| 0 <= j < i ==> self.uploads@[j].name@ != id@,
            decreases self.uploads@.len() - i,
        {
            if self.uploads[i].name == *id {
                return Some(i);
            }
            i = i + 1;
        }
        None
    }

    /// The identities of all recorded upload sessions, in order of recording.
    pub fn get_upload_names(&self) -> (r: Vec<String>)
        ensures
            r@.len() == self.uploads().len(),
            forall|i: int| 0 <= i < r@.len() ==> #[trigger] r@[i] == self.uploads()[i].name,
    {
        let mut r: Vec<String> = Vec::new();
        let mut i: usize = 0;
        while i < self.uploads.len()
            invariant
                i <= self.uploads@.len(),
                r@.len() == i,
                forall|j: int| 0 <= j < i ==> #[trigger] r@[j] == self.uploads@[j].name,
            decreases self.uploads@.len() - i,
        {
            r.push(self.uploads[i].name.clone());
            i = i + 1;
        }
        r
    }

    /// Records an upload of `package` at time `now`. A request without
    /// content records nothing; otherwise the package must exist (`NotFound`)
    /// and its `name@version` must not have been recorded (`Conflict`). The
    /// session and the package's upload list are written together.
    pub fn create_package_uploads_at(
        &mut self,
        package: NewPackageUpload,
        files: Files,
        prefix: String,
        now: i64,
    ) -> (r: Result<UploadOutcome, RegistryError>)
        requires
            old(self).wf(),
        ensures
            final(self).wf(),
            final(self).uploaded_from(old(self), package, files, prefix, now, r),
    {
        let ghost req = package;
        if !package.upload {
            return Ok(UploadOutcome::Skipped);
        }
        let key = canonicalize(package.name.as_str());
        let i = match self.package_index(&key) {
            None => {
                return Err(RegistryError::NotFound);
            },
            Some(i) => i,
        };
        proof {
            assert forall|j: int|
                0 <= j < self.packages@.len() && #[trigger] self.packages@[j].normalized_name@
                    == key@ implies j == i by {
                if j != i {
                    assert(self.packages@[j].normalized_name@
                        != self.packages@[i as int].normalized_name@);
                }
            }
            assert(package_with_key(self.packages@, key@) == self.packages@[i as int]);
            reveal_strlit("@");
        }
        let mut id = self.packages[i].name.clone();
        id.append("@");
        id.append(package.version.as_str());
        assert(id@ =~= upload_identity(self.packages@[i as int].name@, req.version@));
        if self.upload_index(&id).is_some() {
            return Err(RegistryError::Conflict);
        }
        let ghost before = *self;
        let session = UploadSession {
            name: id.clone(),
            package: self.packages[i].name.clone(),
            entry: package.entry,
            version: package.version,
            prefix,
            files,
            created_at: now,
        };
        self.uploads.push(session);
        self.packages[i].package_upload_names.push(id);
        self.packages[i].updated_at = now;
        proof {
            assert(self.uploads@.subrange(0, before.uploads@.len() as int) =~= before.uploads@);
            assert(self.packages@[i as int].package_upload_names@.subrange(
                0,
                before.packages@[i as int].package_upload_names@.len() as int,
            ) =~= before.packages@[i as int].package_upload_names@);
            assert(has_author_named(self.authors@, self.packages@[i as int].owner@));
        }
        Ok(UploadOutcome::Recorded)
    }

    /// Records an upload at the current time; see `create_package_uploads_at`.
    pub fn create_package_uploads(
        &mut self,
        package: NewPackageUpload,
        files: Files,
        prefix: String,
    ) -> (r: Result<UploadOutcome, RegistryError>)
        requires
            old(self).wf(),
        ensures
            final(self).wf(),
            exists|now: i64|
                now >= 0 && #[trigger] final(self).uploaded_from(old(self), package, files, prefix, now, r),
    {
        let now = now_millis();
        let ghost (req, f, pre) = (package, files, prefix);
        let r = self.create_package_uploads_at(package, files, prefix, now);
        assert(self.uploaded_from(old(self), req, f, pre, now, r));
        r
    }
}

} // verus!
