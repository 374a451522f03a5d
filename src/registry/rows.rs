//! Row-level inserts: the store's own constraints checked on rows that come
//! from elsewhere, as when a store is loaded back from durable storage.

use vstd::prelude::*;
use crate::canonical::{canonical_key, canonicalize};
use crate::records::{Author, Package, RegistryError, UploadSession};
use super::{author_key_exists, has_author_named, has_credential, package_key_exists, upload_exists, Registry};

verus! {

impl Registry {
    /// What inserting author row `author` does to `old`, giving `self` and
    /// the result `r`.
    pub open spec fn author_inserted_from(
        &self,
        old: &Registry,
        author: Author,
        r: Result<(), RegistryError>,
    ) -> bool {
        let key = canonical_key(author.name@);
        if author.normalized_name@ != key || key.len() == 0 || author.api_key@.len() == 0 {
            r == Err::<(), RegistryError>(RegistryError::Invalid) && self.same_rows(old)
        } else if author_key_exists(old.authors(), key) || has_credential(
            old.authors(),
            author.api_key@,
        ) {
            r == Err::<(), RegistryError>(RegistryError::Conflict) && self.same_rows(old)
        } else {
            &&& r == Ok::<(), RegistryError>(())
            &&& self.authors() == old.authors().push(author)
            &&& self.packages() == old.packages()
            &&& self.uploads() == old.uploads()
        }
    }

    /// What inserting package row `package` does to `old`, giving `self` and
    /// the result `r`.
    pub open spec fn package_inserted_from(
        &self,
        old: &Registry,
        package: Package,
        r: Result<(), RegistryError>,
    ) -> bool {
        let key = canonical_key(package.name@);
        if package.normalized_name@ != key || key.len() == 0 {
            r == Err::<(), RegistryError>(RegistryError::Invalid) && self.same_rows(old)
        } else if package_key_exists(old.packages(), key) {
            r == Err::<(), RegistryError>(RegistryError::Conflict) && self.same_rows(old)
        } else if !has_author_named(old.authors(), package.owner@) {
            r == Err::<(), RegistryError>(RegistryError::NotFound) && self.same_rows(old)
        } else {
            &&& r == Ok::<(), RegistryError>(())
            &&& self.authors() == old.authors()
            &&& self.packages() == old.packages().push(package)
            &&& self.uploads() == old.uploads()
        }
    }

    /// What inserting upload session row `session` does to `old`, giving
    /// `self` and the result `r`.
    pub open spec fn session_inserted_from(
        &self,
        old: &Registry,
        session: UploadSession,
        r: Result<(), RegistryError>,
    ) -> bool {
        if upload_exists(old.uploads(), session.name@) {
            r == Err::<(), RegistryError>(RegistryError::Conflict) && self.same_rows(old)
        } else {
            &&& r == Ok::<(), RegistryError>(())
            &&& self.authors() == old.authors()
            &&& self.packages() == old.packages()
            &&& self.uploads() == old.uploads().push(session)
        }
    }
}

impl Registry {
    /// The position of the author with display name `name`.
    fn author_index_by_name(&self, name: &String) -> (r: Option<usize>)
        ensures
            match r {
                Some(i) => i < self.authors().len() && self.authors()[i as int].name@ == name@,
                None => !has_author_named(self.authors(), name@),
            },
    {
        let mut i: usize = 0;
        while i < self.authors.len()
            invariant
                i <= self.authors@.len(),
                forall|j: int| 0 <= j < i ==> self.authors@[j].name@ != name@,
            decreases self.authors@.len() - i,
        {
            if self.authors[i].name == *name {
                return Some(i);
            }
            i = i + 1;
        }
        None
    }

    /// Inserts an author row with its secret. The canonical name must be
    /// derived from the name and not be empty, the credential must not be
    /// empty (`Invalid`); neither may be in use (`Conflict`).
    pub fn insert_author(&mut self, author: Author, secret: String) -> (r: Result<(), RegistryError>)
        requires
            old(self).wf(),
        ensures
            final(self).wf(),
            final(self).author_inserted_from(old(self), author, r),
    {
        let key = canonicalize(author.name.as_str());
        if author.normalized_name != key || key.as_str().unicode_len() == 0
            || author.api_key.as_str().unicode_len() == 0 {
            return Err(RegistryError::Invalid);
        }
        if self.author_index_by_key(&key).is_some() {
            return Err(RegistryError::Conflict);
        }
        if self.author_index_by_credential(&author.api_key).is_some() {
            return Err(RegistryError::Conflict);
        }
        let ghost before = *self;
        self.authors.push(author);
        self.secrets.push(secret);
        proof {
            assert forall|i: int| 0 <= i < self.packages@.len() implies has_author_named(
                self.authors@,
                #[trigger] self.packages@[i].owner@,
            ) by {
                assert(has_author_named(before.authors@, self.packages@[i].owner@));
                let a = choose|a: int|
                    0 <= a < before.authors@.len() && #[trigger] before.authors@[a].name@
                        == self.packages@[i].owner@;
                assert(self.authors@[a] == before.authors@[a]);
            }
        }
        Ok(())
    }

    /// Inserts a package row. The canonical name must be derived from the
    /// name and not be empty (`Invalid`), must not be in use (`Conflict`), and
    /// the owner must be an author (`NotFound`).
    pub fn insert_package(&mut self, package: Package) -> (r: Result<(), RegistryError>)
        requires
            old(self).wf(),
        ensures
            final(self).wf(),
            final(self).package_inserted_from(old(self), package, r),
    {
        let key = canonicalize(package.name.as_str());
        if package.normalized_name != key || key.as_str().unicode_len() == 0 {
            return Err(RegistryError::Invalid);
        }
        if self.package_index(&key).is_some() {
            return Err(RegistryError::Conflict);
        }
        if self.author_index_by_name(&package.owner).is_none() {
            return Err(RegistryError::NotFound);
        }
        self.packages.push(package);
        Ok(())
    }

    /// Inserts an upload session row; its identity must not be in use
    /// (`Conflict`).
    pub fn insert_upload_session(&mut self, session: UploadSession) -> (r: Result<(), RegistryError>)
        requires
            old(self).wf(),
        ensures
            final(self).wf(),
            final(self).session_inserted_from(old(self), session, r),
    {
        if self.upload_index(&session.name).is_some() {
            return Err(RegistryError::Conflict);
        }
        self.uploads.push(session);
        Ok(())
    }
}

} // verus!
