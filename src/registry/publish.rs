//! The publication coordinator: it decides from the current rows whether a
//! publish request creates a package, updates one, or is refused, and writes
//! the outcome in one atomic unit.

use vstd::prelude::*;
use crate::canonical::{canonical_key, canonicalize};
use crate::coordinator::{decide_publish, publish_decision, PublishDecision};
use crate::issuer::now_millis;
use crate::records::{Author, NewPackage, Package, PublishOutcome, RegistryError};
use super::{has_author_named, has_credential, owns_key, package_key_exists, Registry};

verus! {

/// Package `q` is package `p` after an update by `req` at time `now`: the
/// description, repository, unlisted flag and update time change; the rest is
/// kept.
pub open spec fn updated_package(p: Package, q: Package, req: NewPackage, now: i64) -> bool {
    &&& q.name == p.name
    &&& q.normalized_name == p.normalized_name
    &&& q.owner == p.owner
    &&& q.description == req.description
    &&& q.repository == req.repository
    &&& q.latest_version == p.latest_version
    &&& q.latest_stable_version == p.latest_stable_version
    &&& q.package_upload_names == p.package_upload_names
    &&& q.locked == p.locked
    &&& q.malicious == p.malicious
    &&& q.unlisted == req.unlisted
    &&& q.updated_at == now
    &&& q.created_at == p.created_at
}

/// Package `p` is the one that `req` creates at time `now` for the author
/// holding its credential: empty versions and upload list, the flags of the
/// request, both timestamps `now`.
pub open spec fn created_package(p: Package, authors: Seq<Author>, req: NewPackage, now: i64) -> bool {
    &&& p.name == req.name
    &&& p.normalized_name@ == canonical_key(req.name@)
    &&& forall|a: int|
        0 <= a < authors.len() && #[trigger] authors[a].api_key@ == req.api_key@ ==> p.owner
            == authors[a].name
    &&& p.description == req.description
    &&& p.repository == req.repository
    &&& p.latest_version@.len() == 0
    &&& p.latest_stable_version@.len() == 0
    &&& p.package_upload_names@.len() == 0
    &&& p.locked == req.locked
    &&& p.malicious == req.malicious
    &&& p.unlisted == req.unlisted
    &&& p.updated_at == now
    &&& p.created_at == now
}

impl Registry {
    /// `self` is `old` after the package with canonical name `key` was
    /// updated by `req` at time `now`; no other row changed.
    pub open spec fn updated_from(
        &self,
        old: &Registry,
        key: Seq<char>,
        req: NewPackage,
        now: i64,
    ) -> bool {
        &&& self.authors() == old.authors()
        &&& self.uploads() == old.uploads()
        &&& self.packages().len() == old.packages().len()
        &&& forall|i: int|
            0 <= i < old.packages().len() ==> if old.packages()[i].normalized_name@ == key {
                updated_package(old.packages()[i], #[trigger] self.packages()[i], req, now)
            } else {
                self.packages()[i] == old.packages()[i]
            }
    }

    /// `self` is `old` with one package appended, the one that `req` creates
    /// at time `now`; no other row changed.
    pub open spec fn created_from(&self, old: &Registry, req: NewPackage, now: i64) -> bool {
        &&& self.authors() == old.authors()
        &&& self.uploads() == old.uploads()
        &&& self.packages().len() == old.packages().len() + 1
        &&& self.packages().subrange(0, old.packages().len() as int) == old.packages()
        &&& created_package(self.packages().last(), old.authors(), req, now)
    }

    /// What carrying out `decision` for `req` at time `now` does to `old`,
    /// giving `self` and the result `r`. The store re-checks its constraints at
    /// the write: a create whose name has meanwhile been taken is a `Conflict`,
    /// and an update needs the package to exist and the caller to own it.
    pub open spec fn committed_from(
        &self,
        old: &Registry,
        decision: PublishDecision,
        req: NewPackage,
        now: i64,
        r: Result<PublishOutcome, RegistryError>,
    ) -> bool {
        let key = canonical_key(req.name@);
        match decision {
            PublishDecision::Update => if !package_key_exists(old.packages(), key) {
                r == Err::<PublishOutcome, RegistryError>(RegistryError::NotFound)
                    && self.same_rows(old)
            } else if !owns_key(old.authors(), old.packages(), req.api_key@, key) {
                r == Err::<PublishOutcome, RegistryError>(RegistryError::NotAuthorized)
                    && self.same_rows(old)
            } else {
                r == Ok::<PublishOutcome, RegistryError>(PublishOutcome::Updated)
                    && self.updated_from(old, key, req, now)
            },
            PublishDecision::StaleOwnership => r == Err::<PublishOutcome, RegistryError>(
                RegistryError::NotFound,
            ) && self.same_rows(old),
            PublishDecision::Reject => r == Err::<PublishOutcome, RegistryError>(
                RegistryError::NotAuthorized,
            ) && self.same_rows(old),
            PublishDecision::Create => if package_key_exists(old.packages(), key) {
                r == Err::<PublishOutcome, RegistryError>(RegistryError::Conflict)
                    && self.same_rows(old)
            } else if !has_credential(old.authors(), req.api_key@) {
                r == Err::<PublishOutcome, RegistryError>(RegistryError::NotAuthorized)
                    && self.same_rows(old)
            } else {
                r == Ok::<PublishOutcome, RegistryError>(PublishOutcome::Created)
                    && self.created_from(old, req, now)
            },
        }
    }

    /// The decision that `req` leads to in this store: `None` when the name's
    /// canonical key is empty.
    pub open spec fn planned_decision(&self, req: NewPackage) -> Option<PublishDecision> {
        let key = canonical_key(req.name@);
        if key.len() == 0 {
            None
        } else {
            Some(
                publish_decision(
                    owns_key(self.authors(), self.packages(), req.api_key@, key),
                    package_key_exists(self.packages(), key),
                ),
            )
        }
    }

    /// What publishing `req` at time `now` does to `old`, giving `self` and
    /// the result `r`: `Invalid` for an empty canonical key, else the planned
    /// decision carried out against the same rows.
    pub open spec fn published_from(
        &self,
        old: &Registry,
        req: NewPackage,
        now: i64,
        r: Result<PublishOutcome, RegistryError>,
    ) -> bool {
        match old.planned_decision(req) {
            None => r == Err::<PublishOutcome, RegistryError>(RegistryError::Invalid)
                && self.same_rows(old),
            Some(d) => self.committed_from(old, d, req, now, r),
        }
    }
}

impl Registry {
    /// Reads the store and decides what `package` would do: `Invalid` when its
    /// name has an empty canonical key, else the decision table applied to
    /// whether the caller owns the name and whether the name exists.
    pub fn plan_publish(&self, package: &NewPackage) -> (r: Result<PublishDecision, RegistryError>)
        requires
            self.wf(),
        ensures
            match self.planned_decision(*package) {
                None => r == Err::<PublishDecision, RegistryError>(RegistryError::Invalid),
                Some(d) => r == Ok::<PublishDecision, RegistryError>(d),
            },
    {
        let key = canonicalize(package.name.as_str());
        if key.as_str().unicode_len() == 0 {
            return Err(RegistryError::Invalid);
        }
        let owner = self.is_owner(&package.api_key, package.name.as_str());
        let exists = self.package_exists(package.name.as_str());
        Ok(decide_publish(owner, exists))
    }

    /// Carries out a decision taken earlier by `plan_publish`, in one atomic
    /// write. The constraints are checked again against the current rows.
    pub fn commit_publish(
        &mut self,
        decision: PublishDecision,
        package: NewPackage,
        now: i64,
    ) -> (r: Result<PublishOutcome, RegistryError>)
        requires
            old(self).wf(),
        ensures
            final(self).wf(),
            final(self).committed_from(old(self), decision, package, now, r),
    {
        let ghost req = package;
        let key = canonicalize(package.name.as_str());
        match decision {
            PublishDecision::Update => {
                match self.package_index(&key) {
                    None => Err(RegistryError::NotFound),
                    Some(i) => {
                        if !self.is_owner(&package.api_key, package.name.as_str()) {
                            return Err(RegistryError::NotAuthorized);
                        }
                        let ghost before = *self;
                        self.packages[i].description = package.description;
                        self.packages[i].repository = package.repository;
                        self.packages[i].unlisted = package.unlisted;
                        self.packages[i].updated_at = now;
                        proof {
                            assert forall|j: int|
                                0 <= j < before.packages@.len() && j != i implies
                                before.packages@[j].normalized_name@ != key@ by {
                                assert(before.packages@[j].normalized_name@
                                    != before.packages@[i as int].normalized_name@);
                            }
                            assert(has_author_named(self.authors@, self.packages@[i as int].owner@));
                        }
                        Ok(PublishOutcome::Updated)
                    },
                }
            },
            PublishDecision::StaleOwnership => Err(RegistryError::NotFound),
            PublishDecision::Reject => Err(RegistryError::NotAuthorized),
            PublishDecision::Create => {
                if self.package_index(&key).is_some() {
                    return Err(RegistryError::Conflict);
                }
                match self.author_index_by_credential(&package.api_key) {
                    None => Err(RegistryError::NotAuthorized),
                    Some(a) => {
                        let ghost before = *self;
                        let p = Package {
                            name: package.name,
                            normalized_name: key,
                            owner: self.authors[a].name.clone(),
                            description: package.description,
                            repository: package.repository,
                            latest_version: String::new(),
                            latest_stable_version: String::new(),
                            package_upload_names: Vec::new(),
                            locked: package.locked,
                            malicious: package.malicious,
                            unlisted: package.unlisted,
                            updated_at: now,
                            created_at: now,
                        };
                        self.packages.push(p);
                        proof {
                            assert forall|x: int|
                                0 <= x < self.authors@.len() && #[trigger] self.authors@[x].api_key@
                                    == req.api_key@ implies p.owner == self.authors@[x].name by {
                                if x != a {
                                    assert(self.authors@[x].api_key@ != self.authors@[a as int].api_key@);
                                }
                            }
                            assert(has_author_named(self.authors@, p.owner@));
                            assert(self.packages@.subrange(0, before.packages@.len() as int)
                                =~= before.packages@);
                            assert forall|i: int| 0 <= i < self.packages@.len() implies
                                has_author_named(self.authors@, #[trigger] self.packages@[i].owner@) by {
                                if i < before.packages@.len() {
                                    assert(self.packages@[i] == before.packages@[i]);
                                }
                            }
                        }
                        Ok(PublishOutcome::Created)
                    },
                }
            },
        }
    }

    /// Publishes a package at the current time; see `publish_package_at`.
    pub fn publish_package(&mut self, package: NewPackage) -> (r: Result<
        PublishOutcome,
        RegistryError,
    >)
        requires
            old(self).wf(),
        ensures
            final(self).wf(),
            exists|now: i64| now >= 0 && #[trigger] final(self).published_from(old(self), package, now, r),
    {
        let now = now_millis();
        let r = self.publish_package_at(package, now);
        assert(self.published_from(old(self), package, now, r));
        r
    }

    /// Publishes a package at time `now`: decides from the current rows and
    /// writes, in one atomic unit.
    pub fn publish_package_at(&mut self, package: NewPackage, now: i64) -> (r: Result<
        PublishOutcome,
        RegistryError,
    >)
        requires
            old(self).wf(),
        ensures
            final(self).wf(),
            final(self).published_from(old(self), package, now, r),
    {
        match self.plan_publish(&package) {
            Err(e) => Err(e),
            Ok(d) => self.commit_publish(d, package, now),
        }
    }
}

} // verus!
