//! Author accounts: creation with a freshly issued credential.

use vstd::prelude::*;
use crate::canonical::{canonical_key, canonicalize};
use crate::issuer::{is_credential_text, issue_credential, now_millis};
use crate::records::{Author, NewUser, RegistryError, User};
use super::{author_key_exists, has_author_named, has_credential, Registry};

verus! {

impl Registry {
    /// `self` is `old` with one author appended, the one that `req` creates
    /// with credential `api_key` at time `now`; no other row changed.
    pub open spec fn author_created_from(
        &self,
        old: &Registry,
        req: NewUser,
        api_key: Seq<char>,
        now: i64,
    ) -> bool {
        &&& self.packages() == old.packages()
        &&& self.uploads() == old.uploads()
        &&& self.authors().len() == old.authors().len() + 1
        &&& self.authors().subrange(0, old.authors().len() as int) == old.authors()
        &&& self.authors().last().name@ == req.name@
        &&& self.authors().last().normalized_name@ == canonical_key(req.name@)
        &&& self.authors().last().api_key@ == api_key
        &&& self.authors().last().created_at == now
    }

    /// What creating an author for `req` with credential `api_key` at time
    /// `now` does to `old`, giving `self` and the result `r`.
    pub open spec fn user_created_from(
        &self,
        old: &Registry,
        req: NewUser,
        api_key: Seq<char>,
        now: i64,
        r: Result<User, RegistryError>,
    ) -> bool {
        let key = canonical_key(req.name@);
        if key.len() == 0 || api_key.len() == 0 {
            r == Err::<User, RegistryError>(RegistryError::Invalid) && self.same_rows(old)
        } else if author_key_exists(old.authors(), key) || has_credential(old.authors(), api_key) {
            r == Err::<User, RegistryError>(RegistryError::Conflict) && self.same_rows(old)
        } else {
            &&& self.author_created_from(old, req, api_key, now)
            &&& r matches Ok(u) && {
                &&& u.name@ == req.name@
                &&& u.normalized_name@ == key
                &&& u.api_key@ == api_key
                &&& u.package_names@.len() == 0
                &&& u.created_at == now
            }
        }
    }
}

impl Registry {
    /// Creates an author with credential `api_key` at time `now`. The name's
    /// canonical key and the credential must not be empty (`Invalid`), and
    /// neither may already be in use (`Conflict`). The password is kept and
    /// never returned.
    pub fn create_user_with(&mut self, new_user: NewUser, api_key: String, now: i64) -> (r: Result<
        User,
        RegistryError,
    >)
        requires
            old(self).wf(),
        ensures
            final(self).wf(),
            final(self).user_created_from(old(self), new_user, api_key@, now, r),
    {
        let ghost req = new_user;
        let key = canonicalize(new_user.name.as_str());
        if key.as_str().unicode_len() == 0 || api_key.as_str().unicode_len() == 0 {
            return Err(RegistryError::Invalid);
        }
        if self.author_index_by_key(&key).is_some() {
            return Err(RegistryError::Conflict);
        }
        if self.author_index_by_credential(&api_key).is_some() {
            return Err(RegistryError::Conflict);
        }
        let ghost before = *self;
        let author = Author {
            name: new_user.name.clone(),
            normalized_name: key.clone(),
            api_key: api_key.clone(),
            created_at: now,
        };
        self.authors.push(author);
        self.secrets.push(new_user.password);
        proof {
            assert(self.authors@.subrange(0, before.authors@.len() as int) =~= before.authors@);
            assert forall|i: int| 0 <= i < self.packages@.len() implies has_author_named(
                self.authors@,
                #[trigger] self.packages@[i].owner@,
            ) by {
                assert(has_author_named(before.authors@, self.packages@[i].owner@));
                let a = choose|a: int|
                    0 <= a < before.authors@.len() && #[trigger] before.authors@[a].name@
                        == self.packages@[i].owner@;
                assert(self.authors@[a] == before.authors@[a]);
            }
        }
        Ok(
            User {
                name: new_user.name,
                normalized_name: key,
                api_key,
                package_names: Vec::new(),
                created_at: now,
            },
        )
    }

    /// Creates an author with a freshly issued credential at the current
    /// time; see `create_user_with`.
    pub fn create_user(&mut self, new_user: NewUser) -> (r: Result<User, RegistryError>)
        requires
            old(self).wf(),
        ensures
            final(self).wf(),
            exists|api_key: Seq<char>, now: i64|
                is_credential_text(api_key) && now >= 0 && #[trigger] final(self).user_created_from(
                    old(self),
                    new_user,
                    api_key,
                    now,
                    r,
                ),
    {
        let api_key = issue_credential();
        let ghost key_view = api_key@;
        let now = now_millis();
        let r = self.create_user_with(new_user, api_key, now);
        proof {
            assert(is_credential_text(key_view));
            assert(self.user_created_from(old(self), new_user, key_view, now, r));
        }
        r
    }
}

} // verus!
