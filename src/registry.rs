//! The registry store: authors, packages and upload sessions, with the
//! uniqueness constraints on canonical names, credentials and upload
//! identities. Every operation takes the whole store by `&mut`, so each one is
//! a single atomic unit.

use vstd::prelude::*;
use crate::canonical::{canonical_key, canonicalize};
use crate::records::{Author, Package, PublicUser, RegistryError, UploadSession, User};

pub mod accounts;
pub mod publish;
pub mod rows;
pub mod uploads;

verus! {

/// The registry's rows are well formed: canonical names are derived from
/// display names and unique, credentials are unique, every package is owned by
/// an author, and upload identities are unique.
pub open spec fn rows_wf(
    authors: Seq<Author>,
    packages: Seq<Package>,
    uploads: Seq<UploadSession>,
) -> bool {
    &&& forall|i: int|
        0 <= i < authors.len() ==> #[trigger] authors[i].normalized_name@ == canonical_key(
            authors[i].name@,
        )
    &&& forall|i: int, j: int|
        0 <= i < authors.len() && 0 <= j < authors.len() && i != j
            ==> #[trigger] authors[i].normalized_name@ != #[trigger] authors[j].normalized_name@
    &&& forall|i: int, j: int|
        0 <= i < authors.len() && 0 <= j < authors.len() && i != j ==> #[trigger] authors[i].api_key@
            != #[trigger] authors[j].api_key@
    &&& forall|i: int|
        0 <= i < packages.len() ==> #[trigger] packages[i].normalized_name@ == canonical_key(
            packages[i].name@,
        )
    &&& forall|i: int, j: int|
        0 <= i < packages.len() && 0 <= j < packages.len() && i != j
            ==> #[trigger] packages[i].normalized_name@ != #[trigger] packages[j].normalized_name@
    &&& forall|i: int|
        0 <= i < packages.len() ==> has_author_named(authors, #[trigger] packages[i].owner@)
    &&& forall|i: int, j: int|
        0 <= i < uploads.len() && 0 <= j < uploads.len() && i != j ==> #[trigger] uploads[i].name@
            != #[trigger] uploads[j].name@
}

/// Some author has this display name.
pub open spec fn has_author_named(authors: Seq<Author>, name: Seq<char>) -> bool {
    exists|a: int| 0 <= a < authors.len() && #[trigger] authors[a].name@ == name
}

/// Some author holds this credential.
pub open spec fn has_credential(authors: Seq<Author>, token: Seq<char>) -> bool {
    exists|a: int| 0 <= a < authors.len() && #[trigger] authors[a].api_key@ == token
}

/// Some author has this canonical name.
pub open spec fn author_key_exists(authors: Seq<Author>, key: Seq<char>) -> bool {
    exists|a: int| 0 <= a < authors.len() && #[trigger] authors[a].normalized_name@ == key
}

/// Some package has this canonical name.
pub open spec fn package_key_exists(packages: Seq<Package>, key: Seq<char>) -> bool {
    exists|p: int| 0 <= p < packages.len() && #[trigger] packages[p].normalized_name@ == key
}

/// Some upload session has this identity.
pub open spec fn upload_exists(uploads: Seq<UploadSession>, id: Seq<char>) -> bool {
    exists|u: int| 0 <= u < uploads.len() && #[trigger] uploads[u].name@ == id
}

/// The author holding `token` owns a package whose canonical name is
/// `key`: that package's `owner` is the author's name.
pub open spec fn owns_key(
    authors: Seq<Author>,
    packages: Seq<Package>,
    token: Seq<char>,
    key: Seq<char>,
) -> bool {
    exists|a: int, p: int|
        0 <= a < authors.len() && 0 <= p < packages.len() && #[trigger] authors[a].api_key@ == token
            && #[trigger] packages[p].normalized_name@ == key && packages[p].owner@
            == authors[a].name@
}

/// The names of the packages owned by the author named `owner`, in the
/// order in which the packages were created.
pub open spec fn owned_names(packages: Seq<Package>, owner: Seq<char>) -> Seq<Seq<char>>
    decreases packages.len(),
{
    if packages.len() == 0 {
        Seq::empty()
    } else {
        let rest = owned_names(packages.drop_last(), owner);
        if packages.last().owner@ == owner {
            rest.push(packages.last().name@)
        } else {
            rest
        }
    }
}

/// The names of `names` as character sequences.
pub open spec fn name_views(names: Seq<String>) -> Seq<Seq<char>> {
    names.map_values(|s: String| s@)
}

/// The store. An author's owned packages are not kept in the author row: they
/// are the packages whose `owner` is the author's name (`owned_names`), so the
/// two cannot disagree. Each author's secret is kept beside its row and never
/// handed out.
pub struct Registry {
    authors: Vec<Author>,
    secrets: Vec<String>,
    packages: Vec<Package>,
    uploads: Vec<UploadSession>,
}

impl Registry {
    /// The author rows.
    pub closed spec fn authors(&self) -> Seq<Author> {
        self.authors@
    }

    /// The package rows.
    pub closed spec fn packages(&self) -> Seq<Package> {
        self.packages@
    }

    /// The upload session rows.
    pub closed spec fn uploads(&self) -> Seq<UploadSession> {
        self.uploads@
    }

    /// Each author has exactly one stored secret.
    pub closed spec fn secrets_aligned(&self) -> bool {
        self.secrets@.len() == self.authors@.len()
    }

    /// The store's invariant.
    pub open spec fn wf(&self) -> bool {
        &&& self.secrets_aligned()
        &&& rows_wf(self.authors(), self.packages(), self.uploads())
    }

    /// The two stores hold the same rows.
    pub open spec fn same_rows(&self, other: &Registry) -> bool {
        &&& self.authors() == other.authors()
        &&& self.packages() == other.packages()
        &&& self.uploads() == other.uploads()
    }

    /// An empty store.
    pub fn new() -> (r: Registry)
        ensures
            r.wf(),
            r.authors().len() == 0,
            r.packages().len() == 0,
            r.uploads().len() == 0,
    {
        Registry { authors: Vec::new(), secrets: Vec::new(), packages: Vec::new(), uploads: Vec::new() }
    }

    /// The position of the package with canonical name `key`.
    fn package_index(&self, key: &String) -> (r: Option<usize>)
        requires
            self.wf(),
        ensures
            match r {
                Some(i) => i < self.packages().len() && self.packages()[i as int].normalized_name@
                    == key@,
                None => !package_key_exists(self.packages(), key@),
            },
    {
        let mut i: usize = 0;
        while i < self.packages.len()
            invariant
                i <= self.packages@.len(),
                forall|j: int| 0 <= j < i ==> self.packages@[j].normalized_name@ != key@,
            decreases self.packages@.len() - i,
        {
            if self.packages[i].normalized_name == *key {
                return Some(i);
            }
            i = i + 1;
        }
        None
    }

    /// The position of the author with canonical name `key`.
    fn author_index_by_key(&self, key: &String) -> (r: Option<usize>)
        requires
            self.wf(),
        ensures
            match r {
                Some(i) => i < self.authors().len() && self.authors()[i as int].normalized_name@
                    == key@,
                None => !author_key_exists(self.authors(), key@),
            },
    {
        let mut i: usize = 0;
        while i < self.authors.len()
            invariant
                i <= self.authors@.len(),
                forall|j: int| 0 <= j < i ==> self.authors@[j].normalized_name@ != key@,
            decreases self.authors@.len() - i,
        {
            if self.authors[i].normalized_name == *key {
                return Some(i);
            }
            i = i + 1;
        }
        None
    }

    /// The position of the author holding credential `token`.
    fn author_index_by_credential(&self, token: &String) -> (r: Option<usize>)
        requires
            self.wf(),
        ensures
            match r {
                Some(i) => i < self.authors().len() && self.authors()[i as int].api_key@
                    == token@,
                None => !has_credential(self.authors(), token@),
            },
    {
        let mut i: usize = 0;
        while i < self.authors.len()
            invariant
                i <= self.authors@.len(),
                forall|j: int| 0 <= j < i ==> self.authors@[j].api_key@ != token@,
            decreases self.authors@.len() - i,
        {
            if self.authors[i].api_key == *token {
                return Some(i);
            }
            i = i + 1;
        }
        None
    }

    /// Whether a package with the same canonical name as `name` exists.
    pub fn package_exists(&self, name: &str) -> (r: bool)
        requires
            self.wf(),
        ensures
            r == package_key_exists(self.packages(), canonical_key(name@)),
    {
        let key = canonicalize(name);
        self.package_index(&key).is_some()
    }

    /// Whether the author holding `api_key` owns the package named `name`,
    /// compared by canonical name.
    pub fn is_owner(&self, api_key: &String, name: &str) -> (r: bool)
        requires
            self.wf(),
        ensures
            r == owns_key(self.authors(), self.packages(), api_key@, canonical_key(name@)),
    {
        let key = canonicalize(name);
        match self.author_index_by_credential(api_key) {
            None => false,
            Some(a) => match self.package_index(&key) {
                None => false,
                Some(p) => {
                    let r = self.packages[p].owner == self.authors[a].name;
                    proof {
                        if !r {
                            assert forall|x: int, y: int|
                                0 <= x < self.authors@.len() && 0 <= y < self.packages@.len()
                                    && #[trigger] self.authors@[x].api_key@ == api_key@
                                    && #[trigger] self.packages@[y].normalized_name@ == key@
                                implies self.packages@[y].owner@ != self.authors@[x].name@ by {
                                if x != a {
                                    assert(self.authors@[x].api_key@ != self.authors@[a as int].api_key@);
                                }
                                if y != p {
                                    assert(self.packages@[y].normalized_name@ != self.packages@[p as int].normalized_name@);
                                }
                            }
                        }
                    }
                    r
                },
            },
        }
    }
}

impl Registry {
    /// The names of the packages owned by the author named `owner`.
    fn owned_package_names(&self, owner: &String) -> (r: Vec<String>)
        ensures
            name_views(r@) == owned_names(self.packages(), owner@),
    {
        let mut r: Vec<String> = Vec::new();
        let mut i: usize = 0;
        while i < self.packages.len()
            invariant
                i <= self.packages@.len(),
                name_views(r@) == owned_names(self.packages@.subrange(0, i as int), owner@),
            decreases self.packages@.len() - i,
        {
            let ghost prev = r@;
            let ghost seen = self.packages@.subrange(0, i + 1);
            assert(seen.drop_last() =~= self.packages@.subrange(0, i as int));
            assert(seen.last() == self.packages@[i as int]);
            if self.packages[i].owner == *owner {
                r.push(self.packages[i].name.clone());
                assert(name_views(r@) =~= name_views(prev).push(self.packages@[i as int].name@));
            }
            i = i + 1;
        }
        assert(self.packages@.subrange(0, self.packages@.len() as int) =~= self.packages@);
        r
    }

    /// All packages, in order of creation.
    pub fn get_modules(&self) -> (r: Vec<Package>)
        ensures
            r@.len() == self.packages().len(),
            forall|i: int| 0 <= i < r@.len() ==> #[trigger] r@[i].same_as(&self.packages()[i]),
    {
        let mut r: Vec<Package> = Vec::new();
        let mut i: usize = 0;
        while i < self.packages.len()
            invariant
                i <= self.packages@.len(),
                r@.len() == i,
                forall|j: int| 0 <= j < i ==> #[trigger] r@[j].same_as(&self.packages@[j]),
            decreases self.packages@.len() - i,
        {
            r.push(self.packages[i].duplicate());
            i = i + 1;
        }
        r
    }

    /// The package with the same canonical name as `name`, or `NotFound`.
    pub fn get_package(&self, name: &str) -> (r: Result<Package, RegistryError>)
        requires
            self.wf(),
        ensures
            r is Ok <==> package_key_exists(self.packages(), canonical_key(name@)),
            r is Err ==> r == Err::<Package, RegistryError>(RegistryError::NotFound),
            r matches Ok(p) ==> forall|i: int|
                0 <= i < self.packages().len() && #[trigger] self.packages()[i].normalized_name@
                    == canonical_key(name@) ==> p.same_as(&self.packages()[i]),
    {
        let key = canonicalize(name);
        match self.package_index(&key) {
            None => Err(RegistryError::NotFound),
            Some(i) => {
                proof {
                    assert forall|j: int|
                        0 <= j < self.packages@.len() && #[trigger] self.packages@[j].normalized_name@
                            == key@ implies j == i by {
                        if j != i {
                            assert(self.packages@[j].normalized_name@
                                != self.packages@[i as int].normalized_name@);
                        }
                    }
                }
                Ok(self.packages[i].duplicate())
            },
        }
    }

    /// The public view of the author at position `a`.
    fn public_user_at(&self, a: usize) -> (u: PublicUser)
        requires
            a < self.authors().len(),
        ensures
            u.name == self.authors()[a as int].name,
            u.normalized_name == self.authors()[a as int].normalized_name,
            name_views(u.package_names@) == owned_names(
                self.packages(),
                self.authors()[a as int].name@,
            ),
            u.created_at == self.authors()[a as int].created_at,
    {
        let author = &self.authors[a];
        PublicUser {
            name: author.name.clone(),
            normalized_name: author.normalized_name.clone(),
            package_names: self.owned_package_names(&author.name),
            created_at: author.created_at,
        }
    }

    /// All authors without their credentials, in order of creation, each with
    /// the names of the packages it owns.
    pub fn get_users(&self) -> (r: Vec<PublicUser>)
        ensures
            r@.len() == self.authors().len(),
            forall|i: int|
                0 <= i < r@.len() ==> {
                    &&& (#[trigger] r@[i]).name == self.authors()[i].name
                    &&& r@[i].normalized_name == self.authors()[i].normalized_name
                    &&& name_views(r@[i].package_names@) == owned_names(
                        self.packages(),
                        self.authors()[i].name@,
                    )
                    &&& r@[i].created_at == self.authors()[i].created_at
                },
    {
        let mut r: Vec<PublicUser> = Vec::new();
        let mut i: usize = 0;
        while i < self.authors.len()
            invariant
                i <= self.authors@.len(),
                r@.len() == i,
                forall|j: int|
                    0 <= j < i ==> {
                        &&& (#[trigger] r@[j]).name == self.authors@[j].name
                        &&& r@[j].normalized_name == self.authors@[j].normalized_name
                        &&& name_views(r@[j].package_names@) == owned_names(
                            self.packages@,
                            self.authors@[j].name@,
                        )
                        &&& r@[j].created_at == self.authors@[j].created_at
                    },
            decreases self.authors@.len() - i,
        {
            r.push(self.public_user_at(i));
            i = i + 1;
        }
        r
    }

    /// The author with the same canonical name as `name`, without its
    /// credential, or `NotFound`.
    pub fn get_user_by_name(&self, name: &str) -> (r: Result<PublicUser, RegistryError>)
        requires
            self.wf(),
        ensures
            r is Ok <==> author_key_exists(self.authors(), canonical_key(name@)),
            r is Err ==> r == Err::<PublicUser, RegistryError>(RegistryError::NotFound),
            r matches Ok(u) ==> forall|a: int|
                0 <= a < self.authors().len() && #[trigger] self.authors()[a].normalized_name@
                    == canonical_key(name@) ==> {
                    &&& u.name == self.authors()[a].name
                    &&& u.normalized_name == self.authors()[a].normalized_name
                    &&& name_views(u.package_names@) == owned_names(
                        self.packages(),
                        self.authors()[a].name@,
                    )
                    &&& u.created_at == self.authors()[a].created_at
                },
    {
        let key = canonicalize(name);
        match self.author_index_by_key(&key) {
            None => Err(RegistryError::NotFound),
            Some(i) => {
                proof {
                    assert forall|j: int|
                        0 <= j < self.authors@.len() && #[trigger] self.authors@[j].normalized_name@
                            == key@ implies j == i by {
                        if j != i {
                            assert(self.authors@[j].normalized_name@
                                != self.authors@[i as int].normalized_name@);
                        }
                    }
                }
                Ok(self.public_user_at(i))
            },
        }
    }

    /// The author holding credential `api_key`, with the credential, or
    /// `NotFound`.
    pub fn get_user_by_key(&self, api_key: &String) -> (r: Result<User, RegistryError>)
        requires
            self.wf(),
        ensures
            r is Ok <==> has_credential(self.authors(), api_key@),
            r is Err ==> r == Err::<User, RegistryError>(RegistryError::NotFound),
            r matches Ok(u) ==> forall|a: int|
                0 <= a < self.authors().len() && #[trigger] self.authors()[a].api_key@
                    == api_key@ ==> {
                    &&& u.name == self.authors()[a].name
                    &&& u.normalized_name == self.authors()[a].normalized_name
                    &&& u.api_key == self.authors()[a].api_key
                    &&& name_views(u.package_names@) == owned_names(
                        self.packages(),
                        self.authors()[a].name@,
                    )
                    &&& u.created_at == self.authors()[a].created_at
                },
    {
        match self.author_index_by_credential(api_key) {
            None => Err(RegistryError::NotFound),
            Some(i) => {
                proof {
                    assert forall|j: int|
                        0 <= j < self.authors@.len() && #[trigger] self.authors@[j].api_key@
                            == api_key@ implies j == i by {
                        if j != i {
                            assert(self.authors@[j].api_key@ != self.authors@[i as int].api_key@);
                        }
                    }
                }
                let author = &self.authors[i];
                Ok(
                    User {
                        name: author.name.clone(),
                        normalized_name: author.normalized_name.clone(),
                        api_key: author.api_key.clone(),
                        package_names: self.owned_package_names(&author.name),
                        created_at: author.created_at,
                    },
                )
            },
        }
    }
}

} // verus!
