//! Laws of the publication coordinator and the upload recorder, stated over
//! the operations' contracts.

use vstd::prelude::*;
use crate::canonical::canonical_key;
use crate::coordinator::PublishDecision;
use crate::records::{
    Files, NewPackage, NewPackageUpload, Package, PublishOutcome, RegistryError, UploadOutcome,
};
use crate::registry::publish::updated_package;
use crate::registry::uploads::{package_with_key, recorded_package, upload_identity};
use crate::registry::{has_credential, owned_names, owns_key, package_key_exists, upload_exists, Registry};

verus! {

/// Appending a package owned by `owner` appends its name to the owner's
/// package names.
proof fn lemma_owned_names_push(packages: Seq<Package>, p: Package)
    ensures
        owned_names(packages.push(p), p.owner@) == owned_names(packages, p.owner@).push(p.name@),
{
    assert(packages.push(p).drop_last() =~= packages);
}

/// Publishing a name that no package has, with the credential of an existing
/// author, takes the create branch: the new package is owned by that author,
/// and the author's package names then hold the name.
pub proof fn law_publish_new_name_creates(
    s: Registry,
    s2: Registry,
    req: NewPackage,
    now: i64,
    r: Result<PublishOutcome, RegistryError>,
)
    requires
        s.wf(),
        canonical_key(req.name@).len() > 0,
        !package_key_exists(s.packages(), canonical_key(req.name@)),
        has_credential(s.authors(), req.api_key@),
        s2.published_from(&s, req, now, r),
    ensures
        s.planned_decision(req) == Some(PublishDecision::Create),
        r == Ok::<PublishOutcome, RegistryError>(PublishOutcome::Created),
        s2.authors() == s.authors(),
        forall|a: int|
            0 <= a < s.authors().len() && #[trigger] s.authors()[a].api_key@ == req.api_key@ ==> {
                &&& s2.packages().last().owner == s.authors()[a].name
                &&& owned_names(s2.packages(), s.authors()[a].name@).contains(req.name@)
            },
{
    let key = canonical_key(req.name@);
    assert(!owns_key(s.authors(), s.packages(), req.api_key@, key));
    assert(s2.packages() =~= s.packages().push(s2.packages().last()));
    assert forall|a: int|
        0 <= a < s.authors().len() && #[trigger] s.authors()[a].api_key@ == req.api_key@ implies {
        &&& s2.packages().last().owner == s.authors()[a].name
        &&& owned_names(s2.packages(), s.authors()[a].name@).contains(req.name@)
    } by {
        let p = s2.packages().last();
        lemma_owned_names_push(s.packages(), p);
        let names = owned_names(s.packages(), p.owner@).push(p.name@);
        assert(names[names.len() - 1] == req.name@);
    }
}

/// Publishing an existing name with the owner's credential takes the update
/// branch: owner, name and creation time are kept; description, repository,
/// unlisted flag and update time take the new values.
pub proof fn law_publish_by_owner_updates(
    s: Registry,
    s2: Registry,
    req: NewPackage,
    now: i64,
    r: Result<PublishOutcome, RegistryError>,
)
    requires
        s.wf(),
        canonical_key(req.name@).len() > 0,
        owns_key(s.authors(), s.packages(), req.api_key@, canonical_key(req.name@)),
        s2.published_from(&s, req, now, r),
    ensures
        s.planned_decision(req) == Some(PublishDecision::Update),
        r == Ok::<PublishOutcome, RegistryError>(PublishOutcome::Updated),
        s2.authors() == s.authors(),
        s2.uploads() == s.uploads(),
        s2.packages().len() == s.packages().len(),
        forall|i: int|
            0 <= i < s.packages().len() && #[trigger] s.packages()[i].normalized_name@
                == canonical_key(req.name@) ==> {
                &&& s2.packages()[i].owner == s.packages()[i].owner
                &&& s2.packages()[i].name == s.packages()[i].name
                &&& s2.packages()[i].created_at == s.packages()[i].created_at
                &&& s2.packages()[i].updated_at == now
                &&& s2.packages()[i].description == req.description
                &&& s2.packages()[i].repository == req.repository
                &&& s2.packages()[i].unlisted == req.unlisted
            },
{
    let key = canonical_key(req.name@);
    let (a, p) = choose|a: int, p: int|
        0 <= a < s.authors().len() && 0 <= p < s.packages().len() && #[trigger] s.authors()[a].api_key@
            == req.api_key@ && #[trigger] s.packages()[p].normalized_name@ == key
            && s.packages()[p].owner@ == s.authors()[a].name@;
    assert(package_key_exists(s.packages(), key));
    assert forall|i: int|
        0 <= i < s.packages().len() && #[trigger] s.packages()[i].normalized_name@ == key implies {
        &&& s2.packages()[i].owner == s.packages()[i].owner
        &&& s2.packages()[i].name == s.packages()[i].name
        &&& s2.packages()[i].created_at == s.packages()[i].created_at
        &&& s2.packages()[i].updated_at == now
        &&& s2.packages()[i].description == req.description
        &&& s2.packages()[i].repository == req.repository
        &&& s2.packages()[i].unlisted == req.unlisted
    } by {
        assert(updated_package(s.packages()[i], s2.packages()[i], req, now));
    }
}

/// Publishing an existing name with a credential that does not own it is
/// refused as not authorized and changes no row.
pub proof fn law_publish_by_non_owner_rejected(
    s: Registry,
    s2: Registry,
    req: NewPackage,
    now: i64,
    r: Result<PublishOutcome, RegistryError>,
)
    requires
        s.wf(),
        canonical_key(req.name@).len() > 0,
        package_key_exists(s.packages(), canonical_key(req.name@)),
        !owns_key(s.authors(), s.packages(), req.api_key@, canonical_key(req.name@)),
        s2.published_from(&s, req, now, r),
    ensures
        s.planned_decision(req) == Some(PublishDecision::Reject),
        r == Err::<PublishOutcome, RegistryError>(RegistryError::NotAuthorized),
        s2.same_rows(&s),
{
}

/// Two creates of one canonical name, both decided on the same rows and
/// committed one after the other: the first creates, the second meets a
/// `Conflict` and changes nothing, and exactly one package has the name.
pub proof fn law_concurrent_creates_conflict(
    s: Registry,
    s1: Registry,
    s2: Registry,
    req1: NewPackage,
    req2: NewPackage,
    now1: i64,
    now2: i64,
    r1: Result<PublishOutcome, RegistryError>,
    r2: Result<PublishOutcome, RegistryError>,
)
    requires
        s.wf(),
        canonical_key(req1.name@) == canonical_key(req2.name@),
        canonical_key(req1.name@).len() > 0,
        !package_key_exists(s.packages(), canonical_key(req1.name@)),
        has_credential(s.authors(), req1.api_key@),
        has_credential(s.authors(), req2.api_key@),
        s1.committed_from(&s, PublishDecision::Create, req1, now1, r1),
        s2.committed_from(&s1, PublishDecision::Create, req2, now2, r2),
    ensures
        s.planned_decision(req1) == Some(PublishDecision::Create),
        s.planned_decision(req2) == Some(PublishDecision::Create),
        r1 == Ok::<PublishOutcome, RegistryError>(PublishOutcome::Created),
        r2 == Err::<PublishOutcome, RegistryError>(RegistryError::Conflict),
        s2.same_rows(&s1),
        exists|i: int|
            0 <= i < s2.packages().len() && #[trigger] s2.packages()[i].normalized_name@
                == canonical_key(req1.name@),
        forall|i: int, j: int|
            0 <= i < s2.packages().len() && 0 <= j < s2.packages().len()
                && #[trigger] s2.packages()[i].normalized_name@ == canonical_key(req1.name@)
                && #[trigger] s2.packages()[j].normalized_name@ == canonical_key(req1.name@) ==> i
                == j,
{
    let key = canonical_key(req1.name@);
    assert(!owns_key(s.authors(), s.packages(), req1.api_key@, key));
    assert(!owns_key(s.authors(), s.packages(), req2.api_key@, key));
    let n = s.packages().len() as int;
    assert(s1.packages()[n].normalized_name@ == key);
    assert(package_key_exists(s1.packages(), key));
    assert forall|i: int| 0 <= i < n implies #[trigger] s1.packages()[i].normalized_name@ != key by {
        assert(s1.packages()[i] == s.packages().subrange(0, n)[i]);
    }
}

/// Recording an upload for a package that does not exist is `NotFound` and
/// records no session.
pub proof fn law_upload_to_missing_package(
    s: Registry,
    s2: Registry,
    req: NewPackageUpload,
    files: Files,
    prefix: String,
    now: i64,
    r: Result<UploadOutcome, RegistryError>,
)
    requires
        s.wf(),
        req.upload,
        !package_key_exists(s.packages(), canonical_key(req.name@)),
        s2.uploaded_from(&s, req, files, prefix, now, r),
    ensures
        r == Err::<UploadOutcome, RegistryError>(RegistryError::NotFound),
        s2.uploads() == s.uploads(),
        s2.same_rows(&s),
{
}

/// Recording the same `name@version` twice: the second call is a `Conflict`
/// and changes nothing, and exactly one session has that identity.
pub proof fn law_duplicate_upload_conflicts(
    s: Registry,
    s1: Registry,
    s2: Registry,
    req1: NewPackageUpload,
    req2: NewPackageUpload,
    files1: Files,
    files2: Files,
    prefix1: String,
    prefix2: String,
    now1: i64,
    now2: i64,
    r1: Result<UploadOutcome, RegistryError>,
    r2: Result<UploadOutcome, RegistryError>,
)
    requires
        s.wf(),
        req1.upload,
        req2.upload,
        req1.name@ == req2.name@,
        req1.version@ == req2.version@,
        package_key_exists(s.packages(), canonical_key(req1.name@)),
        s1.uploaded_from(&s, req1, files1, prefix1, now1, r1),
        s2.uploaded_from(&s1, req2, files2, prefix2, now2, r2),
    ensures
        r2 == Err::<UploadOutcome, RegistryError>(RegistryError::Conflict),
        s2.same_rows(&s1),
        ({
            let id = upload_identity(
                package_with_key(s.packages(), canonical_key(req1.name@)).name@,
                req1.version@,
            );
            &&& upload_exists(s2.uploads(), id)
            &&& forall|i: int, j: int|
                0 <= i < s2.uploads().len() && 0 <= j < s2.uploads().len()
                    && #[trigger] s2.uploads()[i].name@ == id && #[trigger] s2.uploads()[j].name@
                    == id ==> i == j
        }),
{
    let key = canonical_key(req1.name@);
    let k = choose|p: int| 0 <= p < s.packages().len() && #[trigger] s.packages()[p].normalized_name@ == key;
    let id = upload_identity(s.packages()[k].name@, req1.version@);
    assert(package_with_key(s.packages(), key) == s.packages()[k]);
    if r1 == Ok::<UploadOutcome, RegistryError>(UploadOutcome::Recorded) {
        assert(recorded_package(s.packages()[k], s1.packages()[k], id, now1));
        assert(package_key_exists(s1.packages(), key));
        let j = choose|p: int| 0 <= p < s1.packages().len() && #[trigger] s1.packages()[p].normalized_name@ == key;
        if s.packages()[j].normalized_name@ != key {
            assert(s1.packages()[j] == s.packages()[j]);
        }
        if j != k {
            assert(s.packages()[j].normalized_name@ != s.packages()[k].normalized_name@);
        }
        assert(package_with_key(s1.packages(), key) == s1.packages()[j]);
        let n = s.uploads().len() as int;
        assert(s1.uploads()[n].name@ == id);
        assert(upload_exists(s1.uploads(), id));
        assert forall|i: int| 0 <= i < n implies #[trigger] s1.uploads()[i].name@ != id by {
            assert(s1.uploads()[i] == s.uploads().subrange(0, n)[i]);
        }
    } else {
        assert(upload_exists(s.uploads(), id));
    }
}

} // verus!
