//! The publication decision table and the transport-facing result record.

use vstd::prelude::*;
use crate::records::{NewPackageResult, PublishOutcome, RegistryError, UploadOutcome};

verus! {

/// What a publish request leads to, before anything is written.
#[derive(Debug, Clone, Copy, PartialEq, Eq, Structural)]
pub enum PublishDecision {
    /// The caller owns the existing package: update its metadata.
    Update,
    /// The caller's credential claims a package that does not exist.
    StaleOwnership,
    /// The package exists and the caller does not own it.
    Reject,
    /// The package does not exist: create it for the caller.
    Create,
}

/// The decision table: ownership is considered first, existence second.
pub open spec fn publish_decision(is_owner: bool, exists: bool) -> PublishDecision {
    if is_owner {
        if exists {
            PublishDecision::Update
        } else {
            PublishDecision::StaleOwnership
        }
    } else if exists {
        PublishDecision::Reject
    } else {
        PublishDecision::Create
    }
}

/// Decides what a publish request does from whether the caller owns the
/// name and whether a package of that name exists.
pub fn decide_publish(is_owner: bool, exists: bool) -> (d: PublishDecision)
    ensures
        d == publish_decision(is_owner, exists),
{
    if is_owner {
        if exists {
            PublishDecision::Update
        } else {
            PublishDecision::StaleOwnership
        }
    } else if exists {
        PublishDecision::Reject
    } else {
        PublishDecision::Create
    }
}

/// The message that the transport layer shows for each kind of failure.
pub open spec fn error_message(e: RegistryError) -> Seq<char> {
    match e {
        RegistryError::NotFound => "Not Found"@,
        RegistryError::Conflict => "Conflict"@,
        RegistryError::NotAuthorized => "Not Authorized"@,
        RegistryError::Invalid => "Invalid"@,
        RegistryError::Unavailable => "Unavailable"@,
    }
}

impl NewPackageResult {
    /// The successful result.
    pub fn success() -> (r: NewPackageResult)
        ensures
            r.ok,
            r.msg@ == "Success"@,
    {
        NewPackageResult { ok: true, msg: String::from_str("Success") }
    }

    /// The failed result for an error kind.
    pub fn failure(e: RegistryError) -> (r: NewPackageResult)
        ensures
            !r.ok,
            r.msg@ == error_message(e),
    {
        let msg = match e {
            RegistryError::NotFound => String::from_str("Not Found"),
            RegistryError::Conflict => String::from_str("Conflict"),
            RegistryError::NotAuthorized => String::from_str("Not Authorized"),
            RegistryError::Invalid => String::from_str("Invalid"),
            RegistryError::Unavailable => String::from_str("Unavailable"),
        };
        NewPackageResult { ok: false, msg }
    }

    /// The result record of a publication.
    pub fn from_publish(r: &Result<PublishOutcome, RegistryError>) -> (t: NewPackageResult)
        ensures
            t.ok == r.is_ok(),
            r.is_ok() ==> t.msg@ == "Success"@,
            r matches Err(e) ==> t.msg@ == error_message(*e),
    {
        match r {
            Ok(_) => NewPackageResult::success(),
            Err(e) => NewPackageResult::failure(*e),
        }
    }

    /// The result record of an upload.
    pub fn from_upload(r: &Result<UploadOutcome, RegistryError>) -> (t: NewPackageResult)
        ensures
            t.ok == r.is_ok(),
            r.is_ok() ==> t.msg@ == "Success"@,
            r matches Err(e) ==> t.msg@ == error_message(*e),
    {
        match r {
            Ok(_) => NewPackageResult::success(),
            Err(e) => NewPackageResult::failure(*e),
        }
    }
}

} // verus!
