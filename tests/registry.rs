use nest_registry::{
    canonicalize, decide_publish, issue_credential, Files, NewPackage, NewPackageResult,
    NewPackageUpload, NewUser, PublishDecision, PublishOutcome, Registry, RegistryError,
    UploadOutcome,
};

fn new_user(name: &str) -> NewUser {
    NewUser { name: name.to_string(), password: "secret".to_string() }
}

fn publish_request(name: &str, key: &str, description: &str) -> NewPackage {
    NewPackage {
        name: name.to_string(),
        api_key: key.to_string(),
        description: description.to_string(),
        repository: "https://example.com/repo".to_string(),
        locked: false,
        malicious: false,
        unlisted: false,
    }
}

fn upload_request(name: &str, version: &str, upload: bool) -> NewPackageUpload {
    NewPackageUpload {
        name: name.to_string(),
        api_key: "k".to_string(),
        description: String::new(),
        repository: String::new(),
        upload,
        entry: "/mod.ts".to_string(),
        stable: true,
        unlisted: false,
        version: version.to_string(),
    }
}

fn files() -> Files {
    Files { in_manifest: "mod.ts".to_string(), tx_id: "tx-1".to_string() }
}

fn registry_with_authors() -> Registry {
    let mut reg = Registry::new();
    reg.create_user_with(new_user("alice"), "key-alice".to_string(), 10).unwrap();
    reg.create_user_with(new_user("bob"), "key-bob".to_string(), 11).unwrap();
    reg
}

#[test]
fn canonicalize_folds_case_and_dashes() {
    assert_eq!(canonicalize("My-Package"), "my_package");
    assert_eq!(canonicalize("already_canonical"), "already_canonical");
    assert_eq!(canonicalize(""), "");
    assert_eq!(canonicalize("Émile-2"), "Émile_2");
}

#[test]
fn canonicalize_is_idempotent_on_examples() {
    for name in ["Foo", "FOO-bar", "x_Y-z", "", "ÅB-c"] {
        let once = canonicalize(name);
        assert_eq!(canonicalize(&once), once);
    }
}

#[test]
fn issued_credentials_are_hex_and_distinct() {
    let a = issue_credential();
    let b = issue_credential();
    assert_eq!(a.chars().count(), 32);
    assert!(a.chars().all(|c| c.is_ascii_digit() || ('a'..='f').contains(&c)));
    assert_ne!(a, b);
}

#[test]
fn decision_table() {
    assert_eq!(decide_publish(true, true), PublishDecision::Update);
    assert_eq!(decide_publish(true, false), PublishDecision::StaleOwnership);
    assert_eq!(decide_publish(false, true), PublishDecision::Reject);
    assert_eq!(decide_publish(false, false), PublishDecision::Create);
}

#[test]
fn create_user_issues_credential() {
    let mut reg = Registry::new();
    let user = reg.create_user(new_user("Carol")).unwrap();
    assert_eq!(user.name, "Carol");
    assert_eq!(user.normalized_name, "carol");
    assert_eq!(user.api_key.chars().count(), 32);
    assert!(user.package_names.is_empty());
    let found = reg.get_user_by_key(&user.api_key).unwrap();
    assert_eq!(found.name, "Carol");
}

#[test]
fn create_user_with_fixed_key_and_time() {
    let mut reg = Registry::new();
    let user = reg.create_user_with(new_user("Dave"), "k".to_string(), 42).unwrap();
    assert_eq!(user.api_key, "k");
    assert_eq!(user.created_at, 42);
}

#[test]
fn create_user_conflicts_on_canonical_name() {
    let mut reg = registry_with_authors();
    let r = reg.create_user_with(new_user("ALICE"), "other".to_string(), 1);
    assert_eq!(r.unwrap_err(), RegistryError::Conflict);
    assert_eq!(reg.get_users().len(), 2);
}

#[test]
fn create_user_conflicts_on_credential() {
    let mut reg = registry_with_authors();
    let r = reg.create_user_with(new_user("erin"), "key-bob".to_string(), 1);
    assert_eq!(r.unwrap_err(), RegistryError::Conflict);
}

#[test]
fn create_user_rejects_empty_name_or_key() {
    let mut reg = Registry::new();
    assert_eq!(reg.create_user_with(new_user(""), "k".to_string(), 1).unwrap_err(), RegistryError::Invalid);
    assert_eq!(reg.create_user_with(new_user("frank"), String::new(), 1).unwrap_err(), RegistryError::Invalid);
    assert!(reg.get_users().is_empty());
}

#[test]
fn publish_new_name_creates_for_credential_owner() {
    let mut reg = registry_with_authors();
    let r = reg.publish_package_at(publish_request("foo", "key-alice", "first"), 100);
    assert_eq!(r, Ok(PublishOutcome::Created));
    let pkg = reg.get_package("foo").unwrap();
    assert_eq!(pkg.owner, "alice");
    assert_eq!(pkg.normalized_name, "foo");
    assert_eq!(pkg.description, "first");
    assert_eq!(pkg.created_at, 100);
    assert_eq!(pkg.updated_at, 100);
    assert!(pkg.package_upload_names.is_empty());
    assert!(pkg.latest_version.is_empty());
    let alice = reg.get_user_by_key(&"key-alice".to_string()).unwrap();
    assert_eq!(alice.package_names, vec!["foo".to_string()]);
    let bob = reg.get_user_by_name("bob").unwrap();
    assert!(bob.package_names.is_empty());
}

#[test]
fn publish_by_owner_updates_metadata() {
    let mut reg = registry_with_authors();
    reg.publish_package_at(publish_request("foo", "key-alice", "first"), 100).unwrap();
    let mut req = publish_request("FOO", "key-alice", "second");
    req.repository = "https://example.com/other".to_string();
    req.unlisted = true;
    req.locked = true;
    assert_eq!(reg.publish_package_at(req, 200), Ok(PublishOutcome::Updated));
    let pkg = reg.get_package("foo").unwrap();
    assert_eq!(pkg.name, "foo");
    assert_eq!(pkg.owner, "alice");
    assert_eq!(pkg.created_at, 100);
    assert_eq!(pkg.updated_at, 200);
    assert_eq!(pkg.description, "second");
    assert_eq!(pkg.repository, "https://example.com/other");
    assert!(pkg.unlisted);
    assert!(!pkg.locked);
    assert_eq!(reg.get_modules().len(), 1);
}

#[test]
fn publish_by_non_owner_is_not_authorized() {
    let mut reg = registry_with_authors();
    reg.publish_package_at(publish_request("foo", "key-alice", "first"), 100).unwrap();
    let r = reg.publish_package_at(publish_request("foo", "key-bob", "hijack"), 200);
    assert_eq!(r, Err(RegistryError::NotAuthorized));
    let pkg = reg.get_package("foo").unwrap();
    assert_eq!(pkg.description, "first");
    assert_eq!(pkg.updated_at, 100);
    assert!(reg.get_user_by_name("bob").unwrap().package_names.is_empty());
}

#[test]
fn publish_with_unknown_credential_is_not_authorized() {
    let mut reg = registry_with_authors();
    let r = reg.publish_package_at(publish_request("foo", "nobody", "x"), 100);
    assert_eq!(r, Err(RegistryError::NotAuthorized));
    assert!(reg.get_modules().is_empty());
}

#[test]
fn publish_with_empty_name_is_invalid() {
    let mut reg = registry_with_authors();
    assert_eq!(reg.publish_package_at(publish_request("", "key-alice", "x"), 1), Err(RegistryError::Invalid));
    assert!(reg.get_modules().is_empty());
}

#[test]
fn concurrent_creates_one_wins() {
    let mut reg = registry_with_authors();
    let first = publish_request("pkg", "key-alice", "a");
    let second = publish_request("PKG", "key-bob", "b");
    let d1 = reg.plan_publish(&first).unwrap();
    let d2 = reg.plan_publish(&second).unwrap();
    assert_eq!(d1, PublishDecision::Create);
    assert_eq!(d2, PublishDecision::Create);
    assert_eq!(reg.commit_publish(d1, first, 1), Ok(PublishOutcome::Created));
    assert_eq!(reg.commit_publish(d2, second, 2), Err(RegistryError::Conflict));
    let modules = reg.get_modules();
    assert_eq!(modules.len(), 1);
    assert_eq!(modules[0].owner, "alice");
}

#[test]
fn stale_ownership_is_not_found() {
    let mut reg = registry_with_authors();
    let r = reg.commit_publish(PublishDecision::StaleOwnership, publish_request("foo", "key-alice", "x"), 1);
    assert_eq!(r, Err(RegistryError::NotFound));
    assert!(reg.get_modules().is_empty());
}

#[test]
fn publish_with_clock_creates() {
    let mut reg = registry_with_authors();
    assert_eq!(reg.publish_package(publish_request("timed", "key-alice", "x")), Ok(PublishOutcome::Created));
    let pkg = reg.get_package("timed").unwrap();
    assert_eq!(pkg.created_at, pkg.updated_at);
    assert!(pkg.created_at > 0);
}

#[test]
fn upload_without_content_records_nothing() {
    let mut reg = registry_with_authors();
    let r = reg.create_package_uploads_at(upload_request("missing", "1.0.0", false), files(), "p".to_string(), 5);
    assert_eq!(r, Ok(UploadOutcome::Skipped));
    assert!(reg.get_upload_names().is_empty());
}

#[test]
fn upload_for_missing_package_is_not_found() {
    let mut reg = registry_with_authors();
    let r = reg.create_package_uploads_at(upload_request("missing", "1.0.0", true), files(), "p".to_string(), 5);
    assert_eq!(r, Err(RegistryError::NotFound));
    assert!(reg.get_upload_names().is_empty());
}

#[test]
fn upload_is_recorded_with_stored_name() {
    let mut reg = registry_with_authors();
    reg.publish_package_at(publish_request("Foo", "key-alice", "x"), 100).unwrap();
    let r = reg.create_package_uploads_at(upload_request("foo", "1.0.0", true), files(), "p".to_string(), 150);
    assert_eq!(r, Ok(UploadOutcome::Recorded));
    assert_eq!(reg.get_upload_names(), vec!["Foo@1.0.0".to_string()]);
    let pkg = reg.get_package("foo").unwrap();
    assert_eq!(pkg.package_upload_names, vec!["Foo@1.0.0".to_string()]);
    assert_eq!(pkg.updated_at, 150);
    assert_eq!(pkg.created_at, 100);
}

#[test]
fn duplicate_upload_conflicts() {
    let mut reg = registry_with_authors();
    reg.publish_package_at(publish_request("foo", "key-alice", "x"), 100).unwrap();
    let first = reg.create_package_uploads_at(upload_request("foo", "1.0.0", true), files(), "p".to_string(), 150);
    let second = reg.create_package_uploads_at(upload_request("foo", "1.0.0", true), files(), "p".to_string(), 160);
    assert_eq!(first, Ok(UploadOutcome::Recorded));
    assert_eq!(second, Err(RegistryError::Conflict));
    assert_eq!(reg.get_upload_names().len(), 1);
    let pkg = reg.get_package("foo").unwrap();
    assert_eq!(pkg.package_upload_names.len(), 1);
    assert_eq!(pkg.updated_at, 150);
    let third = reg.create_package_uploads_at(upload_request("foo", "1.0.1", true), files(), "p".to_string(), 170);
    assert_eq!(third, Ok(UploadOutcome::Recorded));
    assert_eq!(reg.get_upload_names(), vec!["foo@1.0.0".to_string(), "foo@1.0.1".to_string()]);
}

#[test]
fn upload_with_clock_records() {
    let mut reg = registry_with_authors();
    reg.publish_package_at(publish_request("foo", "key-alice", "x"), 100).unwrap();
    let r = reg.create_package_uploads(upload_request("foo", "2.0.0", true), files(), "p".to_string());
    assert_eq!(r, Ok(UploadOutcome::Recorded));
}

#[test]
fn lookups_by_canonical_name() {
    let mut reg = registry_with_authors();
    reg.publish_package_at(publish_request("My-Pkg", "key-bob", "x"), 100).unwrap();
    assert_eq!(reg.get_package("my_pkg").unwrap().name, "My-Pkg");
    assert_eq!(reg.get_package("other").unwrap_err(), RegistryError::NotFound);
    assert_eq!(reg.get_user_by_name("BOB").unwrap().name, "bob");
    assert_eq!(reg.get_user_by_name("zed").unwrap_err(), RegistryError::NotFound);
    assert_eq!(reg.get_user_by_key(&"missing".to_string()).unwrap_err(), RegistryError::NotFound);
    assert!(reg.package_exists("MY_PKG"));
    assert!(reg.is_owner(&"key-bob".to_string(), "my-pkg"));
    assert!(!reg.is_owner(&"key-alice".to_string(), "my-pkg"));
    let users = reg.get_users();
    assert_eq!(users.len(), 2);
    assert_eq!(users[1].package_names, vec!["My-Pkg".to_string()]);
}

#[test]
fn result_messages() {
    let ok = NewPackageResult::from_publish(&Ok(PublishOutcome::Created));
    assert!(ok.ok);
    assert_eq!(ok.msg, "Success");
    let denied = NewPackageResult::from_publish(&Err(RegistryError::NotAuthorized));
    assert!(!denied.ok);
    assert_eq!(denied.msg, "Not Authorized");
    assert_eq!(NewPackageResult::from_upload(&Err(RegistryError::NotFound)).msg, "Not Found");
    assert_eq!(NewPackageResult::from_upload(&Err(RegistryError::Conflict)).msg, "Conflict");
    assert_eq!(NewPackageResult::failure(RegistryError::Invalid).msg, "Invalid");
    assert_eq!(NewPackageResult::failure(RegistryError::Unavailable).msg, "Unavailable");
    assert!(NewPackageResult::from_upload(&Ok(UploadOutcome::Skipped)).ok);
}

#[test]
fn end_to_end_publish_scenario() {
    let mut reg = Registry::new();
    let alice = reg.create_user(new_user("alice")).unwrap();
    let created = reg.publish_package(publish_request("foo", &alice.api_key, "v1"));
    assert_eq!(created, Ok(PublishOutcome::Created));
    assert_eq!(reg.get_package("foo").unwrap().owner, "alice");
    assert_eq!(reg.get_user_by_name("alice").unwrap().package_names, vec!["foo".to_string()]);

    let updated = reg.publish_package(publish_request("foo", &alice.api_key, "v2"));
    assert_eq!(updated, Ok(PublishOutcome::Updated));
    assert_eq!(reg.get_package("foo").unwrap().description, "v2");

    let mallory = reg.create_user(new_user("mallory")).unwrap();
    let rejected = reg.publish_package(publish_request("foo", &mallory.api_key, "v3"));
    assert_eq!(rejected, Err(RegistryError::NotAuthorized));
    assert_eq!(reg.get_package("foo").unwrap().description, "v2");
    assert_eq!(reg.get_user_by_name("alice").unwrap().package_names, vec!["foo".to_string()]);
}

#[test]
fn committed_update_rechecks_ownership() {
    let mut reg = registry_with_authors();
    reg.publish_package_at(publish_request("foo", "key-alice", "first"), 100).unwrap();
    let r = reg.commit_publish(PublishDecision::Update, publish_request("foo", "key-bob", "x"), 200);
    assert_eq!(r, Err(RegistryError::NotAuthorized));
    let missing = reg.commit_publish(PublishDecision::Update, publish_request("bar", "key-alice", "x"), 200);
    assert_eq!(missing, Err(RegistryError::NotFound));
    assert_eq!(reg.get_package("foo").unwrap().description, "first");
}

fn author_row(name: &str, normalized: &str, key: &str) -> nest_registry::Author {
    nest_registry::Author {
        name: name.to_string(),
        normalized_name: normalized.to_string(),
        api_key: key.to_string(),
        created_at: 7,
    }
}

fn package_row(name: &str, normalized: &str, owner: &str) -> nest_registry::Package {
    nest_registry::Package {
        name: name.to_string(),
        normalized_name: normalized.to_string(),
        owner: owner.to_string(),
        description: "d".to_string(),
        repository: "r".to_string(),
        latest_version: "1.0.0".to_string(),
        latest_stable_version: "1.0.0".to_string(),
        package_upload_names: vec!["Std@1.0.0".to_string()],
        locked: true,
        malicious: false,
        unlisted: false,
        updated_at: 9,
        created_at: 8,
    }
}

fn session_row(name: &str) -> nest_registry::UploadSession {
    nest_registry::UploadSession {
        name: name.to_string(),
        package: "Std".to_string(),
        entry: "/mod.ts".to_string(),
        version: "1.0.0".to_string(),
        prefix: "p".to_string(),
        files: files(),
        created_at: 9,
    }
}

#[test]
fn insert_rows_checks_constraints() {
    let mut reg = Registry::new();
    assert_eq!(reg.insert_author(author_row("Ann", "Ann", "k1"), "s".to_string()), Err(RegistryError::Invalid));
    assert_eq!(reg.insert_author(author_row("Ann", "ann", ""), "s".to_string()), Err(RegistryError::Invalid));
    assert_eq!(reg.insert_author(author_row("Ann", "ann", "k1"), "s".to_string()), Ok(()));
    assert_eq!(reg.insert_author(author_row("ANN", "ann", "k2"), "s".to_string()), Err(RegistryError::Conflict));
    assert_eq!(reg.insert_author(author_row("Ben", "ben", "k1"), "s".to_string()), Err(RegistryError::Conflict));
    assert_eq!(reg.insert_package(package_row("Std", "std", "Nobody")), Err(RegistryError::NotFound));
    assert_eq!(reg.insert_package(package_row("Std", "Std", "Ann")), Err(RegistryError::Invalid));
    assert_eq!(reg.insert_package(package_row("Std", "std", "Ann")), Ok(()));
    assert_eq!(reg.insert_package(package_row("STD", "std", "Ann")), Err(RegistryError::Conflict));
    assert_eq!(reg.insert_upload_session(session_row("Std@1.0.0")), Ok(()));
    assert_eq!(reg.insert_upload_session(session_row("Std@1.0.0")), Err(RegistryError::Conflict));
    let pkg = reg.get_package("std").unwrap();
    assert!(pkg.locked);
    assert_eq!(pkg.latest_version, "1.0.0");
    assert_eq!(reg.get_user_by_key(&"k1".to_string()).unwrap().package_names, vec!["Std".to_string()]);
    assert_eq!(reg.get_upload_names(), vec!["Std@1.0.0".to_string()]);
    let r = reg.create_package_uploads_at(upload_request("std", "1.0.0", true), files(), "p".to_string(), 10);
    assert_eq!(r, Err(RegistryError::Conflict));
}
