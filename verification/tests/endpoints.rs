//! Builder validation and request rendering of the endpoint catalog
//! entries.

use gitlab::client::MockClient;
use gitlab::client::query_ignore;
use gitlab::common::NameOrId;
use gitlab::endpoint::Endpoint;
use gitlab::endpoint::Method;
use gitlab::error::Error;
use gitlab::file_raw::FileRaw;
use gitlab::protected_branches::UnprotectBranch;
use gitlab::users::CurrentUser;

fn assert_missing(err: &Error, field: &str) {
    match err {
        Error::MissingField(f) => assert_eq!(f, field),
        other => panic!("expected a missing-field error, got {:?}", other),
    }
}

#[test]
fn project_and_name_are_needed() {
    let err = UnprotectBranch::builder().build().unwrap_err();
    assert_eq!(err.message(), "`project` must be initialized");
}

#[test]
fn unprotect_project_is_required() {
    let err = UnprotectBranch::builder()
        .name("master")
        .build()
        .unwrap_err();
    assert_eq!(err.message(), "`project` must be initialized");
}

#[test]
fn name_is_required() {
    let err = UnprotectBranch::builder()
        .project(NameOrId::id(1))
        .build()
        .unwrap_err();
    assert_eq!(err.message(), "`name` must be initialized");
}

#[test]
fn project_and_name_are_sufficient() {
    UnprotectBranch::builder()
        .project(NameOrId::id(1))
        .name("master")
        .build()
        .unwrap();
}

#[test]
fn unprotect_endpoint() {
    let endpoint = UnprotectBranch::builder()
        .project(NameOrId::name("simple/project"))
        .name("branch/name")
        .build()
        .unwrap();
    let mut client = MockClient::new(200, "");
    query_ignore(&endpoint, &mut client).unwrap();
    assert_eq!(client.last_method, Some(Method::Delete));
    assert_eq!(
        client.last_url.as_deref(),
        Some("projects/simple%2Fproject/protected_branches/branch%2Fname")
    );
}

#[test]
fn all_parameters_are_needed() {
    let err = FileRaw::builder().build().unwrap_err();
    assert_missing(&err, "project");
}

#[test]
fn file_raw_project_is_required() {
    let err = FileRaw::builder()
        .file_path("new/file")
        .build()
        .unwrap_err();
    assert_missing(&err, "project");
}

#[test]
fn file_path_is_required() {
    let err = FileRaw::builder()
        .project(NameOrId::id(1))
        .build()
        .unwrap_err();
    assert_missing(&err, "file_path");
}

#[test]
fn sufficient_parameters() {
    FileRaw::builder()
        .project(NameOrId::id(1))
        .file_path("new/file")
        .build()
        .unwrap();
}

#[test]
fn file_raw_endpoint() {
    let endpoint = FileRaw::builder()
        .project(NameOrId::name("simple/project"))
        .file_path("path/to/file")
        .build()
        .unwrap();
    let mut client = MockClient::new(200, "");
    query_ignore(&endpoint, &mut client).unwrap();
    assert_eq!(client.last_method, Some(Method::Get));
    assert_eq!(
        client.last_url.as_deref(),
        Some("projects/simple%2Fproject/repository/files/path%2Fto%2Ffile/raw")
    );
}

#[test]
fn endpoint_ref() {
    let endpoint = FileRaw::builder()
        .project(NameOrId::name("simple/project"))
        .file_path("path/to/file")
        .ref_("branch")
        .build()
        .unwrap();
    let mut client = MockClient::new(200, "");
    query_ignore(&endpoint, &mut client).unwrap();
    assert_eq!(
        client.last_url.as_deref(),
        Some("projects/simple%2Fproject/repository/files/path%2Fto%2Ffile/raw?ref=branch")
    );
}

#[test]
fn endpoint_lfs() {
    let endpoint = FileRaw::builder()
        .project(NameOrId::name("simple/project"))
        .file_path("path/to/file")
        .lfs(true)
        .build()
        .unwrap();
    let mut client = MockClient::new(200, "");
    query_ignore(&endpoint, &mut client).unwrap();
    assert_eq!(
        client.last_url.as_deref(),
        Some("projects/simple%2Fproject/repository/files/path%2Fto%2Ffile/raw?lfs=true")
    );
}

#[test]
fn defaults_are_sufficient() {
    CurrentUser::builder().build().unwrap();
}

#[test]
fn file_raw_by_id_renders_decimal_project() {
    let endpoint = FileRaw::builder()
        .project(NameOrId::id(1))
        .file_path("new/file")
        .build()
        .unwrap();
    assert_eq!(endpoint.endpoint(), "projects/1/repository/files/new%2Ffile/raw");
    assert_eq!(endpoint.parameters().query_string(), "");
}

#[test]
fn current_user_resolves_to_get_user() {
    let endpoint = CurrentUser::builder().build().unwrap();
    assert_eq!(endpoint.method(), Method::Get);
    assert_eq!(endpoint.endpoint(), "user");
    assert_eq!(endpoint.parameters().len(), 0);
}

#[test]
fn building_twice_renders_identically() {
    let a = UnprotectBranch::builder()
        .project(NameOrId::name("group/proj"))
        .name("branch/name")
        .build()
        .unwrap();
    let b = UnprotectBranch::builder()
        .project(NameOrId::name("group/proj"))
        .name("branch/name")
        .build()
        .unwrap();
    assert_eq!(a.endpoint(), b.endpoint());
    assert_eq!(a.method(), b.method());
    assert_eq!(
        a.parameters().query_string(),
        b.parameters().query_string()
    );

    let c = FileRaw::builder()
        .project(NameOrId::id(7))
        .file_path("a/b c")
        .ref_("r/1")
        .lfs(false)
        .build()
        .unwrap();
    let d = FileRaw::builder()
        .project(NameOrId::id(7))
        .file_path("a/b c")
        .ref_("r/1")
        .lfs(false)
        .build()
        .unwrap();
    assert_eq!(c.endpoint(), d.endpoint());
    assert_eq!(
        c.parameters().query_string(),
        d.parameters().query_string()
    );
}

#[test]
fn unset_optional_parameters_leave_no_residue() {
    let without = FileRaw::builder()
        .project(NameOrId::id(1))
        .file_path("f")
        .build()
        .unwrap();
    assert_eq!(without.parameters().len(), 0);
    assert_eq!(without.parameters().query_string(), "");

    let with = FileRaw::builder()
        .project(NameOrId::id(1))
        .file_path("f")
        .ref_("branch")
        .build()
        .unwrap();
    assert_eq!(with.parameters().len(), 1);
    assert_eq!(with.parameters().query_string(), "ref=branch");
}
