//! Escaping, query rendering, error classification and the pagination
//! driver.

use gitlab::client::FailingClient;
use gitlab::client::MockClient;
use gitlab::client::query_raw;
use gitlab::endpoint::Method;
use gitlab::error::Error;
use gitlab::escape::path_escaped;
use gitlab::escape::path_unescaped;
use gitlab::pagination::VecSource;
use gitlab::pagination::paged_all;
use gitlab::params::QueryParams;
use gitlab::users::CurrentUser;

#[test]
fn escaping_reserved_characters() {
    assert_eq!(path_escaped("simple/project"), "simple%2Fproject");
    assert_eq!(path_escaped("a b%c/d"), "a%20b%25c%2Fd");
    assert_eq!(path_escaped("unreserved-._~AZaz09"), "unreserved-._~AZaz09");
    assert_eq!(path_escaped(""), "");
}

#[test]
fn unescaping_undoes_escaping() {
    for s in ["simple/project", "a b%c/d", "branch/name", "", "100%", "?&=#"] {
        assert_eq!(path_unescaped(&path_escaped(s)), s);
    }
}

#[test]
fn query_string_rendering() {
    let mut params = QueryParams::new();
    assert_eq!(params.query_string(), "");
    params.push("ref", "branch");
    assert_eq!(params.query_string(), "ref=branch");
    params.push_bool("lfs", true);
    assert_eq!(params.query_string(), "ref=branch&lfs=true");
    params.push("q", "a b/c");
    assert_eq!(params.query_string(), "ref=branch&lfs=true&q=a%20b%2Fc");
}

#[test]
fn optional_parameters_toggle() {
    let mut params = QueryParams::new();
    params.push_opt("ref", None);
    params.push_opt_bool("lfs", None);
    assert_eq!(params.len(), 0);
    assert_eq!(params.query_string(), "");
    params.push_opt("ref", Some("branch"));
    params.push_opt_bool("lfs", Some(false));
    assert_eq!(params.query_string(), "ref=branch&lfs=false");
}

#[test]
fn collection_valued_parameters_repeat_the_key() {
    let mut params = QueryParams::new();
    let values = vec![String::from("a"), String::from("b/c")];
    params.push_all("labels", &values);
    assert_eq!(params.len(), 2);
    assert_eq!(params.query_string(), "labels=a&labels=b%2Fc");
}

#[test]
fn method_names() {
    assert_eq!(Method::Get.as_str(), "GET");
    assert_eq!(Method::Post.as_str(), "POST");
    assert_eq!(Method::Put.as_str(), "PUT");
    assert_eq!(Method::Delete.as_str(), "DELETE");
    assert_eq!(Method::Patch.as_str(), "PATCH");
    assert_eq!(Method::Head.as_str(), "HEAD");
}

#[test]
fn structured_error_body_yields_api_error() {
    let endpoint = CurrentUser::builder().build().unwrap();
    let mut client = MockClient::new(404, "{\"message\":\"404 Not Found\"}");
    let err = query_raw(&endpoint, &mut client).unwrap_err();
    match err {
        Error::Api { status, message } => {
            assert_eq!(status, 404);
            assert_eq!(message, "404 Not Found");
        },
        other => panic!("expected an API error, got {:?}", other),
    }
}

#[test]
fn unstructured_error_body_falls_back_to_status() {
    let endpoint = CurrentUser::builder().build().unwrap();
    let mut client = MockClient::new(500, "oops");
    let err = query_raw(&endpoint, &mut client).unwrap_err();
    match err {
        Error::Api { status, message } => {
            assert_eq!(status, 500);
            assert_eq!(message, "HTTP status 500");
        },
        other => panic!("expected an API error, got {:?}", other),
    }
}

#[test]
fn transport_fault_surfaces_as_transport_error() {
    let endpoint = CurrentUser::builder().build().unwrap();
    let mut client = FailingClient::new("connection refused");
    let err = query_raw(&endpoint, &mut client).unwrap_err();
    match err {
        Error::Transport(m) => assert_eq!(m, "connection refused"),
        other => panic!("expected a transport error, got {:?}", other),
    }
}

#[test]
fn successful_query_hands_back_the_body() {
    let endpoint = CurrentUser::builder().build().unwrap();
    let mut client = MockClient::new(200, "{\"username\":\"someone\"}");
    let body = query_raw(&endpoint, &mut client).unwrap();
    assert_eq!(body, "{\"username\":\"someone\"}");
}

#[test]
fn pagination_yields_all_items_in_order() {
    let items: Vec<u64> = (0..7).collect();
    let mut source = VecSource::new(items.clone());
    let collected = paged_all(&mut source, 3).unwrap();
    assert_eq!(collected, items);
    // 7 items in pages of 3: three pages (3, 3, 1), the short one ends it.
    assert_eq!(source.request_count(), 3);
}

#[test]
fn pagination_on_exact_multiple_sees_the_empty_page() {
    let items: Vec<u64> = (0..6).collect();
    let mut source = VecSource::new(items.clone());
    let collected = paged_all(&mut source, 3).unwrap();
    assert_eq!(collected, items);
    // 6 items in pages of 3: two full pages, then the empty one that
    // signals exhaustion.
    assert_eq!(source.request_count(), 3);
}

#[test]
fn pagination_over_nothing_stops_at_once() {
    let mut source: VecSource<u64> = VecSource::new(Vec::new());
    let collected = paged_all(&mut source, 5).unwrap();
    assert!(collected.is_empty());
    assert_eq!(source.request_count(), 1);
}

#[test]
fn missing_field_message_shape() {
    let err = Error::MissingField(String::from("project"));
    assert_eq!(err.message(), "`project` must be initialized");
}
