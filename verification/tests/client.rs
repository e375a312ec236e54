use ass_cli::account::Account;
use ass_cli::client::AssClient;
use ass_cli::client::HttpMethod;
use ass_cli::client::HttpOutcome;
use ass_cli::client::interpret_response;
use ass_cli::client::interpret_search_response;
use ass_cli::error::AssCliErrorKind;

fn client() -> AssClient {
    let account = Account {
        url: "https://ass.example.com".to_string(),
        name: "acme".to_string(),
        apikey: "secret".to_string(),
    };
    AssClient::new(account).unwrap()
}

#[test]
fn client_rejects_unparsable_base_url() {
    let account = Account {
        url: "not a url".to_string(),
        name: "acme".to_string(),
        apikey: "secret".to_string(),
    };
    let e = AssClient::new(account).unwrap_err();
    assert!(matches!(e.kind, AssCliErrorKind::UrlParseError));
}

#[test]
fn search_request_builds_files_query() {
    let c = client();
    let queries = vec![("path".to_string(), "%".to_string())];
    let p = c.search_request(&queries).unwrap();
    assert!(matches!(p.method, HttpMethod::Get));
    assert_eq!(p.url, "https://ass.example.com/files?path=%25");
    assert_eq!(p.headers.len(), 3);
    assert_eq!(p.headers[0].1, "bearer secret");
}

#[test]
fn info_request_by_id_targets_the_file() {
    let c = client();
    let p = c.file_info_request_by_id(42).unwrap();
    assert_eq!(p.url, "https://ass.example.com/files/42");
}

#[test]
fn info_request_by_path_uses_the_path_filter() {
    let c = client();
    let p = c.file_info_request_by_path("a b").unwrap();
    assert_eq!(p.url, "https://ass.example.com/files?path=a+b");
}

#[test]
fn rendition_request_targets_the_file_image() {
    let c = client();
    let p = c.file_rendition_request(42).unwrap();
    assert_eq!(p.url, "https://ass.example.com/files/42/image");
}

#[test]
fn image_info_request_targets_the_image() {
    let c = client();
    let p = c.image_info_request(7).unwrap();
    assert_eq!(p.url, "https://ass.example.com/images/7");
}

#[test]
fn image_upload_request_posts_the_local_file() {
    let c = client();
    let p = c.upload_image_request("photos/cat.jpg").unwrap();
    assert_eq!(p.url, "https://ass.example.com/images");
    match p.method {
        HttpMethod::PostFile { local_path } => assert_eq!(local_path, "photos/cat.jpg"),
        _ => panic!("expected a multipart POST"),
    }
}

#[test]
fn file_upload_request_combines_destination_and_filename() {
    let c = client();
    let extras = vec![("Cache-Control".to_string(), "max-age: 31557600".to_string())];
    let p = c.upload_file_request("local/report.pdf", "/docs/", "report.pdf", &extras).unwrap();
    assert_eq!(p.url, "https://ass.example.com/files//docs/report.pdf");
    assert_eq!(p.headers.len(), 4);
    assert_eq!(p.headers[3].0, "Cache-Control");
    match p.method {
        HttpMethod::PostFile { local_path } => assert_eq!(local_path, "local/report.pdf"),
        _ => panic!("expected a multipart POST"),
    }
}

#[test]
fn end_to_end_signed_image_url() {
    // The public image URL is composed and then signed; the token is the
    // pinned reference value for this exact URL text and key.
    let c = client();
    let u = c.get_image_url(42).unwrap();
    assert_eq!(
        u,
        "https://ass.example.com/users/acme/images/42.jpg?accessToken=1796685e89ef9907b45736c2a41de07e54dd0b079d1231f1713c3c181548d398"
    );
}

#[test]
fn signed_file_url_has_the_documented_shape() {
    let c = client();
    let u = c.get_file_url("docs/report.pdf").unwrap();
    assert!(u.starts_with("https://ass.example.com/users/acme/files/docs/report.pdf?accessToken="));
    assert_eq!(u.split("accessToken=").nth(1).unwrap().len(), 64);
}

#[test]
fn transport_failure_is_a_request_error() {
    let r = interpret_response(HttpOutcome::TransportError("connection refused".to_string()));
    match r.unwrap_err().kind {
        AssCliErrorKind::RequestError(m) => assert_eq!(m, "connection refused"),
        _ => panic!("expected RequestError"),
    }
}

#[test]
fn non_success_status_is_a_request_error() {
    let r = interpret_response(HttpOutcome::Response {
        status: 404,
        body: "{\"id\": 3}".to_string(),
    });
    match r.unwrap_err().kind {
        AssCliErrorKind::RequestError(m) => assert_eq!(m, "unexpected status 404"),
        _ => panic!("expected RequestError"),
    }
}

#[test]
fn malformed_body_is_a_json_error() {
    let r = interpret_response(HttpOutcome::Response {
        status: 200,
        body: "<html>".to_string(),
    });
    assert!(matches!(r.unwrap_err().kind, AssCliErrorKind::JsonError));
}

#[test]
fn success_body_yields_the_envelope() {
    let r = interpret_response(HttpOutcome::Response {
        status: 201,
        body: r#"{"id": 2, "path": "docs/report.pdf"}"#.to_string(),
    });
    let d = r.unwrap();
    assert_eq!(d.get_id(), Some(2));
    assert_eq!(d.get_path().map(String::as_str), Some("docs/report.pdf"));
    assert_eq!(d.get_image_id(), None);
}

#[test]
fn missing_fields_are_none_not_errors() {
    let r = interpret_response(HttpOutcome::Response { status: 200, body: "{}".to_string() });
    let d = r.unwrap();
    assert_eq!(d.get_id(), None);
    assert_eq!(d.get_path(), None);
    assert_eq!(d.get_image_id(), None);
}

#[test]
fn empty_search_result_is_an_empty_list_not_an_error() {
    let r = interpret_search_response(HttpOutcome::Response {
        status: 200,
        body: "[]".to_string(),
    });
    assert_eq!(r.unwrap().len(), 0);
}

#[test]
fn search_results_become_envelopes_in_order() {
    let body = r#"[{"id": 1, "path": "a"}, {"id": 2, "path": "b"}]"#;
    let ds = interpret_search_response(HttpOutcome::Response {
        status: 200,
        body: body.to_string(),
    })
    .unwrap();
    assert_eq!(ds.len(), 2);
    assert_eq!(ds[0].get_id(), Some(1));
    assert_eq!(ds[1].get_path().map(String::as_str), Some("b"));
}

#[test]
fn non_array_search_body_is_a_json_error() {
    let r = interpret_search_response(HttpOutcome::Response {
        status: 200,
        body: "{\"id\": 1}".to_string(),
    });
    assert!(matches!(r.unwrap_err().kind, AssCliErrorKind::JsonError));
}

#[test]
fn search_transport_failure_is_a_request_error() {
    let r = interpret_search_response(HttpOutcome::TransportError("timed out".to_string()));
    assert!(matches!(r.unwrap_err().kind, AssCliErrorKind::RequestError(_)));
}
