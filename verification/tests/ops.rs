use ass_cli::account::Account;
use ass_cli::client::AssClient;
use ass_cli::client::HttpOutcome;
use ass_cli::data::AssData;
use ass_cli::error::AssCliError;
use ass_cli::error::AssCliErrorKind;
use ass_cli::ops::ResourceKey;
use ass_cli::ops::ImageUploadBatch;
use ass_cli::ops::UploadBatch;
use ass_cli::ops::classify_key;
use ass_cli::ops::filename_from_path;
use ass_cli::ops::normalize_destination;
use ass_cli::ops::require_id;
use ass_cli::ops::require_image_id;
use ass_cli::ops::signed_url_for_envelope;

fn client() -> AssClient {
    let account = Account {
        url: "https://ass.example.com".to_string(),
        name: "acme".to_string(),
        apikey: "secret".to_string(),
    };
    AssClient::new(account).unwrap()
}

#[test]
fn destination_gets_a_trailing_separator() {
    assert_eq!(normalize_destination("/foo"), "/foo/");
    assert_eq!(normalize_destination("/foo/"), "/foo/");
    assert_eq!(normalize_destination(""), "/");
}

#[test]
fn numeric_key_resolves_as_id() {
    match classify_key("12345") {
        ResourceKey::Id(id) => assert_eq!(id, 12345),
        ResourceKey::Path(_) => panic!("expected a numeric id"),
    }
}

#[test]
fn path_key_resolves_as_path() {
    match classify_key("images/foo.png") {
        ResourceKey::Path(p) => assert_eq!(p, "images/foo.png"),
        ResourceKey::Id(_) => panic!("expected a path key"),
    }
}

#[test]
fn overlong_number_resolves_as_path() {
    match classify_key("99999999999999999999999") {
        ResourceKey::Path(p) => assert_eq!(p, "99999999999999999999999"),
        ResourceKey::Id(_) => panic!("expected a path key"),
    }
}

#[test]
fn filename_is_the_last_path_component() {
    assert_eq!(filename_from_path("a/b/c.txt").unwrap(), "c.txt");
    assert_eq!(filename_from_path("file.png").unwrap(), "file.png");
}

#[test]
fn paths_without_a_filename_are_path_errors() {
    assert!(matches!(
        filename_from_path("dir/").unwrap_err().kind,
        AssCliErrorKind::PathError
    ));
    assert!(matches!(filename_from_path("").unwrap_err().kind, AssCliErrorKind::PathError));
}

#[test]
fn info_request_follows_the_key_class() {
    let c = client();
    let p = ass_cli::ops::info_request_for_key(&c, &classify_key("42")).unwrap();
    assert_eq!(p.url, "https://ass.example.com/files/42");
    let p = ass_cli::ops::info_request_for_key(&c, &classify_key("images/foo.png")).unwrap();
    assert_eq!(p.url, "https://ass.example.com/files?path=images%2Ffoo.png");
}

#[test]
fn required_fields_fail_as_json_errors_when_absent() {
    let d = AssData::from_json("{}").unwrap();
    assert!(matches!(require_id(&d).unwrap_err().kind, AssCliErrorKind::JsonError));
    assert!(matches!(require_image_id(&d).unwrap_err().kind, AssCliErrorKind::JsonError));
    let d = AssData::from_json(r#"{"id": 9, "image_id": 4}"#).unwrap();
    assert_eq!(require_id(&d).unwrap(), 9);
    assert_eq!(require_image_id(&d).unwrap(), 4);
}

#[test]
fn envelope_without_path_cannot_be_signed() {
    let c = client();
    let d = AssData::from_json(r#"{"id": 9}"#).unwrap();
    let e = signed_url_for_envelope(&c, &d).unwrap_err();
    assert!(matches!(e.kind, AssCliErrorKind::JsonError));
}

#[test]
fn envelope_with_path_signs_its_public_url() {
    let c = client();
    let d = AssData::from_json(r#"{"id": 9, "path": "docs/a.pdf"}"#).unwrap();
    let u = signed_url_for_envelope(&c, &d).unwrap();
    assert!(u.starts_with("https://ass.example.com/users/acme/files/docs/a.pdf?accessToken="));
}

#[test]
fn upload_batch_walks_files_in_order() {
    let c = client();
    let files = vec!["a.txt".to_string(), "b.txt".to_string()];
    let mut batch = UploadBatch::new(files, "/docs");
    assert_eq!(batch.destination, "/docs/");
    assert_eq!(batch.next_file().map(String::as_str), Some("a.txt"));
    batch.record_outcome(
        &c,
        HttpOutcome::Response { status: 201, body: r#"{"path": "docs/a.txt"}"#.to_string() },
    );
    assert_eq!(batch.next_file().map(String::as_str), Some("b.txt"));
    batch.record_outcome(
        &c,
        HttpOutcome::Response { status: 201, body: r#"{"path": "docs/b.txt"}"#.to_string() },
    );
    assert_eq!(batch.next_file(), None);
    assert!(batch.failure.is_none());
    assert_eq!(batch.urls.len(), 2);
    assert!(batch.urls[0].starts_with("https://ass.example.com/users/acme/files/docs/a.txt?"));
    assert!(batch.urls[1].starts_with("https://ass.example.com/users/acme/files/docs/b.txt?"));
}

#[test]
fn upload_batch_fails_fast() {
    // Three files; the second cannot be opened: exactly one success, and
    // the third file is never asked for.
    let c = client();
    let files = vec!["a.txt".to_string(), "b.txt".to_string(), "c.txt".to_string()];
    let mut batch = UploadBatch::new(files, "/docs/");
    assert_eq!(batch.next_file().map(String::as_str), Some("a.txt"));
    batch.record_outcome(
        &c,
        HttpOutcome::Response { status: 201, body: r#"{"path": "docs/a.txt"}"#.to_string() },
    );
    assert_eq!(batch.next_file().map(String::as_str), Some("b.txt"));
    batch.record_failure(AssCliError::path_error());
    assert_eq!(batch.next_file(), None);
    assert_eq!(batch.urls.len(), 1);
    assert_eq!(batch.attempted, 2);
    assert!(matches!(batch.failure.as_ref().unwrap().kind, AssCliErrorKind::PathError));
}

#[test]
fn upload_batch_stops_on_transport_failure() {
    let c = client();
    let files = vec!["a.txt".to_string(), "b.txt".to_string()];
    let mut batch = UploadBatch::new(files, "/");
    batch.record_outcome(&c, HttpOutcome::TransportError("refused".to_string()));
    assert_eq!(batch.next_file(), None);
    assert_eq!(batch.urls.len(), 0);
    assert!(matches!(
        batch.failure.as_ref().unwrap().kind,
        AssCliErrorKind::RequestError(_)
    ));
}

#[test]
fn upload_batch_needs_a_path_in_the_response() {
    let c = client();
    let files = vec!["a.txt".to_string()];
    let mut batch = UploadBatch::new(files, "/");
    batch.record_outcome(&c, HttpOutcome::Response { status: 201, body: "{}".to_string() });
    assert!(matches!(batch.failure.as_ref().unwrap().kind, AssCliErrorKind::JsonError));
}

#[test]
fn image_batch_walks_files_in_order() {
    let c = client();
    let mut batch = ImageUploadBatch::new(vec!["a.jpg".to_string(), "b.jpg".to_string()]);
    assert_eq!(batch.next_file().map(String::as_str), Some("a.jpg"));
    batch.record_outcome(
        &c,
        HttpOutcome::Response { status: 201, body: r#"{"id": 7}"#.to_string() },
    );
    assert_eq!(batch.next_file().map(String::as_str), Some("b.jpg"));
    batch.record_outcome(
        &c,
        HttpOutcome::Response { status: 201, body: r#"{"id": 8}"#.to_string() },
    );
    assert_eq!(batch.next_file(), None);
    assert!(batch.failure.is_none());
    assert_eq!(batch.urls.len(), 2);
    assert!(batch.urls[0].starts_with("https://ass.example.com/users/acme/images/7.jpg?accessToken="));
    assert!(batch.urls[1].starts_with("https://ass.example.com/users/acme/images/8.jpg?accessToken="));
}

#[test]
fn image_batch_fails_fast() {
    // Three images; the second cannot be opened: exactly one success,
    // and the third image is never asked for.
    let c = client();
    let files = vec!["a.jpg".to_string(), "b.jpg".to_string(), "c.jpg".to_string()];
    let mut batch = ImageUploadBatch::new(files);
    batch.record_outcome(
        &c,
        HttpOutcome::Response { status: 201, body: r#"{"id": 7}"#.to_string() },
    );
    batch.record_failure(AssCliError::path_error());
    assert_eq!(batch.next_file(), None);
    assert_eq!(batch.urls.len(), 1);
    assert_eq!(batch.attempted, 2);
}

#[test]
fn image_batch_needs_an_id_in_the_response() {
    let c = client();
    let mut batch = ImageUploadBatch::new(vec!["a.jpg".to_string()]);
    batch.record_outcome(&c, HttpOutcome::Response { status: 201, body: "{}".to_string() });
    assert!(matches!(batch.failure.as_ref().unwrap().kind, AssCliErrorKind::JsonError));
}

#[test]
fn empty_batch_has_nothing_to_do() {
    let batch = UploadBatch::new(Vec::new(), "/docs/");
    assert_eq!(batch.next_file(), None);
}
