use ass_cli::account::Account;
use ass_cli::account::ReadOutcome;
use ass_cli::account::account_config_path;
use ass_cli::error::AssCliErrorKind;

#[test]
fn well_formed_account_file_yields_exact_values() {
    let text = r#"{"url": "https://ass.example.com", "name": "acme", "apikey": "secret"}"#;
    let a = Account::from_json(text).unwrap();
    assert_eq!(a.url, "https://ass.example.com");
    assert_eq!(a.name, "acme");
    assert_eq!(a.apikey, "secret");
}

#[test]
fn extra_fields_are_ignored() {
    let text = r#"{"url": "https://a.example", "name": "n", "apikey": "k", "note": 7}"#;
    let a = Account::from_json(text).unwrap();
    assert_eq!(a.apikey, "k");
}

#[test]
fn missing_apikey_is_invalid_account_file() {
    let text = r#"{"url": "https://ass.example.com", "name": "acme"}"#;
    let e = Account::from_json(text).unwrap_err();
    assert!(matches!(e.kind, AssCliErrorKind::InvalidAccountFile(_)));
}

#[test]
fn mistyped_field_is_invalid_account_file() {
    let text = r#"{"url": "https://ass.example.com", "name": "acme", "apikey": 5}"#;
    let e = Account::from_json(text).unwrap_err();
    assert!(matches!(e.kind, AssCliErrorKind::InvalidAccountFile(_)));
}

#[test]
fn non_json_is_invalid_account_file() {
    let e = Account::from_json("not json").unwrap_err();
    assert!(matches!(e.kind, AssCliErrorKind::InvalidAccountFile(_)));
}

#[test]
fn unparsable_account_url_is_invalid_account_file() {
    let text = r#"{"url": "not a url", "name": "n", "apikey": "k"}"#;
    let e = Account::from_json(text).unwrap_err();
    assert!(matches!(e.kind, AssCliErrorKind::InvalidAccountFile(_)));
}

#[test]
fn empty_api_key_is_invalid_account_file() {
    let text = r#"{"url": "https://a.example", "name": "n", "apikey": ""}"#;
    let e = Account::from_json(text).unwrap_err();
    assert!(matches!(e.kind, AssCliErrorKind::InvalidAccountFile(_)));
}

#[test]
fn unopenable_file_is_not_found() {
    let e = Account::from_read(ReadOutcome::OpenFailed("no such file".to_string())).unwrap_err();
    match e.kind {
        AssCliErrorKind::NotFound(m) => assert_eq!(m, "no such file"),
        _ => panic!("expected NotFound"),
    }
}

#[test]
fn unreadable_file_is_permission_denied() {
    let e = Account::from_read(ReadOutcome::ReadFailed("locked".to_string())).unwrap_err();
    match e.kind {
        AssCliErrorKind::PermissionDenied(m) => assert_eq!(m, "locked"),
        _ => panic!("expected PermissionDenied"),
    }
}

#[test]
fn read_content_goes_through_shape_validation() {
    let text = r#"{"url": "https://a.example", "name": "n", "apikey": "k"}"#.to_string();
    let a = Account::from_read(ReadOutcome::Content(text)).unwrap();
    assert_eq!(a.name, "n");
}

#[test]
fn default_headers_are_exactly_three() {
    let a = Account {
        url: "https://a.example".to_string(),
        name: "n".to_string(),
        apikey: "secret".to_string(),
    };
    let hs = a.get_headers().unwrap();
    assert_eq!(
        hs,
        vec![
            ("Authorization".to_string(), "bearer secret".to_string()),
            ("Accept".to_string(), "application/json".to_string()),
            ("x-ass-acl".to_string(), "public".to_string()),
        ]
    );
}

#[test]
fn control_characters_in_key_are_invalid_header_value() {
    let a = Account {
        url: "https://a.example".to_string(),
        name: "n".to_string(),
        apikey: "se\ncret".to_string(),
    };
    let e = a.get_headers().unwrap_err();
    assert!(matches!(e.kind, AssCliErrorKind::InvalidHeaderValue));
}

#[test]
fn config_path_is_under_the_config_directory() {
    assert_eq!(
        account_config_path("/home/u/.config", "acme"),
        "/home/u/.config/ass-cli/acme.json"
    );
    assert_eq!(account_config_path("/etc/", "a"), "/etc/ass-cli/a.json");
    assert_eq!(account_config_path("", "a"), "ass-cli/a.json");
}

#[test]
fn error_display_lines() {
    let e = ass_cli::error::AssCliError::json_error();
    assert_eq!(e.display_string(), "Error parsing json");
    let e = ass_cli::error::AssCliError::request_error("boom".to_string());
    assert_eq!(e.display_string(), "Error accessing ASS: boom");
    let e = ass_cli::error::AssCliError::command_error();
    assert_eq!(
        e.display_string(),
        "Invalid arguments, use --help for more information"
    );
}
