use ass_cli::sign::sign_url_string;

fn token_part(signed: &str) -> &str {
    let idx = signed.find("accessToken=").expect("token parameter missing");
    &signed[idx + "accessToken=".len()..]
}

#[test]
fn signing_is_deterministic() {
    let a = sign_url_string("https://ass.example.com/users/acme/images/42.jpg", "secret").unwrap();
    let b = sign_url_string("https://ass.example.com/users/acme/images/42.jpg", "secret").unwrap();
    assert_eq!(a, b);
}

#[test]
fn signing_token_is_64_lowercase_hex() {
    let signed = sign_url_string("https://ass.example.com/users/acme/images/42.jpg", "secret").unwrap();
    let token = token_part(&signed);
    assert_eq!(token.len(), 64);
    assert!(token.chars().all(|c| c.is_ascii_digit() || ('a'..='f').contains(&c)));
}

#[test]
fn signing_reference_value() {
    // HMAC-SHA256("secret", full URL bytes), hex-encoded: pinned once and
    // used as a regression fixture.
    let signed = sign_url_string("https://ass.example.com/users/acme/images/42.jpg", "secret").unwrap();
    assert_eq!(
        signed,
        "https://ass.example.com/users/acme/images/42.jpg?accessToken=1796685e89ef9907b45736c2a41de07e54dd0b079d1231f1713c3c181548d398"
    );
}

#[test]
fn signing_matches_storage_example() {
    // The reference token for this URL and key as the storage service
    // documents it.
    let signed = sign_url_string("http://url.com/name/image/2", "apikey").unwrap();
    assert_eq!(
        signed,
        "http://url.com/name/image/2?accessToken=6ea029fcb85dd473116edbc80a500b99ef7f8c32dacbca51bf2be622a38ab6c9"
    );
}

#[test]
fn signing_preserves_existing_query() {
    let signed = sign_url_string("https://h.example/p?a=b&c=d", "k").unwrap();
    assert!(signed.starts_with("https://h.example/p?a=b&c=d&accessToken="));
    assert_eq!(signed.matches('?').count(), 1);
    assert_eq!(signed.matches("accessToken=").count(), 1);
}

#[test]
fn signing_appends_first_parameter_when_no_query() {
    let signed = sign_url_string("https://h.example/p", "k").unwrap();
    assert!(signed.starts_with("https://h.example/p?accessToken="));
    assert_eq!(signed.matches('?').count(), 1);
}

#[test]
fn signing_rejects_unparsable_url() {
    let r = sign_url_string("not a url at all", "k");
    match r {
        Err(e) => assert!(matches!(e.kind, ass_cli::error::AssCliErrorKind::UrlParseError)),
        Ok(_) => panic!("expected a UrlParseError"),
    }
}

#[test]
fn signed_url_carries_the_normalized_rendering() {
    // The returned URL is the normalized rendering: a host-only URL
    // gains its root path.
    let signed = sign_url_string("https://h.example", "k").unwrap();
    assert!(signed.starts_with("https://h.example/?accessToken="));
}

#[test]
fn token_is_over_the_normalized_rendering() {
    // "https://h.example" and "https://h.example/" render the same after
    // parsing, so they carry the same token: the message that is signed
    // is the normalized rendering, not the raw text.
    let a = sign_url_string("https://h.example", "k").unwrap();
    let b = sign_url_string("https://h.example/", "k").unwrap();
    assert_eq!(a, b);
}

#[test]
fn token_goes_before_the_fragment() {
    let signed = sign_url_string("https://h.example/p#frag", "k").unwrap();
    assert!(signed.starts_with("https://h.example/p?accessToken="));
    assert!(signed.ends_with("#frag"));
}

#[test]
fn different_keys_give_different_tokens() {
    let a = sign_url_string("https://h.example/p", "k1").unwrap();
    let b = sign_url_string("https://h.example/p", "k2").unwrap();
    assert_ne!(a, b);
}
