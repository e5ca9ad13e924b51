use dsp_rs::connector::utils::{derive_did_web, did_web_from_host, did_web_url_text, resolve_did_web, DidWebError};

#[test]
fn did_web_of_address_without_port() {
    assert_eq!(derive_did_web("https://example.com/some/path").unwrap(), "did:web:example.com");
}

#[test]
fn did_web_of_address_with_port_encodes_the_colon() {
    assert_eq!(derive_did_web("http://localhost:8080").unwrap(), "did:web:localhost%3A8080");
}

#[test]
fn did_web_of_address_with_default_port_has_no_port() {
    assert_eq!(derive_did_web("https://example.com:443/").unwrap(), "did:web:example.com");
}

#[test]
fn did_web_of_invalid_address_is_refused() {
    assert_eq!(derive_did_web("not a url"), Err(DidWebError::InvalidAddress));
}

#[test]
fn did_web_of_address_without_host_is_refused() {
    assert_eq!(derive_did_web("mailto:someone@example.com"), Err(DidWebError::NoAuthority));
    assert_eq!(did_web_from_host(None, Some(1)), Err(DidWebError::NoAuthority));
    assert_eq!(did_web_from_host(Some("h"), Some(65535)).unwrap(), "did:web:h%3A65535");
}

#[test]
fn did_web_resolves_to_well_known_document() {
    assert_eq!(
        resolve_did_web("did:web:example.com", true).unwrap(),
        "https://example.com/.well-known/did.json"
    );
    assert_eq!(
        resolve_did_web("did:web:example.com", false).unwrap(),
        "http://example.com/.well-known/did.json"
    );
}

#[test]
fn did_web_with_port_and_path() {
    assert_eq!(
        resolve_did_web("did:web:localhost%3A8080:user:alice", false).unwrap(),
        "http://localhost:8080/user/alice/did.json"
    );
    assert_eq!(
        resolve_did_web("did:web:localhost%3a8080", true).unwrap(),
        "https://localhost:8080/.well-known/did.json"
    );
}

#[test]
fn did_web_with_empty_path_segment_uses_well_known() {
    assert_eq!(
        did_web_url_text("did:web:example.com:", true).unwrap(),
        "https://example.com/.well-known/did.json"
    );
}

#[test]
fn did_web_without_prefix_is_refused() {
    assert_eq!(resolve_did_web("did:key:abc", true), Err(DidWebError::MissingPrefix));
    assert_eq!(did_web_url_text("web:example.com", true), Err(DidWebError::MissingPrefix));
}

#[test]
fn did_web_naming_an_invalid_url_is_refused() {
    assert_eq!(resolve_did_web("did:web:exa mple.com", true), Err(DidWebError::InvalidUrl));
}

#[test]
fn derived_did_web_resolves_to_the_address() {
    let did = derive_did_web("http://localhost:8080").unwrap();
    assert_eq!(resolve_did_web(&did, false).unwrap(), "http://localhost:8080/.well-known/did.json");
}
