use dsp_rs::auth::model::{check_wallet_did, DidCheckError};
use dsp_rs::auth::model::status_reply;
use dsp_rs::auth::model::{
    access_token_claims, identity_credential_types, read_identity_fields, transfer_token_claims, verification_request,
    verification_state, CredentialData, CredentialType, DidDocument, Sessions, Status, VerificationMethod,
    VerificationState, VerifyError,
};
use dsp_rs::auth::{next_poll_action, wallet_did_url, PollAction, PollFailure};
use dsp_rs::json::Json;
use serde_json::Value;

fn to_tree(v: &Value) -> Json {
    match v {
        Value::Null => Json::Null,
        Value::Bool(b) => Json::Bool(*b),
        Value::Number(n) => Json::Number(n.to_string()),
        Value::String(s) => Json::String(s.clone()),
        Value::Array(items) => Json::Array(items.iter().map(to_tree).collect()),
        Value::Object(ms) => Json::Object(ms.iter().map(|(k, v)| (k.clone(), to_tree(v))).collect()),
    }
}

fn to_value(j: &Json) -> Value {
    match j {
        Json::Null => Value::Null,
        Json::Bool(b) => Value::Bool(*b),
        Json::Number(n) => serde_json::from_str(n).expect("a number"),
        Json::String(s) => Value::String(s.clone()),
        Json::Array(items) => Value::Array(items.iter().map(to_value).collect()),
        Json::Object(ms) => {
            let mut map = serde_json::Map::new();
            for (k, v) in ms {
                map.insert(k.clone(), to_value(v));
            }
            Value::Object(map)
        }
    }
}

fn json(text: &str) -> Json {
    to_tree(&serde_json::from_str::<Value>(text).unwrap())
}

fn credential(data: &str) -> CredentialData {
    CredentialData {
        credential_type: "identity_credential".into(),
        format: "dc+sd-jwt".into(),
        credential_data: json(data),
        issuer: "did:web:issuer".into(),
    }
}

fn method(id: &str, controller: &str) -> VerificationMethod {
    VerificationMethod { id: id.into(), controller: controller.into(), public_key_jwk: json(r#"{"kty":"EC"}"#) }
}

#[test]
fn authentication_method_is_the_first_controlled_match() {
    let doc = DidDocument {
        id: "did:web:a".into(),
        authentication: vec!["#k2".into(), "#k1".into()],
        verification_method: vec![method("#k1", "did:web:a"), method("#k2", "did:web:other"), method("#k2", "did:web:a")],
    };
    let m = doc.authentication_method().expect("a method");
    assert_eq!(m.id, "#k2");
    assert_eq!(m.controller, "did:web:a");
}

#[test]
fn authentication_method_missing() {
    let doc = DidDocument {
        id: "did:web:a".into(),
        authentication: vec!["#k3".into()],
        verification_method: vec![method("#k1", "did:web:a")],
    };
    assert!(doc.authentication_method().is_none());
}

#[test]
fn identity_fields_from_object_or_array() {
    let j = json(r#"{"email": "a@b.c", "address": {"country": "DE", "city": "Berlin"}, "name": "A"}"#);
    let (e, c) = read_identity_fields(&j).unwrap();
    assert_eq!(to_value(e), Value::String("a@b.c".into()));
    assert_eq!(to_value(c), Value::String("DE".into()));
    let j = json(r#"["a@b.c", ["FR"]]"#);
    let (e, c) = read_identity_fields(&j).unwrap();
    assert_eq!(to_value(e), Value::String("a@b.c".into()));
    assert_eq!(to_value(c), Value::String("FR".into()));
    assert!(read_identity_fields(&json(r#"{"email": "a@b.c"}"#)).is_none());
    assert!(read_identity_fields(&json(r#"{"email": "a@b.c", "address": {}}"#)).is_none());
    assert!(read_identity_fields(&json(r#"["a@b.c"]"#)).is_none());
    assert!(read_identity_fields(&json(r#""text""#)).is_none());
}

#[test]
fn access_claims_from_identity_credential() {
    let creds = vec![
        ("other".to_string(), credential(r#"{"email": "x@y.z", "address": {"country": "US"}}"#)),
        ("identity".to_string(), credential(r#"{"email": "a@b.c", "address": {"country": "DE"}}"#)),
    ];
    let claims = access_token_claims(&creds, "did:web:provider".into(), "did:web:consumer".into()).unwrap();
    assert_eq!(claims.get_str("email").as_deref(), Some("a@b.c"));
    assert_eq!(claims.get_str("country").as_deref(), Some("DE"));
    assert_eq!(claims.get_str("iss").as_deref(), Some("did:web:provider"));
    assert_eq!(claims.get_str("sub").as_deref(), Some("did:web:consumer"));
}

#[test]
fn no_access_claims_without_identity() {
    let creds = vec![
        ("other".to_string(), credential(r#"{"email": "x@y.z", "address": {"country": "US"}}"#)),
        ("identity".to_string(), credential(r#"{"email": "a@b.c"}"#)),
    ];
    assert!(access_token_claims(&creds, "i".into(), "s".into()).is_none());
    assert!(access_token_claims(&vec![], "i".into(), "s".into()).is_none());
}

#[test]
fn transfer_claims_name_process_and_issuer() {
    let claims = transfer_token_claims("urn:uuid:1".into(), "did:web:provider".into());
    assert_eq!(claims.get_str("sub").as_deref(), Some("urn:uuid:1"));
    assert_eq!(claims.get_str("iss").as_deref(), Some("did:web:provider"));
    assert_eq!(claims.get_str("email"), None);
}

#[test]
fn verification_state_from_verifier_report() {
    let presented = vec![
        ("identity".to_string(), vec![credential(r#"{"n": 1}"#), credential(r#"{"n": 2}"#)]),
        ("empty".to_string(), vec![]),
    ];
    match verification_state("SUCCESSFUL", Some(presented), "did:web:h".into()) {
        VerificationState::Successful { credentials, did_web } => {
            assert_eq!(did_web, "did:web:h");
            assert_eq!(credentials.len(), 1);
            assert_eq!(credentials[0].0, "identity");
            assert_eq!(to_value(&credentials[0].1.credential_data), serde_json::from_str::<Value>(r#"{"n": 1}"#).unwrap());
        }
        other => panic!("unexpected {:?}", other),
    }
    assert!(matches!(verification_state("SUCCESSFUL", None, "d".into()), VerificationState::Failed));
    for s in ["ACTIVE", "UNUSED", "IN_USE", "VALIDATING_RECEIVED_REQUEST", "PROCESSING_FLOW"] {
        assert!(matches!(verification_state(s, None, "d".into()), VerificationState::Pending));
    }
    assert!(matches!(verification_state("EXPIRED", Some(vec![]), "d".into()), VerificationState::Failed));
}

#[test]
fn sessions_remember_the_holder() {
    let mut sessions = Sessions::new();
    sessions.insert("s1".into(), "did:web:a".into());
    sessions.insert("s2".into(), "did:web:b".into());
    sessions.insert("s1".into(), "did:web:c".into());
    assert_eq!(sessions.get("s1").as_deref(), Some("did:web:c"));
    assert_eq!(sessions.get("s2").as_deref(), Some("did:web:b"));
    sessions.remove("s1");
    assert_eq!(sessions.get("s1"), None);
    assert_eq!(sessions.get("s2").as_deref(), Some("did:web:b"));
    assert_eq!(sessions.get("s3"), None);
}

#[test]
fn verification_request_lists_types_and_issuers() {
    let types = identity_credential_types("https://issuer.example");
    assert_eq!(types.len(), 1);
    assert_eq!(types[0].0, "identity");
    assert_eq!(
        types[0].1,
        CredentialType {
            format: "dc+sd-jwt".into(),
            vct: "https://issuer.example/openid4vci/identity_credential".into()
        }
    );
    let request = verification_request(&types, &vec!["did:web:issuer".to_string()]).unwrap();
    let expected: Value = serde_json::from_str(
        r#"{
            "flow_type": "cross_device",
            "core_flow": {
                "dcql_query": {
                    "credentials": [
                        {
                            "id": "identity",
                            "format": "dc+sd-jwt",
                            "meta": { "vct_values": ["https://issuer.example/openid4vci/identity_credential"] }
                        }
                    ]
                },
                "policies": {
                    "vc_policies": [
                        "signature",
                        "expiration",
                        "not-before",
                        { "policy": "allowed-issuer", "allowed_issuer": ["did:web:issuer"] }
                    ]
                }
            }
        }"#,
    )
    .unwrap();
    assert_eq!(to_value(&request), expected);
    assert_eq!(verification_request(&vec![], &vec![]).unwrap_err(), VerifyError::NoCredentialTypes);
}

#[test]
fn wallet_did_url_encodes_the_did() {
    assert_eq!(
        wallet_did_url("http://wallet", "w1", "did:web:a%3A80"),
        "http://wallet/wallet/w1/dids/did%3Aweb%3Aa%253A80"
    );
}

#[test]
fn polling_steps() {
    assert_eq!(next_poll_action(10_000, None, 10_000), PollAction::Stop(PollFailure::TimedOut));
    assert_eq!(
        next_poll_action(0, Some(Status::Success { access_token: "t".into() }), 100),
        PollAction::Done("t".into())
    );
    assert_eq!(next_poll_action(0, Some(Status::Failed), 100), PollAction::Stop(PollFailure::AuthenticationFailed));
    assert_eq!(next_poll_action(0, Some(Status::Pending), 100), PollAction::Wait(3000));
    assert_eq!(next_poll_action(8_000, None, 8_500), PollAction::Wait(1500));
    assert_eq!(next_poll_action(9_999, None, 12_000), PollAction::Wait(0));
}

#[test]
fn did_document_is_read_from_json() {
    let doc = DidDocument::from_json(&json(
        r#"{
            "@context": ["https://www.w3.org/ns/did/v1"],
            "id": "did:web:example.com",
            "authentication": ["did:web:example.com#key-1"],
            "verificationMethod": [
                {
                    "id": "did:web:example.com#key-1",
                    "type": "JsonWebKey2020",
                    "controller": "did:web:example.com",
                    "publicKeyJwk": { "kty": "EC", "crv": "P-256", "x": "abc", "y": "def" }
                }
            ]
        }"#,
    ))
    .expect("a DID document");
    assert_eq!(doc.id, "did:web:example.com");
    let m = doc.authentication_method().expect("an authentication method");
    assert_eq!(to_value(&m.public_key_jwk)["crv"], Value::String("P-256".into()));
}

#[test]
fn malformed_did_documents_are_refused() {
    assert!(DidDocument::from_json(&json(r#"{"id": "x", "authentication": []}"#)).is_err());
    assert!(DidDocument::from_json(&json(r#"{"id": "x", "authentication": [1], "verificationMethod": []}"#)).is_err());
    assert!(DidDocument::from_json(&json(
        r#"{"id": "x", "authentication": [], "verificationMethod": [{"id": "k", "controller": "x"}]}"#
    ))
    .is_err());
    assert!(DidDocument::from_json(&json(r#"{"id": "x", "authentication": [], "verificationMethod": []}"#)).is_ok());
}

#[test]
fn status_replies() {
    assert_eq!(status_reply(&VerificationState::Pending, Some("t".into())), Status::Pending);
    assert_eq!(status_reply(&VerificationState::Failed, Some("t".into())), Status::Failed);
    let ok = VerificationState::Successful { credentials: vec![], did_web: "d".into() };
    assert_eq!(status_reply(&ok, Some("t".into())), Status::Success { access_token: "t".into() });
    assert_eq!(status_reply(&ok, None), Status::Failed);
}

#[test]
fn wallet_did_url_encodes_non_ascii_bytes() {
    assert_eq!(wallet_did_url("w", "1", "ä€"), format!("w/wallet/1/dids/{}", "%C3%A4%E2%82%AC"));
}

#[test]
fn did_checks() {
    assert_eq!(check_wallet_did("did:web:a", "did:web:a"), Ok(()));
    assert_eq!(check_wallet_did("did:web:a", "did:web:b"), Err(DidCheckError::WalletDidMismatch));
    let doc = DidDocument { id: "did:web:a".into(), authentication: vec![], verification_method: vec![] };
    assert_eq!(doc.check_id("did:web:a"), Ok(()));
    assert_eq!(doc.check_id("did:web:b"), Err(DidCheckError::DocumentIdMismatch));
}
