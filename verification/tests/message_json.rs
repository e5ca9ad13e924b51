use dsp_rs::model::common::Resource;
use dsp_rs::model::contract::{Agreement, ContractOffer, ContractRequest, ContractRequestOffer, MessageOffer};
use dsp_rs::policy::Policy;
use dsp_rs::json::{Json, JsonError};
use dsp_rs::model::common::{Context, ContextEntry, JsonLDContext, CONTEXT};
use dsp_rs::model::contract::{
    ContractAgreementVerification, ContractNegotiation, ContractNegotiationError, ContractNegotiationEvent,
    ContractNegotiationEventType, ContractNegotiationTermination,
};
use dsp_rs::model::metadata::VersionResponse;
use dsp_rs::model::transfer::{
    AbstractTransferCode, DataAddress, TransferCompletion, TransferError, TransferProcess, TransferRequest,
    TransferStart,
};
use serde_json::Value;

fn to_tree(v: &Value) -> Json {
    match v {
        Value::Null => Json::Null,
        Value::Bool(b) => Json::Bool(*b),
        Value::Number(n) => Json::Number(n.to_string()),
        Value::String(s) => Json::String(s.clone()),
        Value::Array(items) => Json::Array(items.iter().map(to_tree).collect()),
        Value::Object(ms) => Json::Object(ms.iter().map(|(k, v)| (k.clone(), to_tree(v))).collect()),
    }
}

fn to_value(j: &Json) -> Value {
    match j {
        Json::Null => Value::Null,
        Json::Bool(b) => Value::Bool(*b),
        Json::Number(n) => serde_json::from_str(n).expect("a number"),
        Json::String(s) => Value::String(s.clone()),
        Json::Array(items) => Value::Array(items.iter().map(to_value).collect()),
        Json::Object(ms) => {
            let mut map = serde_json::Map::new();
            for (k, v) in ms {
                map.insert(k.clone(), to_value(v));
            }
            Value::Object(map)
        }
    }
}

fn parse(text: &str) -> Json {
    to_tree(&serde_json::from_str::<Value>(text).expect("valid JSON"))
}

fn assert_json_roundtrip<T>(name: &str, text: &str, from: fn(&Json) -> Result<T, JsonError>, to: fn(&T) -> Json) {
    let raw: Value = serde_json::from_str(text).unwrap_or_else(|e| panic!("Failed to parse {}: {}", name, e));
    let msg = from(&to_tree(&raw)).unwrap_or_else(|_| panic!("Failed to read {} into the target type", name));
    let back = to_value(&to(&msg));
    assert_eq!(raw, back, "Roundtrip structural mismatch for {}", name);
}

const CONTRACT_NEGOTIATION: &str = r#"{
  "@context": ["https://w3id.org/dspace/2025/1/context.jsonld"],
  "@type": "ContractNegotiation",
  "providerPid": "urn:uuid:dcbf434c-eacf-4582-9a02-f8dd50120fd3",
  "consumerPid": "urn:uuid:32541fe6-c580-409e-85a8-8a9a32fbe833",
  "state": "REQUESTED"
}"#;

const CONTRACT_NEGOTIATION_EVENT: &str = r#"{
  "@context": ["https://w3id.org/dspace/2025/1/context.jsonld"],
  "@type": "ContractNegotiationEventMessage",
  "providerPid": "urn:uuid:a343fcbf-99fc-4ce8-8e9b-148c97605aab",
  "consumerPid": "urn:uuid:32541fe6-c580-409e-85a8-8a9a32fbe833",
  "eventType": "ACCEPTED"
}"#;

const CONTRACT_NEGOTIATION_TERMINATION: &str = r#"{
  "@context": ["https://w3id.org/dspace/2025/1/context.jsonld"],
  "@type": "ContractNegotiationTerminationMessage",
  "providerPid": "urn:uuid:a343fcbf-99fc-4ce8-8e9b-148c97605aab",
  "consumerPid": "urn:uuid:32541fe6-c580-409e-85a8-8a9a32fbe833",
  "code": "99",
  "reason": ["License model does not fit."]
}"#;

const CONTRACT_NEGOTIATION_ERROR: &str = r#"{
  "@context": ["https://w3id.org/dspace/2025/1/context.jsonld"],
  "@type": "ContractNegotiationError",
  "providerPid": "urn:uuid:a343fcbf-99fc-4ce8-8e9b-148c97605aab",
  "consumerPid": "urn:uuid:32541fe6-c580-409e-85a8-8a9a32fbe833",
  "code": "123:A",
  "reason": ["Negotiation error."]
}"#;

const TRANSFER_PROCESS: &str = r#"{
  "@context": ["https://w3id.org/dspace/2025/1/context.jsonld"],
  "@type": "TransferProcess",
  "providerPid": "urn:uuid:a343fcbf-99fc-4ce8-8e9b-148c97605aab",
  "consumerPid": "urn:uuid:32541fe6-c580-409e-85a8-8a9a32fbe833",
  "state": "REQUESTED"
}"#;

const TRANSFER_REQUEST: &str = r#"{
  "@context": ["https://w3id.org/dspace/2025/1/context.jsonld"],
  "@type": "TransferRequestMessage",
  "consumerPid": "urn:uuid:32541fe6-c580-409e-85a8-8a9a32fbe833",
  "agreementId": "urn:uuid:e8dc8655-44c2-46ef-b701-4cffdc2faa44",
  "format": "example:HTTP_PUSH",
  "dataAddress": {
    "@type": "DataAddress",
    "endpointType": "https://w3id.org/idsa/v4.1/HTTP",
    "endpoint": "http://example.com",
    "endpointProperties": [
      { "@type": "EndpointProperty", "name": "authorization", "value": "TOKEN-ABCDEFG" },
      { "@type": "EndpointProperty", "name": "authType", "value": "bearer" }
    ]
  },
  "callbackAddress": "https://example.com/callback"
}"#;

const TRANSFER_START: &str = r#"{
  "@context": ["https://w3id.org/dspace/2025/1/context.jsonld"],
  "@type": "TransferStartMessage",
  "providerPid": "urn:uuid:a343fcbf-99fc-4ce8-8e9b-148c97605aab",
  "consumerPid": "urn:uuid:32541fe6-c580-409e-85a8-8a9a32fbe833",
  "dataAddress": {
    "@type": "DataAddress",
    "endpointType": "https://w3id.org/idsa/v4.1/HTTP",
    "endpoint": "http://example.com",
    "endpointProperties": [
      { "@type": "EndpointProperty", "name": "authorization", "value": "TOKEN-ABCDEFG" },
      { "@type": "EndpointProperty", "name": "authType", "value": "bearer" }
    ]
  }
}"#;

const TRANSFER_SUSPENSION: &str = r#"{
  "@context": ["https://w3id.org/dspace/2025/1/context.jsonld"],
  "@type": "TransferSuspensionMessage",
  "providerPid": "urn:uuid:a343fcbf-99fc-4ce8-8e9b-148c97605aab",
  "consumerPid": "urn:uuid:32541fe6-c580-409e-85a8-8a9a32fbe833",
  "code": "...",
  "reason": ["Suspended for maintenance."]
}"#;

const TRANSFER_TERMINATION: &str = r#"{
  "@context": ["https://w3id.org/dspace/2025/1/context.jsonld"],
  "@type": "TransferTerminationMessage",
  "providerPid": "urn:uuid:a343fcbf-99fc-4ce8-8e9b-148c97605aab",
  "consumerPid": "urn:uuid:32541fe6-c580-409e-85a8-8a9a32fbe833",
  "code": "...",
  "reason": ["Terminated by the provider."]
}"#;

const TRANSFER_COMPLETION: &str = r#"{
  "@context": ["https://w3id.org/dspace/2025/1/context.jsonld"],
  "@type": "TransferCompletionMessage",
  "providerPid": "urn:uuid:a343fcbf-99fc-4ce8-8e9b-148c97605aab",
  "consumerPid": "urn:uuid:32541fe6-c580-409e-85a8-8a9a32fbe833"
}"#;

const TRANSFER_ERROR: &str = r#"{
  "@context": ["https://w3id.org/dspace/2025/1/context.jsonld"],
  "@type": "TransferError",
  "providerPid": "urn:uuid:a343fcbf-99fc-4ce8-8e9b-148c97605aab",
  "consumerPid": "urn:uuid:32541fe6-c580-409e-85a8-8a9a32fbe833",
  "code": "...",
  "reason": ["Transfer failed."]
}"#;

const PROTOCOL_VERSION: &str = r#"{
  "protocolVersions": [
    {
      "version": "2025-1",
      "path": "/some/path/2025-1",
      "binding": "HTTPS",
      "auth": {
        "protocol": "OAuth",
        "version": "2",
        "profile": ["authorization_code", "refresh_token"]
      },
      "identifierType": "did:web",
      "serviceId": "4ba7f8e1-6a3c-4b2e-9f1d-2c5e8a7b9d01"
    },
    {
      "version": "2024-1",
      "path": "/some/path/2024-1",
      "binding": "HTTPS"
    }
  ]
}"#;

#[test]
fn test_contract_negotiation() {
    assert_json_roundtrip(
        "contract-negotiation.json",
        CONTRACT_NEGOTIATION,
        ContractNegotiation::from_json,
        ContractNegotiation::to_json,
    );
    assert_json_roundtrip(
        "contract-negotiation-event-message.json",
        CONTRACT_NEGOTIATION_EVENT,
        ContractNegotiationEvent::from_json,
        ContractNegotiationEvent::to_json,
    );
    assert_json_roundtrip(
        "contract-negotiation-termination-message.json",
        CONTRACT_NEGOTIATION_TERMINATION,
        ContractNegotiationTermination::from_json,
        ContractNegotiationTermination::to_json,
    );
    assert_json_roundtrip(
        "contract-negotiation-error.json",
        CONTRACT_NEGOTIATION_ERROR,
        ContractNegotiationError::from_json,
        ContractNegotiationError::to_json,
    );
}

#[test]
fn test_transfer_process() {
    assert_json_roundtrip("transfer-process.json", TRANSFER_PROCESS, TransferProcess::from_json, TransferProcess::to_json);
    assert_json_roundtrip(
        "transfer-request-message.json",
        TRANSFER_REQUEST,
        TransferRequest::from_json,
        TransferRequest::to_json,
    );
    assert_json_roundtrip("transfer-start-message.json", TRANSFER_START, TransferStart::from_json, TransferStart::to_json);
    assert_json_roundtrip(
        "transfer-suspension-message.json",
        TRANSFER_SUSPENSION,
        AbstractTransferCode::from_json,
        AbstractTransferCode::to_json,
    );
    assert_json_roundtrip(
        "transfer-termination-message.json",
        TRANSFER_TERMINATION,
        AbstractTransferCode::from_json,
        AbstractTransferCode::to_json,
    );
    assert_json_roundtrip(
        "transfer-completion-message.json",
        TRANSFER_COMPLETION,
        TransferCompletion::from_json,
        TransferCompletion::to_json,
    );
    assert_json_roundtrip("transfer-error.json", TRANSFER_ERROR, AbstractTransferCode::from_json, AbstractTransferCode::to_json);
}

#[test]
fn test_versions_response() {
    assert_json_roundtrip("protocol-version.json", PROTOCOL_VERSION, VersionResponse::from_json, VersionResponse::to_json);
}

#[test]
fn versions_are_read_field_by_field() {
    let v = VersionResponse::from_json(&parse(PROTOCOL_VERSION)).expect("readable");
    assert_eq!(v.protocol_versions.len(), 2);
    let first = &v.protocol_versions[0];
    assert_eq!(first.version, "2025-1");
    assert_eq!(first.identifier_type.as_deref(), Some("did:web"));
    let auth = first.auth.as_ref().expect("auth");
    assert_eq!(auth.protocol, "OAuth");
    assert_eq!(auth.profile, Some(vec!["authorization_code".to_string(), "refresh_token".to_string()]));
    let second = &v.protocol_versions[1];
    assert_eq!(second.service_id, None);
    assert!(second.auth.is_none());
}

#[test]
fn missing_required_member_is_refused() {
    let doc = r#"{ "@context": ["x"], "@type": "TransferProcess", "providerPid": "p", "state": "STARTED" }"#;
    assert_eq!(TransferProcess::from_json(&parse(doc)), Err(JsonError));
}

#[test]
fn member_of_wrong_kind_is_refused() {
    let doc = r#"{ "@context": ["x"], "@type": "TransferProcess", "providerPid": 7, "consumerPid": "c", "state": "STARTED" }"#;
    assert_eq!(TransferProcess::from_json(&parse(doc)), Err(JsonError));
    assert_eq!(TransferProcess::from_json(&parse("[]")), Err(JsonError));
}

#[test]
fn context_of_wrong_kind_is_refused() {
    let doc = r#"{ "@context": 3, "@type": "TransferProcess", "providerPid": "p", "consumerPid": "c", "state": "S" }"#;
    assert_eq!(TransferProcess::from_json(&parse(doc)), Err(JsonError));
    let doc = r#"{ "@context": [{"a": [1]}], "@type": "TransferProcess", "providerPid": "p", "consumerPid": "c", "state": "S" }"#;
    assert_eq!(TransferProcess::from_json(&parse(doc)), Err(JsonError));
}

#[test]
fn unknown_event_type_is_refused() {
    let doc = r#"{ "@context": ["x"], "@type": "E", "providerPid": "p", "consumerPid": "c", "eventType": "REJECTED" }"#;
    assert_eq!(ContractNegotiationEvent::from_json(&parse(doc)), Err(JsonError));
    let doc = r#"{ "@context": ["x"], "@type": "E", "providerPid": "p", "consumerPid": "c", "eventType": "FINALIZED" }"#;
    assert_eq!(ContractNegotiationEvent::from_json(&parse(doc)).unwrap().event_type, ContractNegotiationEventType::Finalized);
}

#[test]
fn unknown_members_are_ignored_and_null_options_read_as_absent() {
    let doc = r#"{ "@context": "x", "@type": "T", "providerPid": "p", "consumerPid": "c", "code": null, "extra": 1 }"#;
    let t = AbstractTransferCode::from_json(&parse(doc)).expect("readable");
    assert_eq!(t.code, None);
    assert_eq!(t.reason, None);
    assert_eq!(t.context, JsonLDContext { context: Context::Single(ContextEntry::Iri("x".into())) });
    let out = to_value(&t.to_json());
    assert_eq!(out, serde_json::from_str::<Value>(r#"{ "@context": "x", "@type": "T", "providerPid": "p", "consumerPid": "c" }"#).unwrap());
}

#[test]
fn start_without_address_writes_null() {
    let start = TransferProcess::start("p".into(), "c".into(), None);
    let out = to_value(&start.to_json());
    assert_eq!(out["dataAddress"], Value::Null);
    assert_eq!(out["@type"], Value::String("TransferStartMessage".into()));
    assert_eq!(out["@context"], Value::Array(vec![Value::String(CONTEXT.into())]));
    assert!(TransferStart::from_json(&start.to_json()).unwrap().data_address.is_none());
}

#[test]
fn http_data_address_carries_the_bearer_token() {
    let address = DataAddress::new_http_with_token("http://example.com/data".into(), "TOKEN".into());
    let out = to_value(&address.to_json());
    let expected: Value = serde_json::from_str(
        r#"{
          "@type": "DataAddress",
          "endpointType": "https://w3id.org/idsa/v4.1/HTTP",
          "endpoint": "http://example.com/data",
          "endpointProperties": [
            { "@type": "EndpointProperty", "name": "authorization", "value": "TOKEN" },
            { "@type": "EndpointProperty", "name": "authType", "value": "bearer" }
          ]
        }"#,
    )
    .unwrap();
    assert_eq!(out, expected);
}

#[test]
fn transfer_errors_carry_status_and_reason() {
    let cases = [
        (TransferError::agreement_not_found("p".into(), "c".into()), "400", "No matching agreement"),
        (TransferError::forbidden("p".into(), "c".into()), "403", "Access denied"),
        (TransferError::transfer_not_found("p".into(), "c".into()), "404", "Transfer not found"),
        (TransferError::invalid_state("p".into(), "c".into()), "400", "Invalid state"),
    ];
    for (e, code, reason) in cases {
        assert_eq!(e.inner.code.as_deref(), Some(code));
        assert_eq!(e.inner.reason, Some(vec![reason.to_string()]));
        assert_eq!(e.inner.ld_type.name, "TransferError");
        assert_eq!(to_value(&e.to_json())["code"], Value::String(code.into()));
    }
    let e = TransferError::new("p".into(), "c".into(), 7, "x");
    assert_eq!(e.inner.code.as_deref(), Some("7"));
    let e = TransferError::new("p".into(), "c".into(), 65535, "x");
    assert_eq!(e.inner.code.as_deref(), Some("65535"));
}

#[test]
fn negotiation_errors_carry_status_and_reason() {
    let e = ContractNegotiationError::contract_not_found("p".into(), "c".into());
    assert_eq!(e.code.as_deref(), Some("404"));
    assert_eq!(e.reason, Some(vec!["Contract not found".to_string()]));
    let e = ContractNegotiationError::invalid_state("p".into(), "c".into());
    assert_eq!(e.code.as_deref(), Some("400"));
    assert_eq!(e.reason, Some(vec!["Invalid state".to_string()]));
    assert_eq!(e.ld_type.name, "ContractNegotiationError");
    let back = ContractNegotiationError::from_json(&e.to_json()).unwrap();
    assert_eq!(back, e);
}

#[test]
fn negotiation_messages_name_their_pids() {
    let ev = ContractNegotiation::accept("p".into(), "c".into());
    assert_eq!(ev.event_type, ContractNegotiationEventType::Accepted);
    assert_eq!(to_value(&ev.to_json())["eventType"], Value::String("ACCEPTED".into()));
    let pids: (String, String) = ev.into();
    assert_eq!(pids, ("p".to_string(), "c".to_string()));
    let ev = ContractNegotiation::finalize("p".into(), "c".into());
    assert_eq!(to_value(&ev.to_json())["eventType"], Value::String("FINALIZED".into()));
    let v: ContractAgreementVerification = ContractNegotiation::verify("p".into(), "c".into());
    assert_eq!(v.ld_type.name, "ContractAgreementVerificationMessage");
    let pids: (String, String) = v.into();
    assert_eq!(pids, ("p".to_string(), "c".to_string()));
    let t = ContractNegotiation::terminate("p".into(), "c".into(), None, Some(vec!["r".into()]));
    let out = to_value(&t.to_json());
    assert!(out.get("code").is_none());
    assert_eq!(out["reason"], Value::Array(vec![Value::String("r".into())]));
    let pids: (String, String) = t.into();
    assert_eq!(pids.0, "p");
}

#[test]
fn transfer_messages_name_their_pids() {
    let t = TransferProcess::terminate("p".into(), "c".into(), Some("1".into()), None);
    assert_eq!(t.ld_type.name, "TransferTerminationMessage");
    let s = TransferProcess::suspend("p".into(), "c".into(), None, None);
    assert_eq!(s.ld_type.name, "TransferSuspensionMessage");
    let pids: (String, String) = s.into();
    assert_eq!(pids, ("p".to_string(), "c".to_string()));
    let done = TransferProcess::complete("p".into(), "c".into());
    assert_eq!(done.ld_type.name, "TransferCompletionMessage");
    let pids: (String, String) = done.into();
    assert_eq!(pids, ("p".to_string(), "c".to_string()));
    let r = TransferRequest::new("a".into(), "f".into(), "cb".into(), "c".into(), None);
    let out = to_value(&r.to_json());
    assert!(out.get("dataAddress").is_none());
    assert_eq!(out["callbackAddress"], Value::String("cb".into()));
    assert_eq!(TransferRequest::from_json(&r.to_json()).unwrap(), r);
}

#[test]
fn reading_a_written_message_gives_it_back() {
    let start = TransferProcess::start(
        "p".into(),
        "c".into(),
        Some(DataAddress::new_http_with_token("http://e".into(), "t".into())),
    );
    assert_eq!(TransferStart::from_json(&start.to_json()).unwrap(), start);
    let pids: (String, String) = start.into();
    assert_eq!(pids, ("p".to_string(), "c".to_string()));
}

#[test]
fn contract_requests_offers_and_agreements() {
    fn empty() -> Policy {
        Policy { profile: None, permission: None, prohibition: None, obligation: None }
    }
    let offer = || MessageOffer { id: "urn:offer:1".into(), target: Some("urn:dataset:1".into()), policy: empty() };

    let r = ContractRequest::make_initial("c".into(), ContractRequestOffer::Concrete(offer()), "https://cb".into());
    assert_eq!(r.ld_type.name, "ContractRequestMessage");
    assert_eq!(r.provider_pid, None);
    assert_eq!(r.callback_address.as_deref(), Some("https://cb"));
    assert_eq!(r.pids(), (String::new(), "c".to_string()));

    let r = ContractRequest::make_secondary("c".into(), ContractRequestOffer::Reference(Resource::from("urn:offer:1".to_string())), "p".into());
    assert_eq!(r.callback_address, None);
    assert_eq!(r.pids(), ("p".to_string(), "c".to_string()));

    let o = ContractOffer::_make_initial("p".into(), offer(), "https://cb".into());
    assert_eq!(o.ld_type.name, "ContractOfferMessage");
    assert_eq!(o.pids(), ("p".to_string(), String::new()));
    let o = ContractOffer::make_secondary("p".into(), offer(), "c".into());
    assert_eq!(o.callback_address, None);
    assert_eq!(o.pids(), ("p".to_string(), "c".to_string()));

    let agreement = Agreement {
        id: "urn:agreement:1".into(),
        target: "urn:dataset:1".into(),
        assigner: "did:web:provider".into(),
        assignee: "did:web:consumer".into(),
        policy: empty(),
    };
    let a = ContractNegotiation::agree("p".into(), "c".into(), agreement);
    assert_eq!(a.ld_type.name, "ContractAgreementMessage");
    assert_eq!(a.agreement.assignee, "did:web:consumer");
    let pids: (String, String) = a.into();
    assert_eq!(pids, ("p".to_string(), "c".to_string()));
}
