use dsp_rs::json::{Json, JsonError};
use dsp_rs::model::common::{Context, ContextEntry, JsonLDContext, CONTEXT};

fn single_map(entries: Vec<(&str, ContextEntry)>) -> JsonLDContext {
    JsonLDContext {
        context: Context::Single(ContextEntry::TermMap(
            entries.into_iter().map(|(k, v)| (k.to_string(), v)).collect(),
        )),
    }
}

fn iri(s: &str) -> ContextEntry {
    ContextEntry::Iri(s.to_string())
}

#[test]
fn test_context_union() {
    let context = JsonLDContext::default();
    let context = context.union(vec![JsonLDContext::default(), JsonLDContext::default()]);

    if let Context::Array(items) = context.context {
        assert_eq!(items.len(), 1, "The number of context items should be 1 after deduplication");
    } else {
        panic!("Expected Context::Array, but got a different variant");
    }
}

#[test]
fn test_deeply_nested_deduplication() {
    // Context 1: { "a": { "b": "c" } }
    let make = || single_map(vec![("a", ContextEntry::TermMap(vec![("b".to_string(), iri("c"))]))]);
    let ctx1 = make();
    // Context 2: Exact same nested structure
    let ctx2 = make();

    let unioned = ctx1.union(vec![ctx2]);

    if let Context::Array(items) = unioned.context {
        assert_eq!(items.len(), 1, "Should have deduplicated identical nested maps");
    } else {
        panic!("Expected Array");
    }
}

#[test]
fn test_key_collision_different_values() {
    // Context 1: { "name": "schema.org/name" }
    let ctx1 = single_map(vec![("name", iri("schema.org/name"))]);
    // Context 2: { "name": "custom.org/name" }
    let ctx2 = single_map(vec![("name", iri("custom.org/name"))]);

    let unioned = ctx1.union(vec![ctx2]);

    if let Context::Array(items) = unioned.context {
        assert_eq!(items.len(), 2, "Should have kept both because values differ");
    } else {
        panic!("Expected Array");
    }
}

#[test]
fn union_keeps_order_and_term_order_does_not_matter() {
    let first = JsonLDContext {
        context: Context::Array(vec![
            iri("https://example.org/a"),
            ContextEntry::TermMap(vec![("x".to_string(), iri("1")), ("y".to_string(), iri("2"))]),
        ]),
    };
    let second = JsonLDContext {
        context: Context::Array(vec![
            ContextEntry::TermMap(vec![("y".to_string(), iri("2")), ("x".to_string(), iri("1"))]),
            iri(CONTEXT),
            iri("https://example.org/a"),
        ]),
    };
    let unioned = first.union(vec![second]);
    assert_eq!(
        unioned.context,
        Context::Array(vec![
            iri("https://example.org/a"),
            ContextEntry::TermMap(vec![("x".to_string(), iri("1")), ("y".to_string(), iri("2"))]),
            iri(CONTEXT),
        ])
    );
}

#[test]
fn default_context_is_the_protocol_context() {
    assert_eq!(JsonLDContext::default().context, Context::Array(vec![iri("https://w3id.org/dspace/2025/1/context.jsonld")]));
}

#[test]
fn a_map_naming_a_term_twice_is_refused() {
    let twice = Json::Object(vec![
        ("a".to_string(), Json::String("x".into())),
        ("a".to_string(), Json::String("y".into())),
    ]);
    assert_eq!(ContextEntry::from_json(&twice), Err(JsonError));
    let once = Json::Object(vec![("a".to_string(), Json::String("x".into())), ("b".to_string(), Json::String("x".into()))]);
    assert!(ContextEntry::from_json(&once).is_ok());
}
