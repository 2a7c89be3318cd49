use kd6::embedding::{
    is_noop, plan_content_embedding, plan_query_embedding, plan_update_embedding, EmbedStep,
    NoopEmbedder, UpdateEmbedStep,
};
use kd6::error::OmsError;
use kd6::json::{content_to_text, to_json_string, Json};

const FAKE_MODEL: &str = "fake-3d";
const FAKE_DIMS: usize = 3;

fn bits(v: &[f32]) -> Vec<u32> {
    v.iter().map(|f| f.to_bits()).collect()
}

fn s(x: &str) -> Json {
    Json::String(x.into())
}

#[test]
fn content_to_text_string() {
    assert_eq!(content_to_text(&s("hello")), "hello");
}

#[test]
fn content_to_text_object_extracts_string_leaves() {
    let val = Json::Object(vec![
        ("text".into(), s("hello")),
        ("nested".into(), Json::Object(vec![("msg".into(), s("world"))])),
    ]);
    let text = content_to_text(&val);
    assert!(text.contains("hello"));
    assert!(text.contains("world"));
}

#[test]
fn content_to_text_array_extracts_string_leaves() {
    let val = Json::Array(vec![
        s("alpha"),
        Json::Object(vec![("inner".into(), s("beta"))]),
        s("gamma"),
    ]);
    let text = content_to_text(&val);
    assert!(text.contains("alpha"));
    assert!(text.contains("beta"));
    assert!(text.contains("gamma"));
}

#[test]
fn content_to_text_number_serializes() {
    assert_eq!(content_to_text(&Json::Number("42".into())), "42");
}

#[test]
fn content_to_text_empty_object_falls_back_to_json() {
    let val = Json::Object(vec![("count".into(), Json::Number("5".into()))]);
    let text = content_to_text(&val);
    // No string leaves, so falls back to JSON serialization
    assert!(text.contains("count"));
}

#[test]
fn content_to_text_exact_values() {
    let arr = Json::Array(vec![s("alpha"), Json::Object(vec![("inner".into(), s("beta"))])]);
    assert_eq!(content_to_text(&arr), "alpha beta");
    let obj = Json::Object(vec![("count".into(), Json::Number("5".into()))]);
    assert_eq!(content_to_text(&obj), r#"{"count":5}"#);
    assert_eq!(content_to_text(&Json::Null), "null");
    assert_eq!(content_to_text(&Json::Bool(false)), "false");
}

#[test]
fn json_text_matches_serde_json() {
    let v = Json::Object(vec![
        ("a".into(), Json::Array(vec![Json::Number("1".into()), Json::Null])),
        ("q".into(), s("line\n\"quoted\"\u{1}")),
    ]);
    let ours = to_json_string(&v);
    let mut map = serde_json::Map::new();
    map.insert(
        "a".into(),
        serde_json::Value::Array(vec![serde_json::Value::from(1), serde_json::Value::Null]),
    );
    map.insert("q".into(), serde_json::Value::String("line\n\"quoted\"\u{1}".into()));
    let theirs = serde_json::to_string(&serde_json::Value::Object(map)).unwrap();
    assert_eq!(ours, theirs);
}

#[test]
fn noop_detected_correctly() {
    let noop = NoopEmbedder;
    assert!(is_noop(noop.model_id(), noop.dimensions()));
    assert!(!is_noop(FAKE_MODEL, FAKE_DIMS));
}

#[test]
fn noop_errors() {
    let noop = NoopEmbedder;
    assert!(matches!(noop.embed_texts_error(), OmsError::InvalidInput(_)));
    assert!(matches!(noop.embed_query_error(), OmsError::InvalidInput(_)));
}

#[test]
fn content_plan_uses_provided_embedding() {
    let r = plan_content_embedding(FAKE_MODEL, FAKE_DIMS, &s("text"), Some(bits(&[1.0, 2.0, 3.0])))
        .unwrap();
    assert_eq!(r, EmbedStep::Use(Some(bits(&[1.0, 2.0, 3.0]))));
}

#[test]
fn content_plan_rejects_wrong_dimensions() {
    let r = plan_content_embedding(FAKE_MODEL, FAKE_DIMS, &s("text"), Some(bits(&[1.0, 2.0])));
    match r {
        Err(OmsError::InvalidInput(m)) => {
            assert_eq!(m, "embedding has 2 dimensions, expected 3 for model fake-3d")
        }
        _ => panic!("expected invalid input"),
    }
}

#[test]
fn content_plan_computes_when_none_provided() {
    let r = plan_content_embedding(FAKE_MODEL, FAKE_DIMS, &s("hello"), None).unwrap();
    assert_eq!(r, EmbedStep::Compute("hello".into()));
}

#[test]
fn content_plan_none_for_noop_and_empty_text() {
    assert_eq!(
        plan_content_embedding("none", 0, &s("text"), None).unwrap(),
        EmbedStep::Use(None)
    );
    assert_eq!(
        plan_content_embedding("none", 0, &s("text"), Some(bits(&[1.0, 2.0]))).unwrap(),
        EmbedStep::Use(Some(bits(&[1.0, 2.0])))
    );
    assert_eq!(
        plan_content_embedding(FAKE_MODEL, FAKE_DIMS, &s(""), None).unwrap(),
        EmbedStep::Use(None)
    );
}

#[test]
fn query_plan_cases() {
    assert_eq!(
        plan_query_embedding(FAKE_MODEL, FAKE_DIMS, "search term", None).unwrap(),
        EmbedStep::Compute("search term".into())
    );
    assert_eq!(
        plan_query_embedding(FAKE_MODEL, FAKE_DIMS, "query", Some(bits(&[9.0, 8.0, 7.0]))).unwrap(),
        EmbedStep::Use(Some(bits(&[9.0, 8.0, 7.0])))
    );
    assert_eq!(
        plan_query_embedding(FAKE_MODEL, FAKE_DIMS, "  ", None).unwrap(),
        EmbedStep::Use(None)
    );
    match plan_query_embedding(FAKE_MODEL, FAKE_DIMS, "q", Some(bits(&[1.0]))) {
        Err(OmsError::InvalidInput(m)) => {
            assert_eq!(m, "query embedding has 1 dimensions, expected 3 for model fake-3d")
        }
        _ => panic!("expected invalid input"),
    }
}

#[test]
fn update_plan_cases() {
    let new = s("new content");
    assert_eq!(
        plan_update_embedding(FAKE_MODEL, FAKE_DIMS, Some(&new), Some(Some(bits(&[1.0, 2.0, 3.0]))))
            .unwrap(),
        UpdateEmbedStep::Settle(Some(Some(bits(&[1.0, 2.0, 3.0]))))
    );
    assert_eq!(
        plan_update_embedding(FAKE_MODEL, FAKE_DIMS, Some(&new), Some(None)).unwrap(),
        UpdateEmbedStep::Settle(Some(None))
    );
    assert_eq!(
        plan_update_embedding(FAKE_MODEL, FAKE_DIMS, Some(&s("new")), None).unwrap(),
        UpdateEmbedStep::Compute("new".into())
    );
    assert_eq!(
        plan_update_embedding(FAKE_MODEL, FAKE_DIMS, None, None).unwrap(),
        UpdateEmbedStep::Settle(None)
    );
    assert!(plan_update_embedding(FAKE_MODEL, FAKE_DIMS, Some(&s("x")), Some(Some(bits(&[1.0]))))
        .is_err());
}
