use attestation_gateway::gateway::GatewayResponse;
use attestation_gateway::gateway::QuoteData;
use attestation_gateway::gateway::info_response;
use attestation_gateway::gateway::quote_response;
use attestation_gateway::json::JsonValue;

fn s(text: &str) -> JsonValue {
    JsonValue::Str(text.to_string())
}

fn obj(pairs: Vec<(&str, JsonValue)>) -> JsonValue {
    JsonValue::Obj(pairs.into_iter().map(|(k, v)| (k.to_string(), v)).collect())
}

fn error_body(msg: &str) -> JsonValue {
    obj(vec![("error", s(msg))])
}

fn missing_body() -> JsonValue {
    error_body("app_compose not found in tcb_info")
}

fn info_doc(app_compose: JsonValue) -> JsonValue {
    obj(vec![("tcb_info", obj(vec![("app_compose", app_compose)]))])
}

#[test]
fn quote_ok_returns_200_with_quote_and_event_log() {
    let outcome = Ok(QuoteData { quote: "0xabc123".to_string(), event_log: vec![1, 2, 255] });
    let r = quote_response(outcome);
    assert_eq!(r.status, 200);
    let expected = obj(vec![
        ("quote", s("0xabc123")),
        (
            "event_log",
            JsonValue::Arr(vec![JsonValue::UInt(1), JsonValue::UInt(2), JsonValue::UInt(255)]),
        ),
    ]);
    assert_eq!(r.body, expected);
}

#[test]
fn quote_ok_with_empty_event_log() {
    let outcome = Ok(QuoteData { quote: "q".to_string(), event_log: vec![] });
    let r = quote_response(outcome);
    assert_eq!(r.status, 200);
    let expected = obj(vec![("quote", s("q")), ("event_log", JsonValue::Arr(vec![]))]);
    assert_eq!(r.body, expected);
}

#[test]
fn quote_error_returns_500_with_message() {
    let r = quote_response(Err("connection refused".to_string()));
    assert_eq!(r.status, 500);
    assert_eq!(r.body, error_body("connection refused"));
}

#[test]
fn info_returns_app_compose_object_verbatim() {
    let app = obj(vec![("manifest_version", JsonValue::UInt(2)), ("name", s("demo"))]);
    let same_app = obj(vec![("manifest_version", JsonValue::UInt(2)), ("name", s("demo"))]);
    let r = info_response(Ok(info_doc(app)));
    assert_eq!(r.status, 200);
    assert_eq!(r.body, same_app);
}

#[test]
fn info_returns_app_compose_string_verbatim() {
    let r = info_response(Ok(info_doc(s("services: {}"))));
    assert_eq!(r, GatewayResponse { status: 200, body: s("services: {}") });
}

#[test]
fn info_returns_app_compose_array_verbatim() {
    let app = JsonValue::Arr(vec![JsonValue::Bool(true), JsonValue::Null, JsonValue::Int(-7)]);
    let same_app = JsonValue::Arr(vec![JsonValue::Bool(true), JsonValue::Null, JsonValue::Int(-7)]);
    let r = info_response(Ok(info_doc(app)));
    assert_eq!(r.status, 200);
    assert_eq!(r.body, same_app);
}

#[test]
fn info_returns_app_compose_number_verbatim() {
    let bits = (2.5f64).to_bits();
    let r = info_response(Ok(info_doc(JsonValue::FloatBits(bits))));
    assert_eq!(r.status, 200);
    assert_eq!(r.body, JsonValue::FloatBits(bits));
}

#[test]
fn info_without_app_compose_returns_404() {
    let doc = obj(vec![("tcb_info", obj(vec![("mrtd", s("aa"))]))]);
    let r = info_response(Ok(doc));
    assert_eq!(r.status, 404);
    assert_eq!(r.body, missing_body());
}

#[test]
fn info_without_tcb_info_returns_404_with_same_body() {
    let doc = obj(vec![("other", s("x"))]);
    let r = info_response(Ok(doc));
    assert_eq!(r.status, 404);
    assert_eq!(r.body, missing_body());
}

#[test]
fn info_with_non_object_tcb_info_returns_404() {
    let doc = obj(vec![("tcb_info", s("not an object"))]);
    let r = info_response(Ok(doc));
    assert_eq!(r.status, 404);
    assert_eq!(r.body, missing_body());
}

#[test]
fn info_with_non_object_document_returns_404() {
    let r = info_response(Ok(JsonValue::Arr(vec![s("tcb_info")])));
    assert_eq!(r.status, 404);
    assert_eq!(r.body, missing_body());
}

#[test]
fn info_error_returns_500_with_message() {
    let r = info_response(Err("client unavailable".to_string()));
    assert_eq!(r.status, 500);
    assert_eq!(r.body, error_body("client unavailable"));
}

#[test]
fn info_takes_first_of_duplicate_fields() {
    let doc = JsonValue::Obj(vec![
        ("tcb_info".to_string(), obj(vec![("app_compose", s("first"))])),
        ("tcb_info".to_string(), obj(vec![("app_compose", s("second"))])),
    ]);
    let r = info_response(Ok(doc));
    assert_eq!(r.status, 200);
    assert_eq!(r.body, s("first"));
}

#[test]
fn take_key_finds_first_match_and_rejects_non_objects() {
    let v = obj(vec![("a", JsonValue::UInt(1)), ("a", JsonValue::UInt(2))]);
    assert_eq!(v.take_key(&"a".to_string()), Some(JsonValue::UInt(1)));
    let v = obj(vec![("a", JsonValue::UInt(1))]);
    assert_eq!(v.take_key(&"b".to_string()), None);
    assert_eq!(s("a").take_key(&"a".to_string()), None);
    assert_eq!(JsonValue::Null.take_key(&"a".to_string()), None);
}

#[test]
fn responses_correspond_to_their_own_outcomes() {
    let quote_r = quote_response(Ok(QuoteData { quote: "q1".to_string(), event_log: vec![9] }));
    let info_r = info_response(Ok(info_doc(s("compose"))));
    let other_quote_r = quote_response(Err("down".to_string()));
    assert_eq!(quote_r.status, 200);
    assert_eq!(
        quote_r.body,
        obj(vec![("quote", s("q1")), ("event_log", JsonValue::Arr(vec![JsonValue::UInt(9)]))]),
    );
    assert_eq!(info_r.status, 200);
    assert_eq!(info_r.body, s("compose"));
    assert_eq!(other_quote_r.status, 500);
    assert_eq!(other_quote_r.body, error_body("down"));
}
