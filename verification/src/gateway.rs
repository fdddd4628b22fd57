//! The gateway's response shaping.
//!
//! The unverified binary performs the downstream attestation calls and hands
//! their outcomes here as plain values; these functions turn each outcome
//! into the HTTP status and JSON body the gateway sends back. Every response
//! is pinned exactly, as a function of the one outcome it answers.

use vstd::prelude::*;

use crate::json::JsonModel;
use crate::json::JsonValue;
use crate::json::lemma_model_fields_seq;
use crate::json::lemma_model_items_seq;
use crate::json::model_fields_seq;
use crate::json::model_get;
use crate::json::model_items_seq;

verus! {

/// What the attestation client answers on a successful quote request.
#[derive(Debug, PartialEq, Eq)]
pub struct QuoteData {
    pub quote: String,
    pub event_log: Vec<u8>,
}

/// An HTTP response the gateway sends: a status code and a JSON body.
#[derive(Debug, PartialEq, Eq)]
pub struct GatewayResponse {
    pub status: u16,
    pub body: JsonValue,
}

/// The spec-level form of a gateway response.
#[verifier::ext_equal]
pub struct ResponseModel {
    pub status: u16,
    pub body: JsonModel,
}

impl GatewayResponse {
    /// The mathematical response this value represents.
    pub open spec fn model(self) -> ResponseModel {
        ResponseModel { status: self.status, body: self.body.model() }
    }
}

/// The body `{ "error": msg }` that reports any failure.
pub open spec fn error_body_model(msg: Seq<char>) -> JsonModel {
    JsonModel::Obj(seq![("error"@, JsonModel::Str(msg))])
}

/// A downstream failure is reported as 500 with `{ "error": msg }`.
pub open spec fn error_response_model(msg: Seq<char>) -> ResponseModel {
    ResponseModel { status: 500, body: error_body_model(msg) }
}

/// An event log as the JSON array of its bytes.
pub open spec fn event_log_model(event_log: Seq<u8>) -> Seq<JsonModel> {
    Seq::new(event_log.len(), |i: int| JsonModel::UInt(event_log[i] as u64))
}

/// The body `{ "quote": ..., "event_log": [...] }` of a successful quote
/// answer: the quote string verbatim, the event log byte for byte.
pub open spec fn quote_body_model(quote: Seq<char>, event_log: Seq<u8>) -> JsonModel {
    JsonModel::Obj(
        seq![
            ("quote"@, JsonModel::Str(quote)),
            ("event_log"@, JsonModel::Arr(event_log_model(event_log))),
        ],
    )
}

/// What the quote endpoint answers for each downstream outcome.
pub open spec fn quote_response_model(outcome: Result<QuoteData, String>) -> ResponseModel {
    match outcome {
        Ok(q) => ResponseModel { status: 200, body: quote_body_model(q.quote@, q.event_log@) },
        Err(e) => error_response_model(e@),
    }
}

/// The error message sent when the info document carries no
/// `tcb_info.app_compose` entry.
pub open spec fn missing_message() -> Seq<char> {
    "app_compose not found in tcb_info"@
}

/// The `app_compose` entry below `tcb_info`, if the document has one.
/// Absence of either level answers `None` alike.
pub open spec fn app_compose_of(doc: JsonModel) -> Option<JsonModel> {
    match model_get(doc, "tcb_info"@) {
        Some(tcb) => model_get(tcb, "app_compose"@),
        None => None,
    }
}

/// The response that reports a missing `app_compose` entry.
pub open spec fn missing_response_model() -> ResponseModel {
    ResponseModel { status: 404, body: error_body_model(missing_message()) }
}

/// What the info endpoint answers for a successfully fetched document:
/// the `app_compose` entry verbatim, or 404 when it is absent.
pub open spec fn info_success_model(doc: JsonModel) -> ResponseModel {
    match app_compose_of(doc) {
        Some(app_compose) => ResponseModel { status: 200, body: app_compose },
        None => missing_response_model(),
    }
}

/// What the info endpoint answers for each downstream outcome.
pub open spec fn info_response_model(outcome: Result<JsonValue, String>) -> ResponseModel {
    match outcome {
        Ok(doc) => info_success_model(doc.model()),
        Err(e) => error_response_model(e@),
    }
}

/// Builds the `{ "error": msg }` body.
fn error_body(msg: String) -> (body: JsonValue)
    ensures
        body.model() == error_body_model(msg@),
{
    let mut pairs: Vec<(String, JsonValue)> = Vec::new();
    pairs.push(("error".to_owned(), JsonValue::Str(msg)));
    let body = JsonValue::Obj(pairs);
    proof {
        lemma_model_fields_seq(pairs@);
        assert(model_fields_seq(pairs@) =~= seq![("error"@, JsonModel::Str(msg@))]);
        assert(body.model() == error_body_model(msg@));
    }
    body
}

/// Builds the 500 response for a downstream failure message.
pub fn error_response(msg: String) -> (resp: GatewayResponse)
    ensures
        resp.model() == error_response_model(msg@),
{
    GatewayResponse { status: 500, body: error_body(msg) }
}

/// Shapes the outcome of the downstream quote call into the response the
/// quote endpoint sends: 200 with the quote and its event log on success,
/// 500 with the failure's message otherwise.
pub fn quote_response(outcome: Result<QuoteData, String>) -> (resp: GatewayResponse)
    ensures
        resp.model() == quote_response_model(outcome),
{
    match outcome {
        Ok(q) => {
            let mut items: Vec<JsonValue> = Vec::new();
            let mut i: usize = 0;
            while i < q.event_log.len()
                invariant
                    i <= q.event_log@.len(),
                    items@.len() == i,
                    forall|j: int| 0 <= j < i ==> #[trigger] items@[j]
                        == JsonValue::UInt(q.event_log@[j] as u64),
                decreases q.event_log@.len() - i,
            {
                items.push(JsonValue::UInt(q.event_log[i] as u64));
                i += 1;
            }
            proof {
                lemma_model_items_seq(items@);
                assert(model_items_seq(items@) =~= event_log_model(q.event_log@));
            }
            let mut pairs: Vec<(String, JsonValue)> = Vec::new();
            pairs.push(("quote".to_owned(), JsonValue::Str(q.quote)));
            pairs.push(("event_log".to_owned(), JsonValue::Arr(items)));
            let body = JsonValue::Obj(pairs);
            proof {
                lemma_model_fields_seq(pairs@);
                assert(model_fields_seq(pairs@) =~= seq![
                    ("quote"@, JsonModel::Str(q.quote@)),
                    ("event_log"@, JsonModel::Arr(event_log_model(q.event_log@))),
                ]);
                assert(body.model() == quote_body_model(q.quote@, q.event_log@));
            }
            GatewayResponse { status: 200, body }
        },
        Err(e) => error_response(e),
    }
}

/// Builds the 404 response for an info document without `app_compose`.
fn missing_response() -> (resp: GatewayResponse)
    ensures
        resp.model() == missing_response_model(),
{
    GatewayResponse { status: 404, body: error_body("app_compose not found in tcb_info".to_owned()) }
}

/// Shapes the outcome of the downstream info call into the response the
/// info endpoint sends: the `tcb_info.app_compose` entry verbatim on
/// success, 404 when either level is absent, 500 with the failure's
/// message when the downstream call failed.
pub fn info_response(outcome: Result<JsonValue, String>) -> (resp: GatewayResponse)
    ensures
        resp.model() == info_response_model(outcome),
{
    match outcome {
        Ok(doc) => {
            let tcb_key = "tcb_info".to_owned();
            match doc.take_key(&tcb_key) {
                Some(tcb) => {
                    let app_key = "app_compose".to_owned();
                    match tcb.take_key(&app_key) {
                        Some(app_compose) => GatewayResponse { status: 200, body: app_compose },
                        None => missing_response(),
                    }
                },
                None => missing_response(),
            }
        },
        Err(e) => error_response(e),
    }
}

/// Requests do not interfere: the quote endpoint's response is a function of
/// its own request's downstream outcome alone, so any two responses to the
/// same outcome agree, whatever other requests run beside them.
pub proof fn lemma_quote_response_determined(
    outcome: Result<QuoteData, String>,
    r1: GatewayResponse,
    r2: GatewayResponse,
)
    requires
        r1.model() == quote_response_model(outcome),
        r2.model() == quote_response_model(outcome),
    ensures
        r1.model() == r2.model(),
{
}

/// Requests do not interfere: the info endpoint's response is a function of
/// its own request's downstream outcome alone, so any two responses to the
/// same outcome agree, whatever other requests run beside them.
pub proof fn lemma_info_response_determined(
    outcome: Result<JsonValue, String>,
    r1: GatewayResponse,
    r2: GatewayResponse,
)
    requires
        r1.model() == info_response_model(outcome),
        r2.model() == info_response_model(outcome),
    ensures
        r1.model() == r2.model(),
{
}

} // verus!

