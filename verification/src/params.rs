//! The parameters of a request, and the four shapes of event that carry them.

use crate::codec::{parse_json, parsed_json};
use crate::json::{lemma_array_view, Json, JsonModel};
use vstd::prelude::*;

verus! {

/// The parameters as an event gives them: each one may be missing.
#[derive(Clone, Debug, PartialEq, Eq)]
pub struct Payload {
    pub ticker_symbol: Option<String>,
    pub api_key: Option<String>,
    pub limit: Option<String>,
    pub days_forward: Option<String>,
    pub contract_type: Option<String>,
}

/// What a [`Payload`] stands for.
pub struct PayloadModel {
    pub ticker_symbol: Option<Seq<char>>,
    pub api_key: Option<Seq<char>>,
    pub limit: Option<Seq<char>>,
    pub days_forward: Option<Seq<char>>,
    pub contract_type: Option<Seq<char>>,
}

/// The characters of a string that may be missing.
pub open spec fn optional_text(text: Option<String>) -> Option<Seq<char>> {
    match text {
        Some(s) => Some(s@),
        None => None,
    }
}

impl View for Payload {
    type V = PayloadModel;

    open spec fn view(&self) -> PayloadModel {
        PayloadModel {
            ticker_symbol: optional_text(self.ticker_symbol),
            api_key: optional_text(self.api_key),
            limit: optional_text(self.limit),
            days_forward: optional_text(self.days_forward),
            contract_type: optional_text(self.contract_type),
        }
    }
}

/// The parameters of a request, every one present.
#[derive(Clone, Debug, PartialEq, Eq)]
pub struct Parameters {
    pub ticker_symbol: String,
    pub api_key: String,
    pub limit: String,
    pub days_forward: String,
    pub contract_type: String,
}

/// What a [`Parameters`] stands for.
pub struct ParametersModel {
    pub ticker_symbol: Seq<char>,
    pub api_key: Seq<char>,
    pub limit: Seq<char>,
    pub days_forward: Seq<char>,
    pub contract_type: Seq<char>,
}

impl View for Parameters {
    type V = ParametersModel;

    open spec fn view(&self) -> ParametersModel {
        ParametersModel {
            ticker_symbol: self.ticker_symbol@,
            api_key: self.api_key@,
            limit: self.limit@,
            days_forward: self.days_forward@,
            contract_type: self.contract_type@,
        }
    }
}

/// A request as the handler works on it.
#[derive(Clone, Debug, PartialEq, Eq)]
pub struct Request {
    pub parameters: Parameters,
    pub request_id: String,
}

/// What a [`Request`] stands for.
pub struct RequestModel {
    pub parameters: ParametersModel,
    pub request_id: Seq<char>,
}

impl View for Request {
    type V = RequestModel;

    open spec fn view(&self) -> RequestModel {
        RequestModel { parameters: self.parameters@, request_id: self.request_id@ }
    }
}

/// The payload with every parameter missing.
pub open spec fn empty_payload() -> PayloadModel {
    PayloadModel {
        ticker_symbol: None,
        api_key: None,
        limit: None,
        days_forward: None,
        contract_type: None,
    }
}

/// A text, or the default where it is missing.
pub open spec fn or_default(text: Option<Seq<char>>, default: Seq<char>) -> Seq<char> {
    match text {
        Some(t) => t,
        None => default,
    }
}

/// The parameters that a payload comes to: each one as given, or its own
/// default where it is missing, whatever the others are.
pub open spec fn resolved(payload: PayloadModel) -> ParametersModel {
    ParametersModel {
        ticker_symbol: or_default(payload.ticker_symbol, "AAPL"@),
        api_key: or_default(payload.api_key, "YOUR_API_KEY"@),
        limit: or_default(payload.limit, "10"@),
        days_forward: or_default(payload.days_forward, "30"@),
        contract_type: or_default(payload.contract_type, "call"@),
    }
}

/// The payload read leniently from a map of parameters: a parameter is
/// present where the map has a text under its name, and missing otherwise.
pub open spec fn lenient_payload(map: JsonModel) -> PayloadModel {
    PayloadModel {
        ticker_symbol: map.member_or_null("ticker_symbol"@).text(),
        api_key: map.member_or_null("api_key"@).text(),
        limit: map.member_or_null("limit"@).text(),
        days_forward: map.member_or_null("days_forward"@).text(),
        contract_type: map.member_or_null("contract_type"@).text(),
    }
}

/// Whether a value can stand for a parameter of a record: a text, or `null`
/// for a missing one.
pub open spec fn text_or_null(value: JsonModel) -> bool {
    value is Text || value is Null
}

/// The payload that five values stand for, in the order of the fields; `None`
/// unless each is a text or `null`.
pub open spec fn payload_of_values(
    ticker_symbol: JsonModel,
    api_key: JsonModel,
    limit: JsonModel,
    days_forward: JsonModel,
    contract_type: JsonModel,
) -> Option<PayloadModel> {
    if text_or_null(ticker_symbol) && text_or_null(api_key) && text_or_null(limit) && text_or_null(
        days_forward,
    ) && text_or_null(contract_type) {
        Some(
            PayloadModel {
                ticker_symbol: ticker_symbol.text(),
                api_key: api_key.text(),
                limit: limit.text(),
                days_forward: days_forward.text(),
                contract_type: contract_type.text(),
            },
        )
    } else {
        None
    }
}

/// The payload read strictly from a record. The record is an object whose
/// members under the five names are texts or `null`, other members being
/// ignored; or a list of exactly five values, texts or `null`, in the order
/// of the fields. Anything else is no record.
pub open spec fn strict_payload(record: JsonModel) -> Option<PayloadModel> {
    match record {
        JsonModel::Record(_) => payload_of_values(
            record.member_or_null("ticker_symbol"@),
            record.member_or_null("api_key"@),
            record.member_or_null("limit"@),
            record.member_or_null("days_forward"@),
            record.member_or_null("contract_type"@),
        ),
        JsonModel::List(items) => if items.len() == 5 {
            payload_of_values(items[0], items[1], items[2], items[3], items[4])
        } else {
            None
        },
        _ => None,
    }
}

/// The payload of a record, and the empty payload for what is no record.
pub open spec fn record_payload(record: Option<JsonModel>) -> PayloadModel {
    match record {
        Some(json) => match strict_payload(json) {
            Some(payload) => payload,
            None => empty_payload(),
        },
        None => empty_payload(),
    }
}

/// The text of the `body` member of an event: the text itself, or the empty
/// text where the member is no text.
pub open spec fn body_text(event: JsonModel) -> Seq<char> {
    match event.member_or_null("body"@).text() {
        Some(text) => text,
        None => Seq::empty(),
    }
}

/// Whether the parameters of an event are to be read from its body: it has
/// a `body`, and neither `queryStringParameters` nor `headers`.
pub open spec fn reads_body(event: JsonModel) -> bool {
    &&& event.member("queryStringParameters"@) is None
    &&& event.member("headers"@) is None
    &&& event.member("body"@) is Some
}

/// The payload of an event, `parsed_body` being what the text of its body
/// holds as JSON. The first of these that the event has decides:
/// `queryStringParameters` and `headers` are read leniently, `body` strictly
/// from its text; an event with none of them is itself read strictly.
pub open spec fn event_payload(event: JsonModel, parsed_body: Option<JsonModel>) -> PayloadModel {
    if event.member("queryStringParameters"@) is Some {
        lenient_payload(event.member_or_null("queryStringParameters"@))
    } else if event.member("headers"@) is Some {
        lenient_payload(event.member_or_null("headers"@))
    } else if event.member("body"@) is Some {
        record_payload(parsed_body)
    } else {
        record_payload(Some(event))
    }
}

/// The identifier of a request: `requestContext.requestId` of the event where
/// that is a text, else the identifier of the invocation.
pub open spec fn event_request_id(event: JsonModel, invocation_id: Seq<char>) -> Seq<char> {
    match event.member_or_null("requestContext"@).member_or_null("requestId"@).text() {
        Some(id) => id,
        None => invocation_id,
    }
}

/// The request that an event makes.
pub open spec fn event_request(
    event: JsonModel,
    parsed_body: Option<JsonModel>,
    invocation_id: Seq<char>,
) -> RequestModel {
    RequestModel {
        parameters: resolved(event_payload(event, parsed_body)),
        request_id: event_request_id(event, invocation_id),
    }
}

/// Each parameter is resolved by itself: where two payloads give the same
/// for one parameter, that parameter comes out the same, whatever they give
/// for the others; and a payload that gives nothing comes to the defaults.
pub proof fn lemma_parameters_by_themselves(a: PayloadModel, b: PayloadModel)
    ensures
        a.ticker_symbol == b.ticker_symbol ==> resolved(a).ticker_symbol == resolved(
            b,
        ).ticker_symbol,
        a.api_key == b.api_key ==> resolved(a).api_key == resolved(b).api_key,
        a.limit == b.limit ==> resolved(a).limit == resolved(b).limit,
        a.days_forward == b.days_forward ==> resolved(a).days_forward == resolved(b).days_forward,
        a.contract_type == b.contract_type ==> resolved(a).contract_type == resolved(
            b,
        ).contract_type,
        resolved(empty_payload()) == (ParametersModel {
            ticker_symbol: "AAPL"@,
            api_key: "YOUR_API_KEY"@,
            limit: "10"@,
            days_forward: "30"@,
            contract_type: "call"@,
        }),
{
}

/// The four shapes of event give the same payload for the same record.
///
/// `record` is an object whose members under the five names are texts or
/// `null`. It is carried under `queryStringParameters`, under `headers`, as
/// the JSON text of `body`, and as the event itself.
pub proof fn lemma_shapes_agree(
    record: JsonModel,
    in_query: JsonModel,
    in_headers: JsonModel,
    in_body: JsonModel,
    any_body: Option<JsonModel>,
)
    requires
        record is Record,
        text_or_null(record.member_or_null("ticker_symbol"@)),
        text_or_null(record.member_or_null("api_key"@)),
        text_or_null(record.member_or_null("limit"@)),
        text_or_null(record.member_or_null("days_forward"@)),
        text_or_null(record.member_or_null("contract_type"@)),
        in_query.member("queryStringParameters"@) == Some(record),
        in_headers.member("queryStringParameters"@) is None,
        in_headers.member("headers"@) == Some(record),
        reads_body(in_body),
        parsed_json(body_text(in_body)) == Some(record),
        record.member("queryStringParameters"@) is None,
        record.member("headers"@) is None,
        record.member("body"@) is None,
    ensures
        event_payload(in_query, any_body) == lenient_payload(record),
        event_payload(in_headers, any_body) == lenient_payload(record),
        event_payload(in_body, parsed_json(body_text(in_body))) == lenient_payload(record),
        event_payload(record, any_body) == lenient_payload(record),
{
}

/// A body that is no JSON text gives every parameter its default.
pub proof fn lemma_unreadable_body(event: JsonModel, invocation_id: Seq<char>)
    requires
        reads_body(event),
        parsed_json(body_text(event)) is None,
    ensures
        event_request(event, parsed_json(body_text(event)), invocation_id).parameters == resolved(
            empty_payload(),
        ),
{
}

fn text_of(value: Option<&Json>) -> (text: Option<String>)
    ensures
        optional_text(text) == match value {
            Some(json) => json@.text(),
            None => None,
        },
{
    match value {
        Some(json) => match json.as_str() {
            Some(s) => Some(s.to_owned()),
            None => None,
        },
        None => None,
    }
}

/// Reads a payload leniently from a map of parameters.
pub fn extract_parameters_from_value(value: &Json) -> (payload: Payload)
    ensures
        payload@ == lenient_payload(value@),
{
    Payload {
        ticker_symbol: text_of(value.get("ticker_symbol")),
        api_key: text_of(value.get("api_key")),
        limit: text_of(value.get("limit")),
        days_forward: text_of(value.get("days_forward")),
        contract_type: text_of(value.get("contract_type")),
    }
}

/// Whether a value is a text or `null`; a missing value counts as `null`.
fn is_text_or_null(value: Option<&Json>) -> (ok: bool)
    ensures
        ok == text_or_null(
            match value {
                Some(json) => json@,
                None => JsonModel::Null,
            },
        ),
{
    match value {
        Some(json) => match json {
            Json::String(_) => true,
            Json::Null => true,
            _ => false,
        },
        None => true,
    }
}

fn payload_from_values(
    ticker_symbol: Option<&Json>,
    api_key: Option<&Json>,
    limit: Option<&Json>,
    days_forward: Option<&Json>,
    contract_type: Option<&Json>,
) -> (payload: Option<Payload>)
    ensures
        ({
            let model = |value: Option<&Json>|
                match value {
                    Some(json) => json@,
                    None => JsonModel::Null,
                };
            let expected = payload_of_values(
                model(ticker_symbol),
                model(api_key),
                model(limit),
                model(days_forward),
                model(contract_type),
            );
            match payload {
                Some(p) => expected == Some(p@),
                None => expected is None,
            }
        }),
{
    if is_text_or_null(ticker_symbol) && is_text_or_null(api_key) && is_text_or_null(limit)
        && is_text_or_null(days_forward) && is_text_or_null(contract_type) {
        Some(
            Payload {
                ticker_symbol: text_of(ticker_symbol),
                api_key: text_of(api_key),
                limit: text_of(limit),
                days_forward: text_of(days_forward),
                contract_type: text_of(contract_type),
            },
        )
    } else {
        None
    }
}

/// Reads a payload strictly from a record.
pub fn payload_from_record(record: &Json) -> (payload: Option<Payload>)
    ensures
        match payload {
            Some(p) => strict_payload(record@) == Some(p@),
            None => strict_payload(record@) is None,
        },
{
    match record {
        Json::Object(_) => payload_from_values(
            record.get("ticker_symbol"),
            record.get("api_key"),
            record.get("limit"),
            record.get("days_forward"),
            record.get("contract_type"),
        ),
        Json::Array(items) => {
            proof {
                lemma_array_view(*items);
            }
            if items.len() == 5 {
                payload_from_values(
                    Some(&items[0]),
                    Some(&items[1]),
                    Some(&items[2]),
                    Some(&items[3]),
                    Some(&items[4]),
                )
            } else {
                None
            }
        },
        _ => None,
    }
}

impl Payload {
    /// The payload with every parameter missing.
    pub fn empty() -> (payload: Payload)
        ensures
            payload@ == empty_payload(),
    {
        Payload {
            ticker_symbol: None,
            api_key: None,
            limit: None,
            days_forward: None,
            contract_type: None,
        }
    }

    /// Gives every missing parameter its default.
    pub fn resolve(self) -> (parameters: Parameters)
        ensures
            parameters@ == resolved(self@),
    {
        Parameters {
            ticker_symbol: match self.ticker_symbol {
                Some(t) => t,
                None => "AAPL".to_owned(),
            },
            api_key: match self.api_key {
                Some(t) => t,
                None => "YOUR_API_KEY".to_owned(),
            },
            limit: match self.limit {
                Some(t) => t,
                None => "10".to_owned(),
            },
            days_forward: match self.days_forward {
                Some(t) => t,
                None => "30".to_owned(),
            },
            contract_type: match self.contract_type {
                Some(t) => t,
                None => "call".to_owned(),
            },
        }
    }
}

fn payload_of_record(record: Option<&Json>) -> (payload: Payload)
    ensures
        payload@ == record_payload(
            match record {
                Some(json) => Some(json@),
                None => None,
            },
        ),
{
    match record {
        Some(json) => match payload_from_record(json) {
            Some(payload) => payload,
            None => Payload::empty(),
        },
        None => Payload::empty(),
    }
}

/// The identifier of the request that an event makes.
pub fn request_id(event: &Json, invocation_id: &str) -> (id: String)
    ensures
        id@ == event_request_id(event@, invocation_id@),
{
    let context = event.get("requestContext");
    let given = match context {
        Some(c) => c.get("requestId"),
        None => None,
    };
    match text_of(given) {
        Some(id) => id,
        None => invocation_id.to_owned(),
    }
}

/// The text of the body of an event whose parameters are to be read from its
/// body; `None` for any other event.
pub fn body_to_parse(event: &Json) -> (text: Option<String>)
    ensures
        match text {
            Some(t) => reads_body(event@) && t@ == body_text(event@),
            None => !reads_body(event@),
        },
{
    if event.get("queryStringParameters").is_some() || event.get("headers").is_some() {
        return None;
    }
    match event.get("body") {
        Some(body) => match body.as_str() {
            Some(s) => Some(s.to_owned()),
            None => Some(String::new()),
        },
        None => None,
    }
}

/// Reads the request that an event makes, `parsed_body` being what the text
/// of its body holds as JSON, or `None` where that text is no JSON.
pub fn read_request_with(event: &Json, parsed_body: Option<&Json>, invocation_id: &str) -> (request:
    Request)
    ensures
        request@ == event_request(
            event@,
            match parsed_body {
                Some(json) => Some(json@),
                None => None,
            },
            invocation_id@,
        ),
{
    let payload = match event.get("queryStringParameters") {
        Some(map) => extract_parameters_from_value(map),
        None => match event.get("headers") {
            Some(map) => extract_parameters_from_value(map),
            None => match event.get("body") {
                Some(_) => payload_of_record(parsed_body),
                None => payload_of_record(Some(event)),
            },
        },
    };
    Request { parameters: payload.resolve(), request_id: request_id(event, invocation_id) }
}

/// Reads the request that an event makes. No event fails: what cannot be
/// read leaves the parameters at their defaults.
pub fn read_request(event: &Json, invocation_id: &str) -> (request: Request)
    ensures
        request@ == event_request(event@, parsed_json(body_text(event@)), invocation_id@),
{
    match body_to_parse(event) {
        Some(text) => {
            let parsed = parse_json(text.as_str());
            read_request_with(event, parsed.as_ref(), invocation_id)
        },
        None => {
            let request = read_request_with(event, None, invocation_id);
            assert(event_payload(event@, None) == event_payload(
                event@,
                parsed_json(body_text(event@)),
            ));
            request
        },
    }
}

} // verus!
