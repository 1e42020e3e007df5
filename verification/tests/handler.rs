use option_contracts::codec::parse_json;
use option_contracts::dates::CalendarDate;
use option_contracts::handler::{advance, begin, begin_request, Action, Failure, Outcome, State};
use option_contracts::json::Json;
use option_contracts::params::{Parameters, Request};
use option_contracts::response::Response;
use option_contracts::shaping::{reply_numbers, NumberTexts, Snapshot};
use option_contracts::upstream::Reply;

fn json(text: &str) -> Json {
    parse_json(text).unwrap()
}

fn today() -> CalendarDate {
    CalendarDate { year: 2024, month: 1, day: 31 }
}

fn event() -> Json {
    json("{\"queryStringParameters\":{\"ticker_symbol\":\"AAPL\",\"api_key\":\"k1\"},\"requestContext\":{\"requestId\":\"r-1\"}}")
}

fn accepted(body: &str) -> Reply {
    Reply::Received { status: 200, body: json(body) }
}

fn snapshot(reply: Reply) -> Snapshot {
    let literals = reply_numbers(&reply);
    let show = |l: &Option<String>, scale: f64, digits: Option<usize>| {
        l.as_ref().map(|t| {
            let v = t.parse::<f64>().unwrap() * scale;
            match digits {
                Some(n) => format!("{:.*}", n, v),
                None => v.to_string(),
            }
        })
    };
    let numbers = NumberTexts {
        strike_price: show(&literals.strike_price, 1.0, None),
        implied_volatility: show(&literals.implied_volatility, 100.0, Some(2)),
        premium: show(&literals.premium, 1.0, Some(2)),
    };
    Snapshot { reply, numbers }
}

fn listed(body: &str) -> (State, Vec<String>) {
    let first = begin(&event(), "inv", &today());
    let step = advance(first.state, &Outcome::Listed(accepted(body)));
    match step.action {
        Action::Fetch(calls) => (step.state, calls.into_iter().map(|c| c.url).collect()),
        other => panic!("no snapshots asked for: {:?}", other),
    }
}

#[test]
fn an_invocation_starts_with_the_listing() {
    let step = begin(&event(), "inv", &today());
    match step.action {
        Action::List(call) => {
            assert_eq!(call.url, "https://api.polygon.io/v3/reference/options/contracts");
            assert_eq!(call.query.len(), 8);
            assert_eq!(call.query[0], ("apiKey".to_string(), "k1".to_string()));
            assert_eq!(call.query[1], ("underlying_ticker".to_string(), "AAPL".to_string()));
            assert_eq!(call.query[2], ("limit".to_string(), "10".to_string()));
            assert_eq!(call.query[5], ("expiration_date.gte".to_string(), "2024-01-31".to_string()));
            assert_eq!(call.query[6], ("expiration_date.lte".to_string(), "2024-03-01".to_string()));
            assert_eq!(call.query[7], ("contract_type".to_string(), "call".to_string()));
        }
        other => panic!("no listing asked for: {:?}", other),
    }
    match step.state {
        State::Listing(request) => assert_eq!(request.request_id, "r-1"),
        other => panic!("not listing: {:?}", other),
    }
}

#[test]
fn snapshots_are_fetched_for_exactly_the_listed_contracts() {
    let (state, urls) = listed("{\"results\":[{\"ticker\":\"O:AAPL1\"},{\"ticker\":\"O:AAPL2\"}]}");
    assert_eq!(
        urls,
        vec![
            "https://api.polygon.io/v3/snapshot/options/AAPL/O%3AAAPL1",
            "https://api.polygon.io/v3/snapshot/options/AAPL/O%3AAAPL2",
        ]
    );
    assert_eq!(state, State::Fetching("r-1".to_string()));
}

#[test]
fn the_answer_keeps_the_order_of_the_contracts() {
    let (state, _) = listed("{\"results\":[{\"ticker\":\"O:AAPL1\"},{\"ticker\":\"O:AAPL2\"}]}");
    let snapshots = vec![
        snapshot(accepted("{\"results\":{\"details\":{\"ticker\":\"O:AAPL1\"},\"open_interest\":1}}")),
        snapshot(accepted("{\"results\":{\"details\":{\"ticker\":\"O:AAPL2\"},\"implied_volatility\":0.5}}")),
    ];
    let step = advance(state, &Outcome::Fetched(snapshots));
    assert_eq!(step.state, State::Done);
    assert_eq!(
        step.action,
        Action::Respond(Response {
            req_id: "r-1".to_string(),
            response: "{\"option_contracts\":[{\"contract_type\":\"N/A\",\"expiration_date\":\"N/A\",\"implied_volatility\":\"N/A\",\"open_interest\":\"1\",\"premium\":\"N/A\",\"strike_price\":\"N/A\",\"ticker\":\"O:AAPL1\"},{\"contract_type\":\"N/A\",\"expiration_date\":\"N/A\",\"implied_volatility\":\"50.00%\",\"open_interest\":\"N/A\",\"premium\":\"N/A\",\"strike_price\":\"N/A\",\"ticker\":\"O:AAPL2\"}]}".to_string(),
        })
    );
}

#[test]
fn a_snapshot_that_fails_is_left_out_of_the_answer() {
    let (state, _) = listed("{\"results\":[{\"ticker\":\"O:AAPL1\"},{\"ticker\":\"O:AAPL2\"}]}");
    let snapshots = vec![
        snapshot(Reply::Failed),
        snapshot(accepted("{\"results\":{\"details\":{\"ticker\":\"O:AAPL2\"}}}")),
    ];
    match advance(state, &Outcome::Fetched(snapshots)).action {
        Action::Respond(response) => {
            let parsed = json(&response.response);
            let items = parsed.get("option_contracts").and_then(|v| v.as_array()).unwrap();
            assert_eq!(items.len(), 1);
            assert_eq!(items[0].get("ticker").and_then(|v| v.as_str()), Some("O:AAPL2"));
        }
        other => panic!("no answer: {:?}", other),
    }
}

#[test]
fn a_rejected_listing_is_answered_with_no_contracts() {
    let first = begin(&event(), "inv", &today());
    let rejected = Reply::Received { status: 401, body: Json::Null };
    let step = advance(first.state, &Outcome::Listed(rejected));
    assert_eq!(step.action, Action::Fetch(vec![]));
    let step = advance(step.state, &Outcome::Fetched(vec![]));
    assert_eq!(
        step.action,
        Action::Respond(Response {
            req_id: "r-1".to_string(),
            response: "{\"option_contracts\":[]}".to_string(),
        })
    );
}

#[test]
fn a_listing_without_an_answer_fails_the_invocation() {
    let first = begin(&event(), "inv", &today());
    let step = advance(first.state, &Outcome::Listed(Reply::Failed));
    assert_eq!(step.action, Action::Fail(Failure::Listing));
    assert_eq!(step.state, State::Done);
}

#[test]
fn a_window_off_the_calendar_fails_the_invocation() {
    let event = json("{\"days_forward\":\"9000000000000\"}");
    let step = begin(&event, "inv", &today());
    assert_eq!(step.action, Action::Fail(Failure::Window));
    assert_eq!(step.state, State::Done);
}

#[test]
fn an_outcome_out_of_turn_fails_the_invocation() {
    let first = begin(&event(), "inv", &today());
    let step = advance(first.state, &Outcome::Fetched(vec![]));
    assert_eq!(step.action, Action::Fail(Failure::OutOfTurn));
    let step = advance(State::Done, &Outcome::Listed(Reply::Failed));
    assert_eq!(step.action, Action::Fail(Failure::OutOfTurn));
    let step = advance(State::Fetching("r".to_string()), &Outcome::Listed(Reply::Failed));
    assert_eq!(step.action, Action::Fail(Failure::OutOfTurn));
}

#[test]
fn a_request_read_before_starts_the_same_way() {
    let request = Request {
        parameters: Parameters {
            ticker_symbol: "MSFT".to_string(),
            api_key: "k".to_string(),
            limit: "1".to_string(),
            days_forward: "x".to_string(),
            contract_type: "put".to_string(),
        },
        request_id: "r".to_string(),
    };
    let step = begin_request(request.clone(), &today());
    assert_eq!(step.state, State::Listing(request));
    match step.action {
        Action::List(call) => {
            assert_eq!(call.query[6], ("expiration_date.lte".to_string(), "2024-03-01".to_string()))
        }
        other => panic!("no listing asked for: {:?}", other),
    }
}
