use option_contracts::codec::parse_json;
use option_contracts::json::Json;
use option_contracts::snapshot::{snapshot_call, snapshot_calls, snapshot_detail, snapshot_url};
use option_contracts::upstream::Reply;

#[test]
fn the_contract_is_percent_encoded() {
    assert_eq!(
        snapshot_url("AAPL", "O:AAPL250117C00150000"),
        "https://api.polygon.io/v3/snapshot/options/AAPL/O%3AAAPL250117C00150000"
    );
}

#[test]
fn unreserved_characters_stand_as_they_are() {
    assert_eq!(
        snapshot_url("X", "Az09-._~"),
        "https://api.polygon.io/v3/snapshot/options/X/Az09-._~"
    );
}

#[test]
fn other_bytes_are_written_in_upper_case_hexadecimal() {
    assert_eq!(
        snapshot_url("X", "a b/c?\u{e9}%"),
        "https://api.polygon.io/v3/snapshot/options/X/a%20b%2Fc%3F%C3%A9%25"
    );
    assert_eq!(snapshot_url("X", ""), "https://api.polygon.io/v3/snapshot/options/X/");
}

#[test]
fn the_underlying_ticker_stands_as_given() {
    assert_eq!(
        snapshot_url("BRK B", "O:1"),
        "https://api.polygon.io/v3/snapshot/options/BRK B/O%3A1"
    );
}

#[test]
fn a_call_carries_the_key() {
    let call = snapshot_call("k1", "AAPL", "O:1");
    assert_eq!(call.url, "https://api.polygon.io/v3/snapshot/options/AAPL/O%3A1");
    assert_eq!(call.query, vec![("apiKey".to_string(), "k1".to_string())]);
}

#[test]
fn one_call_for_each_contract_in_order() {
    let contracts = vec!["O:AAPL1".to_string(), "O:AAPL2".to_string()];
    let calls = snapshot_calls("k1", "AAPL", &contracts);
    assert_eq!(calls.len(), 2);
    assert_eq!(calls[0], snapshot_call("k1", "AAPL", "O:AAPL1"));
    assert_eq!(calls[1], snapshot_call("k1", "AAPL", "O:AAPL2"));
    assert!(snapshot_calls("k1", "AAPL", &vec![]).is_empty());
}

#[test]
fn the_detail_is_the_results_of_an_accepted_answer() {
    let body = parse_json("{\"results\":{\"open_interest\":3},\"status\":\"OK\"}").unwrap();
    let reply = Reply::Received { status: 200, body: body.clone() };
    assert_eq!(snapshot_detail(&reply), body.get("results"));
    assert!(snapshot_detail(&reply).is_some());
}

#[test]
fn the_detail_of_anything_else_is_null() {
    let body = parse_json("{\"results\":{\"open_interest\":3}}").unwrap();
    assert_eq!(snapshot_detail(&Reply::Received { status: 500, body }), None);
    assert_eq!(snapshot_detail(&Reply::Failed), None);
    let without = Reply::Received { status: 200, body: parse_json("{}").unwrap() };
    assert_eq!(snapshot_detail(&without), None);
    let null = Reply::Received { status: 200, body: parse_json("{\"results\":null}").unwrap() };
    assert_eq!(snapshot_detail(&null), Some(&Json::Null));
}
