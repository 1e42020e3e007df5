use option_contracts::codec::parse_json;
use option_contracts::dates::CalendarDate;
use option_contracts::json::Json;
use option_contracts::listing::{
    contract_tickers, days_forward_offset, listed_contracts, listing_call, listing_query,
};
use option_contracts::params::Parameters;
use option_contracts::upstream::{is_success, Reply};

fn parameters(days: &str) -> Parameters {
    Parameters {
        ticker_symbol: "MSFT".to_string(),
        api_key: "k1".to_string(),
        limit: "5".to_string(),
        days_forward: days.to_string(),
        contract_type: "put".to_string(),
    }
}

fn pairs(items: &[(&str, &str)]) -> Vec<(String, String)> {
    items.iter().map(|(k, v)| (k.to_string(), v.to_string())).collect()
}

#[test]
fn days_forward_is_read_or_thirty() {
    assert_eq!(days_forward_offset("7"), 7);
    assert_eq!(days_forward_offset("-3"), -3);
    assert_eq!(days_forward_offset("abc"), 30);
    assert_eq!(days_forward_offset(""), 30);
    assert_eq!(days_forward_offset("7.5"), 30);
    assert_eq!(days_forward_offset("99999999999999999999"), 30);
}

#[test]
fn the_query_names_every_parameter_in_order() {
    let query = listing_query(&parameters("7"), "2024-01-31", "2024-02-07");
    assert_eq!(
        query,
        pairs(&[
            ("apiKey", "k1"),
            ("underlying_ticker", "MSFT"),
            ("limit", "5"),
            ("order", "asc"),
            ("sort", "expiration_date"),
            ("expiration_date.gte", "2024-01-31"),
            ("expiration_date.lte", "2024-02-07"),
            ("contract_type", "put"),
        ])
    );
}

#[test]
fn the_call_spans_the_window() {
    let today = CalendarDate { year: 2024, month: 1, day: 31 };
    let call = listing_call(&parameters("7"), &today).unwrap();
    assert_eq!(call.url, "https://api.polygon.io/v3/reference/options/contracts");
    assert_eq!(call.query[5], ("expiration_date.gte".to_string(), "2024-01-31".to_string()));
    assert_eq!(call.query[6], ("expiration_date.lte".to_string(), "2024-02-07".to_string()));
    let call = listing_call(&parameters("soon"), &today).unwrap();
    assert_eq!(call.query[6], ("expiration_date.lte".to_string(), "2024-03-01".to_string()));
}

#[test]
fn a_window_off_the_calendar_gives_no_call() {
    let today = CalendarDate { year: 2024, month: 1, day: 31 };
    assert_eq!(listing_call(&parameters("9000000000000"), &today), None);
    let no_day = CalendarDate { year: 2024, month: 2, day: 31 };
    assert_eq!(listing_call(&parameters("7"), &no_day), None);
}

#[test]
fn tickers_are_read_in_order() {
    let body = parse_json("{\"results\":[{\"ticker\":\"O:AAPL1\"},{\"ticker\":\"O:AAPL2\"}]}").unwrap();
    assert_eq!(contract_tickers(&body), vec!["O:AAPL1".to_string(), "O:AAPL2".to_string()]);
}

#[test]
fn items_without_a_ticker_are_skipped() {
    let body = parse_json(
        "{\"results\":[{\"ticker\":\"A\"},{\"name\":\"x\"},{\"ticker\":5},\"B\",null,{\"ticker\":\"C\"}]}",
    )
    .unwrap();
    assert_eq!(contract_tickers(&body), vec!["A".to_string(), "C".to_string()]);
}

#[test]
fn a_body_without_a_list_lists_nothing() {
    assert!(contract_tickers(&parse_json("{}").unwrap()).is_empty());
    assert!(contract_tickers(&parse_json("{\"results\":null}").unwrap()).is_empty());
    assert!(contract_tickers(&parse_json("{\"results\":{\"ticker\":\"A\"}}").unwrap()).is_empty());
    assert!(contract_tickers(&parse_json("[{\"ticker\":\"A\"}]").unwrap()).is_empty());
    assert!(contract_tickers(&Json::Null).is_empty());
}

#[test]
fn a_rejected_listing_is_empty_and_a_failed_one_is_none() {
    let body = parse_json("{\"results\":[{\"ticker\":\"A\"}]}").unwrap();
    let accepted = Reply::Received { status: 200, body: body.clone() };
    let rejected = Reply::Received { status: 403, body };
    assert_eq!(listed_contracts(&accepted), Some(vec!["A".to_string()]));
    assert_eq!(listed_contracts(&rejected), Some(vec![]));
    assert_eq!(listed_contracts(&Reply::Failed), None);
}

#[test]
fn success_is_two_hundred_to_two_ninety_nine() {
    assert!(is_success(200));
    assert!(is_success(204));
    assert!(is_success(299));
    assert!(!is_success(199));
    assert!(!is_success(300));
    assert!(!is_success(404));
    assert!(!is_success(0));
}
