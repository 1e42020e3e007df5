use option_contracts::codec::parse_json;
use option_contracts::json::Json;
use option_contracts::shaping::{
    numbers_to_render, reply_numbers, shape_contract, shape_contracts, shape_snapshot,
    ContractSummary, NumberTexts, Snapshot,
};
use option_contracts::upstream::Reply;

fn json(text: &str) -> Json {
    parse_json(text).unwrap()
}

fn as_float(literal: &str) -> f64 {
    literal.parse::<f64>().unwrap()
}

fn rendered(literals: &NumberTexts) -> NumberTexts {
    NumberTexts {
        strike_price: literals.strike_price.as_ref().map(|l| as_float(l).to_string()),
        implied_volatility: literals
            .implied_volatility
            .as_ref()
            .map(|l| format!("{:.2}", as_float(l) * 100.0)),
        premium: literals.premium.as_ref().map(|l| format!("{:.2}", as_float(l))),
    }
}

fn shape(detail: &Json) -> Option<ContractSummary> {
    shape_contract(detail, &rendered(&numbers_to_render(detail)))
}

fn fetched(body: &str) -> Snapshot {
    let reply = Reply::Received { status: 200, body: json(body) };
    let numbers = rendered(&reply_numbers(&reply));
    Snapshot { reply, numbers }
}

fn no_numbers() -> NumberTexts {
    NumberTexts { strike_price: None, implied_volatility: None, premium: None }
}

fn all_missing() -> ContractSummary {
    ContractSummary {
        contract_type: "N/A".to_string(),
        expiration_date: "N/A".to_string(),
        implied_volatility: "N/A".to_string(),
        open_interest: "N/A".to_string(),
        premium: "N/A".to_string(),
        strike_price: "N/A".to_string(),
        ticker: "N/A".to_string(),
    }
}

const FULL: &str = "{\"details\":{\"contract_type\":\"call\",\"expiration_date\":\"2025-01-17\",\"strike_price\":150,\"ticker\":\"O:AAPL250117C00150000\"},\"implied_volatility\":0.1234,\"open_interest\":4321,\"last_quote\":{\"midpoint\":1.5}}";

#[test]
fn a_full_snapshot_fills_every_field() {
    assert_eq!(
        shape(&json(FULL)),
        Some(ContractSummary {
            contract_type: "call".to_string(),
            expiration_date: "2025-01-17".to_string(),
            implied_volatility: "12.34%".to_string(),
            open_interest: "4321".to_string(),
            premium: "1.50".to_string(),
            strike_price: "150".to_string(),
            ticker: "O:AAPL250117C00150000".to_string(),
        })
    );
}

#[test]
fn volatility_is_a_percentage_and_premium_has_two_decimals() {
    let summary = shape(&json("{\"implied_volatility\":0.1234,\"last_quote\":{\"midpoint\":1.5}}")).unwrap();
    assert_eq!(summary.implied_volatility, "12.34%");
    assert_eq!(summary.premium, "1.50");
}

#[test]
fn the_strike_price_is_written_in_its_decimal_form() {
    let summary = shape(&json("{\"details\":{\"strike_price\":152.5}}")).unwrap();
    assert_eq!(summary.strike_price, "152.5");
    let summary = shape(&json("{\"details\":{\"strike_price\":-3}}")).unwrap();
    assert_eq!(summary.strike_price, "-3");
}

#[test]
fn the_numbers_to_render_are_the_literals() {
    let literals = numbers_to_render(&json(FULL));
    assert_eq!(
        literals,
        NumberTexts {
            strike_price: Some("150".to_string()),
            implied_volatility: Some("0.1234".to_string()),
            premium: Some("1.5".to_string()),
        }
    );
    assert_eq!(numbers_to_render(&json("{\"details\":{\"strike_price\":\"150\"}}")), no_numbers());
    assert_eq!(numbers_to_render(&Json::Null), no_numbers());
}

#[test]
fn a_missing_field_is_not_available() {
    assert_eq!(shape(&json("{}")), Some(all_missing()));
    assert_eq!(shape(&json("\"text\"")), Some(all_missing()));
    assert_eq!(shape(&json("[1,2]")), Some(all_missing()));
    assert_eq!(shape(&json("{\"details\":null,\"last_quote\":7}")), Some(all_missing()));
}

#[test]
fn a_field_of_the_wrong_kind_is_not_available() {
    let detail = json(
        "{\"details\":{\"contract_type\":1,\"expiration_date\":null,\"strike_price\":\"150\",\"ticker\":[]},\"implied_volatility\":\"0.2\",\"open_interest\":\"12\",\"last_quote\":{\"midpoint\":true}}",
    );
    assert_eq!(shape(&detail), Some(all_missing()));
}

#[test]
fn open_interest_is_an_unsigned_integer_only() {
    assert_eq!(shape(&json("{\"open_interest\":0}")).unwrap().open_interest, "0");
    assert_eq!(
        shape(&json("{\"open_interest\":18446744073709551615}")).unwrap().open_interest,
        "18446744073709551615"
    );
    assert_eq!(shape(&json("{\"open_interest\":-1}")).unwrap().open_interest, "N/A");
    assert_eq!(shape(&json("{\"open_interest\":12.0}")).unwrap().open_interest, "N/A");
    assert_eq!(shape(&json("{\"open_interest\":1e3}")).unwrap().open_interest, "N/A");
}

#[test]
fn each_field_is_read_on_its_own() {
    let summary = shape(&json("{\"details\":{\"ticker\":\"O:1\"},\"open_interest\":9}")).unwrap();
    assert_eq!(summary.ticker, "O:1");
    assert_eq!(summary.open_interest, "9");
    assert_eq!(summary.contract_type, "N/A");
    assert_eq!(summary.premium, "N/A");
}

#[test]
fn a_number_without_a_rendering_is_not_available() {
    let summary = shape_contract(&json(FULL), &no_numbers()).unwrap();
    assert_eq!(summary.strike_price, "N/A");
    assert_eq!(summary.implied_volatility, "N/A");
    assert_eq!(summary.premium, "N/A");
    assert_eq!(summary.open_interest, "4321");
}

#[test]
fn a_rendering_without_a_number_is_not_used() {
    let numbers = NumberTexts {
        strike_price: Some("1".to_string()),
        implied_volatility: Some("2".to_string()),
        premium: Some("3".to_string()),
    };
    assert_eq!(shape_contract(&json("{}"), &numbers), Some(all_missing()));
}

#[test]
fn a_null_snapshot_has_no_summary() {
    assert_eq!(shape(&Json::Null), None);
    assert_eq!(shape_snapshot(&fetched("{\"results\":null}")), None);
    assert_eq!(shape_snapshot(&fetched("{}")), None);
    assert_eq!(shape_snapshot(&Snapshot { reply: Reply::Failed, numbers: no_numbers() }), None);
}

#[test]
fn summaries_keep_the_order_of_the_snapshots() {
    let snapshots = vec![
        fetched("{\"results\":{\"details\":{\"ticker\":\"O:AAPL1\"}}}"),
        fetched("{\"results\":{\"details\":{\"ticker\":\"O:AAPL2\"}}}"),
        fetched("{\"results\":{\"details\":{\"ticker\":\"O:AAPL3\"}}}"),
    ];
    let tickers: Vec<String> = shape_contracts(&snapshots).into_iter().map(|s| s.ticker).collect();
    assert_eq!(tickers, vec!["O:AAPL1", "O:AAPL2", "O:AAPL3"]);
}

#[test]
fn a_failed_snapshot_drops_its_own_summary_only() {
    let first = fetched("{\"results\":{\"details\":{\"ticker\":\"O:AAPL1\"}}}");
    let second = fetched("{\"results\":{\"details\":{\"ticker\":\"O:AAPL2\"}}}");
    let third = fetched("{\"results\":{\"details\":{\"ticker\":\"O:AAPL3\"}}}");
    let all = shape_contracts(&vec![first.clone(), second.clone(), third.clone()]);
    assert_eq!(all.len(), 3);

    let null_results = fetched("{\"results\":null}");
    let rejected = Snapshot {
        reply: Reply::Received { status: 429, body: json("{\"results\":{\"details\":{}}}") },
        numbers: no_numbers(),
    };
    let failed = Snapshot { reply: Reply::Failed, numbers: no_numbers() };
    for dropped in [null_results, rejected, failed] {
        let left = shape_contracts(&vec![first.clone(), dropped, third.clone()]);
        assert_eq!(left.len(), all.len() - 1);
        assert_eq!(left, vec![all[0].clone(), all[2].clone()]);
    }
}

#[test]
fn no_snapshots_give_no_summaries() {
    assert!(shape_contracts(&vec![]).is_empty());
}
