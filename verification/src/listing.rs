//! The call that lists the contracts of a ticker, and what its answer lists.

use crate::dates::{expiration_window, window_texts, CalendarDate};
use crate::decimal::{parse_i64, parsed_i64};
use crate::json::{lemma_array_view, models, Json, JsonModel};
use crate::params::{Parameters, ParametersModel};
use crate::seqs::kept;
use crate::upstream::{pair_models, Call, CallModel, Reply, ReplyModel};
use vstd::prelude::*;

verus! {

/// The texts that a list of strings stands for.
pub open spec fn texts(strings: Seq<String>) -> Seq<Seq<char>> {
    Seq::new(strings.len(), |i: int| strings[i]@)
}

/// The address of the contract listing.
pub open spec fn listing_url() -> Seq<char> {
    "https://api.polygon.io/v3/reference/options/contracts"@
}

/// The number of days that the window of expiration dates spans: the number
/// that `days_forward` holds, and 30 where it holds none.
pub open spec fn window_days(days_forward: Seq<char>) -> i64 {
    match parsed_i64(days_forward) {
        Some(days) => days,
        None => 30,
    }
}

/// The query of the contract listing: the key, the ticker, the limit, the
/// order, the two ends of the window of expiration dates and the contract
/// type, in this order.
pub open spec fn listing_query_model(
    parameters: ParametersModel,
    from: Seq<char>,
    to: Seq<char>,
) -> Seq<(Seq<char>, Seq<char>)> {
    seq![
        ("apiKey"@, parameters.api_key),
        ("underlying_ticker"@, parameters.ticker_symbol),
        ("limit"@, parameters.limit),
        ("order"@, "asc"@),
        ("sort"@, "expiration_date"@),
        ("expiration_date.gte"@, from),
        ("expiration_date.lte"@, to),
        ("contract_type"@, parameters.contract_type),
    ]
}

/// The call that lists the contracts for `parameters` on the day `today`;
/// `None` where the window of expiration dates cannot be had.
pub open spec fn listing_call_model(parameters: ParametersModel, today: CalendarDate) -> Option<
    CallModel,
> {
    match window_texts(today, window_days(parameters.days_forward) as int) {
        Some((from, to)) => Some(
            CallModel { url: listing_url(), query: listing_query_model(parameters, from, to) },
        ),
        None => None,
    }
}

/// The ticker of a listed contract, where it has one that is a text.
pub open spec fn ticker_of(contract: JsonModel) -> Option<Seq<char>> {
    contract.member_or_null("ticker"@).text()
}

/// The tickers that the body of a listing lists: those of the items of its
/// `results` that have one, in the order of the items. A body whose `results`
/// is no list lists none.
pub open spec fn listed_tickers(body: JsonModel) -> Seq<Seq<char>> {
    match body.member_or_null("results"@).list() {
        Some(items) => kept(items, |contract: JsonModel| ticker_of(contract)),
        None => Seq::empty(),
    }
}

/// The tickers that the answer to a listing gives: those that its body lists
/// under a success status, none under another status; `None` where there
/// was no answer.
pub open spec fn reply_tickers(reply: ReplyModel) -> Option<Seq<Seq<char>>> {
    match reply {
        ReplyModel::Failed => None,
        ReplyModel::Received { status, body } => match reply.accepted_body() {
            Some(accepted) => Some(listed_tickers(accepted)),
            None => Some(Seq::empty()),
        },
    }
}

/// Reads the number of days of the window.
pub fn days_forward_offset(days_forward: &str) -> (days: i64)
    ensures
        days == window_days(days_forward@),
{
    match parse_i64(days_forward) {
        Some(days) => days,
        None => 30,
    }
}

fn pair(key: &str, value: &str) -> (made: (String, String))
    ensures
        made.0@ == key@,
        made.1@ == value@,
{
    (key.to_owned(), value.to_owned())
}

/// Builds the query of the contract listing for a window that runs from
/// `from` to `to`.
pub fn listing_query(parameters: &Parameters, from: &str, to: &str) -> (query: Vec<
    (String, String),
>)
    ensures
        pair_models(query@) == listing_query_model(parameters@, from@, to@),
{
    let mut query: Vec<(String, String)> = Vec::new();
    query.push(pair("apiKey", parameters.api_key.as_str()));
    query.push(pair("underlying_ticker", parameters.ticker_symbol.as_str()));
    query.push(pair("limit", parameters.limit.as_str()));
    query.push(pair("order", "asc"));
    query.push(pair("sort", "expiration_date"));
    query.push(pair("expiration_date.gte", from));
    query.push(pair("expiration_date.lte", to));
    query.push(pair("contract_type", parameters.contract_type.as_str()));
    assert(pair_models(query@) =~= listing_query_model(parameters@, from@, to@));
    query
}

/// Builds the call that lists the contracts for `parameters` on the day
/// `today`.
pub fn listing_call(parameters: &Parameters, today: &CalendarDate) -> (call: Option<Call>)
    ensures
        match call {
            Some(c) => listing_call_model(parameters@, *today) == Some(c@),
            None => listing_call_model(parameters@, *today) is None,
        },
{
    let days: i64 = days_forward_offset(parameters.days_forward.as_str());
    match expiration_window(today, days) {
        Some((from, to)) => Some(
            Call {
                url: "https://api.polygon.io/v3/reference/options/contracts".to_owned(),
                query: listing_query(parameters, from.as_str(), to.as_str()),
            },
        ),
        None => None,
    }
}

/// Reads the tickers that the body of a listing lists.
pub fn contract_tickers(body: &Json) -> (tickers: Vec<String>)
    ensures
        texts(tickers@) == listed_tickers(body@),
{
    let mut tickers: Vec<String> = Vec::new();
    let results = match body.get("results") {
        Some(r) => r.as_array(),
        None => None,
    };
    match results {
        Some(items) => {
            let ghost choice = |contract: JsonModel| ticker_of(contract);
            let mut i: usize = 0;
            assert(models(items@).take(0) == Seq::<JsonModel>::empty());
            assert(texts(tickers@) == Seq::<Seq<char>>::empty());
            while i < items.len()
                invariant
                    i <= items.len(),
                    choice == |contract: JsonModel| ticker_of(contract),
                    texts(tickers@) == kept(models(items@).take(i as int), choice),
                decreases items.len() - i,
            {
                let ghost before = texts(tickers@);
                assert(models(items@).take(i + 1).drop_last() == models(items@).take(i as int));
                assert(models(items@).take(i + 1).last() == items@[i as int]@);
                let found = match items[i].get("ticker") {
                    Some(t) => t.as_str(),
                    None => None,
                };
                match found {
                    Some(s) => {
                        tickers.push(s.to_owned());
                        assert(texts(tickers@) == before.push(s@));
                    },
                    None => {},
                }
                i += 1;
            }
            assert(models(items@).take(items@.len() as int) == models(items@));
        },
        None => {
            assert(texts(tickers@) == Seq::<Seq<char>>::empty());
        },
    }
    tickers
}

/// Reads the tickers that the answer to a listing gives.
pub fn listed_contracts(reply: &Reply) -> (tickers: Option<Vec<String>>)
    ensures
        match tickers {
            Some(t) => reply_tickers(reply@) == Some(texts(t@)),
            None => reply_tickers(reply@) is None,
        },
{
    match reply {
        Reply::Failed => None,
        Reply::Received { .. } => match reply.accepted_body() {
            Some(body) => Some(contract_tickers(body)),
            None => {
                let none: Vec<String> = Vec::new();
                assert(texts(none@) == Seq::<Seq<char>>::empty());
                Some(none)
            },
        },
    }
}

} // verus!
