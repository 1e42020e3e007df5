//! The answer of the handler: the summaries as JSON text, in an envelope.

use crate::codec::{encode_json, encoded_json};
use crate::json::{
    distinct_keys, entry_models, lemma_array_view, lemma_object_view, models, Json, JsonModel,
};
use crate::shaping::{summary_models, ContractSummary, SummaryModel};
use vstd::prelude::*;

verus! {

/// The envelope that the handler answers with: the identifier of the request,
/// and the summaries as JSON text.
#[derive(Clone, Debug, PartialEq, Eq)]
pub struct Response {
    pub req_id: String,
    pub response: String,
}

/// What a [`Response`] stands for.
pub struct ResponseModel {
    pub req_id: Seq<char>,
    pub response: Seq<char>,
}

impl View for Response {
    type V = ResponseModel;

    open spec fn view(&self) -> ResponseModel {
        ResponseModel { req_id: self.req_id@, response: self.response@ }
    }
}

/// One summary as a JSON object: its seven fields as texts, by name.
pub open spec fn summary_json(summary: SummaryModel) -> JsonModel {
    JsonModel::Record(
        seq![
            ("contract_type"@, JsonModel::Text(summary.contract_type)),
            ("expiration_date"@, JsonModel::Text(summary.expiration_date)),
            ("implied_volatility"@, JsonModel::Text(summary.implied_volatility)),
            ("open_interest"@, JsonModel::Text(summary.open_interest)),
            ("premium"@, JsonModel::Text(summary.premium)),
            ("strike_price"@, JsonModel::Text(summary.strike_price)),
            ("ticker"@, JsonModel::Text(summary.ticker)),
        ],
    )
}

/// The summaries as a JSON object: their list under `option_contracts`.
pub open spec fn contracts_json(summaries: Seq<SummaryModel>) -> JsonModel {
    JsonModel::Record(
        seq![
            (
                "option_contracts"@,
                JsonModel::List(Seq::new(summaries.len(), |i: int| summary_json(summaries[i]))),
            ),
        ],
    )
}

/// The JSON text of the summaries; `None` where it cannot be written.
pub open spec fn contracts_text(summaries: Seq<SummaryModel>) -> Option<Seq<char>> {
    encoded_json(contracts_json(summaries))
}

/// No name of a field of a summary occurs twice.
proof fn lemma_summary_keys(summary: SummaryModel)
    ensures
        summary_json(summary).well_formed(),
{
    reveal_with_fuel(JsonModel::well_formed, 2);
    reveal_strlit("contract_type");
    reveal_strlit("expiration_date");
    reveal_strlit("implied_volatility");
    reveal_strlit("open_interest");
    reveal_strlit("premium");
    reveal_strlit("strike_price");
    reveal_strlit("ticker");
    let entries = summary_json(summary)->Record_0;
    assert(entries[0].0.len() == 13);
    assert(entries[1].0.len() == 15);
    assert(entries[2].0.len() == 18);
    assert(entries[3].0[0] == 'o');
    assert(entries[4].0.len() == 7);
    assert(entries[5].0.len() == 12);
    assert(entries[6].0.len() == 6);
    assert(entries[0].0[0] == 'c');
    assert(distinct_keys(entries));
}

/// The object of the summaries has distinct keys at every depth.
pub proof fn lemma_contracts_well_formed(summaries: Seq<SummaryModel>)
    ensures
        contracts_json(summaries).well_formed(),
{
    let list = contracts_json(summaries)->Record_0[0].1;
    assert forall|i: int| 0 <= i < summaries.len() implies (#[trigger] list->List_0[i]).well_formed() by {
        lemma_summary_keys(summaries[i]);
    }
    assert(list.well_formed());
}

fn text_entry(key: &str, value: &String) -> (entry: (String, Json))
    ensures
        entry.0@ == key@,
        entry.1@ == JsonModel::Text(value@),
{
    (key.to_owned(), Json::String(value.clone()))
}

/// Builds the JSON object of one summary.
pub fn summary_to_json(summary: &ContractSummary) -> (json: Json)
    ensures
        json@ == summary_json(summary@),
{
    let mut entries: Vec<(String, Json)> = Vec::new();
    entries.push(text_entry("contract_type", &summary.contract_type));
    entries.push(text_entry("expiration_date", &summary.expiration_date));
    entries.push(text_entry("implied_volatility", &summary.implied_volatility));
    entries.push(text_entry("open_interest", &summary.open_interest));
    entries.push(text_entry("premium", &summary.premium));
    entries.push(text_entry("strike_price", &summary.strike_price));
    entries.push(text_entry("ticker", &summary.ticker));
    proof {
        lemma_object_view(entries);
        assert(entry_models(entries@) =~= summary_json(summary@)->Record_0);
    }
    Json::Object(entries)
}

/// Builds the JSON object of the summaries.
pub fn contracts_to_json(summaries: &Vec<ContractSummary>) -> (json: Json)
    ensures
        json@ == contracts_json(summary_models(summaries@)),
        json@.well_formed(),
{
    let mut items: Vec<Json> = Vec::new();
    let mut i: usize = 0;
    while i < summaries.len()
        invariant
            i <= summaries.len(),
            items@.len() == i,
            forall|k: int| 0 <= k < i ==> (#[trigger] items@[k])@ == summary_json(summaries@[k]@),
        decreases summaries.len() - i,
    {
        items.push(summary_to_json(&summaries[i]));
        i += 1;
    }
    let ghost wanted = contracts_json(summary_models(summaries@));
    proof {
        lemma_array_view(items);
        assert(models(items@) =~= wanted->Record_0[0].1->List_0);
    }
    let mut entries: Vec<(String, Json)> = Vec::new();
    entries.push(("option_contracts".to_owned(), Json::Array(items)));
    proof {
        lemma_object_view(entries);
        assert(entry_models(entries@) =~= wanted->Record_0);
        lemma_contracts_well_formed(summary_models(summaries@));
    }
    Json::Object(entries)
}

/// Writes the summaries as JSON text.
pub fn response_text(summaries: &Vec<ContractSummary>) -> (text: Option<String>)
    ensures
        match text {
            Some(t) => contracts_text(summary_models(summaries@)) == Some(t@),
            None => contracts_text(summary_models(summaries@)) is None,
        },
{
    encode_json(&contracts_to_json(summaries))
}

} // verus!
