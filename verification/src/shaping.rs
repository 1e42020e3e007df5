//! From the snapshot of a contract to its summary.

use crate::decimal::{decimal_digits, decimal_text};
use crate::json::{Json, JsonModel};
use crate::seqs::{kept, lemma_kept_place, lemma_kept_without};
use crate::snapshot::{detail_of, snapshot_detail};
use crate::upstream::{Reply, ReplyModel};
use vstd::prelude::*;
use vstd::string::*;

verus! {

/// The summary of one contract, every field as text.
#[derive(Clone, Debug, PartialEq, Eq)]
pub struct ContractSummary {
    pub contract_type: String,
    pub expiration_date: String,
    pub implied_volatility: String,
    pub open_interest: String,
    pub premium: String,
    pub strike_price: String,
    pub ticker: String,
}

/// What a [`ContractSummary`] stands for.
pub struct SummaryModel {
    pub contract_type: Seq<char>,
    pub expiration_date: Seq<char>,
    pub implied_volatility: Seq<char>,
    pub open_interest: Seq<char>,
    pub premium: Seq<char>,
    pub strike_price: Seq<char>,
    pub ticker: Seq<char>,
}

impl View for ContractSummary {
    type V = SummaryModel;

    open spec fn view(&self) -> SummaryModel {
        SummaryModel {
            contract_type: self.contract_type@,
            expiration_date: self.expiration_date@,
            implied_volatility: self.implied_volatility@,
            open_interest: self.open_interest@,
            premium: self.premium@,
            strike_price: self.strike_price@,
            ticker: self.ticker@,
        }
    }
}

/// One text for each of the three numbers of a snapshot that are shown as
/// decimal fractions. On the way out of this crate a text is the literal of
/// the number; on the way in it is the number as it is to be shown: the strike
/// price in its shortest decimal form, the implied volatility a hundredfold
/// with two decimals, the premium with two decimals. Binary floating point is
/// left to the caller.
#[derive(Clone, Debug, PartialEq, Eq)]
pub struct NumberTexts {
    pub strike_price: Option<String>,
    pub implied_volatility: Option<String>,
    pub premium: Option<String>,
}

/// What a [`NumberTexts`] stands for.
pub struct NumbersModel {
    pub strike_price: Option<Seq<char>>,
    pub implied_volatility: Option<Seq<char>>,
    pub premium: Option<Seq<char>>,
}

/// The characters of a string that may be missing.
pub open spec fn text_model(text: Option<String>) -> Option<Seq<char>> {
    match text {
        Some(s) => Some(s@),
        None => None,
    }
}

impl View for NumberTexts {
    type V = NumbersModel;

    open spec fn view(&self) -> NumbersModel {
        NumbersModel {
            strike_price: text_model(self.strike_price),
            implied_volatility: text_model(self.implied_volatility),
            premium: text_model(self.premium),
        }
    }
}

/// The text that stands in for a field that the snapshot does not have.
pub open spec fn not_available() -> Seq<char> {
    "N/A"@
}

/// The member `inner` of the member `outer` of `value`; `Null` where either
/// is missing.
pub open spec fn nested(value: JsonModel, outer: Seq<char>, inner: Seq<char>) -> JsonModel {
    value.member_or_null(outer).member_or_null(inner)
}

/// A text value as it is; `N/A` for anything else.
pub open spec fn text_field(value: JsonModel) -> Seq<char> {
    match value.text() {
        Some(text) => text,
        None => not_available(),
    }
}

/// A number as the caller rendered it; `N/A` for anything else, and for a
/// number without a rendering.
pub open spec fn number_field(value: JsonModel, rendered: Option<Seq<char>>) -> Seq<char> {
    match (value.number_literal(), rendered) {
        (Some(_), Some(text)) => text,
        _ => not_available(),
    }
}

/// A number as the caller rendered it, with a percent sign behind it; `N/A`
/// for anything else, and for a number without a rendering.
pub open spec fn percent_field(value: JsonModel, rendered: Option<Seq<char>>) -> Seq<char> {
    match (value.number_literal(), rendered) {
        (Some(_), Some(text)) => text + "%"@,
        _ => not_available(),
    }
}

/// An unsigned integer in decimal digits; `N/A` for anything else.
pub open spec fn count_field(value: JsonModel) -> Seq<char> {
    match value.unsigned() {
        Some(n) => decimal_digits(n as nat),
        None => not_available(),
    }
}

/// The literals of the three numbers of a snapshot that are shown as decimal
/// fractions, each where the snapshot has a number in that place.
pub open spec fn number_literals(detail: JsonModel) -> NumbersModel {
    NumbersModel {
        strike_price: nested(detail, "details"@, "strike_price"@).number_literal(),
        implied_volatility: detail.member_or_null("implied_volatility"@).number_literal(),
        premium: nested(detail, "last_quote"@, "midpoint"@).number_literal(),
    }
}

/// The summary of the contract whose snapshot is `detail`, its numbers shown
/// as `rendered` gives them. A snapshot that is `null` has no summary.
pub open spec fn summary_of(detail: JsonModel, rendered: NumbersModel) -> Option<SummaryModel> {
    if detail is Null {
        None
    } else {
        Some(
            SummaryModel {
                contract_type: text_field(nested(detail, "details"@, "contract_type"@)),
                expiration_date: text_field(nested(detail, "details"@, "expiration_date"@)),
                implied_volatility: percent_field(
                    detail.member_or_null("implied_volatility"@),
                    rendered.implied_volatility,
                ),
                open_interest: count_field(detail.member_or_null("open_interest"@)),
                premium: number_field(nested(detail, "last_quote"@, "midpoint"@), rendered.premium),
                strike_price: number_field(
                    nested(detail, "details"@, "strike_price"@),
                    rendered.strike_price,
                ),
                ticker: text_field(nested(detail, "details"@, "ticker"@)),
            },
        )
    }
}

/// The member `key` of `value`, where it has one that is not `null`.
fn member<'a>(value: &'a Json, key: &str) -> (found: Option<&'a Json>)
    ensures
        match found {
            Some(json) => json@ == value@.member_or_null(key@),
            None => value@.member_or_null(key@) is Null,
        },
{
    value.get(key)
}

/// The member `inner` of the member `outer` of `value`.
fn nested_member<'a>(value: &'a Json, outer: &str, inner: &str) -> (found: Option<&'a Json>)
    ensures
        match found {
            Some(json) => json@ == nested(value@, outer@, inner@),
            None => nested(value@, outer@, inner@) is Null,
        },
{
    match value.get(outer) {
        Some(within) => member(within, inner),
        None => None,
    }
}

/// The literal of a number.
fn literal_of(value: Option<&Json>) -> (literal: Option<String>)
    ensures
        text_model(literal) == match value {
            Some(json) => json@.number_literal(),
            None => None,
        },
{
    match value {
        Some(json) => match json.as_number() {
            Some(number) => Some(number.literal.clone()),
            None => None,
        },
        None => None,
    }
}

/// Names the numbers of a snapshot that the caller is to render.
pub fn numbers_to_render(detail: &Json) -> (literals: NumberTexts)
    ensures
        literals@ == number_literals(detail@),
{
    NumberTexts {
        strike_price: literal_of(nested_member(detail, "details", "strike_price")),
        implied_volatility: literal_of(member(detail, "implied_volatility")),
        premium: literal_of(nested_member(detail, "last_quote", "midpoint")),
    }
}

/// The text `N/A`.
fn na() -> (text: String)
    ensures
        text@ == not_available(),
{
    "N/A".to_owned()
}

fn shape_text(value: Option<&Json>) -> (text: String)
    ensures
        text@ == text_field(
            match value {
                Some(json) => json@,
                None => JsonModel::Null,
            },
        ),
{
    match value {
        Some(json) => match json.as_str() {
            Some(s) => s.to_owned(),
            None => na(),
        },
        None => na(),
    }
}

fn shape_number(value: Option<&Json>, rendered: &Option<String>) -> (text: String)
    ensures
        text@ == number_field(
            match value {
                Some(json) => json@,
                None => JsonModel::Null,
            },
            text_model(*rendered),
        ),
{
    match value {
        Some(json) => match (json.as_number(), rendered) {
            (Some(_), Some(shown)) => shown.clone(),
            _ => na(),
        },
        None => na(),
    }
}

fn shape_percent(value: Option<&Json>, rendered: &Option<String>) -> (text: String)
    ensures
        text@ == percent_field(
            match value {
                Some(json) => json@,
                None => JsonModel::Null,
            },
            text_model(*rendered),
        ),
{
    match value {
        Some(json) => match (json.as_number(), rendered) {
            (Some(_), Some(shown)) => {
                let mut text = shown.clone();
                text.append("%");
                text
            },
            _ => na(),
        },
        None => na(),
    }
}

fn shape_count(value: Option<&Json>) -> (text: String)
    ensures
        text@ == count_field(
            match value {
                Some(json) => json@,
                None => JsonModel::Null,
            },
        ),
{
    match value {
        Some(json) => match json.as_u64() {
            Some(n) => decimal_text(n),
            None => na(),
        },
        None => na(),
    }
}

/// Shapes the summary of one contract from its snapshot. Every field is read
/// on its own, and is `N/A` where the snapshot does not have it in the kind
/// asked for.
pub fn shape_contract(detail: &Json, rendered: &NumberTexts) -> (summary: Option<ContractSummary>)
    ensures
        match summary {
            Some(s) => summary_of(detail@, rendered@) == Some(s@),
            None => summary_of(detail@, rendered@) is None,
        },
{
    if detail.is_null() {
        return None;
    }
    Some(
        ContractSummary {
            contract_type: shape_text(nested_member(detail, "details", "contract_type")),
            expiration_date: shape_text(nested_member(detail, "details", "expiration_date")),
            implied_volatility: shape_percent(
                member(detail, "implied_volatility"),
                &rendered.implied_volatility,
            ),
            open_interest: shape_count(member(detail, "open_interest")),
            premium: shape_number(nested_member(detail, "last_quote", "midpoint"), &rendered.premium),
            strike_price: shape_number(
                nested_member(detail, "details", "strike_price"),
                &rendered.strike_price,
            ),
            ticker: shape_text(nested_member(detail, "details", "ticker")),
        },
    )
}

/// How the call for the snapshot of one contract ended, with the numbers of
/// that snapshot as they are to be shown.
#[derive(Clone, Debug, PartialEq, Eq)]
pub struct Snapshot {
    pub reply: Reply,
    pub numbers: NumberTexts,
}

/// What a [`Snapshot`] stands for.
pub struct SnapshotModel {
    pub reply: ReplyModel,
    pub numbers: NumbersModel,
}

impl View for Snapshot {
    type V = SnapshotModel;

    open spec fn view(&self) -> SnapshotModel {
        SnapshotModel { reply: self.reply@, numbers: self.numbers@ }
    }
}

/// What a list of snapshots stands for.
pub open spec fn snapshot_models(snapshots: Seq<Snapshot>) -> Seq<SnapshotModel> {
    Seq::new(snapshots.len(), |i: int| snapshots[i]@)
}

/// What a list of summaries stands for.
pub open spec fn summary_models(summaries: Seq<ContractSummary>) -> Seq<SummaryModel> {
    Seq::new(summaries.len(), |i: int| summaries[i]@)
}

/// The summary that one snapshot gives; none where the call had no answer,
/// the answer no success status, or its body no `results` but `null`.
pub open spec fn snapshot_summary(snapshot: SnapshotModel) -> Option<SummaryModel> {
    summary_of(detail_of(snapshot.reply), snapshot.numbers)
}

/// The summaries that a list of snapshots gives: one for each snapshot that
/// gives one, in the order of the snapshots.
pub open spec fn summaries_of(snapshots: Seq<SnapshotModel>) -> Seq<SummaryModel> {
    kept(snapshots, |snapshot: SnapshotModel| snapshot_summary(snapshot))
}

/// The summaries come in the order of the snapshots: the summary of a
/// snapshot stands behind those of all snapshots before it, however many of
/// them gave one.
pub proof fn lemma_summaries_in_order(snapshots: Seq<SnapshotModel>, i: int)
    requires
        0 <= i < snapshots.len(),
        snapshot_summary(snapshots[i]) is Some,
    ensures
        summaries_of(snapshots.take(i)).len() < summaries_of(snapshots).len(),
        snapshot_summary(snapshots[i]) == Some(
            summaries_of(snapshots)[summaries_of(snapshots.take(i)).len() as int],
        ),
        summaries_of(snapshots.take(i + 1)).len() == summaries_of(snapshots.take(i)).len() + 1,
{
    lemma_kept_place(snapshots, i, |snapshot: SnapshotModel| snapshot_summary(snapshot));
}

/// A snapshot that comes to nothing takes its own summary out of the list and
/// no other: where the snapshot `i` gave a summary and `failed` gives none,
/// the list with `failed` in its place is shorter by one, and is the list as
/// it was without the summary of snapshot `i`.
pub proof fn lemma_failed_snapshot_is_dropped(
    snapshots: Seq<SnapshotModel>,
    i: int,
    failed: SnapshotModel,
)
    requires
        0 <= i < snapshots.len(),
        snapshot_summary(snapshots[i]) is Some,
        detail_of(failed.reply) is Null,
    ensures
        summaries_of(snapshots.update(i, failed)).len() == summaries_of(snapshots).len() - 1,
        summaries_of(snapshots.update(i, failed)) == summaries_of(snapshots).remove(
            summaries_of(snapshots.take(i)).len() as int,
        ),
{
    lemma_kept_without(snapshots, i, failed, |snapshot: SnapshotModel| snapshot_summary(snapshot));
}

/// An answer without a success status, and a call without an answer, hold the
/// snapshot `null`; so does a body whose `results` is `null` or missing.
pub proof fn lemma_null_details(reply: ReplyModel)
    ensures
        reply is Failed ==> detail_of(reply) is Null,
        reply matches ReplyModel::Received { status, body } ==> (!crate::upstream::success_status(
            status,
        ) || body.member_or_null("results"@) is Null ==> detail_of(reply) is Null),
{
}

/// Names the numbers that the caller is to render for the answer to a
/// snapshot call.
pub fn reply_numbers(reply: &Reply) -> (literals: NumberTexts)
    ensures
        literals@ == number_literals(detail_of(reply@)),
{
    match snapshot_detail(reply) {
        Some(detail) => numbers_to_render(detail),
        None => NumberTexts { strike_price: None, implied_volatility: None, premium: None },
    }
}

/// Shapes the summary that one snapshot gives.
pub fn shape_snapshot(snapshot: &Snapshot) -> (summary: Option<ContractSummary>)
    ensures
        match summary {
            Some(s) => snapshot_summary(snapshot@) == Some(s@),
            None => snapshot_summary(snapshot@) is None,
        },
{
    match snapshot_detail(&snapshot.reply) {
        Some(detail) => shape_contract(detail, &snapshot.numbers),
        None => None,
    }
}

/// Shapes the summaries of the contracts whose snapshots were fetched, in the
/// order of the snapshots, leaving out each snapshot that gives none.
pub fn shape_contracts(snapshots: &Vec<Snapshot>) -> (summaries: Vec<ContractSummary>)
    ensures
        summary_models(summaries@) == summaries_of(snapshot_models(snapshots@)),
{
    let mut summaries: Vec<ContractSummary> = Vec::new();
    let ghost all = snapshot_models(snapshots@);
    let ghost choice = |snapshot: SnapshotModel| snapshot_summary(snapshot);
    let mut i: usize = 0;
    assert(all.take(0) == Seq::<SnapshotModel>::empty());
    assert(summary_models(summaries@) == Seq::<SummaryModel>::empty());
    while i < snapshots.len()
        invariant
            i <= snapshots.len(),
            all == snapshot_models(snapshots@),
            choice == |snapshot: SnapshotModel| snapshot_summary(snapshot),
            summary_models(summaries@) == kept(all.take(i as int), choice),
        decreases snapshots.len() - i,
    {
        let ghost before = summary_models(summaries@);
        assert(all.take(i + 1).drop_last() == all.take(i as int));
        assert(all.take(i + 1).last() == snapshots@[i as int]@);
        match shape_snapshot(&snapshots[i]) {
            Some(summary) => {
                let ghost model = summary@;
                summaries.push(summary);
                assert(summary_models(summaries@) == before.push(model));
            },
            None => {},
        }
        i += 1;
    }
    assert(all.take(snapshots@.len() as int) == all);
    summaries
}

} // verus!
