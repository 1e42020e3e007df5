//! The course of one invocation: which call comes next, and what is answered
//! in the end. The calls themselves are made by the caller.

use crate::codec::parsed_json;
use crate::dates::CalendarDate;
use crate::json::{Json, JsonModel};
use crate::listing::{listed_contracts, listing_call, listing_call_model, reply_tickers, texts};
use crate::params::{body_text, event_request, read_request, Request, RequestModel};
use crate::response::{contracts_text, response_text, Response, ResponseModel};
use crate::shaping::{
    shape_contracts, snapshot_models, summaries_of, summary_models, Snapshot, SnapshotModel,
};
use crate::snapshot::{snapshot_call_model, snapshot_calls};
use crate::upstream::{success_status, Call, CallModel, Reply, ReplyModel};
use vstd::prelude::*;

verus! {

/// Why an invocation fails.
#[derive(Clone, Copy, Debug, PartialEq, Eq, Structural)]
pub enum Failure {
    /// The window of expiration dates cannot be had.
    Window,
    /// The call that lists the contracts had no answer.
    Listing,
    /// The summaries cannot be written as JSON text.
    Encoding,
    /// The outcome handed over is not that of the call that was asked for.
    OutOfTurn,
}

/// Where an invocation stands.
#[derive(Clone, Debug, PartialEq, Eq)]
pub enum State {
    /// The contracts are being listed.
    Listing(Request),
    /// The snapshots are being fetched; the identifier of the request is kept.
    Fetching(String),
    /// Nothing is left to do.
    Done,
}

/// What a [`State`] stands for.
pub enum StateModel {
    Listing(RequestModel),
    Fetching(Seq<char>),
    Done,
}

impl View for State {
    type V = StateModel;

    open spec fn view(&self) -> StateModel {
        match self {
            State::Listing(request) => StateModel::Listing(request@),
            State::Fetching(id) => StateModel::Fetching(id@),
            State::Done => StateModel::Done,
        }
    }
}

/// What the caller hands back after it did what it was asked to do.
#[derive(Clone, Debug, PartialEq, Eq)]
pub enum Outcome {
    /// How the call that lists the contracts ended.
    Listed(Reply),
    /// How the calls for the snapshots ended, in the order of the calls.
    Fetched(Vec<Snapshot>),
}

/// What an [`Outcome`] stands for.
pub enum OutcomeModel {
    Listed(ReplyModel),
    Fetched(Seq<SnapshotModel>),
}

impl View for Outcome {
    type V = OutcomeModel;

    open spec fn view(&self) -> OutcomeModel {
        match self {
            Outcome::Listed(reply) => OutcomeModel::Listed(reply@),
            Outcome::Fetched(snapshots) => OutcomeModel::Fetched(snapshot_models(snapshots@)),
        }
    }
}

/// What the caller is asked to do next.
#[derive(Clone, Debug, PartialEq, Eq)]
pub enum Action {
    /// Make the call that lists the contracts.
    List(Call),
    /// Make the calls for the snapshots, all at once, and wait for all.
    Fetch(Vec<Call>),
    /// Answer the invocation.
    Respond(Response),
    /// Fail the invocation.
    Fail(Failure),
}

/// What an [`Action`] stands for.
pub enum ActionModel {
    List(CallModel),
    Fetch(Seq<CallModel>),
    Respond(ResponseModel),
    Fail(Failure),
}

/// What a list of calls stands for.
pub open spec fn call_models(calls: Seq<Call>) -> Seq<CallModel> {
    Seq::new(calls.len(), |i: int| calls[i]@)
}

impl View for Action {
    type V = ActionModel;

    open spec fn view(&self) -> ActionModel {
        match self {
            Action::List(call) => ActionModel::List(call@),
            Action::Fetch(calls) => ActionModel::Fetch(call_models(calls@)),
            Action::Respond(response) => ActionModel::Respond(response@),
            Action::Fail(failure) => ActionModel::Fail(*failure),
        }
    }
}

/// One step of an invocation: where it stands now, and what is to be done.
#[derive(Clone, Debug, PartialEq, Eq)]
pub struct Step {
    pub state: State,
    pub action: Action,
}

/// What a [`Step`] stands for.
pub struct StepModel {
    pub state: StateModel,
    pub action: ActionModel,
}

impl View for Step {
    type V = StepModel;

    open spec fn view(&self) -> StepModel {
        StepModel { state: self.state@, action: self.action@ }
    }
}

/// The calls for the snapshots of the contracts `tickers`: one for each, in
/// their order.
pub open spec fn snapshot_call_models(request: RequestModel, tickers: Seq<Seq<char>>) -> Seq<
    CallModel,
> {
    Seq::new(
        tickers.len(),
        |i: int|
            snapshot_call_model(
                request.parameters.api_key,
                request.parameters.ticker_symbol,
                tickers[i],
            ),
    )
}

/// The first step: the request is read from the event, and the contracts are
/// to be listed for the window that starts `today`.
pub open spec fn first_step(request: RequestModel, today: CalendarDate) -> StepModel {
    match listing_call_model(request.parameters, today) {
        Some(call) => StepModel {
            state: StateModel::Listing(request),
            action: ActionModel::List(call),
        },
        None => StepModel {
            state: StateModel::Done,
            action: ActionModel::Fail(Failure::Window),
        },
    }
}

/// The step after the contracts were listed: a snapshot is to be fetched for
/// each contract that the answer lists, which are none where the answer has
/// no success status. Without an answer the invocation fails.
pub open spec fn step_after_listing(request: RequestModel, reply: ReplyModel) -> StepModel {
    match reply_tickers(reply) {
        Some(tickers) => StepModel {
            state: StateModel::Fetching(request.request_id),
            action: ActionModel::Fetch(snapshot_call_models(request, tickers)),
        },
        None => StepModel {
            state: StateModel::Done,
            action: ActionModel::Fail(Failure::Listing),
        },
    }
}

/// The step after the snapshots were fetched: the invocation is answered with
/// the summaries that the snapshots give.
pub open spec fn step_after_snapshots(request_id: Seq<char>, snapshots: Seq<SnapshotModel>) -> StepModel {
    match contracts_text(summaries_of(snapshots)) {
        Some(text) => StepModel {
            state: StateModel::Done,
            action: ActionModel::Respond(ResponseModel { req_id: request_id, response: text }),
        },
        None => StepModel {
            state: StateModel::Done,
            action: ActionModel::Fail(Failure::Encoding),
        },
    }
}

/// The step that follows an outcome in a state.
pub open spec fn next_step(state: StateModel, outcome: OutcomeModel) -> StepModel {
    match (state, outcome) {
        (StateModel::Listing(request), OutcomeModel::Listed(reply)) => step_after_listing(
            request,
            reply,
        ),
        (StateModel::Fetching(request_id), OutcomeModel::Fetched(snapshots)) => step_after_snapshots(
            request_id,
            snapshots,
        ),
        _ => StepModel {
            state: StateModel::Done,
            action: ActionModel::Fail(Failure::OutOfTurn),
        },
    }
}

/// A listing that is answered without a success status is no failure: no
/// snapshot is fetched, and the invocation is answered with the summaries of
/// no contract.
pub proof fn lemma_rejected_listing(request: RequestModel, status: u16, body: JsonModel)
    requires
        !success_status(status),
    ensures
        step_after_listing(request, ReplyModel::Received { status, body }) == (StepModel {
            state: StateModel::Fetching(request.request_id),
            action: ActionModel::Fetch(Seq::empty()),
        }),
        summaries_of(Seq::empty()) == Seq::<crate::shaping::SummaryModel>::empty(),
        contracts_text(Seq::empty()) matches Some(text) ==> step_after_snapshots(
            request.request_id,
            Seq::empty(),
        ).action == ActionModel::Respond(
            ResponseModel { req_id: request.request_id, response: text },
        ),
{
    let step = step_after_listing(request, ReplyModel::Received { status, body });
    assert(step.action->Fetch_0 =~= Seq::empty());
}

/// A listing without an answer fails the invocation, whatever the request.
pub proof fn lemma_failed_listing(request: RequestModel)
    ensures
        step_after_listing(request, ReplyModel::Failed) == (StepModel {
            state: StateModel::Done,
            action: ActionModel::Fail(Failure::Listing),
        }),
{
}

/// Starts an invocation on the day `today`.
pub fn begin(event: &Json, invocation_id: &str, today: &CalendarDate) -> (step: Step)
    ensures
        step@ == first_step(
            event_request(event@, parsed_json(body_text(event@)), invocation_id@),
            *today,
        ),
{
    begin_request(read_request(event, invocation_id), today)
}

/// Starts an invocation for a request that was read already.
pub fn begin_request(request: Request, today: &CalendarDate) -> (step: Step)
    ensures
        step@ == first_step(request@, *today),
{
    match listing_call(&request.parameters, today) {
        Some(call) => Step { state: State::Listing(request), action: Action::List(call) },
        None => Step { state: State::Done, action: Action::Fail(Failure::Window) },
    }
}

/// Takes the outcome of what was asked for, and says what comes next.
pub fn advance(state: State, outcome: &Outcome) -> (step: Step)
    ensures
        step@ == next_step(state@, outcome@),
{
    match (state, outcome) {
        (State::Listing(request), Outcome::Listed(reply)) => {
            match listed_contracts(reply) {
                Some(tickers) => {
                    let calls = snapshot_calls(
                        request.parameters.api_key.as_str(),
                        request.parameters.ticker_symbol.as_str(),
                        &tickers,
                    );
                    assert(call_models(calls@) =~= snapshot_call_models(request@, texts(tickers@)));
                    Step {
                        state: State::Fetching(request.request_id),
                        action: Action::Fetch(calls),
                    }
                },
                None => Step { state: State::Done, action: Action::Fail(Failure::Listing) },
            }
        },
        (State::Fetching(request_id), Outcome::Fetched(snapshots)) => {
            let summaries = shape_contracts(snapshots);
            match response_text(&summaries) {
                Some(text) => Step {
                    state: State::Done,
                    action: Action::Respond(Response { req_id: request_id, response: text }),
                },
                None => Step { state: State::Done, action: Action::Fail(Failure::Encoding) },
            }
        },
        _ => Step { state: State::Done, action: Action::Fail(Failure::OutOfTurn) },
    }
}

} // verus!
