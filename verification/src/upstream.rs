//! What the market-data service is asked, and what it answers.

use crate::json::{Json, JsonModel};
use vstd::prelude::*;

verus! {

/// A GET call: the address, and the query parameters in the order in which
/// they are sent.
#[derive(Clone, Debug, PartialEq, Eq)]
pub struct Call {
    pub url: String,
    pub query: Vec<(String, String)>,
}

/// What a [`Call`] stands for.
pub struct CallModel {
    pub url: Seq<char>,
    pub query: Seq<(Seq<char>, Seq<char>)>,
}

/// The pairs of texts that a list of pairs of strings stands for.
pub open spec fn pair_models(pairs: Seq<(String, String)>) -> Seq<(Seq<char>, Seq<char>)> {
    Seq::new(pairs.len(), |i: int| (pairs[i].0@, pairs[i].1@))
}

impl View for Call {
    type V = CallModel;

    open spec fn view(&self) -> CallModel {
        CallModel { url: self.url@, query: pair_models(self.query@) }
    }
}

/// How a call ended. `Failed`: no answer could be had or read. `Received`:
/// the status of the answer and, under a success status, its body as JSON.
#[derive(Clone, Debug, PartialEq, Eq)]
pub enum Reply {
    Failed,
    Received { status: u16, body: Json },
}

/// What a [`Reply`] stands for.
pub enum ReplyModel {
    Failed,
    Received { status: u16, body: JsonModel },
}

impl View for Reply {
    type V = ReplyModel;

    open spec fn view(&self) -> ReplyModel {
        match self {
            Reply::Failed => ReplyModel::Failed,
            Reply::Received { status, body } => ReplyModel::Received {
                status: *status,
                body: body@,
            },
        }
    }
}

/// Whether an HTTP status reports success: 200 to 299.
pub open spec fn success_status(status: u16) -> bool {
    200 <= status < 300
}

/// Whether an HTTP status reports success.
pub fn is_success(status: u16) -> (success: bool)
    ensures
        success == success_status(status),
{
    200 <= status && status < 300
}

impl ReplyModel {
    /// The body of an answer with a success status.
    pub open spec fn accepted_body(self) -> Option<JsonModel> {
        match self {
            ReplyModel::Received { status, body } => if success_status(status) {
                Some(body)
            } else {
                None
            },
            ReplyModel::Failed => None,
        }
    }
}

impl Reply {
    /// The body of an answer with a success status.
    pub fn accepted_body(&self) -> (body: Option<&Json>)
        ensures
            match body {
                Some(json) => self@.accepted_body() == Some(json@),
                None => self@.accepted_body() is None,
            },
    {
        match self {
            Reply::Received { status, body } => if is_success(*status) {
                Some(body)
            } else {
                None
            },
            Reply::Failed => None,
        }
    }
}

} // verus!
