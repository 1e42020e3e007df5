//! The call that fetches the snapshot of one contract, and what its answer
//! holds.

use crate::json::{Json, JsonModel};
use crate::listing::texts;
use crate::upstream::{pair_models, Call, CallModel, Reply, ReplyModel};
use vstd::prelude::*;
use vstd::string::*;
use vstd::utf8::encode_utf8;

verus! {

/// Whether a byte stands for itself in a percent-encoded text: a letter or a
/// digit of ASCII, or one of `-`, `.`, `_`, `~`.
pub open spec fn unreserved(byte: u8) -> bool {
    ||| 0x30 <= byte <= 0x39
    ||| 0x41 <= byte <= 0x5a
    ||| 0x61 <= byte <= 0x7a
    ||| byte == 0x2d
    ||| byte == 0x2e
    ||| byte == 0x5f
    ||| byte == 0x7e
}

/// The hexadecimal digit of a number below 16, in upper case.
pub open spec fn hex_digit(nibble: u8) -> char {
    if nibble < 10 {
        ((0x30 + nibble) as u8) as char
    } else {
        ((0x41 + nibble - 10) as u8) as char
    }
}

/// One byte, percent-encoded.
pub open spec fn escaped_byte(byte: u8) -> Seq<char> {
    if unreserved(byte) {
        seq![byte as char]
    } else {
        seq!['%', hex_digit(byte / 16), hex_digit(byte % 16)]
    }
}

/// A run of bytes, percent-encoded byte by byte.
pub open spec fn escaped_bytes(bytes: Seq<u8>) -> Seq<char>
    decreases bytes.len(),
{
    if bytes.len() == 0 {
        Seq::empty()
    } else {
        escaped_bytes(bytes.drop_last()) + escaped_byte(bytes.last())
    }
}

/// A text, percent-encoded: the bytes of its UTF-8 form, each unreserved one
/// as it is and each other one as `%` and two hexadecimal digits.
pub open spec fn percent_encoded(text: Seq<char>) -> Seq<char> {
    escaped_bytes(encode_utf8(text))
}

/// Calls `urlencoding::encode`. Claimed: every byte of the text's UTF-8 form
/// is percent-encoded, but for the letters and digits of ASCII and `-`, `.`,
/// `_`, `~`; the hexadecimal digits are in upper case.
#[verifier::external_body]
fn percent_encode(text: &str) -> (encoded: String)
    ensures
        encoded@ == percent_encoded(text@),
{
    urlencoding::encode(text).into_owned()
}

/// The address of the snapshot of the contract `contract` of the ticker
/// `underlying`. The contract is percent-encoded; the ticker stands as given.
pub open spec fn snapshot_url_model(underlying: Seq<char>, contract: Seq<char>) -> Seq<char> {
    "https://api.polygon.io/v3/snapshot/options/"@ + underlying + "/"@ + percent_encoded(contract)
}

/// The call that fetches the snapshot of one contract.
pub open spec fn snapshot_call_model(
    api_key: Seq<char>,
    underlying: Seq<char>,
    contract: Seq<char>,
) -> CallModel {
    CallModel { url: snapshot_url_model(underlying, contract), query: seq![("apiKey"@, api_key)] }
}

/// The snapshot that an answer holds: the `results` of its body under a
/// success status; `null` where the body has none, under another status, and
/// where there was no answer.
pub open spec fn detail_of(reply: ReplyModel) -> JsonModel {
    match reply.accepted_body() {
        Some(body) => body.member_or_null("results"@),
        None => JsonModel::Null,
    }
}

/// Builds the address of the snapshot of one contract.
pub fn snapshot_url(underlying: &str, contract: &str) -> (url: String)
    ensures
        url@ == snapshot_url_model(underlying@, contract@),
{
    let mut url = "https://api.polygon.io/v3/snapshot/options/".to_owned();
    url.append(underlying);
    url.append("/");
    url.append(percent_encode(contract).as_str());
    url
}

/// Builds the call that fetches the snapshot of one contract.
pub fn snapshot_call(api_key: &str, underlying: &str, contract: &str) -> (call: Call)
    ensures
        call@ == snapshot_call_model(api_key@, underlying@, contract@),
{
    let mut query: Vec<(String, String)> = Vec::new();
    query.push(("apiKey".to_owned(), api_key.to_owned()));
    assert(pair_models(query@) =~= seq![("apiKey"@, api_key@)]);
    Call { url: snapshot_url(underlying, contract), query }
}

/// Builds one call for each contract, in the order of the contracts.
pub fn snapshot_calls(api_key: &str, underlying: &str, contracts: &Vec<String>) -> (calls: Vec<
    Call,
>)
    ensures
        calls@.len() == contracts@.len(),
        forall|i: int|
            0 <= i < contracts@.len() ==> (#[trigger] calls@[i])@ == snapshot_call_model(
                api_key@,
                underlying@,
                contracts@[i]@,
            ),
{
    let mut calls: Vec<Call> = Vec::new();
    let mut i: usize = 0;
    while i < contracts.len()
        invariant
            i <= contracts.len(),
            calls@.len() == i,
            forall|k: int|
                0 <= k < i ==> (#[trigger] calls@[k])@ == snapshot_call_model(
                    api_key@,
                    underlying@,
                    contracts@[k]@,
                ),
        decreases contracts.len() - i,
    {
        calls.push(snapshot_call(api_key, underlying, contracts[i].as_str()));
        i += 1;
    }
    calls
}

/// Reads the snapshot that an answer holds; `None` stands for `null`.
pub fn snapshot_detail(reply: &Reply) -> (detail: Option<&Json>)
    ensures
        match detail {
            Some(json) => json@ == detail_of(reply@),
            None => detail_of(reply@) is Null,
        },
{
    match reply.accepted_body() {
        Some(body) => body.get("results"),
        None => None,
    }
}

} // verus!
