//! What the faucet's wallet endpoints answer: a status tag for every regular
//! outcome, and an HTTP status that is an error only for hard failures.

use vstd::prelude::*;
use crate::protocol::TxStatus;
use crate::sync_job::SyncOutcome;

verus! {

/// The endpoints that move funds.
#[derive(Clone, Copy, Debug, PartialEq, Eq, Structural)]
pub enum Endpoint {
    /// `POST /shield`
    Shield,
    /// `POST /send`
    Send,
}

/// The tag in the `status` field of a regular answer.
#[derive(Clone, Copy, Debug, PartialEq, Eq, Structural)]
pub enum StatusTag {
    Synced,
    Shielded,
    NoFunds,
    Sent,
}

impl StatusTag {
    /// The tag as it is written in an answer.
    pub open spec fn text_view(self) -> Seq<char> {
        match self {
            StatusTag::Synced => "synced"@,
            StatusTag::Shielded => "shielded"@,
            StatusTag::NoFunds => "no_funds"@,
            StatusTag::Sent => "sent"@,
        }
    }

    /// The tag as it is written in an answer.
    pub fn text(&self) -> (text: &'static str)
        ensures
            text@ == self.text_view(),
    {
        match self {
            StatusTag::Synced => "synced",
            StatusTag::Shielded => "shielded",
            StatusTag::NoFunds => "no_funds",
            StatusTag::Sent => "sent",
        }
    }
}

/// Whether a transaction status is a hard failure. Having nothing to shield
/// is none.
pub open spec fn is_hard_failure(status: TxStatus) -> bool {
    status is InsufficientBalance || status is Failed
}

/// The HTTP status of an answer.
pub open spec fn http_status_of(status: TxStatus) -> u16 {
    match status {
        TxStatus::Broadcast => 200,
        TxStatus::NoFunds => 200,
        TxStatus::InsufficientBalance => 400,
        TxStatus::Failed => 500,
    }
}

/// The HTTP status of the answer to a transaction that ended in `status`:
/// outside the range of success exactly for hard failures.
pub fn http_status(status: TxStatus) -> (code: u16)
    ensures
        code == http_status_of(status),
        200 <= code < 300 <==> !is_hard_failure(status),
{
    match status {
        TxStatus::Broadcast => 200,
        TxStatus::NoFunds => 200,
        TxStatus::InsufficientBalance => 400,
        TxStatus::Failed => 500,
    }
}

/// The tag of the answer of `endpoint` to a transaction that ended in
/// `status`, where the answer is a regular one.
pub open spec fn status_tag_of(endpoint: Endpoint, status: TxStatus) -> Option<StatusTag> {
    match (endpoint, status) {
        (Endpoint::Shield, TxStatus::Broadcast) => Some(StatusTag::Shielded),
        (Endpoint::Shield, TxStatus::NoFunds) => Some(StatusTag::NoFunds),
        (Endpoint::Send, TxStatus::Broadcast) => Some(StatusTag::Sent),
        _ => None,
    }
}

/// The tag of a regular answer: see `status_tag_of`. A hard failure has no
/// tag; it is answered with an error.
pub fn status_tag(endpoint: Endpoint, status: TxStatus) -> (tag: Option<StatusTag>)
    ensures
        tag == status_tag_of(endpoint, status),
        is_hard_failure(status) ==> tag is None,
{
    match (endpoint, status) {
        (Endpoint::Shield, TxStatus::Broadcast) => Some(StatusTag::Shielded),
        (Endpoint::Shield, TxStatus::NoFunds) => Some(StatusTag::NoFunds),
        (Endpoint::Send, TxStatus::Broadcast) => Some(StatusTag::Sent),
        _ => None,
    }
}

/// The answer of `POST /sync`: the tag `synced` and success where the sync
/// went through, an error where it did not.
pub fn sync_status(outcome: SyncOutcome) -> (answer: (u16, Option<StatusTag>))
    ensures
        answer == if outcome is Completed {
            (200u16, Some(StatusTag::Synced))
        } else {
            (500u16, None::<StatusTag>)
        },
{
    match outcome {
        SyncOutcome::Completed => (200, Some(StatusTag::Synced)),
        _ => (500, None),
    }
}

} // verus!
