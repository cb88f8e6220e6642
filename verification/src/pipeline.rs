//! The worker's decisions: what to do with an event, and what to do once
//! storage has answered.
//!
//! The worker itself takes events from the queue one at a time, asks
//! [`plan_update`], performs the storage call that the answer names, and asks
//! [`complete_update`]. It makes no storage call of its own accord, and it
//! does not take the next event before the current one is completed.

use vstd::prelude::*;
use crate::codec::address_text;
use crate::error::{DecodeError, IndexerError};
use crate::models::{AccountInfo, TransactionInfo, UpdateEvent};
use crate::parser::{AnchorParser, decoded};
use crate::schema::SchemaModel;
use crate::tracking::{TrackingModel, TrackingSet};
use crate::value::{StructuredValue, ValueModel};

verus! {

/// The account type under which a tracked program's accounts are decoded.
pub fn default_account_type() -> (r: &'static str)
    ensures
        r@ == "account"@,
{
    "account"
}

/// One call to storage.
#[derive(Clone, Debug, PartialEq, Eq)]
pub enum StorageRequest {
    /// Store the decoded value under the program and the account type.
    ParsedAccount { program_id: String, account_type: String, data: StructuredValue, account: AccountInfo },
    /// Store the snapshot as it came. `warning` holds the reason where a
    /// decoding was tried and failed.
    Account { account: AccountInfo, warning: Option<DecodeError> },
    /// Store the transaction.
    Transaction(TransactionInfo),
}

/// What the worker does with an event.
#[derive(Clone, Debug, PartialEq, Eq)]
pub enum Decision {
    /// Nothing: no storage call and nothing to publish.
    Discard,
    /// The storage call to make.
    Store(StorageRequest),
}

/// How the processing of an event ended.
#[derive(Clone, Debug, PartialEq, Eq)]
pub enum Outcome {
    /// Storage took it; this is to be published to the subscribers.
    Published(UpdateEvent),
    /// Storage failed; the event is given up, and the next one is due.
    Dropped(IndexerError),
}

impl StorageRequest {
    /// The update that the request stores.
    pub open spec fn event(self) -> UpdateEvent {
        match self {
            StorageRequest::ParsedAccount { account, .. } => UpdateEvent::AccountUpdate(account),
            StorageRequest::Account { account, .. } => UpdateEvent::AccountUpdate(account),
            StorageRequest::Transaction(transaction) => UpdateEvent::TransactionUpdate(transaction),
        }
    }
}

/// Whether `decision` is the right one for an update of `account`.
///
/// An account that is neither tracked itself nor owned by a tracked program
/// is discarded. Otherwise it is stored. It is decoded first only where its
/// owner is a tracked program that has a schema; where the payload then
/// decodes, the decoded value is stored, and in every other case the
/// snapshot as it came.
pub open spec fn account_decision(
    tracking: TrackingModel,
    schemas: Map<Seq<char>, SchemaModel>,
    account: AccountInfo,
    decision: Decision,
) -> bool {
    let program_id = address_text(account.owner@);
    if !tracking.matters(account.pubkey@, account.owner@) {
        decision == Decision::Discard
    } else if !tracking.programs.contains(account.owner@) || !schemas.contains_key(program_id) {
        decision == Decision::Store(StorageRequest::Account { account, warning: None })
    } else {
        match decoded(schemas, program_id, "account"@, account.data@) {
            Ok(value) => decision matches Decision::Store(
                StorageRequest::ParsedAccount { program_id: p, account_type: t, data: d, account: a },
            ) && p@ == program_id && t@ == "account"@ && d@ == value && a == account,
            Err(e) => decision == Decision::Store(
                StorageRequest::Account { account, warning: Some(e) },
            ),
        }
    }
}

/// An account update is discarded exactly if it is of no interest. Whatever
/// else happens to it, it is stored, decoded or not: a payload that does not
/// decode costs the decoded form, never the update. What is stored, and
/// later published, is the update that came in. A decoded form is stored
/// only for an account of a tracked program that has a schema under which
/// the payload decodes.
pub proof fn law_decoding_never_costs_the_update(
    tracking: TrackingModel,
    schemas: Map<Seq<char>, SchemaModel>,
    account: AccountInfo,
    decision: Decision,
)
    requires
        account_decision(tracking, schemas, account, decision),
    ensures
        decision is Discard <==> !tracking.matters(account.pubkey@, account.owner@),
        decision matches Decision::Store(request) ==> request.event() == UpdateEvent::AccountUpdate(
            account,
        ),
        decision matches Decision::Store(request) ==> (request is ParsedAccount <==> {
            &&& tracking.programs.contains(account.owner@)
            &&& schemas.contains_key(address_text(account.owner@))
            &&& decoded(schemas, address_text(account.owner@), "account"@, account.data@) is Ok
        }),
{
}

/// Decides what to do with an account update.
pub fn process_account_update(
    tracking: &TrackingSet,
    parser: &AnchorParser,
    account: AccountInfo,
) -> (decision: Decision)
    ensures
        account_decision(tracking@, parser@, account, decision),
{
    if !tracking.matters(&account) {
        return Decision::Discard;
    }
    if !tracking.is_program_tracked(&account.owner) {
        return Decision::Store(StorageRequest::Account { account, warning: None });
    }
    let program_id = account.owner.to_string();
    if !parser.has_schema(program_id.as_str()) {
        return Decision::Store(StorageRequest::Account { account, warning: None });
    }
    let account_type = default_account_type();
    match parser.parse_account_data(program_id.as_str(), account_type, account.data.as_slice()) {
        Ok(data) => Decision::Store(
            StorageRequest::ParsedAccount {
                program_id,
                account_type: account_type.to_owned(),
                data,
                account,
            },
        ),
        Err(e) => Decision::Store(StorageRequest::Account { account, warning: Some(e) }),
    }
}

/// Decides what to do with an event: a transaction is always stored, an
/// account as [`account_decision`] says.
pub fn plan_update(tracking: &TrackingSet, parser: &AnchorParser, event: UpdateEvent) -> (decision:
    Decision)
    ensures
        match event {
            UpdateEvent::AccountUpdate(account) => account_decision(
                tracking@,
                parser@,
                account,
                decision,
            ),
            UpdateEvent::TransactionUpdate(transaction) => decision == Decision::Store(
                StorageRequest::Transaction(transaction),
            ),
        },
{
    match event {
        UpdateEvent::AccountUpdate(account) => process_account_update(tracking, parser, account),
        UpdateEvent::TransactionUpdate(transaction) => Decision::Store(
            StorageRequest::Transaction(transaction),
        ),
    }
}

/// Ends the processing of an event, given what storage answered to the
/// request: on success the stored update is published, on failure it is
/// dropped with the failure. Either way the worker goes on.
pub fn complete_update(request: StorageRequest, stored: Result<(), IndexerError>) -> (outcome:
    Outcome)
    ensures
        outcome == match stored {
            Ok(()) => Outcome::Published(request.event()),
            Err(e) => Outcome::Dropped(e),
        },
{
    match stored {
        Ok(()) => match request {
            StorageRequest::ParsedAccount { account, .. } => Outcome::Published(
                UpdateEvent::AccountUpdate(account),
            ),
            StorageRequest::Account { account, .. } => Outcome::Published(
                UpdateEvent::AccountUpdate(account),
            ),
            StorageRequest::Transaction(transaction) => Outcome::Published(
                UpdateEvent::TransactionUpdate(transaction),
            ),
        },
        Err(e) => Outcome::Dropped(e),
    }
}

} // verus!
