//! The indexer: the tracking store, the schema registry and the provider
//! registry under one roof, and what each request to it changes and calls
//! for.

use vstd::prelude::*;
use crate::error::IndexerError;
use crate::text::{labelled, texts};
use crate::models::{Address, UpdateEvent};
use crate::parser::{AnchorParser, schema_of_text};
use crate::pipeline::{Decision, StorageRequest, account_decision, plan_update};
use crate::registry::RpcProviderRegistry;
use crate::schema::SchemaModel;
use crate::tracking::{TrackOp, TrackingModel, TrackingSet};
use vstd::string::StringExecFns;

verus! {

/// The providers that are to be told of a change to the tracking store: all
/// of them, in registration order, where the store changed, and none where
/// it did not.
pub open spec fn to_notify(changed: bool, providers: Seq<Seq<char>>) -> Seq<Seq<char>> {
    if changed {
        providers
    } else {
        Seq::empty()
    }
}

/// The text of the error for a provider that refused a request.
pub open spec fn provider_failure_text(provider: Seq<char>, reason: Seq<char>) -> Seq<char> {
    provider + ": "@ + reason
}

/// The error that reports which provider refused a start or a subscription,
/// and why.
pub fn provider_failed(provider: &str, reason: &str) -> (e: IndexerError)
    ensures
        e matches IndexerError::RpcError(m) && m@ == provider_failure_text(provider@, reason@),
{
    let mut text = labelled(provider, ": ");
    text.append(reason);
    IndexerError::RpcError(text)
}

/// The indexer's state.
pub struct Indexer<P> {
    provider_registry: RpcProviderRegistry<P>,
    tracking: TrackingSet,
    anchor_parser: AnchorParser,
}

impl<P> Indexer<P> {
    /// What is tracked.
    pub closed spec fn tracking_model(&self) -> TrackingModel {
        self.tracking@
    }

    /// The registered schemas, by program id.
    pub closed spec fn schemas(&self) -> Map<Seq<char>, SchemaModel> {
        self.anchor_parser@
    }

    /// The names of the registered providers, in registration order.
    pub closed spec fn provider_names(&self) -> Seq<Seq<char>> {
        self.provider_registry.names()
    }

    /// The registered providers, in registration order, each at the place
    /// of its name.
    pub closed spec fn held_providers(&self) -> Seq<P> {
        self.provider_registry.providers()
    }

    /// An indexer with the providers of the given registry, under the names
    /// that they have there, which tracks nothing and knows no schema.
    pub fn new(provider_registry: RpcProviderRegistry<P>) -> (r: Self)
        ensures
            r.provider_names() == provider_registry.names(),
            r.held_providers() == provider_registry.providers(),
            r.tracking_model().accounts == Set::<Seq<u8>>::empty(),
            r.tracking_model().programs == Set::<Seq<u8>>::empty(),
            r.schemas() == Map::<Seq<char>, SchemaModel>::empty(),
    {
        Indexer {
            provider_registry,
            tracking: TrackingSet::new(),
            anchor_parser: AnchorParser::new(),
        }
    }

    /// The tracking store.
    pub fn tracking(&self) -> (r: &TrackingSet)
        ensures
            r@ == self.tracking_model(),
    {
        &self.tracking
    }

    /// The schema registry.
    pub fn parser(&self) -> (r: &AnchorParser)
        ensures
            r@ == self.schemas(),
    {
        &self.anchor_parser
    }

    /// The provider registry.
    pub fn providers(&self) -> (r: &RpcProviderRegistry<P>)
        ensures
            r.names() == self.provider_names(),
            r.providers() == self.held_providers(),
    {
        &self.provider_registry
    }

    /// The names of the providers to tell of a change, if there was one.
    fn notify_list(&self, changed: bool) -> (r: Vec<String>)
        ensures
            texts(r@) == to_notify(changed, self.provider_names()),
    {
        if changed {
            self.provider_registry.provider_names()
        } else {
            let names: Vec<String> = Vec::new();
            names
        }
    }

    /// Tracks an account address, and names the providers with which the
    /// address is now to be subscribed, in the order in which to do it. An
    /// address that was tracked already changes nothing and calls for
    /// nothing; that holds also where an earlier subscription failed, since
    /// the address stays tracked whatever comes of the subscriptions.
    pub fn track_account(&mut self, pubkey: Address) -> (notify: Vec<String>)
        ensures
            final(self).tracking_model() == old(self).tracking_model().step(
                TrackOp::TrackAccount(pubkey),
            ),
            final(self).schemas() == old(self).schemas(),
            final(self).provider_names() == old(self).provider_names(),
            final(self).held_providers() == old(self).held_providers(),
            texts(notify@) == to_notify(
                !old(self).tracking_model().accounts.contains(pubkey@),
                old(self).provider_names(),
            ),
    {
        let changed = self.tracking.track_account(pubkey);
        self.notify_list(changed)
    }

    /// Tracks a program, and names the providers with which the program is
    /// now to be subscribed, in the order in which to do it. A program that
    /// was tracked already changes nothing and calls for nothing; that holds
    /// also where an earlier subscription failed, since the program stays
    /// tracked whatever comes of the subscriptions.
    pub fn track_program(&mut self, pubkey: Address) -> (notify: Vec<String>)
        ensures
            final(self).tracking_model() == old(self).tracking_model().step(
                TrackOp::TrackProgram(pubkey),
            ),
            final(self).schemas() == old(self).schemas(),
            final(self).provider_names() == old(self).provider_names(),
            final(self).held_providers() == old(self).held_providers(),
            texts(notify@) == to_notify(
                !old(self).tracking_model().programs.contains(pubkey@),
                old(self).provider_names(),
            ),
    {
        let changed = self.tracking.track_program(pubkey);
        self.notify_list(changed)
    }

    /// Stops tracking an account address; says whether it was tracked.
    pub fn untrack_account(&mut self, pubkey: &Address) -> (changed: bool)
        ensures
            final(self).tracking_model() == old(self).tracking_model().step(
                TrackOp::UntrackAccount(*pubkey),
            ),
            final(self).schemas() == old(self).schemas(),
            final(self).provider_names() == old(self).provider_names(),
            final(self).held_providers() == old(self).held_providers(),
            changed == old(self).tracking_model().accounts.contains(pubkey@),
    {
        self.tracking.untrack_account(pubkey)
    }

    /// Stops tracking a program; says whether it was tracked.
    pub fn untrack_program(&mut self, pubkey: &Address) -> (changed: bool)
        ensures
            final(self).tracking_model() == old(self).tracking_model().step(
                TrackOp::UntrackProgram(*pubkey),
            ),
            final(self).schemas() == old(self).schemas(),
            final(self).provider_names() == old(self).provider_names(),
            final(self).held_providers() == old(self).held_providers(),
            changed == old(self).tracking_model().programs.contains(pubkey@),
    {
        self.tracking.untrack_program(pubkey)
    }

    /// Registers the schema that `idl_json` describes for the program, in
    /// place of any it had. A text that describes no schema is refused and
    /// changes nothing.
    pub fn add_program_idl(&mut self, program_id: &str, idl_json: &str) -> (r: Result<
        (),
        IndexerError,
    >)
        ensures
            final(self).tracking_model() == old(self).tracking_model(),
            final(self).provider_names() == old(self).provider_names(),
            final(self).held_providers() == old(self).held_providers(),
            match r {
                Ok(()) => schema_of_text(idl_json@) matches Some(schema) && final(self).schemas()
                    == old(self).schemas().insert(program_id@, schema),
                Err(e) => schema_of_text(idl_json@) is None && final(self).schemas() == old(
                    self,
                ).schemas() && e is AnchorError,
            },
    {
        match self.anchor_parser.add_idl(program_id, idl_json) {
            Ok(()) => Ok(()),
            Err(e) => Err(IndexerError::from_anchor_error(&e)),
        }
    }

    /// The providers to start, in the order in which to start them: all that
    /// are registered, in registration order.
    pub fn start(&self) -> (names: Vec<String>)
        ensures
            texts(names@) == self.provider_names(),
    {
        self.notify_list(true)
    }

    /// Decides what the worker does with an event.
    pub fn process_update(&self, event: UpdateEvent) -> (decision: Decision)
        ensures
            match event {
                UpdateEvent::AccountUpdate(account) => account_decision(
                    self.tracking_model(),
                    self.schemas(),
                    account,
                    decision,
                ),
                UpdateEvent::TransactionUpdate(transaction) => decision == Decision::Store(
                    StorageRequest::Transaction(transaction),
                ),
            },
    {
        plan_update(&self.tracking, &self.anchor_parser, event)
    }
}

} // verus!
